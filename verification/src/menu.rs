//! The native menu: its static model, built once at startup, and the router
//! that turns a fired menu-item identifier into the action bound to it.

use vstd::prelude::*;

use crate::value::str_eq;

verus! {

/// What the router decides for one fired menu-item identifier. Routing is
/// stateless: each event is handled independently, with no memory of prior
/// events, and every identifier maps to exactly one action.
#[derive(Clone, Copy, PartialEq, Eq, Structural, Debug)]
pub enum MenuAction {
    /// Terminate the whole process immediately, with exit code 0.
    Quit,
    /// Produce an informational side effect (a log line or dialog).
    ShowAbout,
    /// Ask the application host to open one more window.
    RequestNewWindow,
    /// The identifier is not one of ours: deliberately do nothing. Native
    /// menu frameworks may fire identifiers for items outside the
    /// application's control, so this is a no-op default, not an error.
    Ignore,
}

/// One element of the static native menu tree: a leaf item with a stable
/// identifier and a display label, a structural separator with no
/// identifier, or a submenu with an ordered sequence of children.
#[derive(PartialEq, Eq, Debug)]
pub enum MenuNode {
    Item { id: String, label: String },
    Separator,
    Submenu { label: String, children: Vec<MenuNode> },
}

/// The mathematical model of a menu node: the same tree over sequences of
/// characters.
#[verifier::ext_equal]
pub enum MenuNodeModel {
    Item { id: Seq<char>, label: Seq<char> },
    Separator,
    Submenu { label: Seq<char>, children: Seq<MenuNodeModel> },
}

impl View for MenuNode {
    type V = MenuNodeModel;

    open spec fn view(&self) -> MenuNodeModel
        decreases self,
    {
        match self {
            MenuNode::Item { id, label } => MenuNodeModel::Item { id: id@, label: label@ },
            MenuNode::Separator => MenuNodeModel::Separator,
            MenuNode::Submenu { label, children } => MenuNodeModel::Submenu {
                label: label@,
                children: Seq::new(
                    children.len() as nat,
                    (|i: int|
                        if 0 <= i < children.len() {
                            children[i]@
                        } else {
                            MenuNodeModel::Separator
                        }),
                ),
            },
        }
    }
}

/// Whether an item with the given identifier occurs anywhere in a menu
/// tree.
pub open spec fn node_has_id(node: MenuNodeModel, id: Seq<char>) -> bool
    decreases node,
{
    match node {
        MenuNodeModel::Item { id: item_id, .. } => item_id == id,
        MenuNodeModel::Separator => false,
        MenuNodeModel::Submenu { children, .. } => children_have_id(children, id),
    }
}

/// Whether an item with the given identifier occurs in any node of an
/// ordered sequence of menu nodes.
pub open spec fn children_have_id(children: Seq<MenuNodeModel>, id: Seq<char>) -> bool
    decreases children,
{
    if children.len() == 0 {
        false
    } else {
        node_has_id(children[0], id) || children_have_id(children.drop_first(), id)
    }
}

/// The action bound to each identifier: the designated "quit", "about" and
/// "new_window" items each have one handler; everything else is ignored.
pub open spec fn route_model(id: Seq<char>) -> MenuAction {
    if id == "quit"@ {
        MenuAction::Quit
    } else if id == "about"@ {
        MenuAction::ShowAbout
    } else if id == "new_window"@ {
        MenuAction::RequestNewWindow
    } else {
        MenuAction::Ignore
    }
}

/// Turn a fired menu-item identifier into the action bound to it. Total and
/// synchronous: a recognized identifier yields its one bound action, an
/// unrecognized identifier yields `Ignore`, and no input is an error.
pub fn route(id: &str) -> (action: MenuAction)
    ensures
        action == route_model(id@),
{
    if str_eq(id, "quit") {
        MenuAction::Quit
    } else if str_eq(id, "about") {
        MenuAction::ShowAbout
    } else if str_eq(id, "new_window") {
        MenuAction::RequestNewWindow
    } else {
        MenuAction::Ignore
    }
}

/// The application's fixed menu: one submenu holding the "about",
/// "new_window" and "quit" items, separated by structural separators.
pub open spec fn app_menu_model() -> MenuNodeModel {
    MenuNodeModel::Submenu {
        label: "앱"@,
        children: seq![
            MenuNodeModel::Item { id: "about"@, label: "정보"@ },
            MenuNodeModel::Separator,
            MenuNodeModel::Item { id: "new_window"@, label: "새 창"@ },
            MenuNodeModel::Separator,
            MenuNodeModel::Item { id: "quit"@, label: "종료"@ },
        ],
    }
}

/// Build the application's menu. Pure and infallible: every identifier and
/// label is a literal known at build time, so construction has no error
/// path, and the tree is exactly `app_menu_model`. The host installs it
/// once at startup; it is never mutated afterwards.
pub fn build_menu() -> (menu: MenuNode)
    ensures
        menu@ == app_menu_model(),
{
    let about = MenuNode::Item { id: "about".to_owned(), label: "정보".to_owned() };
    let new_window = MenuNode::Item { id: "new_window".to_owned(), label: "새 창".to_owned() };
    let quit = MenuNode::Item { id: "quit".to_owned(), label: "종료".to_owned() };
    let mut children: Vec<MenuNode> = Vec::new();
    children.push(about);
    children.push(MenuNode::Separator);
    children.push(new_window);
    children.push(MenuNode::Separator);
    children.push(quit);
    proof {
        assert(children@.len() == 5);
        assert(children@[0]@ == MenuNodeModel::Item { id: "about"@, label: "정보"@ });
        assert(children@[1]@ == MenuNodeModel::Separator);
        assert(children@[2]@ == MenuNodeModel::Item { id: "new_window"@, label: "새 창"@ });
        assert(children@[3]@ == MenuNodeModel::Separator);
        assert(children@[4]@ == MenuNodeModel::Item { id: "quit"@, label: "종료"@ });
    }
    let menu = MenuNode::Submenu { label: "앱".to_owned(), children };
    proof {
        let cs = menu@->Submenu_children;
        assert(cs[0] == MenuNodeModel::Item { id: "about"@, label: "정보"@ });
        assert(cs[1] == MenuNodeModel::Separator);
        assert(cs[2] == MenuNodeModel::Item { id: "new_window"@, label: "새 창"@ });
        assert(cs[3] == MenuNodeModel::Separator);
        assert(cs[4] == MenuNodeModel::Item { id: "quit"@, label: "종료"@ });
        assert(cs =~= app_menu_model()->Submenu_children);
        assert(menu@ =~~= app_menu_model());
    }
    menu
}

/// The built menu carries exactly the three identifiers of the designated
/// items: nothing else is reachable from it.
pub proof fn lemma_menu_ids()
    ensures
        forall|id: Seq<char>|
            #[trigger] node_has_id(app_menu_model(), id) <==> (id == "about"@ || id
                == "new_window"@ || id == "quit"@),
{
    let children = app_menu_model()->Submenu_children;
    assert(children.len() == 5);
    assert(children[0] == MenuNodeModel::Item { id: "about"@, label: "정보"@ });
    assert(children[1] == MenuNodeModel::Separator);
    assert(children[2] == MenuNodeModel::Item { id: "new_window"@, label: "새 창"@ });
    assert(children[3] == MenuNodeModel::Separator);
    assert(children[4] == MenuNodeModel::Item { id: "quit"@, label: "종료"@ });
    let c1 = children.drop_first();
    let c2 = c1.drop_first();
    let c3 = c2.drop_first();
    let c4 = c3.drop_first();
    let c5 = c4.drop_first();
    assert(c1[0] == children[1] && c1.len() == 4);
    assert(c2[0] == children[2] && c2.len() == 3);
    assert(c3[0] == children[3] && c3.len() == 2);
    assert(c4[0] == children[4] && c4.len() == 1);
    assert(c5.len() == 0);
    assert forall|id: Seq<char>|
        #[trigger] node_has_id(app_menu_model(), id) <==> (id == "about"@ || id
        == "new_window"@ || id == "quit"@) by {
        reveal_with_fuel(children_have_id, 6);
        assert(children_have_id(c5, id) == false);
        assert(children_have_id(c4, id) == node_has_id(children[4], id));
        assert(children_have_id(c3, id) == node_has_id(children[3], id) || node_has_id(
            children[4],
            id,
        ));
        assert(children_have_id(children, id) == (node_has_id(children[0], id)
            || children_have_id(c1, id)));
    }
}

/// Every identifier that the built menu can fire is recognized by the
/// router: no item of our own menu falls into the ignored default.
pub proof fn lemma_menu_ids_recognized()
    ensures
        forall|id: Seq<char>|
            #[trigger] node_has_id(app_menu_model(), id) ==> route_model(id)
                != MenuAction::Ignore,
{
    lemma_menu_ids();
}

/// Routing a recognized identifier selects exactly the one action bound to
/// it, and the three recognized identifiers are bound to three distinct
/// actions, so no event ever reaches more than one handler.
pub proof fn lemma_route_recognized()
    ensures
        route_model("quit"@) == MenuAction::Quit,
        route_model("about"@) == MenuAction::ShowAbout,
        route_model("new_window"@) == MenuAction::RequestNewWindow,
{
    reveal_strlit("quit");
    reveal_strlit("about");
    reveal_strlit("new_window");
    assert("quit"@.len() == 4);
    assert("about"@.len() == 5);
    assert("new_window"@.len() == 10);
    assert("about"@ != "quit"@);
    assert("new_window"@ != "quit"@);
    assert("new_window"@ != "about"@);
}

/// Routing an unrecognized identifier invokes no handler and raises no
/// error: it is the deliberate no-op default.
pub proof fn lemma_route_unrecognized(id: Seq<char>)
    requires
        id != "quit"@,
        id != "about"@,
        id != "new_window"@,
    ensures
        route_model(id) == MenuAction::Ignore,
{
}

} // verus!
