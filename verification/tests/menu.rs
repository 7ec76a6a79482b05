use command_bridge::menu::{MenuAction, MenuNode, build_menu, route};

#[test]
fn menu_is_the_fixed_tree() {
    let expected = MenuNode::Submenu {
        label: "앱".to_string(),
        children: vec![
            MenuNode::Item { id: "about".to_string(), label: "정보".to_string() },
            MenuNode::Separator,
            MenuNode::Item { id: "new_window".to_string(), label: "새 창".to_string() },
            MenuNode::Separator,
            MenuNode::Item { id: "quit".to_string(), label: "종료".to_string() },
        ],
    };
    assert_eq!(build_menu(), expected);
}

#[test]
fn routing_recognized_ids_selects_their_one_action() {
    assert_eq!(route("quit"), MenuAction::Quit);
    assert_eq!(route("about"), MenuAction::ShowAbout);
    assert_eq!(route("new_window"), MenuAction::RequestNewWindow);
}

#[test]
fn routing_unrecognized_id_is_a_no_op() {
    assert_eq!(route("zzz"), MenuAction::Ignore);
    assert_eq!(route(""), MenuAction::Ignore);
    assert_eq!(route("Quit"), MenuAction::Ignore);
}
