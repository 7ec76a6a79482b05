//! The command registry: a startup-time table binding each command name to
//! exactly one opaque handler. Registration fails on a duplicate name, so a
//! handler can never be shadowed silently; after initialization the table
//! is read-only and may be shared across concurrent invocations without
//! synchronization.

use vstd::prelude::*;
use crate::value::str_eq;

verus! {

/// Why registration was refused.
#[derive(Clone, Copy, PartialEq, Eq, Structural, Debug)]
pub enum RegistryError {
    /// The name is already bound to a handler.
    DuplicateName,
}

/// A string-keyed table of handlers, modelled as a map from command names
/// to handlers. The handler type is opaque to the registry.
pub struct Registry<H> {
    entries: Vec<(String, H)>,
}

/// The map described by a list of name/handler entries; a later entry for
/// the same name would win, but a well-formed registry never has one.
pub open spec fn entries_map<H>(entries: Seq<(String, H)>) -> Map<Seq<char>, H>
    decreases entries.len(),
{
    if entries.len() == 0 {
        Map::empty()
    } else {
        entries_map(entries.drop_last()).insert(entries.last().0@, entries.last().1)
    }
}

impl<H> View for Registry<H> {
    type V = Map<Seq<char>, H>;

    closed spec fn view(&self) -> Map<Seq<char>, H> {
        entries_map(self.entries@)
    }
}

/// A key of the map is a key of some entry, and the other way round.
proof fn lemma_entries_map_dom<H>(entries: Seq<(String, H)>, name: Seq<char>)
    ensures
        entries_map(entries).dom().contains(name) <==> exists|i: int|
            0 <= i < entries.len() && #[trigger] entries[i].0@ == name,
    decreases entries.len(),
{
    if entries.len() > 0 {
        lemma_entries_map_dom(entries.drop_last(), name);
        if entries.last().0@ == name {
            assert(entries[entries.len() - 1].0@ == name);
        } else if entries_map(entries).dom().contains(name) {
            let i = choose|i: int|
                0 <= i < entries.drop_last().len() && #[trigger] entries.drop_last()[i].0@ == name;
            assert(entries[i].0@ == name);
        } else {
            assert forall|i: int| 0 <= i < entries.len() implies #[trigger] entries[i].0@
                != name by {
                if i < entries.len() - 1 {
                    assert(entries.drop_last()[i].0@ != name);
                }
            }
        }
    }
}

/// An entry whose name occurs in no later entry gives the map's value at
/// that name.
proof fn lemma_entries_map_at<H>(entries: Seq<(String, H)>, i: int)
    requires
        0 <= i < entries.len(),
        forall|j: int| i < j < entries.len() ==> #[trigger] entries[j].0@ != entries[i].0@,
    ensures
        entries_map(entries).dom().contains(entries[i].0@),
        entries_map(entries)[entries[i].0@] == entries[i].1,
    decreases entries.len(),
{
    if i == entries.len() - 1 {
    } else {
        assert(entries.drop_last()[i] == entries[i]);
        lemma_entries_map_at(entries.drop_last(), i);
        assert(entries.last().0@ != entries[i].0@);
    }
}

impl<H: Copy> Registry<H> {
    /// No two entries bind the same name.
    pub closed spec fn wf(&self) -> bool {
        forall|i: int, j: int|
            0 <= i < j < self.entries@.len() ==> #[trigger] self.entries@[i].0@ != #[trigger] self.entries@[j].0@
    }

    /// An empty registry: nothing is bound.
    pub fn new() -> (registry: Registry<H>)
        ensures
            registry@ == Map::<Seq<char>, H>::empty(),
            registry.wf(),
    {
        Registry { entries: Vec::new() }
    }

    /// Bind `name` to `handler`. Fails, changing nothing, exactly when the
    /// name is already bound: duplicate registration is a startup-time
    /// error, never a silent shadowing.
    pub fn register(&mut self, name: String, handler: H) -> (r: Result<(), RegistryError>)
        requires
            old(self).wf(),
        ensures
            final(self).wf(),
            old(self)@.dom().contains(name@) ==> r == Err::<(), RegistryError>(
                RegistryError::DuplicateName,
            ) && final(self)@ == old(self)@,
            !old(self)@.dom().contains(name@) ==> r == Ok::<(), RegistryError>(())
                && final(self)@ == old(self)@.insert(name@, handler),
    {
        if self.contains(name.as_str()) {
            Err(RegistryError::DuplicateName)
        } else {
            proof {
                lemma_entries_map_dom(self.entries@, name@);
                assert(self.entries@.push((name, handler)).drop_last() =~= self.entries@);
            }
            let ghost before = self.entries@;
            self.entries.push((name, handler));
            proof {
                assert(self.entries@.drop_last() =~= before);
                assert forall|i: int, j: int| 0 <= i < j < self.entries@.len() implies #[trigger] self
                    .entries@[i].0@ != #[trigger] self.entries@[j].0@ by {
                    if j < self.entries@.len() - 1 {
                        assert(before[i].0@ != before[j].0@);
                    } else {
                        assert(exists|k: int|
                            0 <= k < before.len() && #[trigger] before[k].0@ == before[i].0@);
                    }
                }
            }
            Ok(())
        }
    }

    /// Whether `name` is bound to a handler.
    pub fn contains(&self, name: &str) -> (r: bool)
        ensures
            r == self@.dom().contains(name@),
    {
        proof {
            lemma_entries_map_dom(self.entries@, name@);
        }
        let mut i: usize = 0;
        while i < self.entries.len()
            invariant
                0 <= i <= self.entries@.len(),
                forall|k: int| 0 <= k < i ==> #[trigger] self.entries@[k].0@ != name@,
                self@.dom().contains(name@) <==> exists|k: int|
                    0 <= k < self.entries@.len() && #[trigger] self.entries@[k].0@ == name@,
            decreases self.entries@.len() - i,
        {
            if str_eq(self.entries[i].0.as_str(), name) {
                return true;
            }
            i += 1;
        }
        false
    }

    /// Resolve a command name: pure and total, returning the one bound
    /// handler or nothing. The registry executes nothing itself.
    pub fn resolve(&self, name: &str) -> (r: Option<H>)
        requires
            self.wf(),
        ensures
            r == if self@.dom().contains(name@) {
                Some(self@[name@])
            } else {
                None::<H>
            },
    {
        proof {
            lemma_entries_map_dom(self.entries@, name@);
        }
        let mut i: usize = 0;
        while i < self.entries.len()
            invariant
                self.wf(),
                0 <= i <= self.entries@.len(),
                forall|k: int| 0 <= k < i ==> #[trigger] self.entries@[k].0@ != name@,
                self@.dom().contains(name@) <==> exists|k: int|
                    0 <= k < self.entries@.len() && #[trigger] self.entries@[k].0@ == name@,
            decreases self.entries@.len() - i,
        {
            if str_eq(self.entries[i].0.as_str(), name) {
                proof {
                    lemma_entries_map_at(self.entries@, i as int);
                }
                return Some(self.entries[i].1);
            }
            i += 1;
        }
        None
    }
}

} // verus!
