//! The table of variables.
//!
//! A variable has a name and a value, both text. A name occurs at most once
//! in the table; setting a name that is there replaces its value.

use vstd::prelude::*;
use crate::text::same_text;

verus! {

/// The map that a list of entries stands for. Where a name occurs twice, the
/// later entry counts.
pub open spec fn bindings(entries: Seq<(String, String)>) -> Map<Seq<char>, Seq<char>>
    decreases entries.len(),
{
    if entries.len() == 0 {
        Map::empty()
    } else {
        bindings(entries.drop_last()).insert(entries.last().0@, entries.last().1@)
    }
}

/// No name occurs twice.
pub open spec fn distinct_names(entries: Seq<(String, String)>) -> bool {
    forall|i: int, j: int|
        0 <= i < j < entries.len() ==> (#[trigger] entries[i]).0@ != (#[trigger] entries[j]).0@
}

/// A name that no entry has is not in the map.
proof fn absent_name(entries: Seq<(String, String)>, name: Seq<char>)
    requires
        forall|i: int| 0 <= i < entries.len() ==> (#[trigger] entries[i]).0@ != name,
    ensures
        !bindings(entries).contains_key(name),
    decreases entries.len(),
{
    if entries.len() > 0 {
        let front = entries.drop_last();
        assert forall|i: int| 0 <= i < front.len() implies (#[trigger] front[i]).0@ != name by {
            assert(front[i] == entries[i]);
        }
        absent_name(front, name);
        assert(entries.last() == entries[entries.len() - 1]);
    }
}

/// The name of an entry is in the map, with the entry's value.
proof fn present_name(entries: Seq<(String, String)>, at: int)
    requires
        distinct_names(entries),
        0 <= at < entries.len(),
    ensures
        bindings(entries).contains_key(entries[at].0@),
        bindings(entries)[entries[at].0@] == entries[at].1@,
    decreases entries.len(),
{
    let front = entries.drop_last();
    if at < entries.len() - 1 {
        assert(distinct_names(front)) by {
            assert forall|i: int, j: int| 0 <= i < j < front.len() implies (#[trigger] front[i]).0@
                != (#[trigger] front[j]).0@ by {
                assert(front[i] == entries[i] && front[j] == entries[j]);
            }
        }
        present_name(front, at);
        assert(front[at] == entries[at]);
        assert(entries.last() == entries[entries.len() - 1]);
    }
}

/// Replacing the value of an entry sets its name to the new value.
proof fn replaced_value(entries: Seq<(String, String)>, at: int, entry: (String, String))
    requires
        distinct_names(entries),
        0 <= at < entries.len(),
        entry.0@ == entries[at].0@,
    ensures
        distinct_names(entries.update(at, entry)),
        bindings(entries.update(at, entry)) == bindings(entries).insert(entry.0@, entry.1@),
    decreases entries.len(),
{
    let after = entries.update(at, entry);
    assert(distinct_names(after)) by {
        assert forall|i: int, j: int| 0 <= i < j < after.len() implies (#[trigger] after[i]).0@
            != (#[trigger] after[j]).0@ by {
            assert(entries[i].0@ != entries[j].0@);
        }
    }
    let front = entries.drop_last();
    if at == entries.len() - 1 {
        assert(after.drop_last() == front);
        assert(bindings(after) == bindings(entries).insert(entry.0@, entry.1@));
    } else {
        assert(distinct_names(front)) by {
            assert forall|i: int, j: int| 0 <= i < j < front.len() implies (#[trigger] front[i]).0@
                != (#[trigger] front[j]).0@ by {
                assert(front[i] == entries[i] && front[j] == entries[j]);
            }
        }
        assert(front[at] == entries[at]);
        replaced_value(front, at, entry);
        assert(after.drop_last() == front.update(at, entry));
        assert(after.last() == entries.last());
        assert(entries.last() == entries[entries.len() - 1]);
        assert(entries.last().0@ != entry.0@);
        assert(bindings(after) == bindings(entries).insert(entry.0@, entry.1@));
    }
}

/// With no name twice, the map has as many names as the list has entries.
proof fn as_many_names(entries: Seq<(String, String)>)
    requires
        distinct_names(entries),
    ensures
        bindings(entries).dom().finite(),
        bindings(entries).dom().len() == entries.len(),
    decreases entries.len(),
{
    if entries.len() > 0 {
        let front = entries.drop_last();
        assert(distinct_names(front)) by {
            assert forall|i: int, j: int| 0 <= i < j < front.len() implies (#[trigger] front[i]).0@
                != (#[trigger] front[j]).0@ by {
                assert(front[i] == entries[i] && front[j] == entries[j]);
            }
        }
        as_many_names(front);
        assert forall|i: int| 0 <= i < front.len() implies (#[trigger] front[i]).0@
            != entries.last().0@ by {
            assert(front[i] == entries[i]);
            assert(entries.last() == entries[entries.len() - 1]);
        }
        absent_name(front, entries.last().0@);
    }
}

/// The variables of a turtle.
#[derive(Debug)]
pub struct Variables {
    entries: Vec<(String, String)>,
}

impl View for Variables {
    type V = Map<Seq<char>, Seq<char>>;

    /// The value of each name that is set.
    closed spec fn view(&self) -> Map<Seq<char>, Seq<char>> {
        bindings(self.entries@)
    }
}

impl Variables {
    #[verifier::type_invariant]
    closed spec fn well_formed(self) -> bool {
        distinct_names(self.entries@)
    }

    /// The table in which no name is set.
    pub fn new() -> (r: Variables)
        ensures
            r@ == Map::<Seq<char>, Seq<char>>::empty(),
    {
        Variables { entries: Vec::new() }
    }

    /// The number of names that are set.
    pub fn len(&self) -> (r: usize)
        ensures
            self@.dom().finite(),
            r == self@.dom().len(),
    {
        proof {
            use_type_invariant(self);
            as_many_names(self.entries@);
        }
        self.entries.len()
    }

    /// The value of `name`, if it is set.
    pub fn get(&self, name: &str) -> (r: Option<&String>)
        ensures
            r is Some <==> self@.contains_key(name@),
            r is Some ==> r->0@ == self@[name@],
    {
        proof {
            use_type_invariant(self);
        }
        let mut at: usize = 0;
        while at < self.entries.len()
            invariant
                at <= self.entries.len(),
                distinct_names(self.entries@),
                forall|i: int| 0 <= i < at ==> (#[trigger] self.entries@[i]).0@ != name@,
            decreases self.entries.len() - at,
        {
            if same_text(self.entries[at].0.as_str(), name) {
                proof {
                    present_name(self.entries@, at as int);
                }
                return Some(&self.entries[at].1);
            }
            at = at + 1;
        }
        proof {
            absent_name(self.entries@, name@);
        }
        None
    }

    /// Sets `name` to `value`, whether or not it was set before.
    pub fn insert(&mut self, name: String, value: String)
        ensures
            final(self)@ == old(self)@.insert(name@, value@),
    {
        proof {
            use_type_invariant(&*self);
        }
        let mut entries: Vec<(String, String)> = Vec::new();
        core::mem::swap(&mut self.entries, &mut entries);
        let mut at: usize = 0;
        while at < entries.len()
            invariant
                at <= entries.len(),
                entries == old(self).entries,
                distinct_names(entries@),
                forall|i: int| 0 <= i < at ==> (#[trigger] entries@[i]).0@ != name@,
            decreases entries.len() - at,
        {
            if same_text(entries[at].0.as_str(), name.as_str()) {
                proof {
                    replaced_value(entries@, at as int, (name, value));
                }
                entries.set(at, (name, value));
                core::mem::swap(&mut self.entries, &mut entries);
                return ;
            }
            at = at + 1;
        }
        proof {
            let after = entries@.push((name, value));
            assert(after.drop_last() == entries@);
            assert(distinct_names(after)) by {
                assert forall|i: int, j: int| 0 <= i < j < after.len() implies (
                #[trigger] after[i]).0@ != (#[trigger] after[j]).0@ by {
                    if j < entries@.len() {
                        assert(after[i] == entries@[i] && after[j] == entries@[j]);
                    } else {
                        assert(after[i] == entries@[i]);
                    }
                }
            }
        }
        entries.push((name, value));
        core::mem::swap(&mut self.entries, &mut entries);
    }
}

} // verus!
