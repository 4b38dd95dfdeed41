//! The functions that wait to be exported, keyed by name.

use vstd::prelude::*;
use crate::func::{Registration, RegistrationView};

verus! {

/// No two records bear the same name.
pub open spec fn distinct_names(entries: Seq<RegistrationView>) -> bool {
    forall|i: int, j: int|
        0 <= i < entries.len() && 0 <= j < entries.len() && i != j ==> (#[trigger] entries[i]).name
            != (#[trigger] entries[j]).name
}

/// `place` is where the record named `name` stands.
pub open spec fn stands_at(entries: Seq<RegistrationView>, name: Seq<char>, place: int) -> bool {
    &&& 0 <= place < entries.len()
    &&& entries[place].name == name
    &&& forall|j: int| 0 <= j < place ==> (#[trigger] entries[j]).name != name
}

/// No record is named `name`.
pub open spec fn absent(entries: Seq<RegistrationView>, name: Seq<char>) -> bool {
    forall|j: int| 0 <= j < entries.len() ==> (#[trigger] entries[j]).name != name
}

/// The records of the functions that a module exports, in the order in
/// which their names first came.
#[derive(Debug, Clone, PartialEq, Eq)]
pub struct Registry {
    entries: Vec<Registration>,
}

impl View for Registry {
    type V = Seq<RegistrationView>;

    closed spec fn view(&self) -> Seq<RegistrationView> {
        Seq::new(self.entries@.len(), |i: int| self.entries@[i]@)
    }
}

impl Registry {
    /// The registry without records.
    pub fn new() -> (r: Registry)
        ensures
            r@ == Seq::<RegistrationView>::empty(),
    {
        let r = Registry { entries: Vec::new() };
        assert(r@ =~= Seq::<RegistrationView>::empty());
        r
    }

    /// The number of records.
    pub fn len(&self) -> (r: usize)
        ensures
            r == self@.len(),
    {
        self.entries.len()
    }

    /// The record at `place`, where there is one.
    pub fn get(&self, place: usize) -> (r: Option<&Registration>)
        ensures
            (match r {
                Some(record) => place < self@.len() && record@ == self@[place as int],
                None => place >= self@.len(),
            }),
    {
        if place < self.entries.len() {
            Some(&self.entries[place])
        } else {
            None
        }
    }

    /// The place of the record named `name`, where there is one.
    pub fn find(&self, name: &str) -> (r: Option<usize>)
        ensures
            (match r {
                Some(place) => stands_at(self@, name@, place as int),
                None => absent(self@, name@),
            }),
    {
        let wanted = name.to_owned();
        let mut i: usize = 0;
        while i < self.entries.len()
            invariant
                i <= self@.len(),
                self@.len() == self.entries@.len(),
                wanted@ == name@,
                forall|j: int| 0 <= j < i ==> (#[trigger] self@[j]).name != name@,
            decreases self@.len() - i,
        {
            if self.entries[i].name == wanted {
                assert(self@[i as int].name == name@);
                return Some(i);
            }
            assert(self@[i as int].name != name@);
            i += 1;
        }
        None
    }

    /// Puts `record` into the registry: in the place of the record of the
    /// same name where there is one, and else at the end. A registry
    /// without two records of one name stays so.
    pub fn insert(&mut self, record: Registration)
        ensures
            absent(old(self)@, record@.name) ==> final(self)@ == old(self)@.push(record@),
            forall|place: int|
                stands_at(old(self)@, record@.name, place) ==> final(self)@ == old(self)@.update(
                    place,
                    record@,
                ),
            distinct_names(old(self)@) ==> distinct_names(final(self)@),
    {
        let ghost before = self@;
        let ghost added = record@;
        match self.find(record.name.as_str()) {
            Some(place) => {
                self.entries.set(place, record);
                assert(self@ =~= before.update(place as int, added));
                assert forall|other: int| stands_at(before, added.name, other) implies self@
                    == before.update(other, added) by {
                    if other < place {
                        assert(before[other].name != added.name);
                    }
                    if place < other {
                        assert(before[place as int].name != added.name);
                    }
                }
                proof {
                    if distinct_names(before) {
                        assert forall|i: int, j: int|
                            0 <= i < self@.len() && 0 <= j < self@.len() && i != j implies (
                        #[trigger] self@[i]).name != (#[trigger] self@[j]).name by {
                            assert(before[i].name != before[j].name);
                            assert(before[place as int].name == added.name);
                        }
                    }
                }
            },
            None => {
                self.entries.push(record);
                assert(self@ =~= before.push(added));
                assert forall|other: int| stands_at(before, added.name, other) implies self@
                    == before.update(other, added) by {
                    assert(before[other].name != added.name);
                }
                proof {
                    if distinct_names(before) {
                        assert forall|i: int, j: int|
                            0 <= i < self@.len() && 0 <= j < self@.len() && i != j implies (
                        #[trigger] self@[i]).name != (#[trigger] self@[j]).name by {
                            if i < before.len() && j < before.len() {
                                assert(before[i].name != before[j].name);
                            } else if i < before.len() {
                                assert(before[i].name != added.name);
                            } else {
                                assert(before[j].name != added.name);
                            }
                        }
                    }
                }
            },
        }
    }
}

} // verus!
