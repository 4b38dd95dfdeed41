//! The dispatch table of the runtime, as far as the bridge uses it.

use vstd::prelude::*;
use crate::error::{Error, ErrorKind, ErrorKindView, ErrorView};

verus! {

/// The primitives of the runtime that the bridge calls, each a slot of the
/// dispatch table.
#[derive(Clone, Copy, Debug, PartialEq, Eq, Structural)]
pub enum Slot {
    NonLocalExitGet,
    NonLocalExitClear,
    NonLocalExitSignal,
    NonLocalExitThrow,
    MakeFunction,
    Funcall,
    Intern,
    MakeString,
}

impl Slot {
    /// The name under which the runtime publishes the slot.
    pub open spec fn spec_name(self) -> Seq<char> {
        match self {
            Slot::NonLocalExitGet => "non_local_exit_get"@,
            Slot::NonLocalExitClear => "non_local_exit_clear"@,
            Slot::NonLocalExitSignal => "non_local_exit_signal"@,
            Slot::NonLocalExitThrow => "non_local_exit_throw"@,
            Slot::MakeFunction => "make_function"@,
            Slot::Funcall => "funcall"@,
            Slot::Intern => "intern"@,
            Slot::MakeString => "make_string"@,
        }
    }

    /// The primitives without which no error can be reported at all. The
    /// bridge does not go on without them.
    pub open spec fn spec_is_critical(self) -> bool {
        self == Slot::NonLocalExitGet || self == Slot::NonLocalExitClear || self
            == Slot::NonLocalExitSignal || self == Slot::NonLocalExitThrow
    }

    /// The name under which the runtime publishes the slot.
    pub fn name(&self) -> (r: &'static str)
        ensures
            r@ == self.spec_name(),
    {
        match self {
            Slot::NonLocalExitGet => "non_local_exit_get",
            Slot::NonLocalExitClear => "non_local_exit_clear",
            Slot::NonLocalExitSignal => "non_local_exit_signal",
            Slot::NonLocalExitThrow => "non_local_exit_throw",
            Slot::MakeFunction => "make_function",
            Slot::Funcall => "funcall",
            Slot::Intern => "intern",
            Slot::MakeString => "make_string",
        }
    }

    /// Whether the slot is one of the critical ones.
    pub fn is_critical(&self) -> (r: bool)
        ensures
            r == self.spec_is_critical(),
    {
        match self {
            Slot::NonLocalExitGet => true,
            Slot::NonLocalExitClear => true,
            Slot::NonLocalExitSignal => true,
            Slot::NonLocalExitThrow => true,
            _ => false,
        }
    }
}

/// The address of a primitive. An entry that a table hands out is never
/// null.
#[derive(Clone, Copy, Debug, PartialEq, Eq, Structural)]
pub struct EntryPoint {
    pub addr: usize,
}

/// The slots of one runtime instance: for each, the primitive it holds, or
/// nothing where the runtime does not offer it.
#[derive(Clone, Copy, Debug, PartialEq, Eq)]
pub struct Table {
    non_local_exit_get: Option<EntryPoint>,
    non_local_exit_clear: Option<EntryPoint>,
    non_local_exit_signal: Option<EntryPoint>,
    non_local_exit_throw: Option<EntryPoint>,
    make_function: Option<EntryPoint>,
    funcall: Option<EntryPoint>,
    intern: Option<EntryPoint>,
    make_string: Option<EntryPoint>,
}

impl View for Table {
    type V = Map<Slot, EntryPoint>;

    closed spec fn view(&self) -> Map<Slot, EntryPoint> {
        Map::new(|slot: Slot| self.held(slot) is Some, |slot: Slot| self.held(slot)->0)
    }
}

impl Table {
    spec fn held(self, slot: Slot) -> Option<EntryPoint> {
        match slot {
            Slot::NonLocalExitGet => self.non_local_exit_get,
            Slot::NonLocalExitClear => self.non_local_exit_clear,
            Slot::NonLocalExitSignal => self.non_local_exit_signal,
            Slot::NonLocalExitThrow => self.non_local_exit_throw,
            Slot::MakeFunction => self.make_function,
            Slot::Funcall => self.funcall,
            Slot::Intern => self.intern,
            Slot::MakeString => self.make_string,
        }
    }

    #[verifier::type_invariant]
    spec fn no_null_entry(self) -> bool {
        &&& self.non_local_exit_get matches Some(entry) ==> entry.addr != 0
        &&& self.non_local_exit_clear matches Some(entry) ==> entry.addr != 0
        &&& self.non_local_exit_signal matches Some(entry) ==> entry.addr != 0
        &&& self.non_local_exit_throw matches Some(entry) ==> entry.addr != 0
        &&& self.make_function matches Some(entry) ==> entry.addr != 0
        &&& self.funcall matches Some(entry) ==> entry.addr != 0
        &&& self.intern matches Some(entry) ==> entry.addr != 0
        &&& self.make_string matches Some(entry) ==> entry.addr != 0
    }

    /// The table of a runtime that offers nothing.
    pub fn new() -> (r: Table)
        ensures
            r@ == Map::<Slot, EntryPoint>::empty(),
    {
        let r = Table {
            non_local_exit_get: None,
            non_local_exit_clear: None,
            non_local_exit_signal: None,
            non_local_exit_throw: None,
            make_function: None,
            funcall: None,
            intern: None,
            make_string: None,
        };
        assert(r@ =~= Map::<Slot, EntryPoint>::empty());
        r
    }

    /// Records what the runtime holds in `slot`: the primitive at `addr`, or
    /// nothing where `addr` is null.
    pub fn install(&mut self, slot: Slot, addr: usize)
        ensures
            addr != 0 ==> final(self)@ == old(self)@.insert(slot, EntryPoint { addr }),
            addr == 0 ==> final(self)@ == old(self)@.remove(slot),
    {
        proof {
            use_type_invariant(&*self);
        }
        let entry = if addr == 0 {
            None
        } else {
            Some(EntryPoint { addr })
        };
        match slot {
            Slot::NonLocalExitGet => {
                self.non_local_exit_get = entry;
            },
            Slot::NonLocalExitClear => {
                self.non_local_exit_clear = entry;
            },
            Slot::NonLocalExitSignal => {
                self.non_local_exit_signal = entry;
            },
            Slot::NonLocalExitThrow => {
                self.non_local_exit_throw = entry;
            },
            Slot::MakeFunction => {
                self.make_function = entry;
            },
            Slot::Funcall => {
                self.funcall = entry;
            },
            Slot::Intern => {
                self.intern = entry;
            },
            Slot::MakeString => {
                self.make_string = entry;
            },
        }
        proof {
            assert forall|other: Slot| other != slot implies self.held(other) == old(self).held(
                other,
            ) by {}
            assert(self.held(slot) == entry);
            if addr != 0 {
                assert(self@ =~= old(self)@.insert(slot, EntryPoint { addr }));
            } else {
                assert(self@ =~= old(self)@.remove(slot));
            }
        }
    }

    /// The primitive in `slot`, where the runtime offers one.
    pub fn get(&self, slot: Slot) -> (r: Option<EntryPoint>)
        ensures
            (match r {
                Some(entry) => self@.contains_key(slot) && self@[slot] == entry && entry.addr != 0,
                None => !self@.contains_key(slot),
            }),
    {
        proof {
            use_type_invariant(self);
        }
        let r = match slot {
            Slot::NonLocalExitGet => self.non_local_exit_get,
            Slot::NonLocalExitClear => self.non_local_exit_clear,
            Slot::NonLocalExitSignal => self.non_local_exit_signal,
            Slot::NonLocalExitThrow => self.non_local_exit_throw,
            Slot::MakeFunction => self.make_function,
            Slot::Funcall => self.funcall,
            Slot::Intern => self.intern,
            Slot::MakeString => self.make_string,
        };
        assert(r == self.held(slot));
        r
    }
}

/// One runtime instance as the bridge knows it: its identity and its
/// dispatch table.
#[derive(Clone, Copy, Debug, PartialEq, Eq)]
pub struct Env {
    pub id: usize,
    pub table: Table,
}

impl Env {
    /// The runtime instance `id` with the dispatch table `table`.
    pub fn new(id: usize, table: Table) -> (r: Env)
        ensures
            r.id == id,
            r.table == table,
    {
        Env { id, table }
    }

    /// Whether the runtime offers the primitive of `slot`.
    pub fn has(&self, slot: Slot) -> (r: bool)
        ensures
            r == self.table@.contains_key(slot),
    {
        self.table.get(slot).is_some()
    }

    /// The primitive of `slot`, or the error that names the missing slot.
    /// An entry that comes back is never null.
    pub fn raw_fn(&self, slot: Slot) -> (r: Result<EntryPoint, Error>)
        ensures
            (match r {
                Ok(entry) => self.table@.contains_key(slot) && self.table@[slot] == entry
                    && entry.addr != 0,
                Err(error) => !self.table@.contains_key(slot) && error@ == ErrorView::Kind(
                    ErrorKindView::MissingCapability { name: slot.spec_name() },
                ),
            }),
    {
        match self.table.get(slot) {
            Some(entry) => Ok(entry),
            None => Err(Error::Kind(ErrorKind::MissingCapability { name: slot.name().to_owned() })),
        }
    }

    /// The primitive of a slot that the runtime must offer.
    pub fn critical(&self, slot: Slot) -> (r: EntryPoint)
        requires
            self.table@.contains_key(slot),
        ensures
            r == self.table@[slot],
            r.addr != 0,
    {
        match self.table.get(slot) {
            Some(entry) => entry,
            None => {
                assert(false);
                vstd::pervasive::unreached()
            },
        }
    }
}

} // verus!
