use emacs::error::{Error, ErrorKind};
use emacs::table::{EntryPoint, Env, Slot, Table};

const SLOTS: [Slot; 8] = [
    Slot::NonLocalExitGet,
    Slot::NonLocalExitClear,
    Slot::NonLocalExitSignal,
    Slot::NonLocalExitThrow,
    Slot::MakeFunction,
    Slot::Funcall,
    Slot::Intern,
    Slot::MakeString,
];

#[test]
fn empty_table_offers_nothing() {
    let env = Env::new(1, Table::new());
    for slot in SLOTS {
        assert!(!env.has(slot));
        assert_eq!(env.table.get(slot), None);
        assert_eq!(
            env.raw_fn(slot),
            Err(Error::Kind(ErrorKind::MissingCapability { name: slot.name().to_string() }))
        );
    }
}

#[test]
fn installed_entry_is_found_in_its_slot_only() {
    for (i, slot) in SLOTS.iter().enumerate() {
        let mut table = Table::new();
        table.install(*slot, 0x1000 + i);
        let env = Env::new(1, table);
        for other in SLOTS {
            if other == *slot {
                assert_eq!(env.raw_fn(other), Ok(EntryPoint { addr: 0x1000 + i }));
                assert_eq!(env.critical(other), EntryPoint { addr: 0x1000 + i });
            } else {
                assert!(env.raw_fn(other).is_err());
            }
        }
    }
}

#[test]
fn null_entry_counts_as_missing() {
    let mut table = Table::new();
    table.install(Slot::Intern, 0x10);
    table.install(Slot::Intern, 0);
    table.install(Slot::Funcall, 0);
    let env = Env::new(1, table);
    assert!(!env.has(Slot::Intern));
    assert!(!env.has(Slot::Funcall));
    assert_eq!(
        env.raw_fn(Slot::Intern),
        Err(Error::Kind(ErrorKind::MissingCapability { name: "intern".to_string() }))
    );
}

#[test]
fn later_entry_takes_the_place_of_an_earlier_one() {
    let mut table = Table::new();
    table.install(Slot::MakeFunction, 0x10);
    table.install(Slot::MakeFunction, 0x20);
    assert_eq!(table.get(Slot::MakeFunction), Some(EntryPoint { addr: 0x20 }));
}

#[test]
fn slots_bear_the_names_of_the_runtime() {
    assert_eq!(Slot::NonLocalExitGet.name(), "non_local_exit_get");
    assert_eq!(Slot::NonLocalExitClear.name(), "non_local_exit_clear");
    assert_eq!(Slot::NonLocalExitSignal.name(), "non_local_exit_signal");
    assert_eq!(Slot::NonLocalExitThrow.name(), "non_local_exit_throw");
    assert_eq!(Slot::MakeFunction.name(), "make_function");
    assert_eq!(Slot::Funcall.name(), "funcall");
    assert_eq!(Slot::Intern.name(), "intern");
    assert_eq!(Slot::MakeString.name(), "make_string");
}

#[test]
fn the_exit_primitives_are_the_critical_ones() {
    assert!(Slot::NonLocalExitGet.is_critical());
    assert!(Slot::NonLocalExitClear.is_critical());
    assert!(Slot::NonLocalExitSignal.is_critical());
    assert!(Slot::NonLocalExitThrow.is_critical());
    assert!(!Slot::MakeFunction.is_critical());
    assert!(!Slot::Funcall.is_critical());
    assert!(!Slot::Intern.is_critical());
    assert!(!Slot::MakeString.is_critical());
}
