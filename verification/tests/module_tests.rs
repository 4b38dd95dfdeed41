use emacs::error::Error;
use emacs::func::{Arity, Naming, Registration};
use emacs::module::{
    init_status, lisp_name, mod_in_name, separator, LoadAction, LoadEvent, LoadState, Loader,
    MetaItem, ModuleOpts, Name, NameError,
};
use emacs::registry::Registry;
use emacs::script::{Op, Operand, Script, Subr};
use emacs::value::{RawValue, Value};

fn ops(script: &Script) -> Vec<Op> {
    (0..script.len()).map(|k| script.op(k).unwrap().clone()).collect()
}

fn record(name: &str) -> Registration {
    Registration {
        name: name.to_string(),
        path: Vec::new(),
        function: Subr { addr: 0x100 },
        arity: Arity::new(0, Some(0)).unwrap(),
        doc: String::new(),
        data: 0,
    }
}

fn loader_of(names: &[&str]) -> Loader {
    let mut registry = Registry::new();
    for name in names {
        registry.insert(record(name));
    }
    Loader::new(Naming::new("mylib", "-", false), registry)
}

#[test]
fn default_separator_is_a_hyphen() {
    assert_eq!(separator(), "-");
}

#[test]
fn default_mod_in_name_is_on() {
    assert!(mod_in_name());
}

#[test]
fn default_name_is_the_crate() {
    assert_eq!(Name::default(), Name::Crate);
}

#[test]
fn default_options() {
    let opts = ModuleOpts::default();
    assert_eq!(opts.name, Name::Crate);
    assert_eq!(opts.separator, "-");
    assert!(opts.mod_in_name);
}

#[test]
fn name_from_empty_list_is_too_few() {
    assert_eq!(Name::from_list(&[]), Err(NameError::TooFewItems { min: 1 }));
}

#[test]
fn name_from_two_items_is_too_many() {
    let items = [MetaItem::Word("fn".to_string()), MetaItem::Word("crate".to_string())];
    assert_eq!(Name::from_list(&items), Err(NameError::TooManyItems { max: 1 }));
}

#[test]
fn name_from_the_word_fn() {
    assert_eq!(Name::from_list(&[MetaItem::Word("fn".to_string())]), Ok(Name::Fn));
}

#[test]
fn name_from_the_word_crate() {
    assert_eq!(Name::from_list(&[MetaItem::Word("crate".to_string())]), Ok(Name::Crate));
}

#[test]
fn name_from_another_word_is_refused() {
    assert_eq!(
        Name::from_list(&[MetaItem::Word("module".to_string())]),
        Err(NameError::ExpectedCrateOrFn)
    );
    assert_eq!(Name::from_list(&[MetaItem::Word("Fn".to_string())]), Err(NameError::ExpectedCrateOrFn));
    assert_eq!(Name::from_list(&[MetaItem::Word(String::new())]), Err(NameError::ExpectedCrateOrFn));
}

#[test]
fn name_from_a_string_is_the_string() {
    assert_eq!(
        Name::from_list(&[MetaItem::Str("my-feature".to_string())]),
        Ok(Name::Str("my-feature".to_string()))
    );
    assert_eq!(Name::from_list(&[MetaItem::Str("fn".to_string())]), Ok(Name::Str("fn".to_string())));
}

#[test]
fn name_from_anything_else_is_refused() {
    assert_eq!(Name::from_list(&[MetaItem::Other]), Err(NameError::ExpectedCrateFnOrString));
}

#[test]
fn name_from_string_takes_the_string() {
    assert_eq!(Name::from_string("abc"), Ok(Name::Str("abc".to_string())));
    assert_eq!(Name::from_string("crate"), Ok(Name::Str("crate".to_string())));
}

#[test]
fn name_errors_have_messages() {
    assert_eq!(NameError::TooFewItems { min: 1 }.message(), "Too few items");
    assert_eq!(NameError::TooManyItems { max: 1 }.message(), "Too many items");
    assert_eq!(NameError::ExpectedCrateOrFn.message(), "Expected crate/fn");
    assert_eq!(NameError::ExpectedCrateFnOrString.message(), "Expected crate/fn or a string");
}

#[test]
fn lisp_name_writes_hyphens_for_underscores() {
    assert_eq!(lisp_name("my_cool_lib"), "my-cool-lib");
    assert_eq!(lisp_name("plain"), "plain");
    assert_eq!(lisp_name("__"), "--");
    assert_eq!(lisp_name(""), "");
    assert_eq!(lisp_name("grüße_x"), "grüße-x");
}

#[test]
fn feature_comes_from_where_the_name_says() {
    assert_eq!(Name::Crate.feature("my_crate", "init_it"), "my-crate");
    assert_eq!(Name::Fn.feature("my_crate", "init_it"), "init-it");
    assert_eq!(Name::Str("as_given".to_string()).feature("my_crate", "init_it"), "as_given");
}

#[test]
fn naming_follows_the_options() {
    let opts = ModuleOpts { name: Name::Fn, separator: "/".to_string(), mod_in_name: false };
    assert_eq!(opts.naming("my_crate", "init_it"), Naming::new("init-it", "/", false));
    assert_eq!(ModuleOpts::default().naming("my_crate", "init"), Naming::new("my-crate", "-", true));
}

#[test]
fn init_status_is_zero_for_success_and_one_for_failure() {
    assert_eq!(init_status(&Ok(Value { raw: RawValue { addr: 1 }, env: 1 })), 0);
    assert_eq!(init_status(&Err(Error::other("no"))), 1);
}

#[test]
fn load_goes_through_its_states_in_order() {
    let mut loader = loader_of(&["a", "b"]);
    assert_eq!(loader.state(), LoadState::Unloaded);

    let first = loader.step(LoadEvent::Start);
    assert_eq!(loader.state(), LoadState::PrefixConfigured);
    assert_eq!(first, LoadAction::Run(record("a").script(&Naming::new("mylib", "-", false))));

    let second = loader.step(LoadEvent::Succeeded);
    assert_eq!(loader.state(), LoadState::PrefixConfigured);
    assert_eq!(second, LoadAction::Run(record("b").script(&Naming::new("mylib", "-", false))));

    assert_eq!(loader.step(LoadEvent::Succeeded), LoadAction::CallHook);
    assert_eq!(loader.state(), LoadState::FunctionsRegistered);

    match loader.step(LoadEvent::Succeeded) {
        LoadAction::Run(script) => assert_eq!(
            ops(&script),
            vec![
                Op::Intern { name: "mylib".to_string() },
                Op::Intern { name: "provide".to_string() },
                Op::Funcall { function: Operand::Local(1), args: vec![Operand::Local(0)] },
            ]
        ),
        other => panic!("unexpected action {:?}", other),
    }
    assert_eq!(loader.state(), LoadState::UserInitRan);

    assert_eq!(loader.step(LoadEvent::Succeeded), LoadAction::Finish(0));
    assert_eq!(loader.state(), LoadState::Provided);
}

#[test]
fn load_without_functions_goes_straight_to_the_hook() {
    let mut loader = loader_of(&[]);
    assert_eq!(loader.step(LoadEvent::Start), LoadAction::CallHook);
    assert_eq!(loader.state(), LoadState::FunctionsRegistered);
}

#[test]
fn failed_export_fails_the_load() {
    let mut loader = loader_of(&["a", "b"]);
    loader.step(LoadEvent::Start);
    assert_eq!(loader.step(LoadEvent::Failed), LoadAction::Finish(1));
    assert_eq!(loader.state(), LoadState::Failed);
}

#[test]
fn failed_hook_fails_the_load() {
    let mut loader = loader_of(&[]);
    loader.step(LoadEvent::Start);
    assert_eq!(loader.step(LoadEvent::Failed), LoadAction::Finish(1));
    assert_eq!(loader.state(), LoadState::Failed);
}

#[test]
fn failed_provide_fails_the_load() {
    let mut loader = loader_of(&[]);
    loader.step(LoadEvent::Start);
    loader.step(LoadEvent::Succeeded);
    assert_eq!(loader.state(), LoadState::UserInitRan);
    assert_eq!(loader.step(LoadEvent::Failed), LoadAction::Finish(1));
    assert_eq!(loader.state(), LoadState::Failed);
}

#[test]
fn failed_load_stays_failed() {
    let mut loader = loader_of(&["a"]);
    loader.step(LoadEvent::Start);
    loader.step(LoadEvent::Failed);
    for event in [LoadEvent::Start, LoadEvent::Succeeded, LoadEvent::Failed] {
        assert_eq!(loader.step(event), LoadAction::Finish(1));
        assert_eq!(loader.state(), LoadState::Failed);
    }
}

#[test]
fn loaded_module_stays_loaded() {
    let mut loader = loader_of(&[]);
    loader.step(LoadEvent::Start);
    loader.step(LoadEvent::Succeeded);
    loader.step(LoadEvent::Succeeded);
    assert_eq!(loader.state(), LoadState::Provided);
    for event in [LoadEvent::Start, LoadEvent::Succeeded, LoadEvent::Failed] {
        assert_eq!(loader.step(event), LoadAction::Finish(0));
        assert_eq!(loader.state(), LoadState::Provided);
    }
}

#[test]
fn load_cannot_begin_twice() {
    let mut loader = loader_of(&["a"]);
    loader.step(LoadEvent::Start);
    assert_eq!(loader.step(LoadEvent::Start), LoadAction::Finish(1));
    assert_eq!(loader.state(), LoadState::Failed);
}

#[test]
fn load_takes_no_outcome_before_it_began() {
    let mut loader = loader_of(&["a"]);
    assert_eq!(loader.step(LoadEvent::Succeeded), LoadAction::Finish(1));
    assert_eq!(loader.state(), LoadState::Failed);
}
