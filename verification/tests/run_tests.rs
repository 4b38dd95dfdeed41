use emacs::error::{Error, ErrorKind};
use emacs::exit::{maybe_exit, ExitPlan, RETURN, SIGNAL, THROW};
use emacs::func::{Arity, HandleFunc, Naming, Registration};
use emacs::module::{LoadAction, LoadEvent, LoadState, Loader};
use emacs::registry::Registry;
use emacs::run::{Action, Event, Phase, Run};
use emacs::script::{Operand, Request, Script, Subr};
use emacs::table::{Env, Slot, Table};
use emacs::value::{RawValue, TempValue};

/// What a value of the fake runtime is.
#[derive(Debug, Clone, PartialEq)]
enum Thing {
    Symbol(String),
    Text(String),
    Function { min: isize, max: isize, subr: usize, doc: String, data: usize },
    List(Vec<RawValue>),
    Nil,
}

/// A runtime that keeps book of what it is asked.
struct Fake {
    things: Vec<Thing>,
    bound: Vec<(String, RawValue)>,
    defined: Vec<(String, String, String)>,
    provided: Vec<String>,
    pending: Option<(u32, RawValue, RawValue)>,
    requests: Vec<Request>,
    clears: usize,
    value_calls: usize,
    raise_on: Option<(usize, u32)>,
}

impl Fake {
    fn new() -> Fake {
        Fake {
            things: Vec::new(),
            bound: Vec::new(),
            defined: Vec::new(),
            provided: Vec::new(),
            pending: None,
            requests: Vec::new(),
            clears: 0,
            value_calls: 0,
            raise_on: None,
        }
    }

    fn make(&mut self, thing: Thing) -> RawValue {
        self.things.push(thing);
        RawValue { addr: 0x1000 + self.things.len() - 1 }
    }

    fn thing(&self, value: RawValue) -> &Thing {
        &self.things[value.addr - 0x1000]
    }

    fn symbol_name(&self, value: RawValue) -> String {
        match self.thing(value) {
            Thing::Symbol(name) => name.clone(),
            other => panic!("not a symbol: {:?}", other),
        }
    }

    fn text(&self, value: RawValue) -> String {
        match self.thing(value) {
            Thing::Text(text) => text.clone(),
            other => panic!("not a string: {:?}", other),
        }
    }

    fn returned(&mut self, value: RawValue) -> Event {
        let place = self.value_calls;
        self.value_calls += 1;
        if let Some((at, status)) = self.raise_on {
            if at == place {
                self.pending = Some((status, RawValue { addr: 0xe0 }, RawValue { addr: 0xe1 }));
            }
        }
        Event::Returned(value)
    }

    fn perform(&mut self, request: &Request) -> Event {
        self.requests.push(request.clone());
        match request {
            Request::NonLocalExitGet => match self.pending {
                Some((status, symbol, data)) => Event::ExitState { status, symbol, data },
                None => Event::ExitState {
                    status: RETURN,
                    symbol: RawValue { addr: 0 },
                    data: RawValue { addr: 0 },
                },
            },
            Request::NonLocalExitClear => {
                assert!(self.pending.is_some(), "cleared with nothing pending");
                self.pending = None;
                self.clears += 1;
                Event::Completed
            }
            Request::NonLocalExitSignal { symbol, data } => {
                self.pending = Some((SIGNAL, *symbol, *data));
                Event::Completed
            }
            Request::NonLocalExitThrow { tag, value } => {
                self.pending = Some((THROW, *tag, *value));
                Event::Completed
            }
            Request::MakeFunction { min_arity, max_arity, function, doc, data } => {
                let value = self.make(Thing::Function {
                    min: *min_arity,
                    max: *max_arity,
                    subr: function.addr,
                    doc: doc.clone(),
                    data: *data,
                });
                self.returned(value)
            }
            Request::Intern { name } => {
                let value = self.make(Thing::Symbol(name.clone()));
                self.returned(value)
            }
            Request::MakeString { contents } => {
                let value = self.make(Thing::Text(contents.clone()));
                self.returned(value)
            }
            Request::Funcall { function, args } => {
                let name = self.symbol_name(*function);
                let value = if name == "fset" {
                    let symbol = self.symbol_name(args[0]);
                    self.bound.push((symbol, args[1]));
                    args[1]
                } else if name == "list" {
                    self.make(Thing::List(args.clone()))
                } else if name == "define-error" {
                    let entry =
                        (self.symbol_name(args[0]), self.text(args[1]), self.symbol_name(args[2]));
                    self.defined.push(entry);
                    args[0]
                } else if name == "provide" {
                    let feature = self.symbol_name(args[0]);
                    self.provided.push(feature);
                    args[0]
                } else {
                    self.make(Thing::Nil)
                };
                self.returned(value)
            }
        }
    }
}

fn full_env() -> Env {
    env_without(&[])
}

fn env_without(missing: &[Slot]) -> Env {
    let slots = [
        Slot::NonLocalExitGet,
        Slot::NonLocalExitClear,
        Slot::NonLocalExitSignal,
        Slot::NonLocalExitThrow,
        Slot::MakeFunction,
        Slot::Funcall,
        Slot::Intern,
        Slot::MakeString,
    ];
    let mut table = Table::new();
    for (i, slot) in slots.iter().enumerate() {
        if !missing.contains(slot) {
            table.install(*slot, 0x4000 + 8 * i);
        }
    }
    Env::new(0x5151, table)
}

fn drive(run: &mut Run, env: &Env, fake: &mut Fake) -> Result<(), Error> {
    let mut action = run.step(env, Event::Start);
    loop {
        match action {
            Action::Invoke(request) => {
                let event = fake.perform(&request);
                action = run.step(env, event);
            }
            Action::Finish(outcome) => return outcome,
        }
    }
}

fn greet() -> Registration {
    Registration {
        name: "greet".to_string(),
        path: Vec::new(),
        function: Subr { addr: 0xf00 },
        arity: Arity::new(1, Some(2)).unwrap(),
        doc: "Greet someone.".to_string(),
        data: 0,
    }
}

fn mylib() -> Naming {
    Naming::new("mylib", "-", false)
}

#[test]
fn register_binds_the_function_to_its_full_name() {
    let env = full_env();
    let mut fake = Fake::new();
    let mut run = greet().registrar(&mylib());
    assert_eq!(drive(&mut run, &env, &mut fake), Ok(()));
    assert!(run.is_finished());
    assert_eq!(fake.bound.len(), 1);
    assert_eq!(fake.bound[0].0, "mylib-greet");
    assert_eq!(
        fake.thing(fake.bound[0].1),
        &Thing::Function { min: 1, max: 2, subr: 0xf00, doc: "Greet someone.".to_string(), data: 0 }
    );
    assert_eq!(fake.clears, 0);
}

#[test]
fn register_asks_for_the_exit_state_after_each_call() {
    let env = full_env();
    let mut fake = Fake::new();
    let mut run = greet().registrar(&mylib());
    drive(&mut run, &env, &mut fake).unwrap();
    let function = RawValue { addr: 0x1000 };
    let symbol = RawValue { addr: 0x1001 };
    let fset = RawValue { addr: 0x1002 };
    assert_eq!(
        fake.requests,
        vec![
            Request::MakeFunction {
                min_arity: 1,
                max_arity: 2,
                function: Subr { addr: 0xf00 },
                doc: "Greet someone.".to_string(),
                data: 0,
            },
            Request::NonLocalExitGet,
            Request::Intern { name: "mylib-greet".to_string() },
            Request::NonLocalExitGet,
            Request::Intern { name: "fset".to_string() },
            Request::NonLocalExitGet,
            Request::Funcall { function: fset, args: vec![symbol, function] },
            Request::NonLocalExitGet,
        ]
    );
    assert_eq!(run.value_of(Operand::Local(0)), Some(function));
    assert_eq!(run.value_of(Operand::Local(3)), Some(function));
    assert_eq!(run.value_of(Operand::Local(4)), None);
}

#[test]
fn missing_make_function_fails_before_any_call() {
    let env = env_without(&[Slot::MakeFunction]);
    let mut fake = Fake::new();
    let mut run = greet().registrar(&mylib());
    assert_eq!(
        drive(&mut run, &env, &mut fake),
        Err(Error::Kind(ErrorKind::MissingCapability { name: "make_function".to_string() }))
    );
    assert!(fake.requests.is_empty());
    assert!(fake.bound.is_empty());
    assert!(run.is_finished());
}

#[test]
fn missing_funcall_fails_when_the_binding_is_due() {
    let env = env_without(&[Slot::Funcall]);
    let mut fake = Fake::new();
    let mut run = greet().registrar(&mylib());
    assert_eq!(
        drive(&mut run, &env, &mut fake),
        Err(Error::Kind(ErrorKind::MissingCapability { name: "funcall".to_string() }))
    );
    assert_eq!(fake.requests.len(), 6);
    assert!(fake.bound.is_empty());
}

#[test]
fn missing_intern_fails_after_the_function_was_made() {
    let env = env_without(&[Slot::Intern]);
    let mut fake = Fake::new();
    let mut run = greet().registrar(&mylib());
    assert_eq!(
        drive(&mut run, &env, &mut fake),
        Err(Error::Kind(ErrorKind::MissingCapability { name: "intern".to_string() }))
    );
    assert_eq!(fake.requests.len(), 2);
}

#[test]
fn signal_is_cleared_exactly_once() {
    let env = full_env();
    let mut fake = Fake::new();
    fake.raise_on = Some((0, SIGNAL));
    let mut run = greet().registrar(&mylib());
    assert_eq!(
        drive(&mut run, &env, &mut fake),
        Err(Error::Kind(ErrorKind::Signal {
            symbol: TempValue::new(RawValue { addr: 0xe0 }),
            data: TempValue::new(RawValue { addr: 0xe1 }),
        }))
    );
    assert_eq!(fake.clears, 1);
    assert_eq!(fake.pending, None);
    assert_eq!(fake.requests.len(), 3);
    assert_eq!(fake.requests[1], Request::NonLocalExitGet);
    assert_eq!(fake.requests[2], Request::NonLocalExitClear);
    assert!(fake.bound.is_empty());
}

#[test]
fn throw_is_cleared_exactly_once() {
    let env = full_env();
    let mut fake = Fake::new();
    fake.raise_on = Some((2, THROW));
    let mut run = greet().registrar(&mylib());
    assert_eq!(
        drive(&mut run, &env, &mut fake),
        Err(Error::Kind(ErrorKind::Throw {
            tag: TempValue::new(RawValue { addr: 0xe0 }),
            value: TempValue::new(RawValue { addr: 0xe1 }),
        }))
    );
    assert_eq!(fake.clears, 1);
    let clears = fake.requests.iter().filter(|r| **r == Request::NonLocalExitClear).count();
    assert_eq!(clears, 1);
    assert_eq!(fake.requests.last(), Some(&Request::NonLocalExitClear));
}

#[test]
fn second_clearing_is_an_error_and_asks_nothing() {
    let env = full_env();
    let mut fake = Fake::new();
    fake.raise_on = Some((0, SIGNAL));
    let mut run = greet().registrar(&mylib());
    drive(&mut run, &env, &mut fake).unwrap_err();
    let asked = fake.requests.len();
    assert_eq!(
        run.step(&env, Event::Completed),
        Action::Finish(Err(Error::Other("event out of turn".to_string())))
    );
    assert_eq!(
        run.step(&env, Event::Completed),
        Action::Finish(Err(Error::Other("event out of turn".to_string())))
    );
    assert!(run.is_finished());
    assert_eq!(fake.requests.len(), asked);
    assert_eq!(fake.clears, 1);
}

#[test]
fn clearing_is_asked_only_while_an_exit_is_pending() {
    let env = full_env();
    let mut script = Script::new();
    script.intern("car");
    let mut run = Run::new(script);
    assert_eq!(
        run.step(&env, Event::Start),
        Action::Invoke(Request::Intern { name: "car".to_string() })
    );
    assert_eq!(run.phase(), Phase::Called);
    assert_eq!(
        run.step(&env, Event::Returned(RawValue { addr: 9 })),
        Action::Invoke(Request::NonLocalExitGet)
    );
    assert_eq!(run.phase(), Phase::Inspecting { value: RawValue { addr: 9 } });
    let exit = Event::ExitState {
        status: SIGNAL,
        symbol: RawValue { addr: 1 },
        data: RawValue { addr: 2 },
    };
    assert_eq!(run.step(&env, exit), Action::Invoke(Request::NonLocalExitClear));
    assert_eq!(run.phase(), Phase::Clearing);
    assert_eq!(
        run.step(&env, Event::Completed),
        Action::Finish(Err(Error::Kind(ErrorKind::Signal {
            symbol: TempValue::new(RawValue { addr: 1 }),
            data: TempValue::new(RawValue { addr: 2 }),
        })))
    );
    assert_eq!(run.phase(), Phase::Finished);
    assert_eq!(run.value_of(Operand::Local(0)), None);
}

#[test]
fn normal_return_goes_on_without_clearing() {
    let env = full_env();
    let mut script = Script::new();
    script.intern("car");
    let mut run = Run::new(script);
    run.step(&env, Event::Start);
    run.step(&env, Event::Returned(RawValue { addr: 9 }));
    let exit = Event::ExitState {
        status: RETURN,
        symbol: RawValue { addr: 1 },
        data: RawValue { addr: 2 },
    };
    assert_eq!(run.step(&env, exit), Action::Finish(Ok(())));
    assert_eq!(run.value_of(Operand::Local(0)), Some(RawValue { addr: 9 }));
}

#[test]
fn zero_byte_in_a_name_ends_the_run_where_the_name_is_due() {
    let env = full_env();
    let mut fake = Fake::new();
    let mut record = greet();
    record.name = "gr\0eet".to_string();
    let mut run = record.registrar(&mylib());
    assert_eq!(
        drive(&mut run, &env, &mut fake),
        Err(Error::Other("nul byte found in provided data at position: 8".to_string()))
    );
    assert_eq!(fake.requests.len(), 2);
    assert!(fake.bound.is_empty());
}

#[test]
fn zero_byte_in_the_documentation_ends_the_run_at_once() {
    let env = full_env();
    let mut fake = Fake::new();
    let mut record = greet();
    record.doc = "\0".to_string();
    let mut run = record.registrar(&mylib());
    assert_eq!(
        drive(&mut run, &env, &mut fake),
        Err(Error::Other("nul byte found in provided data at position: 0".to_string()))
    );
    assert!(fake.requests.is_empty());
}

#[test]
fn missing_primitive_is_found_before_the_zero_byte() {
    let env = env_without(&[Slot::MakeFunction]);
    let mut fake = Fake::new();
    let mut record = greet();
    record.doc = "a\0".to_string();
    let mut run = record.registrar(&mylib());
    assert_eq!(
        drive(&mut run, &env, &mut fake),
        Err(Error::Kind(ErrorKind::MissingCapability { name: "make_function".to_string() }))
    );
}

#[test]
fn zero_byte_in_a_lisp_string_is_no_error() {
    let env = full_env();
    let mut fake = Fake::new();
    let mut script = Script::new();
    script.make_string("a\0b");
    let mut run = Run::new(script);
    assert_eq!(drive(&mut run, &env, &mut fake), Ok(()));
    assert_eq!(fake.text(RawValue { addr: 0x1000 }), "a\0b");
}

#[test]
fn operand_that_names_no_earlier_result_ends_the_run() {
    let env = full_env();
    let mut fake = Fake::new();
    let mut script = Script::new();
    let symbol = script.intern("car");
    assert!(script.admits(symbol));
    assert!(!script.admits(Operand::Local(1)));
    assert!(script.admits(Operand::Raw(RawValue { addr: 3 })));
    assert!(!script.admits_all(&vec![symbol, Operand::Local(7)]));
    script.funcall(symbol, vec![Operand::Local(7)]);
    let mut run = Run::new(script);
    assert_eq!(
        drive(&mut run, &env, &mut fake),
        Err(Error::Other("operand names no earlier result".to_string()))
    );
    assert_eq!(fake.requests.len(), 2);
}

#[test]
fn event_out_of_turn_ends_the_run() {
    let env = full_env();
    let mut script = Script::new();
    script.intern("car");
    let mut run = Run::new(script);
    assert_eq!(
        run.step(&env, Event::Returned(RawValue { addr: 1 })),
        Action::Finish(Err(Error::Other("event out of turn".to_string())))
    );
    assert!(run.is_finished());
    assert_eq!(
        run.step(&env, Event::Start),
        Action::Finish(Err(Error::Other("event out of turn".to_string())))
    );
}

#[test]
fn empty_script_is_over_at_once() {
    let env = env_without(&[Slot::Intern, Slot::Funcall, Slot::MakeFunction, Slot::MakeString]);
    let mut run = Run::new(Script::new());
    assert_eq!(run.phase(), Phase::Fresh);
    assert_eq!(run.step(&env, Event::Start), Action::Finish(Ok(())));
    assert!(run.is_finished());
}

#[test]
fn raised_signal_is_not_followed_by_a_look_at_the_exit_state() {
    let env = full_env();
    let mut fake = Fake::new();
    let error = Error::Kind(ErrorKind::Signal {
        symbol: TempValue::new(RawValue { addr: 0x11 }),
        data: TempValue::new(RawValue { addr: 0x22 }),
    });
    match maybe_exit(Err(error)) {
        ExitPlan::Raise { script, token } => {
            let mut run = Run::new(script);
            assert_eq!(drive(&mut run, &env, &mut fake), Ok(()));
            assert_eq!(
                fake.requests,
                vec![Request::NonLocalExitSignal {
                    symbol: RawValue { addr: 0x11 },
                    data: RawValue { addr: 0x22 },
                }]
            );
            assert_eq!(fake.pending, Some((SIGNAL, RawValue { addr: 0x11 }, RawValue { addr: 0x22 })));
            assert_eq!(run.value_of(token), Some(RawValue { addr: 0x11 }));
        }
        other => panic!("unexpected plan {:?}", other),
    }
}

#[test]
fn raised_throw_leaves_the_tag_as_its_token() {
    let env = full_env();
    let mut fake = Fake::new();
    let mut script = Script::new();
    let token =
        script.throw(Operand::Raw(RawValue { addr: 0x33 }), Operand::Raw(RawValue { addr: 0x44 }));
    script.intern("never");
    let mut run = Run::new(script);
    assert_eq!(drive(&mut run, &env, &mut fake), Ok(()));
    assert_eq!(
        fake.requests,
        vec![Request::NonLocalExitThrow {
            tag: RawValue { addr: 0x33 },
            value: RawValue { addr: 0x44 },
        }]
    );
    assert_eq!(run.value_of(token), Some(RawValue { addr: 0x33 }));
}

#[test]
fn critical_primitive_is_asked_for_even_where_the_table_lacks_it() {
    let env = env_without(&[Slot::NonLocalExitSignal]);
    let mut script = Script::new();
    script.signal(Operand::Raw(RawValue { addr: 1 }), Operand::Raw(RawValue { addr: 2 }));
    let mut run = Run::new(script);
    assert_eq!(
        run.step(&env, Event::Start),
        Action::Invoke(Request::NonLocalExitSignal {
            symbol: RawValue { addr: 1 },
            data: RawValue { addr: 2 },
        })
    );
    assert_eq!(run.phase(), Phase::Raising { token: RawValue { addr: 1 } });
}

#[test]
fn error_of_the_bridge_is_signaled_with_its_message() {
    let env = full_env();
    let mut fake = Fake::new();
    let error = Error::Kind(ErrorKind::MissingCapability { name: "fset".to_string() });
    match maybe_exit(Err(error)) {
        ExitPlan::Raise { script, token } => {
            let mut run = Run::new(script);
            assert_eq!(drive(&mut run, &env, &mut fake), Ok(()));
            let (status, symbol, data) = fake.pending.unwrap();
            assert_eq!(status, SIGNAL);
            assert_eq!(fake.symbol_name(symbol), "rust-error");
            match fake.thing(data) {
                Thing::List(items) => {
                    assert_eq!(items.len(), 1);
                    let message = fake.text(items[0]);
                    assert_eq!(message, "Required function fset cannot be found");
                    assert!(message.contains("fset"));
                }
                other => panic!("unexpected data {:?}", other),
            }
            assert_eq!(run.value_of(token), Some(symbol));
            assert_eq!(fake.requests.last().unwrap().slot(), Slot::NonLocalExitSignal);
        }
        other => panic!("unexpected plan {:?}", other),
    }
}

#[test]
fn define_errors_defines_the_three_conditions() {
    let env = full_env();
    let mut fake = Fake::new();
    let mut script = Script::new();
    script.define_errors();
    assert_eq!(script.len(), 15);
    let mut run = Run::new(script);
    assert_eq!(drive(&mut run, &env, &mut fake), Ok(()));
    assert_eq!(
        fake.defined,
        vec![
            ("rust-panic".to_string(), "Rust panic".to_string(), "error".to_string()),
            ("rust-error".to_string(), "Rust error".to_string(), "error".to_string()),
            (
                "rust-wrong-type-user-ptr".to_string(),
                "Wrong type user-ptr".to_string(),
                "rust-error".to_string()
            ),
        ]
    );
}

#[test]
fn fset_binds_a_function_in_hand() {
    let env = full_env();
    let mut fake = Fake::new();
    let mut script = Script::new();
    let bound = script.fset("my-fn", Operand::Raw(RawValue { addr: 0x77 }));
    assert_eq!(bound, Operand::Local(2));
    let mut run = Run::new(script);
    assert_eq!(drive(&mut run, &env, &mut fake), Ok(()));
    assert_eq!(fake.bound, vec![("my-fn".to_string(), RawValue { addr: 0x77 })]);
}

#[test]
fn load_exports_calls_the_hook_and_provides() {
    let env = full_env();
    let mut fake = Fake::new();
    let mut registry = Registry::new();
    registry.insert(greet());
    let mut wave = greet();
    wave.name = "wave".to_string();
    wave.path = vec!["gestures".to_string()];
    registry.insert(wave);
    let mut loader = Loader::new(Naming::new("mylib", "-", true), registry);
    let mut hook_calls = 0;
    let mut action = loader.step(LoadEvent::Start);
    let status = loop {
        match action {
            LoadAction::Run(script) => {
                let mut run = Run::new(script);
                let event = match drive(&mut run, &env, &mut fake) {
                    Ok(()) => LoadEvent::Succeeded,
                    Err(_) => LoadEvent::Failed,
                };
                action = loader.step(event);
            }
            LoadAction::CallHook => {
                assert_eq!(loader.state(), LoadState::FunctionsRegistered);
                assert_eq!(fake.bound.len(), 2);
                hook_calls += 1;
                action = loader.step(LoadEvent::Succeeded);
            }
            LoadAction::Finish(status) => break status,
        }
    };
    assert_eq!(status, 0);
    assert_eq!(hook_calls, 1);
    assert_eq!(loader.state(), LoadState::Provided);
    assert_eq!(fake.bound[0].0, "mylib-greet");
    assert_eq!(fake.bound[1].0, "mylib-gestures-wave");
    assert_eq!(fake.provided, vec!["mylib".to_string()]);
}

#[test]
fn load_fails_where_an_export_fails() {
    let env = env_without(&[Slot::MakeFunction]);
    let mut fake = Fake::new();
    let mut registry = Registry::new();
    registry.insert(greet());
    let mut loader = Loader::new(mylib(), registry);
    let mut action = loader.step(LoadEvent::Start);
    let status = loop {
        match action {
            LoadAction::Run(script) => {
                let mut run = Run::new(script);
                let event = match drive(&mut run, &env, &mut fake) {
                    Ok(()) => LoadEvent::Succeeded,
                    Err(_) => LoadEvent::Failed,
                };
                action = loader.step(event);
            }
            LoadAction::CallHook => panic!("the hook must not run"),
            LoadAction::Finish(status) => break status,
        }
    };
    assert_eq!(status, 1);
    assert_eq!(loader.state(), LoadState::Failed);
    assert!(fake.requests.is_empty());
    assert!(fake.provided.is_empty());
}
