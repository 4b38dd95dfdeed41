//! The run of a script against a runtime, one call at a time.
//!
//! A run decides and never acts. It says which primitive is to be called
//! next and takes what the call returned; whoever holds the runtime makes
//! the call. After each call that returns a value the run asks for the
//! exit state of the runtime. A pending exit is cleared, once, and ends the
//! run with the error that stands for it.

use vstd::prelude::*;
use crate::error::{Error, ErrorKind, ErrorKindView, ErrorView};
use crate::exit::{exit_error, handle_exit, spec_classify, FuncallExit, RETURN};
use crate::script::{well_formed, OpView, Operand, Request, RequestView, Script};
use crate::table::{EntryPoint, Env, Slot};
use crate::text::{c_safe, decimal_digits, nul_position, push_decimal};
use crate::value::RawValue;
use vstd::string::*;

verus! {

/// The message of the error that ends a run on an event that it did not
/// wait for.
pub const OUT_OF_TURN: &'static str = "event out of turn";

/// The message of the error that ends a run on an operand that names no
/// earlier operation.
pub const DANGLING_OPERAND: &'static str = "operand names no earlier result";

/// The opening words of the error that ends a run on a text with a zero
/// byte where a C string is needed.
pub const NUL_FOUND: &'static str = "nul byte found in provided data at position: ";

/// Where a run stands.
#[derive(Clone, Copy, Debug, PartialEq, Eq, Structural)]
pub enum Phase {
    /// Nothing has been asked yet.
    Fresh,
    /// A call that returns a value is under way.
    Called,
    /// A signal or a throw is under way; `token` will stand for it.
    Raising { token: RawValue },
    /// The call returned `value`; the exit state has been asked for.
    Inspecting { value: RawValue },
    /// An exit was pending; its clearing is under way.
    Clearing,
    /// The run is over.
    Finished,
}

/// What the holder of the runtime reports to a run.
#[derive(Clone, Copy, Debug, PartialEq, Eq, Structural)]
pub enum Event {
    /// The run may begin.
    Start,
    /// The call returned this value.
    Returned(RawValue),
    /// The call, which returns nothing, is done.
    Completed,
    /// The exit state of the runtime: its status and the two values it
    /// holds for a pending exit.
    ExitState { status: u32, symbol: RawValue, data: RawValue },
}

/// What a run asks of the holder of the runtime.
#[derive(Debug, PartialEq, Eq)]
pub enum Action {
    /// Make this call and report what it returned.
    Invoke(Request),
    /// The run is over, with this outcome.
    Finish(Result<(), Error>),
}

/// What an [`Action`] says.
pub enum ActionView {
    Invoke(RequestView),
    Finish(Result<(), ErrorView>),
}

/// The outcome of a run with its error as what the error says.
pub open spec fn outcome_view(outcome: Result<(), Error>) -> Result<(), ErrorView> {
    match outcome {
        Ok(_) => Ok(()),
        Err(error) => Err(error@),
    }
}

impl View for Action {
    type V = ActionView;

    open spec fn view(&self) -> ActionView {
        match *self {
            Action::Invoke(request) => ActionView::Invoke(request@),
            Action::Finish(outcome) => ActionView::Finish(outcome_view(outcome)),
        }
    }
}

/// The error for a primitive that the runtime does not offer.
pub open spec fn missing(slot: Slot) -> ErrorView {
    ErrorView::Kind(ErrorKindView::MissingCapability { name: slot.spec_name() })
}

/// The error for a text that holds a zero byte where a C string is needed.
pub open spec fn nul_error(text: Seq<char>) -> ErrorView {
    ErrorView::Other(NUL_FOUND@ + decimal_digits(nul_position(text) as nat))
}

/// A run of a script.
#[derive(Debug, Clone, PartialEq, Eq)]
pub struct Run {
    script: Script,
    results: Vec<RawValue>,
    phase: Phase,
    pending: Option<Error>,
}

/// What a [`Run`] holds: its script, what the operations so far returned,
/// where it stands, and the error of a pending exit while that is cleared.
pub struct RunView {
    pub script: Seq<OpView>,
    pub results: Seq<RawValue>,
    pub phase: Phase,
    pub pending: Option<ErrorView>,
}

impl View for Run {
    type V = RunView;

    closed spec fn view(&self) -> RunView {
        RunView {
            script: self.script@,
            results: self.results@,
            phase: self.phase,
            pending: match self.pending {
                Some(error) => Some(error@),
                None => None,
            },
        }
    }
}

impl RunView {
    /// The run of `script` before anything is asked.
    pub open spec fn fresh(script: Seq<OpView>) -> RunView {
        RunView { script, results: Seq::empty(), phase: Phase::Fresh, pending: None }
    }

    /// The end of the run, with `outcome`.
    pub open spec fn finish(self, outcome: Result<(), ErrorView>) -> (RunView, ActionView) {
        (RunView { phase: Phase::Finished, pending: None, ..self }, ActionView::Finish(outcome))
    }

    /// What the run does when it is free to go on: it ends where the script
    /// does, and else turns to the next operation. A primitive that the
    /// runtime does not offer ends the run, unless it is a critical one. So
    /// does a zero byte in a text that goes out as a C string, and an
    /// operand that names no earlier operation. Otherwise the call is made.
    pub open spec fn proceed(self, table: Map<Slot, EntryPoint>) -> (RunView, ActionView) {
        if self.results.len() >= self.script.len() {
            self.finish(Ok(()))
        } else {
            let op = self.script[self.results.len() as int];
            if !op.slot().spec_is_critical() && !table.contains_key(op.slot()) {
                self.finish(Err(missing(op.slot())))
            } else if op.c_text() is Some && !c_safe(op.c_text()->0) {
                self.finish(Err(nul_error(op.c_text()->0)))
            } else if !op.admitted(self.results.len() as int) {
                self.finish(Err(ErrorView::Other(DANGLING_OPERAND@)))
            } else {
                let request = op.resolve(self.results);
                let phase = match request.raise_token() {
                    Some(token) => Phase::Raising { token },
                    None => Phase::Called,
                };
                (RunView { phase, ..self }, ActionView::Invoke(request))
            }
        }
    }

    /// The run after `event`, and what it asks next. An event that the run
    /// did not wait for ends it with an error; so does, here, a status that
    /// the bridge does not know, which no holder of a runtime may report.
    pub open spec fn step(self, table: Map<Slot, EntryPoint>, event: Event) -> (
        RunView,
        ActionView,
    ) {
        match (self.phase, event) {
            (Phase::Fresh, Event::Start) => self.proceed(table),
            (Phase::Called, Event::Returned(value)) => (
                RunView { phase: Phase::Inspecting { value }, ..self },
                ActionView::Invoke(RequestView::NonLocalExitGet),
            ),
            (Phase::Raising { token }, Event::Completed) => RunView {
                results: self.results.push(token),
                ..self
            }.finish(Ok(())),
            (Phase::Inspecting { value }, Event::ExitState { status, symbol, data }) => {
                match spec_classify(status) {
                    Some(FuncallExit::Return) => RunView {
                        results: self.results.push(value),
                        ..self
                    }.proceed(table),
                    Some(exit) => (
                        RunView {
                            phase: Phase::Clearing,
                            pending: Some(exit_error(exit, symbol, data)),
                            ..self
                        },
                        ActionView::Invoke(RequestView::NonLocalExitClear),
                    ),
                    None => self.finish(Err(ErrorView::Other(OUT_OF_TURN@))),
                }
            },
            (Phase::Clearing, Event::Completed) => match self.pending {
                Some(error) => self.finish(Err(error)),
                None => self.finish(Err(ErrorView::Other(OUT_OF_TURN@))),
            },
            _ => self.finish(Err(ErrorView::Other(OUT_OF_TURN@))),
        }
    }
}

impl RunView {
    /// The run is in order: its script uses only what earlier operations
    /// return, it holds a result for each operation that returned and for
    /// no other, and it holds the error of a pending exit exactly while
    /// that exit is cleared.
    pub open spec fn sound(self) -> bool {
        &&& well_formed(self.script)
        &&& self.results.len() <= self.script.len()
        &&& (self.phase is Called || self.phase is Raising || self.phase is Inspecting)
            ==> self.results.len() < self.script.len()
        &&& self.phase == Phase::Clearing <==> self.pending is Some
        &&& self.pending matches Some(error) ==> (error matches ErrorView::Kind(kind)
            && kind.is_exit())
    }
}

impl Run {
    /// The run of `script`, before anything is asked.
    pub fn new(script: Script) -> (r: Run)
        ensures
            r@ == RunView::fresh(script@),
    {
        Run { script, results: Vec::new(), phase: Phase::Fresh, pending: None }
    }

    /// Where the run stands.
    pub fn phase(&self) -> (r: Phase)
        ensures
            r == self@.phase,
    {
        self.phase
    }

    /// Whether the run is over.
    pub fn is_finished(&self) -> (r: bool)
        ensures
            r == (self@.phase == Phase::Finished),
    {
        match self.phase {
            Phase::Finished => true,
            _ => false,
        }
    }

    /// The value that `operand` stands for, where the operation it names
    /// has returned.
    pub fn value_of(&self, operand: Operand) -> (r: Option<RawValue>)
        ensures
            r == (if operand.admitted(self@.results.len() as int) {
                Some(operand.spec_resolve(self@.results))
            } else {
                None
            }),
    {
        operand.resolve(&self.results)
    }

    fn finish(&mut self, outcome: Result<(), Error>) -> (action: Action)
        ensures
            final(self)@ == old(self)@.finish(outcome_view(outcome)).0,
            action@ == old(self)@.finish(outcome_view(outcome)).1,
    {
        self.phase = Phase::Finished;
        self.pending = None;
        Action::Finish(outcome)
    }

    fn proceed(&mut self, env: &Env) -> (action: Action)
        ensures
            final(self)@ == old(self)@.proceed(env.table@).0,
            action@ == old(self)@.proceed(env.table@).1,
    {
        let place = self.results.len();
        let next = match self.script.op(place) {
            None => Err(Ok(())),
            Some(op) => {
                let slot = op.slot();
                if !slot.is_critical() && !env.has(slot) {
                    Err(Err(Error::Kind(ErrorKind::MissingCapability { name: slot.name().to_owned() })))
                } else {
                    match op.find_nul() {
                        Some(position) => {
                            let mut message = NUL_FOUND.to_owned();
                            push_decimal(&mut message, position);
                            Err(Err(Error::Other(message)))
                        },
                        None => match op.resolve(&self.results) {
                            None => Err(Err(Error::other(DANGLING_OPERAND))),
                            Some(request) => Ok(request),
                        },
                    }
                }
            },
        };
        match next {
            Err(outcome) => self.finish(outcome),
            Ok(request) => {
                self.phase = match request.raise_token() {
                    Some(token) => Phase::Raising { token },
                    None => Phase::Called,
                };
                Action::Invoke(request)
            },
        }
    }

    /// Takes `event` and says what to do next.
    ///
    /// An event that the run did not wait for ends it with an error: a run
    /// takes each answer once.
    pub fn step(&mut self, env: &Env, event: Event) -> (action: Action)
        requires
            event matches Event::ExitState { status, .. } ==> spec_classify(status) is Some,
        ensures
            final(self)@ == old(self)@.step(env.table@, event).0,
            action@ == old(self)@.step(env.table@, event).1,
            (action@ matches ActionView::Invoke(request) ==> {
                &&& request.slot().spec_is_critical() || env.table@.contains_key(request.slot())
                &&& request.c_text() matches Some(text) ==> c_safe(text)
            }),
    {
        proof {
            lemma_calls_can_be_made(old(self)@, env.table@, event);
        }
        match (self.phase, event) {
            (Phase::Fresh, Event::Start) => self.proceed(env),
            (Phase::Called, Event::Returned(value)) => {
                self.phase = Phase::Inspecting { value };
                Action::Invoke(Request::NonLocalExitGet)
            },
            (Phase::Raising { token }, Event::Completed) => {
                self.results.push(token);
                self.finish(Ok(()))
            },
            (Phase::Inspecting { value }, Event::ExitState { status, symbol, data }) => {
                let inspection = handle_exit(status, symbol, data, value);
                match inspection.outcome {
                    Ok(value) => {
                        self.results.push(value);
                        self.proceed(env)
                    },
                    Err(error) => {
                        self.phase = Phase::Clearing;
                        self.pending = Some(error);
                        Action::Invoke(Request::NonLocalExitClear)
                    },
                }
            },
            (Phase::Clearing, Event::Completed) => {
                match self.pending.take() {
                    Some(error) => self.finish(Err(error)),
                    None => self.finish(Err(Error::other(OUT_OF_TURN))),
                }
            },
            _ => self.finish(Err(Error::other(OUT_OF_TURN))),
        }
    }
}

/// A run asks only for calls that can be made: through a slot that the
/// runtime offers, unless the slot is a critical one, and with texts that
/// can go out as C strings.
pub proof fn lemma_calls_can_be_made(run: RunView, table: Map<Slot, EntryPoint>, event: Event)
    ensures
        (run.step(table, event).1 matches ActionView::Invoke(request) ==> {
            &&& request.slot().spec_is_critical() || table.contains_key(request.slot())
            &&& request.c_text() matches Some(text) ==> c_safe(text)
        }),
{
}

/// A run of a script that is in order begins in order, and stays so whatever
/// is reported to it.
pub proof fn lemma_run_stays_sound(run: RunView, table: Map<Slot, EntryPoint>, event: Event)
    requires
        run.sound(),
    ensures
        run.step(table, event).0.sound(),
        well_formed(run.script) ==> RunView::fresh(run.script).sound(),
{
}

/// A run that is in order never ends on an operand that names no earlier
/// operation.
pub proof fn lemma_sound_run_never_dangles(
    run: RunView,
    table: Map<Slot, EntryPoint>,
    event: Event,
)
    requires
        run.sound(),
    ensures
        run.step(table, event).1 != ActionView::Finish(
            Err(ErrorView::Other(DANGLING_OPERAND@)),
        ),
{
    reveal_strlit("event out of turn");
    reveal_strlit("operand names no earlier result");
    reveal_strlit("nul byte found in provided data at position: ");
    assert(OUT_OF_TURN@[0] == 'e');
    assert(DANGLING_OPERAND@[0] == 'o');
    assert(NUL_FOUND@[0] == 'n');
    assert forall|text: Seq<char>| nul_error(text) != ErrorView::Other(DANGLING_OPERAND@) by {
        let message = NUL_FOUND@ + decimal_digits(nul_position(text) as nat);
        assert(message[0] == 'n');
    }
}

/// The number of times that a run asks for the pending exit to be cleared
/// while it takes `events`, one after the other.
pub open spec fn clears_in(run: RunView, table: Map<Slot, EntryPoint>, events: Seq<Event>) -> nat
    decreases events.len(),
{
    if events.len() == 0 {
        0
    } else {
        let (next, action) = run.step(table, events[0]);
        let here: nat = if action == ActionView::Invoke(RequestView::NonLocalExitClear) {
            1
        } else {
            0
        };
        here + clears_in(next, table, events.drop_first())
    }
}

/// The number of calls that a run asks for while it takes `events`, one
/// after the other.
pub open spec fn calls_in(run: RunView, table: Map<Slot, EntryPoint>, events: Seq<Event>) -> nat
    decreases events.len(),
{
    if events.len() == 0 {
        0
    } else {
        let (next, action) = run.step(table, events[0]);
        let here: nat = if action is Invoke {
            1
        } else {
            0
        };
        here + calls_in(next, table, events.drop_first())
    }
}

/// A run that asked for the exit state asks for the pending exit to be
/// cleared exactly when the status is not that of a normal return. After a
/// normal return the value of the call is kept and the run goes on; after a
/// signal or a throw the run holds the error that stands for the exit.
pub proof fn lemma_clear_iff_exit_pending(
    run: RunView,
    table: Map<Slot, EntryPoint>,
    value: RawValue,
    status: u32,
    symbol: RawValue,
    data: RawValue,
)
    requires
        run.phase == (Phase::Inspecting { value }),
        spec_classify(status) is Some,
    ensures
        ({
            let (next, action) = run.step(table, Event::ExitState { status, symbol, data });
            &&& (action == ActionView::Invoke(RequestView::NonLocalExitClear)) <==> status
                != RETURN
            &&& status == RETURN ==> next.results == run.results.push(value)
            &&& status != RETURN ==> next.phase == Phase::Clearing && next.pending == Some(
                exit_error(spec_classify(status)->0, symbol, data),
            ) && next.results == run.results
        }),
{
}

/// The clearing of a pending exit ends the run with the error of that exit,
/// and a run that is over takes nothing more: whatever is reported to it
/// then, a second clearing too, is answered with an error and asks nothing
/// of the runtime.
pub proof fn lemma_cleared_run_is_over(
    run: RunView,
    table: Map<Slot, EntryPoint>,
    error: ErrorView,
    event: Event,
)
    requires
        run.phase == Phase::Clearing,
        run.pending == Some(error),
    ensures
        ({
            let (over, action) = run.step(table, Event::Completed);
            &&& action == ActionView::Finish(Err(error))
            &&& over.phase == Phase::Finished
            &&& over.step(table, event).1 == ActionView::Finish(
                Err(ErrorView::Other(OUT_OF_TURN@)),
            )
            &&& over.step(table, event).0.phase == Phase::Finished
        }),
{
}

/// A run that is over, or that is clearing a pending exit, never asks for a
/// clearing again.
pub proof fn lemma_no_clear_after_clear(
    run: RunView,
    table: Map<Slot, EntryPoint>,
    events: Seq<Event>,
)
    requires
        run.phase == Phase::Clearing || run.phase == Phase::Finished,
    ensures
        clears_in(run, table, events) == 0,
    decreases events.len(),
{
    if events.len() > 0 {
        let (next, action) = run.step(table, events[0]);
        assert(next.phase == Phase::Finished);
        lemma_no_clear_after_clear(next, table, events.drop_first());
    }
}

/// Whatever is reported to a run, and in whatever order, it asks at most
/// once for the pending exit to be cleared.
pub proof fn lemma_at_most_one_clear(
    run: RunView,
    table: Map<Slot, EntryPoint>,
    events: Seq<Event>,
)
    ensures
        clears_in(run, table, events) <= 1,
    decreases events.len(),
{
    if events.len() > 0 {
        let (next, action) = run.step(table, events[0]);
        if action == ActionView::Invoke(RequestView::NonLocalExitClear) {
            assert(next.phase == Phase::Clearing);
            lemma_no_clear_after_clear(next, table, events.drop_first());
        } else {
            lemma_at_most_one_clear(next, table, events.drop_first());
        }
    }
}

/// A run that is over asks for no call, whatever is reported to it.
pub proof fn lemma_finished_asks_nothing(
    run: RunView,
    table: Map<Slot, EntryPoint>,
    events: Seq<Event>,
)
    requires
        run.phase == Phase::Finished,
    ensures
        calls_in(run, table, events) == 0,
    decreases events.len(),
{
    if events.len() > 0 {
        let (next, action) = run.step(table, events[0]);
        lemma_finished_asks_nothing(next, table, events.drop_first());
    }
}

/// Where the runtime does not offer the primitive of the first operation,
/// the run ends at once with the error that names the primitive, and no
/// call is ever asked for.
pub proof fn lemma_missing_primitive_stops(
    script: Seq<OpView>,
    table: Map<Slot, EntryPoint>,
    events: Seq<Event>,
)
    requires
        script.len() > 0,
        !script[0].slot().spec_is_critical(),
        !table.contains_key(script[0].slot()),
    ensures
        RunView::fresh(script).step(table, Event::Start).1 == ActionView::Finish(
            Err(missing(script[0].slot())),
        ),
        calls_in(RunView::fresh(script), table, seq![Event::Start] + events) == 0,
{
    let run = RunView::fresh(script);
    let (next, action) = run.step(table, Event::Start);
    let all = seq![Event::Start] + events;
    assert(all[0] == Event::Start);
    assert(all.drop_first() =~= events);
    lemma_finished_asks_nothing(next, table, events);
}

} // verus!
