//! The two directions in which a non-local exit crosses the bridge: what
//! the runtime reports after a call, and what Rust code hands back to the
//! runtime when it comes back.

use vstd::prelude::*;
use crate::error::{Error, ErrorKind, ErrorKindView, ErrorView, ERROR, PANIC, WRONG_TYPE_USER_PTR};
use crate::script::{local, signal_str_ops, OpView, Operand, RequestView, Script};
use crate::value::{RawValue, TempValue, Value};

verus! {

/// The status of a call that returned normally.
pub const RETURN: u32 = 0;

/// The status of a call that ended in a signal.
pub const SIGNAL: u32 = 1;

/// The status of a call that ended in a throw.
pub const THROW: u32 = 2;

/// How a call into the runtime ended.
#[derive(Clone, Copy, Debug, PartialEq, Eq, Structural)]
pub enum FuncallExit {
    Return,
    Signal,
    Throw,
}

/// The meaning of a status code; none for a code that the bridge does not
/// know.
pub open spec fn spec_classify(status: u32) -> Option<FuncallExit> {
    if status == RETURN {
        Some(FuncallExit::Return)
    } else if status == SIGNAL {
        Some(FuncallExit::Signal)
    } else if status == THROW {
        Some(FuncallExit::Throw)
    } else {
        None
    }
}

/// The meaning of a status code; none for a code that the bridge does not
/// know.
pub fn classify(status: u32) -> (r: Option<FuncallExit>)
    ensures
        r == spec_classify(status),
{
    if status == RETURN {
        Some(FuncallExit::Return)
    } else if status == SIGNAL {
        Some(FuncallExit::Signal)
    } else if status == THROW {
        Some(FuncallExit::Throw)
    } else {
        None
    }
}

/// The error that stands for a non-local exit with the two values that the
/// runtime reported for it.
pub open spec fn exit_error(exit: FuncallExit, first: RawValue, second: RawValue) -> ErrorView {
    match exit {
        FuncallExit::Signal => ErrorView::Kind(
            ErrorKindView::Signal { symbol: first, data: second },
        ),
        _ => ErrorView::Kind(ErrorKindView::Throw { tag: first, value: second }),
    }
}

/// What the state of the runtime after a call means for the caller.
pub struct Inspection<T> {
    /// The result of the call, or the exit that took its place.
    pub outcome: Result<T, Error>,
    /// Whether the pending exit has to be cleared in the runtime, once,
    /// before anything else is asked of it.
    pub clear: bool,
}

/// The error for a pending exit of the kind `exit`.
fn capture(exit: FuncallExit, first: RawValue, second: RawValue) -> (r: Error)
    requires
        exit != FuncallExit::Return,
    ensures
        r@ == exit_error(exit, first, second),
{
    match exit {
        FuncallExit::Signal => Error::Kind(
            ErrorKind::Signal { symbol: TempValue::new(first), data: TempValue::new(second) },
        ),
        _ => Error::Kind(
            ErrorKind::Throw { tag: TempValue::new(first), value: TempValue::new(second) },
        ),
    }
}

/// Reads what the runtime reports after a call that returned `result`:
/// its status, and the two values it holds for a pending exit.
///
/// After a normal return the result stands. After a signal or a throw the
/// two values are captured in the error that takes the place of the result,
/// and the pending exit has to be cleared.
pub fn handle_exit<T>(
    status: u32,
    symbol: RawValue,
    data: RawValue,
    result: T,
) -> (r: Inspection<T>)
    requires
        spec_classify(status) is Some,
    ensures
        r.clear == (status != RETURN),
        status == RETURN ==> r.outcome == Ok::<T, Error>(result),
        status != RETURN ==> (r.outcome matches Err(error) && error@ == exit_error(
            spec_classify(status)->0,
            symbol,
            data,
        )),
{
    match classify(status) {
        Some(FuncallExit::Return) => Inspection { outcome: Ok(result), clear: false },
        Some(exit) => Inspection { outcome: Err(capture(exit, symbol, data)), clear: true },
        None => {
            assert(false);
            vstd::pervasive::unreached()
        },
    }
}

/// What to do when control goes back to the runtime.
#[derive(Debug, Clone, PartialEq, Eq)]
pub enum ExitPlan {
    /// Return the value. Nothing is asked of the runtime.
    Return(RawValue),
    /// Run the script, which ends in a signal or a throw, and return the
    /// value that `token` stands for.
    Raise { script: Script, token: Operand },
}

/// What an [`ExitPlan`] says.
pub enum ExitPlanView {
    Return(RawValue),
    Raise { script: Seq<OpView>, token: Operand },
}

impl View for ExitPlan {
    type V = ExitPlanView;

    open spec fn view(&self) -> ExitPlanView {
        match *self {
            ExitPlan::Return(value) => ExitPlanView::Return(value),
            ExitPlan::Raise { script, token } => ExitPlanView::Raise { script: script@, token },
        }
    }
}

/// The plan that reports `message` under the condition `condition`.
pub open spec fn report_plan(condition: Seq<char>, message: Seq<char>) -> ExitPlanView {
    ExitPlanView::Raise { script: signal_str_ops(0, condition, message), token: local(4) }
}

/// The plan for the result of a Rust function.
pub open spec fn spec_maybe_exit(result: Result<Value, ErrorView>) -> ExitPlanView {
    match result {
        Ok(value) => ExitPlanView::Return(value.raw),
        Err(ErrorView::Kind(ErrorKindView::Signal { symbol, data })) => ExitPlanView::Raise {
            script: seq![OpView::Signal { symbol: Operand::Raw(symbol), data: Operand::Raw(data) }],
            token: local(0),
        },
        Err(ErrorView::Kind(ErrorKindView::Throw { tag, value })) => ExitPlanView::Raise {
            script: seq![OpView::Throw { tag: Operand::Raw(tag), value: Operand::Raw(value) }],
            token: local(0),
        },
        Err(error) => report_plan(error.condition()->0, error.message()),
    }
}

/// The plan for a Rust function that returned a raw value or panicked with
/// a payload that reads `text`.
pub open spec fn spec_handle_panic(result: Result<RawValue, Seq<char>>) -> ExitPlanView {
    match result {
        Ok(value) => ExitPlanView::Return(value),
        Err(text) => report_plan(PANIC@, text),
    }
}

/// The result of a Rust function with its error as what the error says.
pub open spec fn result_view(result: Result<Value, Error>) -> Result<Value, ErrorView> {
    match result {
        Ok(value) => Ok(value),
        Err(error) => Err(error@),
    }
}

/// The result of a caught call with the payload as what it reads.
pub open spec fn caught_view(result: Result<RawValue, String>) -> Result<RawValue, Seq<char>> {
    match result {
        Ok(value) => Ok(value),
        Err(text) => Err(text@),
    }
}

fn report(condition: &str, message: &str) -> (plan: ExitPlan)
    ensures
        plan@ == report_plan(condition@, message@),
{
    let mut script = Script::new();
    let token = script.signal_str(condition, message);
    assert(script@ =~= signal_str_ops(0, condition@, message@));
    ExitPlan::Raise { script, token }
}

/// Turns the result of a Rust function into what goes back to the runtime.
///
/// A value goes back as it is. A signal or a throw that came from the
/// runtime is raised again with the very values that were captured. Any
/// other error is rendered to its message and signaled under a condition of
/// the bridge: the one for a value of the wrong embedded type, or the one
/// for errors in general.
pub fn maybe_exit(result: Result<Value, Error>) -> (plan: ExitPlan)
    ensures
        plan@ == spec_maybe_exit(result_view(result)),
{
    match result {
        Ok(value) => ExitPlan::Return(value.raw),
        Err(error) => {
            match error.downcast_ref() {
                Some(ErrorKind::Signal { symbol, data }) => {
                    let mut script = Script::new();
                    let token = script.signal(
                        Operand::Raw(symbol.raw()),
                        Operand::Raw(data.raw()),
                    );
                    assert(script@ =~= seq![
                        OpView::Signal {
                            symbol: Operand::Raw(symbol@),
                            data: Operand::Raw(data@),
                        },
                    ]);
                    ExitPlan::Raise { script, token }
                },
                Some(ErrorKind::Throw { tag, value }) => {
                    let mut script = Script::new();
                    let token = script.throw(Operand::Raw(tag.raw()), Operand::Raw(value.raw()));
                    assert(script@ =~= seq![
                        OpView::Throw { tag: Operand::Raw(tag@), value: Operand::Raw(value@) },
                    ]);
                    ExitPlan::Raise { script, token }
                },
                Some(ErrorKind::TypeMismatch { .. }) => {
                    let message = error.message();
                    report(WRONG_TYPE_USER_PTR, message.as_str())
                },
                _ => {
                    let message = error.message();
                    report(ERROR, message.as_str())
                },
            }
        },
    }
}

/// Turns the result of a caught call into what goes back to the runtime:
/// the value where the call returned one, a signal under the condition for
/// panics where it panicked, with the text of the payload as its datum.
pub fn handle_panic(result: Result<RawValue, String>) -> (plan: ExitPlan)
    ensures
        plan@ == spec_handle_panic(caught_view(result)),
{
    match result {
        Ok(value) => ExitPlan::Return(value),
        Err(text) => report(PANIC, text.as_str()),
    }
}

/// A signal that passes through Rust code comes out as it went in: the
/// error captured from a pending signal becomes the plan to signal the same
/// symbol with the same data, and no other operation. The same holds of a
/// throw.
pub proof fn lemma_exit_round_trip(exit: FuncallExit, first: RawValue, second: RawValue)
    requires
        exit != FuncallExit::Return,
    ensures
        (spec_maybe_exit(Err(exit_error(exit, first, second))) matches ExitPlanView::Raise {
            script,
            ..
        } && script.len() == 1 && script[0].resolve(Seq::empty()) == (match exit {
            FuncallExit::Signal => RequestView::NonLocalExitSignal { symbol: first, data: second },
            _ => RequestView::NonLocalExitThrow { tag: first, value: second },
        })),
{
}

/// A panic is reported under a condition of its own: whatever the payload
/// reads and whatever error a function hands back, the plan for the panic is
/// not the plan for the error.
pub proof fn lemma_panic_is_told_apart(text: Seq<char>, error: ErrorView)
    ensures
        spec_handle_panic(Err(text)) != spec_maybe_exit(Err(error)),
        (spec_handle_panic(Err(text)) matches ExitPlanView::Raise { script, .. } && script[3]
            == (OpView::Intern { name: PANIC@ })),
{
    crate::error::lemma_conditions_distinct();
    let panic_script = signal_str_ops(0, PANIC@, text);
    assert(panic_script.len() == 5);
    assert(panic_script[3] == OpView::Intern { name: PANIC@ });
    match error {
        ErrorView::Kind(ErrorKindView::Signal { symbol, data }) => {
            assert(spec_maybe_exit(Err(error))->Raise_script.len() == 1);
        },
        ErrorView::Kind(ErrorKindView::Throw { tag, value }) => {
            assert(spec_maybe_exit(Err(error))->Raise_script.len() == 1);
        },
        _ => {
            let condition = error.condition()->0;
            let script = signal_str_ops(0, condition, error.message());
            assert(script[3] == OpView::Intern { name: condition });
            assert(condition != PANIC@);
        },
    }
}

} // verus!
