//! The errors that cross the bridge.

use vstd::prelude::*;
use vstd::string::*;
use crate::text::{hex_digits, push_hex};
use crate::value::{RawValue, TempValue};

verus! {

/// The condition that reports a value of the wrong embedded type.
pub const WRONG_TYPE_USER_PTR: &'static str = "rust-wrong-type-user-ptr";

/// The condition that reports an error returned by Rust code.
pub const ERROR: &'static str = "rust-error";

/// The condition that reports a panic in Rust code.
pub const PANIC: &'static str = "rust-panic";

/// The errors that the bridge itself knows.
#[derive(Debug, Clone, PartialEq, Eq)]
pub enum ErrorKind {
    /// An error signaled by Lisp code.
    Signal { symbol: TempValue, data: TempValue },
    /// A non-local exit thrown by Lisp code.
    Throw { tag: TempValue, value: TempValue },
    /// The runtime does not offer the named primitive.
    MissingCapability { name: String },
    /// A value did not have the expected embedded type.
    TypeMismatch { expected: String },
}

/// What an [`ErrorKind`] says, with its texts as sequences of characters.
pub enum ErrorKindView {
    Signal { symbol: RawValue, data: RawValue },
    Throw { tag: RawValue, value: RawValue },
    MissingCapability { name: Seq<char> },
    TypeMismatch { expected: Seq<char> },
}

impl View for ErrorKind {
    type V = ErrorKindView;

    open spec fn view(&self) -> ErrorKindView {
        match *self {
            ErrorKind::Signal { symbol, data } => ErrorKindView::Signal {
                symbol: symbol@,
                data: data@,
            },
            ErrorKind::Throw { tag, value } => ErrorKindView::Throw { tag: tag@, value: value@ },
            ErrorKind::MissingCapability { name } => ErrorKindView::MissingCapability {
                name: name@,
            },
            ErrorKind::TypeMismatch { expected } => ErrorKindView::TypeMismatch {
                expected: expected@,
            },
        }
    }
}

/// How a captured value is written in a message.
pub open spec fn temp_value_text(raw: RawValue) -> Seq<char> {
    "TempValue { raw: 0x"@ + hex_digits(raw.addr as nat) + " }"@
}

impl ErrorKindView {
    /// The message of the error.
    pub open spec fn message(self) -> Seq<char> {
        match self {
            ErrorKindView::Signal { symbol, data } => "Non-local signal: symbol="@
                + temp_value_text(symbol) + " data="@ + temp_value_text(data),
            ErrorKindView::Throw { tag, value } => "Non-local throw: tag="@ + temp_value_text(tag)
                + " value="@ + temp_value_text(value),
            ErrorKindView::MissingCapability { name } => "Required function "@ + name
                + " cannot be found"@,
            ErrorKindView::TypeMismatch { expected } => "expected: "@ + expected,
        }
    }

    /// The error is a non-local exit of the runtime, to be raised again as
    /// it was.
    pub open spec fn is_exit(self) -> bool {
        self is Signal || self is Throw
    }
}

fn push_temp_value(out: &mut String, value: &TempValue)
    ensures
        final(out)@ == old(out)@ + temp_value_text(value@),
{
    out.append("TempValue { raw: 0x");
    push_hex(out, value.raw().addr);
    out.append(" }");
    assert(out@ =~= old(out)@ + temp_value_text(value@));
}

impl ErrorKind {
    /// Renders the error for a human reader.
    pub fn message(&self) -> (r: String)
        ensures
            r@ == self@.message(),
    {
        match self {
            ErrorKind::Signal { symbol, data } => {
                let mut out = "Non-local signal: symbol=".to_owned();
                push_temp_value(&mut out, symbol);
                out.append(" data=");
                push_temp_value(&mut out, data);
                assert(out@ =~= self@.message());
                out
            },
            ErrorKind::Throw { tag, value } => {
                let mut out = "Non-local throw: tag=".to_owned();
                push_temp_value(&mut out, tag);
                out.append(" value=");
                push_temp_value(&mut out, value);
                assert(out@ =~= self@.message());
                out
            },
            ErrorKind::MissingCapability { name } => {
                let mut out = "Required function ".to_owned();
                out.append(name.as_str());
                out.append(" cannot be found");
                assert(out@ =~= self@.message());
                out
            },
            ErrorKind::TypeMismatch { expected } => {
                let mut out = "expected: ".to_owned();
                out.append(expected.as_str());
                assert(out@ =~= self@.message());
                out
            },
        }
    }

    /// Tells the two non-local exits of the runtime from the errors that the
    /// bridge reports in its own name.
    pub fn is_exit(&self) -> (r: bool)
        ensures
            r == self@.is_exit(),
    {
        match self {
            ErrorKind::Signal { .. } => true,
            ErrorKind::Throw { .. } => true,
            _ => false,
        }
    }
}

/// Any error that Rust code hands to the bridge: one the bridge knows, or
/// one of another origin, of which only the message is kept.
#[derive(Debug, Clone, PartialEq, Eq)]
pub enum Error {
    Kind(ErrorKind),
    Other(String),
}

/// What an [`Error`] says.
pub enum ErrorView {
    Kind(ErrorKindView),
    Other(Seq<char>),
}

impl View for Error {
    type V = ErrorView;

    open spec fn view(&self) -> ErrorView {
        match *self {
            Error::Kind(kind) => ErrorView::Kind(kind@),
            Error::Other(message) => ErrorView::Other(message@),
        }
    }
}

impl ErrorView {
    /// The message of the error.
    pub open spec fn message(self) -> Seq<char> {
        match self {
            ErrorView::Kind(kind) => kind.message(),
            ErrorView::Other(message) => message,
        }
    }

    /// The condition under which the bridge reports the error, where it
    /// does: a non-local exit of the runtime is raised again as it is,
    /// under no name of the bridge.
    pub open spec fn condition(self) -> Option<Seq<char>> {
        match self {
            ErrorView::Kind(ErrorKindView::Signal { .. }) => None,
            ErrorView::Kind(ErrorKindView::Throw { .. }) => None,
            ErrorView::Kind(ErrorKindView::TypeMismatch { .. }) => Some(WRONG_TYPE_USER_PTR@),
            _ => Some(ERROR@),
        }
    }
}

impl Error {
    /// An error of another origin, kept by its message.
    pub fn other(message: &str) -> (r: Error)
        ensures
            r@ == ErrorView::Other(message@),
    {
        Error::Other(message.to_owned())
    }

    /// The error as one the bridge knows, where it is one.
    pub fn downcast_ref(&self) -> (r: Option<&ErrorKind>)
        ensures
            (match self@ {
                ErrorView::Kind(kind) => r is Some && r->0@ == kind,
                ErrorView::Other(_) => r is None,
            }),
    {
        match self {
            Error::Kind(kind) => Some(kind),
            Error::Other(_) => None,
        }
    }

    /// Renders the error for a human reader.
    pub fn message(&self) -> (r: String)
        ensures
            r@ == self@.message(),
    {
        match self {
            Error::Kind(kind) => kind.message(),
            Error::Other(message) => message.clone(),
        }
    }
}

impl From<ErrorKind> for Error {
    fn from(kind: ErrorKind) -> (r: Error) {
        Error::Kind(kind)
    }
}

impl vstd::std_specs::convert::FromSpecImpl<ErrorKind> for Error {
    open spec fn obeys_from_spec() -> bool {
        true
    }

    open spec fn from_spec(kind: ErrorKind) -> Error {
        Error::Kind(kind)
    }
}

/// The message of a missing primitive names the primitive: the name stands
/// in it, whole, after the opening words.
pub proof fn lemma_missing_capability_names(name: Seq<char>)
    ensures
        ({
            let message = (ErrorKindView::MissingCapability { name }).message();
            let start = "Required function "@.len() as int;
            &&& start + name.len() <= message.len()
            &&& message.subrange(start, start + name.len()) == name
        }),
{
    let message = (ErrorKindView::MissingCapability { name }).message();
    let start = "Required function "@.len() as int;
    assert(message.subrange(start, start + name.len()) =~= name);
}

/// The three conditions of the bridge are told apart by name.
pub proof fn lemma_conditions_distinct()
    ensures
        PANIC@ != ERROR@,
        PANIC@ != WRONG_TYPE_USER_PTR@,
        ERROR@ != WRONG_TYPE_USER_PTR@,
{
    reveal_strlit("rust-panic");
    reveal_strlit("rust-error");
    reveal_strlit("rust-wrong-type-user-ptr");
    assert(PANIC@[5] == 'p');
    assert(ERROR@[5] == 'e');
    assert(PANIC@.len() == 10);
    assert(ERROR@.len() == 10);
    assert(WRONG_TYPE_USER_PTR@.len() == 24);
}

} // verus!
