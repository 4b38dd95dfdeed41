//! Handles into the value space of the runtime.

use vstd::prelude::*;
use crate::table::Env;

verus! {

/// A value of the runtime, as the runtime hands it out: a token the size of
/// a pointer. The bridge never looks inside; it only hands the token back to
/// the runtime instance it came from.
#[derive(Clone, Copy, Debug, PartialEq, Eq, Structural)]
pub struct RawValue {
    pub addr: usize,
}

/// A raw value together with the runtime instance that issued it.
#[derive(Clone, Copy, Debug, PartialEq, Eq, Structural)]
pub struct Value {
    pub raw: RawValue,
    pub env: usize,
}

/// A value captured from a non-local exit. It outlives the call that
/// produced it only as a token: it owns nothing, and it means something only
/// to the runtime instance in which the exit happened.
#[derive(Clone, Copy, Debug, PartialEq, Eq, Structural)]
pub struct TempValue {
    raw: RawValue,
}

impl View for TempValue {
    type V = RawValue;

    closed spec fn view(&self) -> RawValue {
        self.raw
    }
}

impl TempValue {
    /// Captures a raw value.
    pub fn new(raw: RawValue) -> (r: TempValue)
        ensures
            r@ == raw,
    {
        TempValue { raw }
    }

    /// The captured token.
    pub fn raw(&self) -> (r: RawValue)
        ensures
            r == self@,
    {
        self.raw
    }

    /// The captured value as a value of `env`. It is the caller's part to
    /// pass the runtime instance in which the exit happened.
    pub fn value(&self, env: &Env) -> (r: Value)
        ensures
            r.raw == self@,
            r.env == env.id,
    {
        Value { raw: self.raw, env: env.id }
    }
}

} // verus!
