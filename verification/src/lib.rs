//! The protocol core of a bridge between Rust and the Emacs dynamic-module
//! runtime.
//!
//! Nothing here touches the runtime. The bridge is written as plain values
//! and decisions: which primitive to call next, with which arguments, and
//! what an answer of the runtime means. A thin shell performs the calls and
//! reports what came back.

pub mod error;
pub mod exit;
pub mod func;
pub mod module;
pub mod registry;
pub mod run;
pub mod script;
pub mod table;
pub mod text;
pub mod value;
