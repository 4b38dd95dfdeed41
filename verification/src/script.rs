//! Scripts: the calls that Rust code wants made into the runtime, written
//! down in order before any of them is made.
//!
//! A script is a straight line of operations. An operation may use what an
//! earlier one returned, by naming the place of that operation in the
//! script. The methods that write a script read like the calls they stand
//! for, and hand back an operand in place of a value.

use vstd::prelude::*;
use crate::error::{ERROR, PANIC, WRONG_TYPE_USER_PTR};
use crate::table::Slot;
use crate::text::{c_safe, find_nul, is_first_nul, nul_position};
use crate::value::RawValue;
use vstd::utf8::encode_utf8;

verus! {

/// The entry address of a Rust function that the runtime may call.
#[derive(Clone, Copy, Debug, PartialEq, Eq, Structural)]
pub struct Subr {
    pub addr: usize,
}

/// An argument of an operation: a value already in hand, or the value that
/// the operation at the given place of the script will have returned.
#[derive(Clone, Copy, Debug, PartialEq, Eq, Structural)]
pub enum Operand {
    Raw(RawValue),
    Local(usize),
}

/// The operand that names the operation at place `i`.
pub open spec fn local(i: int) -> Operand {
    Operand::Local(i as usize)
}

impl Operand {
    /// The operand can stand in an operation at place `count`: it names no
    /// operation at or after that place.
    pub open spec fn admitted(self, count: int) -> bool {
        match self {
            Operand::Raw(_) => true,
            Operand::Local(i) => i < count,
        }
    }

    /// The value that the operand stands for, given what the operations so
    /// far have returned.
    pub open spec fn spec_resolve(self, results: Seq<RawValue>) -> RawValue {
        match self {
            Operand::Raw(value) => value,
            Operand::Local(i) => results[i as int],
        }
    }

    /// The value that the operand stands for, given what the operations so
    /// far have returned; nothing where it names an operation that has not
    /// returned yet.
    pub fn resolve(&self, results: &Vec<RawValue>) -> (r: Option<RawValue>)
        ensures
            r == (if self.admitted(results@.len() as int) {
                Some(self.spec_resolve(results@))
            } else {
                None
            }),
    {
        match self {
            Operand::Raw(value) => Some(*value),
            Operand::Local(i) => if *i < results.len() {
                Some(results[*i])
            } else {
                None
            },
        }
    }
}

/// Every operand of `args` can stand in an operation at place `count`.
pub open spec fn all_admitted(args: Seq<Operand>, count: int) -> bool {
    forall|i: int| 0 <= i < args.len() ==> (#[trigger] args[i]).admitted(count)
}

/// The values that the operands stand for.
pub open spec fn resolve_all(args: Seq<Operand>, results: Seq<RawValue>) -> Seq<RawValue> {
    Seq::new(args.len(), |i: int| args[i].spec_resolve(results))
}

/// One planned call of a primitive.
#[derive(Debug, Clone, PartialEq, Eq)]
#[allow(inconsistent_fields)]
pub enum Op {
    Intern { name: String },
    MakeString { contents: String },
    MakeFunction { min_arity: isize, max_arity: isize, function: Subr, doc: String, data: usize },
    Funcall { function: Operand, args: Vec<Operand> },
    Signal { symbol: Operand, data: Operand },
    Throw { tag: Operand, value: Operand },
}

/// What an [`Op`] says.
#[allow(inconsistent_fields)]
pub enum OpView {
    Intern { name: Seq<char> },
    MakeString { contents: Seq<char> },
    MakeFunction {
        min_arity: isize,
        max_arity: isize,
        function: Subr,
        doc: Seq<char>,
        data: usize,
    },
    Funcall { function: Operand, args: Seq<Operand> },
    Signal { symbol: Operand, data: Operand },
    Throw { tag: Operand, value: Operand },
}

impl View for Op {
    type V = OpView;

    open spec fn view(&self) -> OpView {
        match *self {
            Op::Intern { name } => OpView::Intern { name: name@ },
            Op::MakeString { contents } => OpView::MakeString { contents: contents@ },
            Op::MakeFunction { min_arity, max_arity, function, doc, data } => OpView::MakeFunction {
                min_arity,
                max_arity,
                function,
                doc: doc@,
                data,
            },
            Op::Funcall { function, args } => OpView::Funcall { function, args: args@ },
            Op::Signal { symbol, data } => OpView::Signal { symbol, data },
            Op::Throw { tag, value } => OpView::Throw { tag, value },
        }
    }
}

/// One call of a primitive, with the values it is made with.
#[derive(Debug, Clone, PartialEq, Eq)]
#[allow(inconsistent_fields)]
pub enum Request {
    NonLocalExitGet,
    NonLocalExitClear,
    NonLocalExitSignal { symbol: RawValue, data: RawValue },
    NonLocalExitThrow { tag: RawValue, value: RawValue },
    MakeFunction { min_arity: isize, max_arity: isize, function: Subr, doc: String, data: usize },
    Funcall { function: RawValue, args: Vec<RawValue> },
    Intern { name: String },
    MakeString { contents: String },
}

/// What a [`Request`] says.
#[allow(inconsistent_fields)]
pub enum RequestView {
    NonLocalExitGet,
    NonLocalExitClear,
    NonLocalExitSignal { symbol: RawValue, data: RawValue },
    NonLocalExitThrow { tag: RawValue, value: RawValue },
    MakeFunction {
        min_arity: isize,
        max_arity: isize,
        function: Subr,
        doc: Seq<char>,
        data: usize,
    },
    Funcall { function: RawValue, args: Seq<RawValue> },
    Intern { name: Seq<char> },
    MakeString { contents: Seq<char> },
}

impl View for Request {
    type V = RequestView;

    open spec fn view(&self) -> RequestView {
        match *self {
            Request::NonLocalExitGet => RequestView::NonLocalExitGet,
            Request::NonLocalExitClear => RequestView::NonLocalExitClear,
            Request::NonLocalExitSignal { symbol, data } => RequestView::NonLocalExitSignal {
                symbol,
                data,
            },
            Request::NonLocalExitThrow { tag, value } => RequestView::NonLocalExitThrow {
                tag,
                value,
            },
            Request::MakeFunction {
                min_arity,
                max_arity,
                function,
                doc,
                data,
            } => RequestView::MakeFunction { min_arity, max_arity, function, doc: doc@, data },
            Request::Funcall { function, args } => RequestView::Funcall { function, args: args@ },
            Request::Intern { name } => RequestView::Intern { name: name@ },
            Request::MakeString { contents } => RequestView::MakeString { contents: contents@ },
        }
    }
}

impl RequestView {
    /// The slot of the dispatch table through which the call goes.
    pub open spec fn slot(self) -> Slot {
        match self {
            RequestView::NonLocalExitGet => Slot::NonLocalExitGet,
            RequestView::NonLocalExitClear => Slot::NonLocalExitClear,
            RequestView::NonLocalExitSignal { .. } => Slot::NonLocalExitSignal,
            RequestView::NonLocalExitThrow { .. } => Slot::NonLocalExitThrow,
            RequestView::MakeFunction { .. } => Slot::MakeFunction,
            RequestView::Funcall { .. } => Slot::Funcall,
            RequestView::Intern { .. } => Slot::Intern,
            RequestView::MakeString { .. } => Slot::MakeString,
        }
    }

    /// The text that the call hands to the runtime as a C string, where
    /// there is one.
    pub open spec fn c_text(self) -> Option<Seq<char>> {
        match self {
            RequestView::Intern { name } => Some(name),
            RequestView::MakeFunction { doc, .. } => Some(doc),
            _ => None,
        }
    }

    /// For a call that raises a non-local exit, the value that stands for
    /// the raise afterwards: the symbol of a signal, the tag of a throw.
    pub open spec fn raise_token(self) -> Option<RawValue> {
        match self {
            RequestView::NonLocalExitSignal { symbol, .. } => Some(symbol),
            RequestView::NonLocalExitThrow { tag, .. } => Some(tag),
            _ => None,
        }
    }
}

impl Request {
    /// For a call that raises a non-local exit, the value that stands for
    /// the raise afterwards.
    pub fn raise_token(&self) -> (r: Option<RawValue>)
        ensures
            r == self@.raise_token(),
    {
        match self {
            Request::NonLocalExitSignal { symbol, .. } => Some(*symbol),
            Request::NonLocalExitThrow { tag, .. } => Some(*tag),
            _ => None,
        }
    }

    /// The slot of the dispatch table through which the call goes.
    pub fn slot(&self) -> (r: Slot)
        ensures
            r == self@.slot(),
    {
        match self {
            Request::NonLocalExitGet => Slot::NonLocalExitGet,
            Request::NonLocalExitClear => Slot::NonLocalExitClear,
            Request::NonLocalExitSignal { .. } => Slot::NonLocalExitSignal,
            Request::NonLocalExitThrow { .. } => Slot::NonLocalExitThrow,
            Request::MakeFunction { .. } => Slot::MakeFunction,
            Request::Funcall { .. } => Slot::Funcall,
            Request::Intern { .. } => Slot::Intern,
            Request::MakeString { .. } => Slot::MakeString,
        }
    }
}

impl OpView {
    /// The slot of the dispatch table through which the operation goes.
    pub open spec fn slot(self) -> Slot {
        match self {
            OpView::Intern { .. } => Slot::Intern,
            OpView::MakeString { .. } => Slot::MakeString,
            OpView::MakeFunction { .. } => Slot::MakeFunction,
            OpView::Funcall { .. } => Slot::Funcall,
            OpView::Signal { .. } => Slot::NonLocalExitSignal,
            OpView::Throw { .. } => Slot::NonLocalExitThrow,
        }
    }

    /// The operation raises a non-local exit in the runtime. Nothing may be
    /// asked of the runtime after it.
    pub open spec fn is_raise(self) -> bool {
        self is Signal || self is Throw
    }

    /// The operation can stand at place `count` of a script: its operands
    /// name earlier operations only.
    pub open spec fn admitted(self, count: int) -> bool {
        match self {
            OpView::Funcall { function, args } => function.admitted(count) && all_admitted(
                args,
                count,
            ),
            OpView::Signal { symbol, data } => symbol.admitted(count) && data.admitted(count),
            OpView::Throw { tag, value } => tag.admitted(count) && value.admitted(count),
            _ => true,
        }
    }

    /// The text that the operation hands to the runtime as a C string, where
    /// there is one.
    pub open spec fn c_text(self) -> Option<Seq<char>> {
        match self {
            OpView::Intern { name } => Some(name),
            OpView::MakeFunction { doc, .. } => Some(doc),
            _ => None,
        }
    }

    /// The call that the operation becomes once the operations before it
    /// have returned `results`.
    pub open spec fn resolve(self, results: Seq<RawValue>) -> RequestView {
        match self {
            OpView::Intern { name } => RequestView::Intern { name },
            OpView::MakeString { contents } => RequestView::MakeString { contents },
            OpView::MakeFunction {
                min_arity,
                max_arity,
                function,
                doc,
                data,
            } => RequestView::MakeFunction { min_arity, max_arity, function, doc, data },
            OpView::Funcall { function, args } => RequestView::Funcall {
                function: function.spec_resolve(results),
                args: resolve_all(args, results),
            },
            OpView::Signal { symbol, data } => RequestView::NonLocalExitSignal {
                symbol: symbol.spec_resolve(results),
                data: data.spec_resolve(results),
            },
            OpView::Throw { tag, value } => RequestView::NonLocalExitThrow {
                tag: tag.spec_resolve(results),
                value: value.spec_resolve(results),
            },
        }
    }
}

fn resolve_operands(args: &Vec<Operand>, results: &Vec<RawValue>) -> (r: Option<Vec<RawValue>>)
    ensures
        (match r {
            Some(values) => all_admitted(args@, results@.len() as int) && values@ == resolve_all(
                args@,
                results@,
            ),
            None => !all_admitted(args@, results@.len() as int),
        }),
{
    let mut out: Vec<RawValue> = Vec::new();
    let mut i: usize = 0;
    while i < args.len()
        invariant
            i <= args@.len(),
            out@.len() == i,
            forall|j: int| 0 <= j < i ==> (#[trigger] args@[j]).admitted(results@.len() as int),
            forall|j: int| 0 <= j < i ==> out@[j] == args@[j].spec_resolve(results@),
        decreases args@.len() - i,
    {
        match args[i].resolve(results) {
            Some(value) => {
                out.push(value);
            },
            None => {
                return None;
            },
        }
        i += 1;
    }
    assert(out@ =~= resolve_all(args@, results@));
    Some(out)
}

impl Op {
    /// The slot of the dispatch table through which the operation goes.
    pub fn slot(&self) -> (r: Slot)
        ensures
            r == self@.slot(),
    {
        match self {
            Op::Intern { .. } => Slot::Intern,
            Op::MakeString { .. } => Slot::MakeString,
            Op::MakeFunction { .. } => Slot::MakeFunction,
            Op::Funcall { .. } => Slot::Funcall,
            Op::Signal { .. } => Slot::NonLocalExitSignal,
            Op::Throw { .. } => Slot::NonLocalExitThrow,
        }
    }

    /// Whether the operation raises a non-local exit.
    pub fn is_raise(&self) -> (r: bool)
        ensures
            r == self@.is_raise(),
    {
        match self {
            Op::Signal { .. } => true,
            Op::Throw { .. } => true,
            _ => false,
        }
    }

    /// Looks for a zero byte in the text that the operation hands to the
    /// runtime as a C string.
    pub fn find_nul(&self) -> (r: Option<usize>)
        ensures
            (match r {
                Some(p) => self@.c_text() is Some && is_first_nul(
                    encode_utf8(self@.c_text()->0),
                    p as int,
                ) && p == nul_position(self@.c_text()->0),
                None => self@.c_text() matches Some(text) ==> c_safe(text),
            }),
    {
        match self {
            Op::Intern { name } => find_nul(name.as_str()),
            Op::MakeFunction { doc, .. } => find_nul(doc.as_str()),
            _ => None,
        }
    }

    /// The call that the operation becomes once the operations before it
    /// have returned `results`; nothing where an operand names an operation
    /// that has not returned yet.
    pub fn resolve(&self, results: &Vec<RawValue>) -> (r: Option<Request>)
        ensures
            (match r {
                Some(request) => self@.admitted(results@.len() as int) && request@
                    == self@.resolve(results@),
                None => !self@.admitted(results@.len() as int),
            }),
    {
        match self {
            Op::Intern { name } => Some(Request::Intern { name: name.clone() }),
            Op::MakeString { contents } => Some(Request::MakeString { contents: contents.clone() }),
            Op::MakeFunction { min_arity, max_arity, function, doc, data } => Some(
                Request::MakeFunction {
                    min_arity: *min_arity,
                    max_arity: *max_arity,
                    function: *function,
                    doc: doc.clone(),
                    data: *data,
                },
            ),
            Op::Funcall { function, args } => {
                match (function.resolve(results), resolve_operands(args, results)) {
                    (Some(function), Some(args)) => Some(Request::Funcall { function, args }),
                    _ => None,
                }
            },
            Op::Signal { symbol, data } => {
                match (symbol.resolve(results), data.resolve(results)) {
                    (Some(symbol), Some(data)) => Some(
                        Request::NonLocalExitSignal { symbol, data },
                    ),
                    _ => None,
                }
            },
            Op::Throw { tag, value } => {
                match (tag.resolve(results), value.resolve(results)) {
                    (Some(tag), Some(value)) => Some(Request::NonLocalExitThrow { tag, value }),
                    _ => None,
                }
            },
        }
    }
}

/// Every operation of the script uses only what earlier ones return.
pub open spec fn well_formed(ops: Seq<OpView>) -> bool {
    forall|k: int| 0 <= k < ops.len() ==> (#[trigger] ops[k]).admitted(k)
}

/// The operations of a call of the Lisp function `name` on `args`, written
/// at place `base`: the name is interned, then the function is called.
pub open spec fn call_ops(base: int, name: Seq<char>, args: Seq<Operand>) -> Seq<OpView> {
    seq![OpView::Intern { name }, OpView::Funcall { function: local(base), args }]
}

/// The operations that signal the condition `symbol` with `message` as its
/// data, written at place `base`.
pub open spec fn signal_str_ops(base: int, symbol: Seq<char>, message: Seq<char>) -> Seq<OpView> {
    seq![OpView::MakeString { contents: message }] + call_ops(
        base + 1,
        "list"@,
        seq![local(base)],
    ) + seq![
        OpView::Intern { name: symbol },
        OpView::Signal { symbol: local(base + 3), data: local(base + 2) },
    ]
}

/// The operations that define the condition `name`, with `message` and
/// under `parent`, written at place `base`.
pub open spec fn define_error_ops(
    base: int,
    name: Seq<char>,
    message: Seq<char>,
    parent: Seq<char>,
) -> Seq<OpView> {
    seq![
        OpView::Intern { name },
        OpView::MakeString { contents: message },
        OpView::Intern { name: parent },
    ] + call_ops(base + 3, "define-error"@, seq![local(base), local(base + 1), local(base + 2)])
}

/// The operations that define the three conditions of the bridge, written
/// at place `base`.
pub open spec fn define_errors_ops(base: int) -> Seq<OpView> {
    define_error_ops(base, PANIC@, "Rust panic"@, "error"@) + define_error_ops(
        base + 5,
        ERROR@,
        "Rust error"@,
        "error"@,
    ) + define_error_ops(base + 10, WRONG_TYPE_USER_PTR@, "Wrong type user-ptr"@, ERROR@)
}

/// The operations that announce the feature `name`, written at place
/// `base`.
pub open spec fn provide_ops(base: int, name: Seq<char>) -> Seq<OpView> {
    seq![OpView::Intern { name }] + call_ops(base + 1, "provide"@, seq![local(base)])
}

/// Appending to a script whose operations use only what earlier ones
/// return keeps it so, where the appended operations do the same.
pub proof fn lemma_append_well_formed(ops: Seq<OpView>, more: Seq<OpView>)
    requires
        well_formed(ops),
        forall|k: int| 0 <= k < more.len() ==> (#[trigger] more[k]).admitted(ops.len() + k),
    ensures
        well_formed(ops + more),
{
    assert forall|k: int| 0 <= k < (ops + more).len() implies (#[trigger] (ops + more)[k]).admitted(
        k,
    ) by {
        if k < ops.len() {
            assert((ops + more)[k] == ops[k]);
        } else {
            assert((ops + more)[k] == more[k - ops.len()]);
        }
    }
}

/// A call written at the end of a script keeps the script in order, where
/// its arguments name earlier operations only.
pub proof fn lemma_call_well_formed(ops: Seq<OpView>, name: Seq<char>, args: Seq<Operand>)
    requires
        well_formed(ops),
        all_admitted(args, ops.len() as int),
        ops.len() < usize::MAX,
    ensures
        well_formed(ops + call_ops(ops.len() as int, name, args)),
{
    let base = ops.len() as int;
    let more = call_ops(base, name, args);
    assert forall|k: int| 0 <= k < more.len() implies (#[trigger] more[k]).admitted(base + k) by {
        if k == 1 {
            assert forall|i: int| 0 <= i < args.len() implies (#[trigger] args[i]).admitted(
                base + 1,
            ) by {
                assert(args[i].admitted(base));
            }
        }
    }
    lemma_append_well_formed(ops, more);
}

/// The signal of a condition, written at the end of a script, keeps the
/// script in order.
pub proof fn lemma_signal_str_well_formed(ops: Seq<OpView>, symbol: Seq<char>, message: Seq<char>)
    requires
        well_formed(ops),
        ops.len() + 4 <= usize::MAX,
    ensures
        well_formed(ops + signal_str_ops(ops.len() as int, symbol, message)),
{
    let base = ops.len() as int;
    let more = signal_str_ops(base, symbol, message);
    assert(more.len() == 5);
    assert(more[2] == OpView::Funcall { function: local(base + 1), args: seq![local(base)] });
    assert(more[4] == OpView::Signal { symbol: local(base + 3), data: local(base + 2) });
    lemma_append_well_formed(ops, more);
}

/// The definition of a condition, written at the end of a script, keeps the
/// script in order.
pub proof fn lemma_define_error_well_formed(
    ops: Seq<OpView>,
    name: Seq<char>,
    message: Seq<char>,
    parent: Seq<char>,
)
    requires
        well_formed(ops),
        ops.len() + 4 <= usize::MAX,
    ensures
        well_formed(ops + define_error_ops(ops.len() as int, name, message, parent)),
{
    let base = ops.len() as int;
    let more = define_error_ops(base, name, message, parent);
    assert(more.len() == 5);
    assert(more[4] == OpView::Funcall {
        function: local(base + 3),
        args: seq![local(base), local(base + 1), local(base + 2)],
    });
    lemma_append_well_formed(ops, more);
}

/// The announcement of a feature, written at the end of a script, keeps
/// the script in order.
pub proof fn lemma_provide_well_formed(ops: Seq<OpView>, name: Seq<char>)
    requires
        well_formed(ops),
        ops.len() + 2 <= usize::MAX,
    ensures
        well_formed(ops + provide_ops(ops.len() as int, name)),
{
    let base = ops.len() as int;
    let more = provide_ops(base, name);
    assert(more.len() == 3);
    assert(more[2] == OpView::Funcall { function: local(base + 1), args: seq![local(base)] });
    lemma_append_well_formed(ops, more);
}

/// A script under construction, or complete.
#[derive(Debug, Clone, PartialEq, Eq)]
pub struct Script {
    ops: Vec<Op>,
}

impl View for Script {
    type V = Seq<OpView>;

    closed spec fn view(&self) -> Seq<OpView> {
        Seq::new(self.ops@.len(), |k: int| self.ops@[k]@)
    }
}

impl Script {
    /// The script that asks nothing.
    pub fn new() -> (r: Script)
        ensures
            r@ == Seq::<OpView>::empty(),
    {
        let r = Script { ops: Vec::new() };
        assert(r@ =~= Seq::<OpView>::empty());
        r
    }

    /// The number of operations.
    pub fn len(&self) -> (r: usize)
        ensures
            r == self@.len(),
    {
        self.ops.len()
    }

    /// The operation at place `k`, where the script has one.
    pub fn op(&self, k: usize) -> (r: Option<&Op>)
        ensures
            (match r {
                Some(op) => k < self@.len() && op@ == self@[k as int],
                None => k >= self@.len(),
            }),
    {
        if k < self.ops.len() {
            Some(&self.ops[k])
        } else {
            None
        }
    }

    /// Whether `operand` can stand in the next operation of the script.
    pub fn admits(&self, operand: Operand) -> (r: bool)
        ensures
            r == operand.admitted(self@.len() as int),
    {
        match operand {
            Operand::Raw(_) => true,
            Operand::Local(i) => i < self.ops.len(),
        }
    }

    /// Whether each of `operands` can stand in the next operation of the
    /// script.
    pub fn admits_all(&self, operands: &Vec<Operand>) -> (r: bool)
        ensures
            r == all_admitted(operands@, self@.len() as int),
    {
        let mut i: usize = 0;
        while i < operands.len()
            invariant
                i <= operands@.len(),
                forall|j: int| 0 <= j < i ==> (#[trigger] operands@[j]).admitted(self@.len() as int),
            decreases operands@.len() - i,
        {
            if !self.admits(operands[i]) {
                return false;
            }
            i += 1;
        }
        true
    }

    fn push(&mut self, op: Op) -> (r: Operand)
        ensures
            final(self)@ == old(self)@.push(op@),
            r == local(old(self)@.len() as int),
            r.admitted(final(self)@.len() as int),
    {
        let index = self.ops.len();
        self.ops.push(op);
        assert(self@ =~= old(self)@.push(op@));
        Operand::Local(index)
    }

    /// Plans to intern the symbol `name`.
    pub fn intern(&mut self, name: &str) -> (r: Operand)
        ensures
            final(self)@ == old(self)@.push(OpView::Intern { name: name@ }),
            r == local(old(self)@.len() as int),
    {
        self.push(Op::Intern { name: name.to_owned() })
    }

    /// Plans to make a Lisp string of `contents`.
    pub fn make_string(&mut self, contents: &str) -> (r: Operand)
        ensures
            final(self)@ == old(self)@.push(OpView::MakeString { contents: contents@ }),
            r == local(old(self)@.len() as int),
    {
        self.push(Op::MakeString { contents: contents.to_owned() })
    }

    /// Plans to make a function of the runtime that calls the Rust function
    /// at `function`.
    pub fn push_make_function(
        &mut self,
        min_arity: isize,
        max_arity: isize,
        function: Subr,
        doc: &str,
        data: usize,
    ) -> (r: Operand)
        ensures
            final(self)@ == old(self)@.push(
                OpView::MakeFunction { min_arity, max_arity, function, doc: doc@, data },
            ),
            r == local(old(self)@.len() as int),
    {
        self.push(Op::MakeFunction { min_arity, max_arity, function, doc: doc.to_owned(), data })
    }

    /// Plans to call the function `function` on `args`.
    pub fn funcall(&mut self, function: Operand, args: Vec<Operand>) -> (r: Operand)
        ensures
            final(self)@ == old(self)@.push(OpView::Funcall { function, args: args@ }),
            r == local(old(self)@.len() as int),
    {
        self.push(Op::Funcall { function, args })
    }

    /// Plans to call the Lisp function named `name` on `args`.
    pub fn call(&mut self, name: &str, args: Vec<Operand>) -> (r: Operand)
        ensures
            final(self)@ == old(self)@ + call_ops(old(self)@.len() as int, name@, args@),
            r == local(old(self)@.len() as int + 1),
    {
        let function = self.intern(name);
        let r = self.funcall(function, args);
        assert(self@ =~= old(self)@ + call_ops(old(self)@.len() as int, name@, args@));
        r
    }

    /// Plans to make a list of `items`.
    pub fn list(&mut self, items: Vec<Operand>) -> (r: Operand)
        ensures
            final(self)@ == old(self)@ + call_ops(old(self)@.len() as int, "list"@, items@),
            r == local(old(self)@.len() as int + 1),
    {
        self.call("list", items)
    }

    /// Plans to signal `symbol` with `data`. The operand that comes back
    /// stands for the symbol.
    pub fn signal(&mut self, symbol: Operand, data: Operand) -> (r: Operand)
        ensures
            final(self)@ == old(self)@.push(OpView::Signal { symbol, data }),
            r == local(old(self)@.len() as int),
    {
        self.push(Op::Signal { symbol, data })
    }

    /// Plans to throw `value` to `tag`. The operand that comes back stands
    /// for the tag.
    pub fn throw(&mut self, tag: Operand, value: Operand) -> (r: Operand)
        ensures
            final(self)@ == old(self)@.push(OpView::Throw { tag, value }),
            r == local(old(self)@.len() as int),
    {
        self.push(Op::Throw { tag, value })
    }

    /// Plans to signal the condition named `symbol`, with `message` as its
    /// only datum.
    pub fn signal_str(&mut self, symbol: &str, message: &str) -> (r: Operand)
        ensures
            final(self)@ == old(self)@ + signal_str_ops(
                old(self)@.len() as int,
                symbol@,
                message@,
            ),
            r == local(old(self)@.len() as int + 4),
    {
        let text = self.make_string(message);
        let mut items: Vec<Operand> = Vec::new();
        items.push(text);
        let data = self.list(items);
        let symbol_operand = self.intern(symbol);
        let r = self.signal(symbol_operand, data);
        assert(self@ =~= old(self)@ + signal_str_ops(
            old(self)@.len() as int,
            symbol@,
            message@,
        ));
        r
    }

    /// Plans to define the condition `name`, described by `message`, under
    /// the condition `parent`.
    pub fn define_error(&mut self, name: &str, message: &str, parent: &str) -> (r: Operand)
        ensures
            final(self)@ == old(self)@ + define_error_ops(
                old(self)@.len() as int,
                name@,
                message@,
                parent@,
            ),
            r == local(old(self)@.len() as int + 4),
    {
        let name_operand = self.intern(name);
        let message_operand = self.make_string(message);
        let parent_operand = self.intern(parent);
        let mut args: Vec<Operand> = Vec::new();
        args.push(name_operand);
        args.push(message_operand);
        args.push(parent_operand);
        assert(args@ =~= seq![name_operand, message_operand, parent_operand]);
        let r = self.call("define-error", args);
        assert(self@ =~= old(self)@ + define_error_ops(
            old(self)@.len() as int,
            name@,
            message@,
            parent@,
        ));
        r
    }

    /// Plans to define the three conditions under which the bridge reports:
    /// panics, errors, and values of the wrong embedded type.
    pub fn define_errors(&mut self)
        ensures
            final(self)@ == old(self)@ + define_errors_ops(old(self)@.len() as int),
    {
        self.define_error(PANIC, "Rust panic", "error");
        self.define_error(ERROR, "Rust error", "error");
        self.define_error(WRONG_TYPE_USER_PTR, "Wrong type user-ptr", ERROR);
        assert(self@ =~= old(self)@ + define_errors_ops(old(self)@.len() as int));
    }

    /// Plans to announce the feature `name` to the runtime.
    pub fn provide(&mut self, name: &str) -> (r: Operand)
        ensures
            final(self)@ == old(self)@ + provide_ops(old(self)@.len() as int, name@),
            r == local(old(self)@.len() as int + 2),
    {
        let feature = self.intern(name);
        let mut args: Vec<Operand> = Vec::new();
        args.push(feature);
        let r = self.call("provide", args);
        assert(self@ =~= old(self)@ + provide_ops(old(self)@.len() as int, name@));
        r
    }
}

} // verus!
