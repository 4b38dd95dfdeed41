//! Exporting Rust functions to the runtime: the record of one export, the
//! name it is bound to, and the calls that bind it.

use vstd::prelude::*;
use vstd::string::*;
use core::ops::Range;
use crate::error::Error;
use crate::run::{calls_in, lemma_missing_primitive_stops, missing, ActionView, Event, Run, RunView};
use crate::script::{
    call_ops, lemma_append_well_formed, local, well_formed, OpView, Operand, Script, Subr,
};
use crate::table::{EntryPoint, Env, Slot};
use crate::value::{RawValue, Value};

verus! {

/// What the runtime takes as the greatest number of arguments of a function
/// that has none.
pub const VARIADIC: isize = -2;

/// The numbers `min` and `max` bound the arguments of a function: the least
/// is not above the greatest, and both fit the integers of the runtime. No
/// `max` stands for any number of arguments.
pub open spec fn valid_arity(min: nat, max: Option<nat>) -> bool {
    &&& min <= isize::MAX
    &&& max matches Some(most) ==> min <= most <= isize::MAX
}

/// How many arguments a function takes: at least `min`, and at most `max`
/// where there is one.
#[derive(Clone, Copy, Debug, PartialEq, Eq)]
pub struct Arity {
    min: usize,
    max: Option<usize>,
}

impl Arity {
    #[verifier::type_invariant]
    spec fn bounded(self) -> bool {
        valid_arity(self.spec_min(), self.spec_max())
    }

    /// The least number of arguments.
    pub closed spec fn spec_min(self) -> nat {
        self.min as nat
    }

    /// The greatest number of arguments, where there is one.
    pub closed spec fn spec_max(self) -> Option<nat> {
        match self.max {
            Some(most) => Some(most as nat),
            None => None,
        }
    }

    /// The least number of arguments, as the runtime takes it.
    pub open spec fn spec_min_raw(self) -> isize {
        self.spec_min() as isize
    }

    /// The greatest number of arguments, as the runtime takes it.
    pub open spec fn spec_max_raw(self) -> isize {
        match self.spec_max() {
            Some(most) => most as isize,
            None => VARIADIC,
        }
    }

    /// Whether a call with `nargs` arguments is within the bounds.
    pub open spec fn spec_admits(self, nargs: int) -> bool {
        &&& self.spec_min() <= nargs
        &&& self.spec_max() matches Some(most) ==> nargs <= most
    }

    /// The arity from `min` to `max`, or from `min` on where there is no
    /// `max`; none where the two do not bound anything.
    pub fn new(min: usize, max: Option<usize>) -> (r: Option<Arity>)
        ensures
            (match r {
                Some(arity) => arity.spec_min() == min && arity.spec_max() == (match max {
                    Some(most) => Some(most as nat),
                    None => None,
                }) && valid_arity(arity.spec_min(), arity.spec_max()),
                None => !valid_arity(
                    min as nat,
                    match max {
                        Some(most) => Some(most as nat),
                        None => None,
                    },
                ),
            }),
    {
        let limit: usize = isize::MAX as usize;
        let valid = min <= limit && match max {
            Some(most) => min <= most && most <= limit,
            None => true,
        };
        if valid {
            Some(Arity { min, max })
        } else {
            None
        }
    }

    /// The arity from the start of `range` to its end.
    pub fn from_range(range: Range<usize>) -> (r: Option<Arity>)
        ensures
            (match r {
                Some(arity) => arity.spec_min() == range.start && arity.spec_max() == Some(
                    range.end as nat,
                ) && valid_arity(arity.spec_min(), arity.spec_max()),
                None => !valid_arity(range.start as nat, Some(range.end as nat)),
            }),
    {
        Arity::new(range.start, Some(range.end))
    }

    /// The least number of arguments.
    pub fn min(&self) -> (r: usize)
        ensures
            r == self.spec_min(),
            valid_arity(self.spec_min(), self.spec_max()),
    {
        proof {
            use_type_invariant(self);
        }
        self.min
    }

    /// The greatest number of arguments, where there is one.
    pub fn max(&self) -> (r: Option<usize>)
        ensures
            self.spec_max() == (match r {
                Some(most) => Some(most as nat),
                None => None,
            }),
            valid_arity(self.spec_min(), self.spec_max()),
    {
        proof {
            use_type_invariant(self);
        }
        self.max
    }

    /// The least number of arguments, as the runtime takes it.
    pub fn min_raw(&self) -> (r: isize)
        ensures
            r == self.spec_min_raw(),
            r == self.spec_min(),
    {
        proof {
            use_type_invariant(self);
        }
        self.min as isize
    }

    /// The greatest number of arguments, as the runtime takes it: the
    /// number itself, or the mark of a function that takes any number.
    pub fn max_raw(&self) -> (r: isize)
        ensures
            r == self.spec_max_raw(),
            self.spec_max() matches Some(most) ==> r == most,
            self.spec_max() is None ==> r == VARIADIC,
    {
        proof {
            use_type_invariant(self);
        }
        match self.max {
            Some(most) => most as isize,
            None => VARIADIC,
        }
    }

    /// Whether a call with `nargs` arguments is within the bounds.
    pub fn admits(&self, nargs: isize) -> (r: bool)
        ensures
            r == self.spec_admits(nargs as int),
    {
        proof {
            use_type_invariant(self);
        }
        if nargs < 0 {
            return false;
        }
        let count = nargs as usize;
        self.min <= count && match self.max {
            Some(most) => count <= most,
            None => true,
        }
    }
}

/// The values of one call into Rust, each bound to the runtime instance
/// that made the call.
pub fn marshal(env: &Env, args: &[RawValue]) -> (r: Vec<Value>)
    ensures
        r@.len() == args@.len(),
        forall|i: int|
            0 <= i < args@.len() ==> #[trigger] r@[i] == (Value { raw: args@[i], env: env.id }),
{
    let mut out: Vec<Value> = Vec::new();
    let mut i: usize = 0;
    while i < args.len()
        invariant
            i <= args@.len(),
            out@.len() == i,
            forall|j: int|
                0 <= j < i ==> #[trigger] out@[j] == (Value { raw: args@[j], env: env.id }),
        decreases args@.len() - i,
    {
        out.push(Value { raw: args[i], env: env.id });
        i += 1;
    }
    out
}

/// The operation that makes a function of the runtime from the Rust
/// function at `function`.
pub open spec fn make_function_op(
    function: Subr,
    arity: Arity,
    doc: Seq<char>,
    data: usize,
) -> OpView {
    OpView::MakeFunction {
        min_arity: arity.spec_min_raw(),
        max_arity: arity.spec_max_raw(),
        function,
        doc,
        data,
    }
}

/// The operations that bind the function `func` to the symbol `name`,
/// written at place `base`.
pub open spec fn fset_ops(base: int, name: Seq<char>, func: Operand) -> Seq<OpView> {
    seq![OpView::Intern { name }] + call_ops(base + 1, "fset"@, seq![local(base), func])
}

/// The operations that make a function and bind it to the symbol `name`,
/// written at place `base`.
pub open spec fn register_ops(
    base: int,
    name: Seq<char>,
    function: Subr,
    arity: Arity,
    doc: Seq<char>,
    data: usize,
) -> Seq<OpView> {
    seq![make_function_op(function, arity, doc, data)] + fset_ops(base + 1, name, local(base))
}

/// The binding of a function, written at the end of a script, keeps the
/// script in order, where the function is in hand or comes from an earlier
/// operation.
pub proof fn lemma_fset_well_formed(ops: Seq<OpView>, name: Seq<char>, func: Operand)
    requires
        well_formed(ops),
        func.admitted(ops.len() as int),
        ops.len() + 2 <= usize::MAX,
    ensures
        well_formed(ops + fset_ops(ops.len() as int, name, func)),
{
    let base = ops.len() as int;
    let more = fset_ops(base, name, func);
    assert(more.len() == 3);
    assert(more[2] == OpView::Funcall { function: local(base + 1), args: seq![local(base), func] });
    lemma_append_well_formed(ops, more);
}

/// The making and binding of a function, written at the end of a script,
/// keeps the script in order.
pub proof fn lemma_register_well_formed(
    ops: Seq<OpView>,
    name: Seq<char>,
    function: Subr,
    arity: Arity,
    doc: Seq<char>,
    data: usize,
)
    requires
        well_formed(ops),
        ops.len() + 3 <= usize::MAX,
    ensures
        well_formed(ops + register_ops(ops.len() as int, name, function, arity, doc, data)),
{
    let base = ops.len() as int;
    let more = register_ops(base, name, function, arity, doc, data);
    assert(more.len() == 4);
    assert(more[3] == OpView::Funcall {
        function: local(base + 2),
        args: seq![local(base + 1), local(base)],
    });
    lemma_append_well_formed(ops, more);
}

/// Making functions of the runtime and binding them to symbols.
pub trait HandleFunc {
    /// The operations planned so far.
    spec fn planned(&self) -> Seq<OpView>;

    /// Plans to make a function of the runtime that calls the Rust function
    /// at `function`, with `data` handed to each call.
    fn make_function(&mut self, function: Subr, arity: Arity, doc: &str, data: usize) -> (r:
        Operand)
        ensures
            final(self).planned() == old(self).planned().push(
                make_function_op(function, arity, doc@, data),
            ),
            r == local(old(self).planned().len() as int),
    ;

    /// Plans to bind the function `func` to the symbol `name`.
    fn fset(&mut self, name: &str, func: Operand) -> (r: Operand)
        ensures
            final(self).planned() == old(self).planned() + fset_ops(
                old(self).planned().len() as int,
                name@,
                func,
            ),
            r == local(old(self).planned().len() as int + 2),
    ;

    /// Plans to make a function and to bind it to the symbol `name`.
    fn register(
        &mut self,
        name: &str,
        function: Subr,
        arity: Arity,
        doc: &str,
        data: usize,
    ) -> (r: Operand)
        ensures
            final(self).planned() == old(self).planned() + register_ops(
                old(self).planned().len() as int,
                name@,
                function,
                arity,
                doc@,
                data,
            ),
            r == local(old(self).planned().len() as int + 3),
    ;
}

impl HandleFunc for Script {
    open spec fn planned(&self) -> Seq<OpView> {
        self@
    }

    fn make_function(&mut self, function: Subr, arity: Arity, doc: &str, data: usize) -> (r:
        Operand) {
        self.push_make_function(arity.min_raw(), arity.max_raw(), function, doc, data)
    }

    fn fset(&mut self, name: &str, func: Operand) -> (r: Operand) {
        let symbol = self.intern(name);
        let mut args: Vec<Operand> = Vec::new();
        args.push(symbol);
        args.push(func);
        assert(args@ =~= seq![symbol, func]);
        let r = self.call("fset", args);
        assert(self@ =~= old(self)@ + fset_ops(old(self)@.len() as int, name@, func));
        r
    }

    fn register(
        &mut self,
        name: &str,
        function: Subr,
        arity: Arity,
        doc: &str,
        data: usize,
    ) -> (r: Operand) {
        let made = self.make_function(function, arity, doc, data);
        let r = self.fset(name, made);
        assert(self@ =~= old(self)@ + register_ops(
            old(self)@.len() as int,
            name@,
            function,
            arity,
            doc@,
            data,
        ));
        r
    }
}

/// How the functions of one module are named: the name of the feature, the
/// separator that follows it, and whether the path of the Rust module that
/// holds a function goes into the name.
#[derive(Debug, Clone, PartialEq, Eq)]
pub struct Naming {
    pub feature: String,
    pub separator: String,
    pub mod_in_name: bool,
}

/// What a [`Naming`] says.
pub struct NamingView {
    pub feature: Seq<char>,
    pub separator: Seq<char>,
    pub mod_in_name: bool,
}

impl View for Naming {
    type V = NamingView;

    open spec fn view(&self) -> NamingView {
        NamingView {
            feature: self.feature@,
            separator: self.separator@,
            mod_in_name: self.mod_in_name,
        }
    }
}

/// The segments of a path as sequences of characters.
pub open spec fn path_view(path: Seq<String>) -> Seq<Seq<char>> {
    Seq::new(path.len(), |i: int| path[i]@)
}

/// The segments of `path` in order, each followed by `separator`.
pub open spec fn folded(path: Seq<Seq<char>>, separator: Seq<char>) -> Seq<char>
    decreases path.len(),
{
    if path.len() == 0 {
        Seq::empty()
    } else {
        folded(path.drop_last(), separator) + path.last() + separator
    }
}

impl NamingView {
    /// The full name of the function `name` that stands in the module at
    /// `path`: the feature, the separator, the segments of the path where
    /// they go into the name, and the name.
    pub open spec fn full_name(self, path: Seq<Seq<char>>, name: Seq<char>) -> Seq<char> {
        self.feature + self.separator + (if self.mod_in_name {
            folded(path, self.separator)
        } else {
            Seq::empty()
        }) + name
    }
}

impl Naming {
    /// The naming of the feature `feature`.
    pub fn new(feature: &str, separator: &str, mod_in_name: bool) -> (r: Naming)
        ensures
            r@ == (NamingView { feature: feature@, separator: separator@, mod_in_name }),
    {
        Naming { feature: feature.to_owned(), separator: separator.to_owned(), mod_in_name }
    }

    /// The full name of the function `name` that stands in the module at
    /// `path`.
    pub fn full_name(&self, path: &Vec<String>, name: &str) -> (r: String)
        ensures
            r@ == self@.full_name(path_view(path@), name@),
    {
        let mut out = self.feature.clone();
        out.append(self.separator.as_str());
        let ghost segments = path_view(path@);
        if self.mod_in_name {
            let mut i: usize = 0;
            while i < path.len()
                invariant
                    i <= path@.len(),
                    segments == path_view(path@),
                    out@ == self.feature@ + self.separator@ + folded(
                        segments.take(i as int),
                        self.separator@,
                    ),
                decreases path@.len() - i,
            {
                out.append(path[i].as_str());
                out.append(self.separator.as_str());
                proof {
                    let longer = segments.take(i + 1);
                    assert(longer.drop_last() =~= segments.take(i as int));
                    assert(longer.last() == path@[i as int]@);
                    assert(out@ =~= self.feature@ + self.separator@ + folded(
                        longer,
                        self.separator@,
                    ));
                }
                i += 1;
            }
            assert(segments.take(path@.len() as int) =~= segments);
        }
        out.append(name);
        assert(out@ =~= self@.full_name(segments, name@));
        out
    }
}

/// One function that waits to be exported: its name before any prefix, the
/// path of the Rust module that holds it, the address of its entry point,
/// its arity, its documentation, and the data handed to each call.
#[derive(Debug, Clone, PartialEq, Eq)]
pub struct Registration {
    pub name: String,
    pub path: Vec<String>,
    pub function: Subr,
    pub arity: Arity,
    pub doc: String,
    pub data: usize,
}

/// What a [`Registration`] says.
pub struct RegistrationView {
    pub name: Seq<char>,
    pub path: Seq<Seq<char>>,
    pub function: Subr,
    pub arity: Arity,
    pub doc: Seq<char>,
    pub data: usize,
}

impl View for Registration {
    type V = RegistrationView;

    open spec fn view(&self) -> RegistrationView {
        RegistrationView {
            name: self.name@,
            path: path_view(self.path@),
            function: self.function,
            arity: self.arity,
            doc: self.doc@,
            data: self.data,
        }
    }
}

impl RegistrationView {
    /// The script that exports the function under `naming`.
    pub open spec fn script(self, naming: NamingView) -> Seq<OpView> {
        register_ops(
            0,
            naming.full_name(self.path, self.name),
            self.function,
            self.arity,
            self.doc,
            self.data,
        )
    }
}

impl Registration {
    /// The script that exports the function under `naming`: it makes the
    /// function, then binds it to its full name.
    pub fn script(&self, naming: &Naming) -> (r: Script)
        ensures
            r@ == self@.script(naming@),
    {
        let name = naming.full_name(&self.path, self.name.as_str());
        let mut script = Script::new();
        script.register(name.as_str(), self.function, self.arity, self.doc.as_str(), self.data);
        assert(script@ =~= self@.script(naming@));
        script
    }

    /// The run that exports the function under `naming`.
    pub fn registrar(&self, naming: &Naming) -> (r: Run)
        ensures
            r@ == RunView::fresh(self@.script(naming@)),
    {
        Run::new(self.script(naming))
    }
}

/// Where the runtime cannot make functions, an export fails with the error
/// that names the missing primitive, before any call: nothing is made, and
/// nothing is bound.
pub proof fn lemma_registrar_needs_make_function(
    record: RegistrationView,
    naming: NamingView,
    table: Map<Slot, EntryPoint>,
    events: Seq<Event>,
)
    requires
        !table.contains_key(Slot::MakeFunction),
    ensures
        RunView::fresh(record.script(naming)).step(table, Event::Start).1 == ActionView::Finish(
            Err(missing(Slot::MakeFunction)),
        ),
        calls_in(RunView::fresh(record.script(naming)), table, seq![Event::Start] + events) == 0,
{
    let script = record.script(naming);
    assert(script[0] == make_function_op(record.function, record.arity, record.doc, record.data));
    lemma_missing_primitive_stops(script, table, events);
}

} // verus!
