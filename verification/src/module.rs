//! Loading a module: its options, the name of its feature, and the order
//! in which a load goes through its steps.

use vstd::prelude::*;
use vstd::string::*;
use crate::error::Error;
use crate::func::{Naming, NamingView, Registration, RegistrationView};
use crate::registry::Registry;
use crate::script::{provide_ops, OpView, Script};
use crate::text::push_char;
use crate::value::Value;

verus! {

/// The separator that follows the name of the feature where none is given.
pub fn separator() -> (r: String)
    ensures
        r@ == "-"@,
{
    "-".to_owned()
}

/// Whether the path of the Rust module goes into the names of its
/// functions where nothing is said.
pub fn mod_in_name() -> (r: bool)
    ensures
        r,
{
    true
}

/// Where the name of the feature comes from.
#[derive(Debug, Clone, PartialEq, Eq)]
pub enum Name {
    /// The name of the crate.
    Crate,
    /// The name of the function that initializes the module.
    Fn,
    /// The name given.
    Str(String),
}

/// What a [`Name`] says.
pub enum NameView {
    Crate,
    Fn,
    Str(Seq<char>),
}

impl View for Name {
    type V = NameView;

    open spec fn view(&self) -> NameView {
        match *self {
            Name::Crate => NameView::Crate,
            Name::Fn => NameView::Fn,
            Name::Str(name) => NameView::Str(name@),
        }
    }
}

/// One argument of the option that names the feature, as far as the option
/// reads it: a bare word, a string, or anything else.
#[derive(Debug, Clone, PartialEq, Eq)]
pub enum MetaItem {
    Word(String),
    Str(String),
    Other,
}

/// What a [`MetaItem`] says.
pub enum MetaItemView {
    Word(Seq<char>),
    Str(Seq<char>),
    Other,
}

impl View for MetaItem {
    type V = MetaItemView;

    open spec fn view(&self) -> MetaItemView {
        match *self {
            MetaItem::Word(word) => MetaItemView::Word(word@),
            MetaItem::Str(text) => MetaItemView::Str(text@),
            MetaItem::Other => MetaItemView::Other,
        }
    }
}

/// Why the arguments of the option do not name a feature.
#[derive(Clone, Copy, Debug, PartialEq, Eq, Structural)]
pub enum NameError {
    /// There are fewer arguments than `min`.
    TooFewItems { min: usize },
    /// There are more arguments than `max`.
    TooManyItems { max: usize },
    /// The word is neither `crate` nor `fn`.
    ExpectedCrateOrFn,
    /// The argument is neither a word nor a string.
    ExpectedCrateFnOrString,
}

impl NameError {
    /// The message of the error.
    pub open spec fn spec_message(self) -> Seq<char> {
        match self {
            NameError::TooFewItems { .. } => "Too few items"@,
            NameError::TooManyItems { .. } => "Too many items"@,
            NameError::ExpectedCrateOrFn => "Expected crate/fn"@,
            NameError::ExpectedCrateFnOrString => "Expected crate/fn or a string"@,
        }
    }

    /// The message of the error.
    pub fn message(&self) -> (r: &'static str)
        ensures
            r@ == self.spec_message(),
    {
        match self {
            NameError::TooFewItems { .. } => "Too few items",
            NameError::TooManyItems { .. } => "Too many items",
            NameError::ExpectedCrateOrFn => "Expected crate/fn",
            NameError::ExpectedCrateFnOrString => "Expected crate/fn or a string",
        }
    }
}

/// The items of a list as what they say.
pub open spec fn items_view(items: Seq<MetaItem>) -> Seq<MetaItemView> {
    Seq::new(items.len(), |i: int| items[i]@)
}

/// What the arguments of the option say: exactly one is needed, the word
/// `fn`, the word `crate`, or a string.
pub open spec fn spec_from_list(items: Seq<MetaItemView>) -> Result<NameView, NameError> {
    if items.len() == 0 {
        Err(NameError::TooFewItems { min: 1 })
    } else if items.len() == 1 {
        match items[0] {
            MetaItemView::Word(word) => if word == "fn"@ {
                Ok(NameView::Fn)
            } else if word == "crate"@ {
                Ok(NameView::Crate)
            } else {
                Err(NameError::ExpectedCrateOrFn)
            },
            MetaItemView::Str(text) => Ok(NameView::Str(text)),
            MetaItemView::Other => Err(NameError::ExpectedCrateFnOrString),
        }
    } else {
        Err(NameError::TooManyItems { max: 1 })
    }
}

/// A result of reading the option as what it says.
pub open spec fn name_result_view(result: Result<Name, NameError>) -> Result<NameView, NameError> {
    match result {
        Ok(name) => Ok(name@),
        Err(error) => Err(error),
    }
}

impl Default for Name {
    fn default() -> (r: Name)
        ensures
            r@ == NameView::Crate,
    {
        Name::Crate
    }
}

impl Name {
    /// Reads the arguments of the option.
    pub fn from_list(outer: &[MetaItem]) -> (r: Result<Name, NameError>)
        ensures
            name_result_view(r) == spec_from_list(items_view(outer@)),
    {
        if outer.len() == 0 {
            Err(NameError::TooFewItems { min: 1 })
        } else if outer.len() == 1 {
            assert(items_view(outer@)[0] == outer@[0]@);
            match &outer[0] {
                MetaItem::Word(word) => {
                    if *word == "fn".to_owned() {
                        Ok(Name::Fn)
                    } else if *word == "crate".to_owned() {
                        Ok(Name::Crate)
                    } else {
                        Err(NameError::ExpectedCrateOrFn)
                    }
                },
                MetaItem::Str(text) => Ok(Name::Str(text.clone())),
                MetaItem::Other => Err(NameError::ExpectedCrateFnOrString),
            }
        } else {
            Err(NameError::TooManyItems { max: 1 })
        }
    }

    /// Reads the option where it is given as a string: the string names the
    /// feature.
    pub fn from_string(lit: &str) -> (r: Result<Name, NameError>)
        ensures
            name_result_view(r) == Ok::<NameView, NameError>(NameView::Str(lit@)),
    {
        Ok(Name::Str(lit.to_owned()))
    }

    /// The name of the feature, for a module of the crate `crate_name`
    /// that the function `hook` initializes.
    pub fn feature(&self, crate_name: &str, hook: &str) -> (r: String)
        ensures
            r@ == spec_feature(self@, crate_name@, hook@),
    {
        match self {
            Name::Crate => lisp_name(crate_name),
            Name::Fn => lisp_name(hook),
            Name::Str(name) => name.clone(),
        }
    }
}

/// A Rust name as Lisp writes it: with a hyphen for each underscore.
pub open spec fn spec_lisp_name(ident: Seq<char>) -> Seq<char> {
    Seq::new(
        ident.len(),
        |i: int|
            if ident[i] == '_' {
                '-'
            } else {
                ident[i]
            },
    )
}

/// The name of the feature that `name` asks for.
pub open spec fn spec_feature(name: NameView, crate_name: Seq<char>, hook: Seq<char>) -> Seq<char> {
    match name {
        NameView::Crate => spec_lisp_name(crate_name),
        NameView::Fn => spec_lisp_name(hook),
        NameView::Str(given) => given,
    }
}

/// A Rust name as Lisp writes it: with a hyphen for each underscore.
pub fn lisp_name(ident: &str) -> (r: String)
    ensures
        r@ == spec_lisp_name(ident@),
{
    let mut out = String::new();
    let chars = ident.chars();
    proof {
        vstd::string::axiom_spec_iter(ident);
    }
    for c in it: chars
        invariant
            it.seq() == ident@,
            out@ == spec_lisp_name(ident@.take(it.index())),
    {
        push_char(
            &mut out,
            if c == '_' {
                '-'
            } else {
                c
            },
        );
        assert(out@ =~= spec_lisp_name(ident@.take(it.index() + 1)));
    }
    assert(ident@.take(ident@.len() as int) =~= ident@);
    out
}

/// The options of a module.
#[derive(Debug, Clone, PartialEq, Eq)]
pub struct ModuleOpts {
    /// Where the name of the feature comes from.
    pub name: Name,
    /// What follows the name of the feature in the full name of a function.
    pub separator: String,
    /// Whether the path of the Rust module goes into the full name of a
    /// function.
    pub mod_in_name: bool,
}

impl Default for ModuleOpts {
    fn default() -> (r: ModuleOpts)
        ensures
            r.name@ == NameView::Crate,
            r.separator@ == "-"@,
            r.mod_in_name,
    {
        ModuleOpts { name: Name::default(), separator: separator(), mod_in_name: mod_in_name() }
    }
}

impl ModuleOpts {
    /// The naming that the options ask for, for a module of the crate
    /// `crate_name` that the function `hook` initializes.
    pub fn naming(&self, crate_name: &str, hook: &str) -> (r: Naming)
        ensures
            r@ == (NamingView {
                feature: spec_feature(self.name@, crate_name@, hook@),
                separator: self.separator@,
                mod_in_name: self.mod_in_name,
            }),
    {
        Naming {
            feature: self.name.feature(crate_name, hook),
            separator: self.separator.clone(),
            mod_in_name: self.mod_in_name,
        }
    }
}

/// The status that the loader of the runtime is given: zero for a module
/// that loaded, one for a module that did not.
pub fn init_status(result: &Result<Value, Error>) -> (r: i32)
    ensures
        r == (if result is Ok {
            0i32
        } else {
            1i32
        }),
{
    match result {
        Ok(_) => 0,
        Err(_) => 1,
    }
}

/// How far a load has come.
#[derive(Clone, Copy, Debug, PartialEq, Eq, Structural)]
pub enum LoadState {
    Unloaded,
    PrefixConfigured,
    FunctionsRegistered,
    UserInitRan,
    Provided,
    Failed,
}

impl LoadState {
    /// The place of the state in the order of a load. A load that failed
    /// stands behind all others.
    pub open spec fn rank(self) -> nat {
        match self {
            LoadState::Unloaded => 0,
            LoadState::PrefixConfigured => 1,
            LoadState::FunctionsRegistered => 2,
            LoadState::UserInitRan => 3,
            LoadState::Provided => 4,
            LoadState::Failed => 5,
        }
    }

    /// The load is over, one way or the other.
    pub open spec fn is_final(self) -> bool {
        self == LoadState::Provided || self == LoadState::Failed
    }
}

/// What is reported to a load.
#[derive(Clone, Copy, Debug, PartialEq, Eq, Structural)]
pub enum LoadEvent {
    /// The load may begin.
    Start,
    /// What was asked for last is done.
    Succeeded,
    /// What was asked for last failed.
    Failed,
}

/// What a load asks for.
#[derive(Debug, Clone, PartialEq, Eq)]
pub enum LoadAction {
    /// Run this script against the runtime.
    Run(Script),
    /// Call the function that initializes the module.
    CallHook,
    /// Hand this status to the loader of the runtime.
    Finish(i32),
}

/// What a [`LoadAction`] says.
pub enum LoadActionView {
    Run(Seq<OpView>),
    CallHook,
    Finish(i32),
}

impl View for LoadAction {
    type V = LoadActionView;

    open spec fn view(&self) -> LoadActionView {
        match *self {
            LoadAction::Run(script) => LoadActionView::Run(script@),
            LoadAction::CallHook => LoadActionView::CallHook,
            LoadAction::Finish(status) => LoadActionView::Finish(status),
        }
    }
}

/// The load of one module.
#[derive(Debug, Clone, PartialEq, Eq)]
pub struct Loader {
    state: LoadState,
    naming: Naming,
    registry: Registry,
    next: usize,
}

/// What a [`Loader`] holds: how far the load has come, how functions are
/// named, the functions to export, and how many of them are exported.
pub struct LoaderView {
    pub state: LoadState,
    pub naming: NamingView,
    pub registry: Seq<RegistrationView>,
    pub next: nat,
}

impl View for Loader {
    type V = LoaderView;

    closed spec fn view(&self) -> LoaderView {
        LoaderView {
            state: self.state,
            naming: self.naming@,
            registry: self.registry@,
            next: self.next as nat,
        }
    }
}

impl LoaderView {
    /// The load fails: the loader of the runtime is told so, and nothing
    /// more is done.
    pub open spec fn fail(self) -> (LoaderView, LoadActionView) {
        (LoaderView { state: LoadState::Failed, ..self }, LoadActionView::Finish(1))
    }

    /// What a load does once its prefix is set and `next` functions are
    /// exported: it exports the next one, or, where none is left, calls the
    /// function that initializes the module.
    pub open spec fn export(self) -> (LoaderView, LoadActionView) {
        if self.next < self.registry.len() {
            (
                LoaderView { state: LoadState::PrefixConfigured, ..self },
                LoadActionView::Run(self.registry[self.next as int].script(self.naming)),
            )
        } else {
            (LoaderView { state: LoadState::FunctionsRegistered, ..self }, LoadActionView::CallHook)
        }
    }

    /// The load after `event`, and what it asks next.
    pub open spec fn step(self, event: LoadEvent) -> (LoaderView, LoadActionView) {
        match (self.state, event) {
            (LoadState::Unloaded, LoadEvent::Start) => self.export(),
            (LoadState::PrefixConfigured, LoadEvent::Succeeded) => if self.next
                < self.registry.len() {
                LoaderView { next: self.next + 1, ..self }.export()
            } else {
                self.fail()
            },
            (LoadState::FunctionsRegistered, LoadEvent::Succeeded) => (
                LoaderView { state: LoadState::UserInitRan, ..self },
                LoadActionView::Run(provide_ops(0, self.naming.feature)),
            ),
            (LoadState::UserInitRan, LoadEvent::Succeeded) => (
                LoaderView { state: LoadState::Provided, ..self },
                LoadActionView::Finish(0),
            ),
            (LoadState::Provided, _) => (self, LoadActionView::Finish(0)),
            _ => self.fail(),
        }
    }
}

impl Loader {
    /// The load of a module with the naming `naming` that exports the
    /// functions of `registry`.
    pub fn new(naming: Naming, registry: Registry) -> (r: Loader)
        ensures
            r@ == (LoaderView {
                state: LoadState::Unloaded,
                naming: naming@,
                registry: registry@,
                next: 0,
            }),
    {
        Loader { state: LoadState::Unloaded, naming, registry, next: 0 }
    }

    /// How far the load has come.
    pub fn state(&self) -> (r: LoadState)
        ensures
            r == self@.state,
    {
        self.state
    }

    fn fail(&mut self) -> (action: LoadAction)
        ensures
            final(self)@ == old(self)@.fail().0,
            action@ == old(self)@.fail().1,
    {
        self.state = LoadState::Failed;
        LoadAction::Finish(1)
    }

    fn export(&mut self) -> (action: LoadAction)
        ensures
            final(self)@ == old(self)@.export().0,
            action@ == old(self)@.export().1,
    {
        match self.registry.get(self.next) {
            Some(record) => {
                let script = record.script(&self.naming);
                self.state = LoadState::PrefixConfigured;
                LoadAction::Run(script)
            },
            None => {
                self.state = LoadState::FunctionsRegistered;
                LoadAction::CallHook
            },
        }
    }

    /// Takes `event` and says what to do next.
    ///
    /// A load goes one way: it sets the prefix, exports the functions one
    /// after the other, calls the function that initializes the module, and
    /// announces the feature. What fails on the way fails the load, and an
    /// event that the load did not wait for does too.
    pub fn step(&mut self, event: LoadEvent) -> (action: LoadAction)
        ensures
            final(self)@ == old(self)@.step(event).0,
            action@ == old(self)@.step(event).1,
    {
        match (self.state, event) {
            (LoadState::Unloaded, LoadEvent::Start) => self.export(),
            (LoadState::PrefixConfigured, LoadEvent::Succeeded) => {
                if self.next < self.registry.len() {
                    self.next = self.next + 1;
                    self.export()
                } else {
                    self.fail()
                }
            },
            (LoadState::FunctionsRegistered, LoadEvent::Succeeded) => {
                let mut script = Script::new();
                script.provide(self.naming.feature.as_str());
                assert(script@ =~= provide_ops(0, self.naming.feature@));
                self.state = LoadState::UserInitRan;
                LoadAction::Run(script)
            },
            (LoadState::UserInitRan, LoadEvent::Succeeded) => {
                self.state = LoadState::Provided;
                LoadAction::Finish(0)
            },
            (LoadState::Provided, _) => LoadAction::Finish(0),
            _ => self.fail(),
        }
    }
}

/// The load after it began and `count` things in a row were done.
pub open spec fn after_successes(load: LoaderView, count: nat) -> (LoaderView, LoadActionView)
    decreases count,
{
    if count == 0 {
        load.step(LoadEvent::Start)
    } else {
        after_successes(load, (count - 1) as nat).0.step(LoadEvent::Succeeded)
    }
}

/// A load exports the functions of its registry one after the other, in
/// the order of the registry, each under the naming of the module.
pub proof fn lemma_exports_in_order(load: LoaderView, count: nat)
    requires
        load.state == LoadState::Unloaded,
        load.next == 0,
        count < load.registry.len(),
    ensures
        after_successes(load, count).1 == LoadActionView::Run(
            load.registry[count as int].script(load.naming),
        ),
        after_successes(load, count).0 == (LoaderView {
            state: LoadState::PrefixConfigured,
            next: count,
            ..load
        }),
    decreases count,
{
    if count > 0 {
        lemma_exports_in_order(load, (count - 1) as nat);
    }
}

/// A load in which nothing fails exports each function once, then calls
/// the function that initializes the module, then announces the feature,
/// and then tells the loader of the runtime that the module loaded.
pub proof fn lemma_successful_load(load: LoaderView)
    requires
        load.state == LoadState::Unloaded,
        load.next == 0,
    ensures
        after_successes(load, load.registry.len()).1 == LoadActionView::CallHook,
        after_successes(load, load.registry.len() + 1).1 == LoadActionView::Run(
            provide_ops(0, load.naming.feature),
        ),
        after_successes(load, load.registry.len() + 2).1 == LoadActionView::Finish(0),
        after_successes(load, load.registry.len() + 2).0.state == LoadState::Provided,
{
    let n = load.registry.len();
    if n > 0 {
        lemma_exports_in_order(load, (n - 1) as nat);
    }
    assert(after_successes(load, n).1 == LoadActionView::CallHook);
    assert(after_successes(load, n).0.state == LoadState::FunctionsRegistered);
    assert(after_successes(load, n + 1).0 == after_successes(load, n).0.step(
        LoadEvent::Succeeded,
    ).0);
    assert(after_successes(load, n + 1).0.state == LoadState::UserInitRan);
}

/// A load never goes back: after any event it stands where it stood or
/// further on. A load that is over stays as it is.
pub proof fn lemma_load_goes_one_way(load: LoaderView, event: LoadEvent)
    ensures
        load.state.rank() <= load.step(event).0.state.rank(),
        load.state.is_final() ==> load.step(event).0.state == load.state,
        load.step(event).0.naming == load.naming,
        load.step(event).0.registry == load.registry,
{
}

/// Whatever fails, fails the load: on a failure the load is over, unless
/// the feature was announced before, and the loader of the runtime is told
/// that the module did not load.
pub proof fn lemma_failure_aborts_load(load: LoaderView)
    requires
        load.state != LoadState::Provided,
    ensures
        load.step(LoadEvent::Failed).0.state == LoadState::Failed,
        load.step(LoadEvent::Failed).1 == LoadActionView::Finish(1),
{
}

/// The loader of the runtime is told that the module loaded exactly when
/// the feature is announced, and the feature is announced only after the
/// function that initializes the module ran.
pub proof fn lemma_success_means_provided(load: LoaderView, event: LoadEvent)
    ensures
        load.step(event).1 == LoadActionView::Finish(0) <==> load.step(event).0.state
            == LoadState::Provided,
        load.step(event).0.state == LoadState::Provided ==> load.state == LoadState::Provided || (
        load.state == LoadState::UserInitRan && event == LoadEvent::Succeeded),
        load.step(event).0.state == LoadState::UserInitRan ==> load.state
            == LoadState::FunctionsRegistered,
        load.step(event).0.state == LoadState::FunctionsRegistered ==> load.state.rank() <= 1,
{
}

} // verus!
