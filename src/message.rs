//! Message kinds, handler methods, generated fragments and diagnostics.
use crate::parser::{Custom, CustomView};
use vstd::prelude::*;

verus! {

/// The four kinds of generated message.
#[derive(Clone, Copy, Debug, PartialEq, Eq, Structural)]
pub enum MsgType {
    Instantiate,
    Exec,
    Query,
    Migrate,
}

/// A handler method, with the kind that its message attribute tags it with
/// (`None` for a method that is no handler).
#[derive(Debug, PartialEq, Eq)]
pub struct Method {
    pub name: String,
    pub kind: Option<MsgType>,
}

pub struct MethodView {
    pub name: Seq<char>,
    pub kind: Option<MsgType>,
}

impl View for Method {
    type V = MethodView;

    open spec fn view(&self) -> MethodView {
        MethodView { name: self.name@, kind: self.kind }
    }
}

pub open spec fn names_view(v: Seq<String>) -> Seq<Seq<char>> {
    v.map_values(|s: String| s@)
}

pub open spec fn methods_view(v: Seq<Method>) -> Seq<MethodView> {
    v.map_values(|m: Method| m@)
}

/// The names of the handlers of kind `k`, in declaration order.
pub open spec fn names_of_kind(ms: Seq<MethodView>, k: MsgType) -> Seq<Seq<char>>
    decreases ms.len(),
{
    if ms.len() == 0 {
        Seq::empty()
    } else {
        let prev = names_of_kind(ms.drop_last(), k);
        if ms.last().kind == Some(k) {
            prev.push(ms.last().name)
        } else {
            prev
        }
    }
}

/// One unit of generated output, described by what its builder is given.
#[derive(Debug, PartialEq, Eq)]
pub enum Fragment {
    /// A single-message type (instantiation, migration) built from the
    /// handlers of its kind.
    Struct { kind: MsgType, methods: Vec<String> },
    /// The message enum of an interface definition: one variant per handler,
    /// built with the interface's configuration.
    InterfaceEnum { kind: MsgType, methods: Vec<String>, custom: Custom },
    /// The message enum of a contract, whose dispatch returns `error`.
    ContractEnum { kind: MsgType, methods: Vec<String>, error: String },
    /// The contract-scoped wrapper that nests an interface-scoped message.
    Glue { kind: MsgType, error: String },
    /// Test-harness helpers of an interface definition.
    TraitHelpers,
    /// Test-harness helpers of an implementation block.
    ImplHelpers { is_trait: bool, error: String },
}

pub enum FragmentView {
    Struct { kind: MsgType, methods: Seq<Seq<char>> },
    InterfaceEnum { kind: MsgType, methods: Seq<Seq<char>>, custom: CustomView },
    ContractEnum { kind: MsgType, methods: Seq<Seq<char>>, error: Seq<char> },
    Glue { kind: MsgType, error: Seq<char> },
    TraitHelpers,
    ImplHelpers { is_trait: bool, error: Seq<char> },
}

impl View for Fragment {
    type V = FragmentView;

    open spec fn view(&self) -> FragmentView {
        match self {
            Fragment::Struct { kind, methods } => FragmentView::Struct {
                kind: *kind,
                methods: names_view(methods@),
            },
            Fragment::InterfaceEnum { kind, methods, custom } => FragmentView::InterfaceEnum {
                kind: *kind,
                methods: names_view(methods@),
                custom: custom@,
            },
            Fragment::ContractEnum { kind, methods, error } => FragmentView::ContractEnum {
                kind: *kind,
                methods: names_view(methods@),
                error: error@,
            },
            Fragment::Glue { kind, error } => FragmentView::Glue { kind: *kind, error: error@ },
            Fragment::TraitHelpers => FragmentView::TraitHelpers,
            Fragment::ImplHelpers { is_trait, error } => FragmentView::ImplHelpers {
                is_trait: *is_trait,
                error: error@,
            },
        }
    }
}

pub open spec fn fragments_view(v: Seq<Fragment>) -> Seq<FragmentView> {
    v.map_values(|f: Fragment| f@)
}

/// The result of one generation pass: the fragments in emission order, the
/// generics they are built under, and the namespace that encloses them, if any.
#[derive(Debug, PartialEq, Eq)]
pub struct Output {
    pub module: Option<String>,
    pub generics: Vec<String>,
    pub fragments: Vec<Fragment>,
}

pub struct OutputView {
    pub module: Option<Seq<char>>,
    pub generics: Seq<Seq<char>>,
    pub fragments: Seq<FragmentView>,
}

pub open spec fn opt_view(o: Option<String>) -> Option<Seq<char>> {
    match o {
        Some(s) => Some(s@),
        None => None,
    }
}

impl View for Output {
    type V = OutputView;

    open spec fn view(&self) -> OutputView {
        OutputView {
            module: opt_view(self.module),
            generics: names_view(self.generics@),
            fragments: fragments_view(self.fragments@),
        }
    }
}

/// Where a diagnostic points: the name of the interface definition, or the
/// attribute at the given index of an implementation block.
#[derive(Clone, Copy, Debug, PartialEq, Eq, Structural)]
pub enum DiagTarget {
    TraitName,
    Attr(usize),
}

/// An error reported against a source location, with explanatory notes.
#[derive(Debug, PartialEq, Eq)]
pub struct Diagnostic {
    pub target: DiagTarget,
    pub message: String,
    pub notes: Vec<String>,
}

pub struct DiagnosticView {
    pub target: DiagTarget,
    pub message: Seq<char>,
    pub notes: Seq<Seq<char>>,
}

impl View for Diagnostic {
    type V = DiagnosticView;

    open spec fn view(&self) -> DiagnosticView {
        DiagnosticView { target: self.target, message: self.message@, notes: names_view(self.notes@) }
    }
}

/// A copy of a list of names.
pub fn clone_names(v: &Vec<String>) -> (r: Vec<String>)
    ensures
        names_view(r@) == names_view(v@),
{
    let mut r: Vec<String> = Vec::new();
    let mut i: usize = 0;
    while i < v.len()
        invariant
            i <= v.len(),
            names_view(r@) == names_view(v@.subrange(0, i as int)),
        decreases v.len() - i,
    {
        let ghost prev = r@;
        let s = v[i].clone();
        r.push(s);
        assert(names_view(r@) =~= names_view(prev).push(v@[i as int]@));
        assert(names_view(v@.subrange(0, i as int + 1)) =~= names_view(
            v@.subrange(0, i as int),
        ).push(v@[i as int]@));
        i = i + 1;
    }
    assert(v@.subrange(0, v.len() as int) =~= v@);
    r
}

/// A copy of an optional name.
pub fn clone_opt(o: &Option<String>) -> (r: Option<String>)
    ensures
        opt_view(r) == opt_view(*o),
{
    match o {
        Some(s) => Some(s.clone()),
        None => None,
    }
}

/// The names of the handlers of kind `k`, in declaration order.
pub fn methods_of_kind(ms: &Vec<Method>, k: MsgType) -> (r: Vec<String>)
    ensures
        names_view(r@) == names_of_kind(methods_view(ms@), k),
{
    let mut r: Vec<String> = Vec::new();
    let mut i: usize = 0;
    while i < ms.len()
        invariant
            i <= ms.len(),
            names_view(r@) == names_of_kind(methods_view(ms@.subrange(0, i as int)), k),
        decreases ms.len() - i,
    {
        let ghost before = methods_view(ms@.subrange(0, i as int));
        let ghost after = methods_view(ms@.subrange(0, i as int + 1));
        assert(after.drop_last() =~= before);
        assert(after.last() == ms@[i as int]@);
        match ms[i].kind {
            Some(k2) => {
                if k2 == k {
                    r.push(ms[i].name.clone());
                }
            },
            None => {},
        }
        i = i + 1;
        assert(names_view(r@) =~= names_of_kind(after, k));
    }
    assert(ms@.subrange(0, ms.len() as int) =~= ms@);
    r
}

} // verus!
