//! Preprocessed input of the `interface` and `contract` macros, and the
//! generation pass over each.
use crate::item::{ItemImpl, ItemImplView, ItemTrait, ItemTraitView};
use crate::message::{
    clone_names, clone_opt, fragments_view, methods_of_kind, names_of_kind, DiagTarget, Diagnostic,
    DiagnosticView, Fragment, FragmentView, MethodView, MsgType, Output, OutputView,
};
use crate::parser::{
    apply_error_override, c_string_message, clone_custom, contains_c_string, find_error_attr, first_error_attr,
    has_c_string, is_error_attr, override_applied, override_settled, parse_paren_type,
    result_view, AttributeView, ContractArgs, CustomView, InterfaceArgs, InterfaceArgsView,
};
use vstd::prelude::*;

verus! {

pub open spec fn error_type_word() -> Seq<char> {
    seq!['E', 'r', 'r', 'o', 'r']
}

/// The interface declares the associated type `Error`.
pub open spec fn has_error_type(t: ItemTraitView) -> bool {
    exists|i: int| 0 <= i < t.assoc_types.len() && #[trigger] t.assoc_types[i] == error_type_word()
}

pub open spec fn missing_error_message() -> Seq<char> {
    "Missing `Error` type defined for trait."@
}

pub open spec fn missing_error_note_dispatch() -> Seq<char> {
    "Error is an error type returned by generated types dispatch function. Messages handling function have to return an error type convertible to this Error type."@
}

pub open spec fn missing_error_note_bound() -> Seq<char> {
    "A trait error type should be bound to implement `From<cosmwasm_std::StdError>`."@
}

/// The diagnostic for an interface without an `Error` type.
pub open spec fn missing_error_diagnostic() -> DiagnosticView {
    DiagnosticView {
        target: DiagTarget::TraitName,
        message: missing_error_message(),
        notes: seq![missing_error_note_dispatch(), missing_error_note_bound()],
    }
}

pub proof fn lemma_first_error_attr_unique(attrs: Seq<AttributeView>, i: int, j: int)
    requires
        first_error_attr(attrs, i),
        first_error_attr(attrs, j),
    ensures
        i == j,
{
    if i < j {
        assert(!crate::parser::is_error_attr(attrs[i]));
    } else if j < i {
        assert(!crate::parser::is_error_attr(attrs[j]));
    }
}

pub open spec fn trait_helpers(emit_test_harness: bool) -> Seq<FragmentView> {
    if emit_test_harness {
        seq![FragmentView::TraitHelpers]
    } else {
        Seq::empty()
    }
}

/// The message enum of kind `k`, built with the configuration `custom`.
pub open spec fn interface_enum(custom: CustomView, t: ItemTraitView, k: MsgType) -> FragmentView {
    FragmentView::InterfaceEnum { kind: k, methods: names_of_kind(t.methods, k), custom }
}

/// What an interface definition generates: its execute and query messages,
/// then the test-harness helpers where they are asked for.
pub open spec fn trait_fragments(
    custom: CustomView,
    t: ItemTraitView,
    emit_test_harness: bool,
) -> Seq<FragmentView> {
    seq![interface_enum(custom, t, MsgType::Exec), interface_enum(custom, t, MsgType::Query)]
        + trait_helpers(emit_test_harness)
}

/// The interface's output: the namespace its arguments name, if any, its
/// generics, and its fragments, each enum built with its configuration.
pub open spec fn trait_output(
    args: InterfaceArgsView,
    t: ItemTraitView,
    emit_test_harness: bool,
) -> OutputView {
    OutputView {
        module: args.module,
        generics: t.generics,
        fragments: trait_fragments(args.custom, t, emit_test_harness),
    }
}

pub open spec fn impl_helpers(is_trait: bool, error: Seq<char>, emit_test_harness: bool) -> Seq<
    FragmentView,
> {
    if emit_test_harness {
        seq![FragmentView::ImplHelpers { is_trait, error }]
    } else {
        Seq::empty()
    }
}

/// The single-message type of kind `k`: none where no handler has that kind.
pub open spec fn struct_fragment(ms: Seq<MethodView>, k: MsgType) -> Seq<FragmentView> {
    if names_of_kind(ms, k).len() == 0 {
        Seq::empty()
    } else {
        seq![FragmentView::Struct { kind: k, methods: names_of_kind(ms, k) }]
    }
}

pub open spec fn contract_enum(ms: Seq<MethodView>, k: MsgType, error: Seq<char>) -> FragmentView {
    FragmentView::ContractEnum { kind: k, methods: names_of_kind(ms, k), error }
}

/// The messages of a contract, in their fixed order: instantiation, execute
/// and query enums, migration, execute and query glue.
pub open spec fn contract_messages(ms: Seq<MethodView>, error: Seq<char>) -> Seq<FragmentView> {
    struct_fragment(ms, MsgType::Instantiate) + seq![
        contract_enum(ms, MsgType::Exec, error),
        contract_enum(ms, MsgType::Query, error),
    ] + struct_fragment(ms, MsgType::Migrate) + seq![
        FragmentView::Glue { kind: MsgType::Exec, error },
        FragmentView::Glue { kind: MsgType::Query, error },
    ]
}

/// What an implementation block generates: for the implementation of a named
/// interface only its helpers; for the contract's own surface its messages,
/// then its helpers.
pub open spec fn impl_fragments(i: ItemImplView, error: Seq<char>, emit_test_harness: bool) -> Seq<
    FragmentView,
> {
    if i.is_trait {
        impl_helpers(true, error, emit_test_harness)
    } else {
        contract_messages(i.methods, error) + impl_helpers(false, error, emit_test_harness)
    }
}

/// The implementation of a named interface is never namespaced.
pub open spec fn impl_output(
    module: Option<Seq<char>>,
    i: ItemImplView,
    error: Seq<char>,
    emit_test_harness: bool,
) -> OutputView {
    OutputView {
        module: if i.is_trait {
            None
        } else {
            module
        },
        generics: i.generics,
        fragments: impl_fragments(i, error, emit_test_harness),
    }
}

fn push_fragment(fragments: &mut Vec<Fragment>, f: Fragment)
    ensures
        fragments_view(final(fragments)@) == fragments_view(old(fragments)@).push(f@),
{
    let ghost before = fragments@;
    fragments.push(f);
    assert(fragments_view(fragments@) =~= fragments_view(before).push(f@));
}

/// Preprocessed `interface` macro input
pub struct TraitInput<'a> {
    pub attributes: &'a InterfaceArgs,
    pub item: &'a ItemTrait,
}

/// Preprocessed `contract` macro input
pub struct ImplInput<'a> {
    pub attributes: &'a ContractArgs,
    /// The contract's error type, resolved once here.
    pub error: String,
    pub item: &'a ItemImpl,
}

impl<'a> TraitInput<'a> {
    /// Takes the input in, and reports to `diagnostics` an interface that
    /// declares no `Error` type; the input is kept either way.
    pub fn new(
        attributes: &'a InterfaceArgs,
        item: &'a ItemTrait,
        diagnostics: &mut Vec<Diagnostic>,
    ) -> (r: Self)
        ensures
            r.attributes == attributes,
            r.item == item,
            has_error_type(item@) ==> final(diagnostics)@ == old(diagnostics)@,
            !has_error_type(item@) ==> {
                &&& final(diagnostics)@.len() == old(diagnostics)@.len() + 1
                &&& final(diagnostics)@.drop_last() == old(diagnostics)@
                &&& final(diagnostics)@.last()@ == missing_error_diagnostic()
            },
    {
        let word = "Error".to_owned();
        proof {
            reveal_strlit("Error");
        }
        assert(word@ =~= error_type_word());
        let mut found = false;
        let mut i: usize = 0;
        while i < item.assoc_types.len()
            invariant
                i <= item.assoc_types.len(),
                word@ == error_type_word(),
                found <==> exists|j: int| 0 <= j < i && #[trigger] item@.assoc_types[j] == error_type_word(),
            decreases item.assoc_types.len() - i,
        {
            assert(item@.assoc_types[i as int] == item.assoc_types@[i as int]@);
            if item.assoc_types[i] == word {
                found = true;
            }
            i = i + 1;
        }
        if !found {
            let mut notes: Vec<String> = Vec::new();
            notes.push("Error is an error type returned by generated types dispatch function. Messages handling function have to return an error type convertible to this Error type.".to_owned());
            notes.push("A trait error type should be bound to implement `From<cosmwasm_std::StdError>`.".to_owned());
            let d = Diagnostic {
                target: DiagTarget::TraitName,
                message: "Missing `Error` type defined for trait.".to_owned(),
                notes,
            };
            let ghost before = diagnostics@;
            diagnostics.push(d);
            assert(d@.notes =~= missing_error_diagnostic().notes);
            assert(diagnostics@.drop_last() =~= before);
        }
        TraitInput { attributes, item }
    }

    /// Generates the interface's messages, followed by its test-harness
    /// helpers when `emit_test_harness` is set, inside the namespace that
    /// the arguments name, if any.
    pub fn process(&self, emit_test_harness: bool) -> (r: Output)
        ensures
            r@ == trait_output(self.attributes@, self.item@, emit_test_harness),
    {
        let mut fragments = self.emit_messages();
        if emit_test_harness {
            fragments.push(Fragment::TraitHelpers);
        }
        let r = Output {
            module: clone_opt(&self.attributes.module),
            generics: clone_names(&self.item.generics),
            fragments,
        };
        assert(r@.fragments =~= trait_fragments(self.attributes@.custom, self.item@, emit_test_harness));
        r
    }

    /// The execute and query messages, in that order.
    fn emit_messages(&self) -> (r: Vec<Fragment>)
        ensures
            fragments_view(r@) == seq![
                interface_enum(self.attributes@.custom, self.item@, MsgType::Exec),
                interface_enum(self.attributes@.custom, self.item@, MsgType::Query),
            ],
    {
        let mut fragments: Vec<Fragment> = Vec::new();
        push_fragment(&mut fragments, self.emit_msg(MsgType::Exec));
        push_fragment(&mut fragments, self.emit_msg(MsgType::Query));
        assert(fragments_view(fragments@) =~= seq![
            interface_enum(self.attributes@.custom, self.item@, MsgType::Exec),
            interface_enum(self.attributes@.custom, self.item@, MsgType::Query),
        ]);
        fragments
    }

    fn emit_msg(&self, k: MsgType) -> (r: Fragment)
        ensures
            r@ == interface_enum(self.attributes@.custom, self.item@, k),
    {
        Fragment::InterfaceEnum {
            kind: k,
            methods: methods_of_kind(&self.item.methods, k),
            custom: clone_custom(&self.attributes.custom),
        }
    }
}

impl<'a> ImplInput<'a> {
    /// Takes the input in and resolves the contract's error type once: with
    /// no `#[error(...)]` attribute it is `default_error`; else the first such
    /// attribute is parsed and applied by `apply_error_override`. Tokens that
    /// hold a C-string literal, which the parser cannot take, are refused with
    /// a diagnostic of their own.
    pub fn new(
        attributes: &'a ContractArgs,
        item: &'a ItemImpl,
        default_error: &String,
        diagnostics: &mut Vec<Diagnostic>,
    ) -> (r: Self)
        ensures
            r.attributes == attributes,
            r.item == item,
            (forall|j: int| 0 <= j < item@.attrs.len() ==> !is_error_attr(#[trigger] item@.attrs[j]))
                ==> r.error@ == default_error@ && final(diagnostics)@ == old(diagnostics)@,
            forall|i: int|
                #![auto]
                first_error_attr(item@.attrs, i) && has_c_string(item@.attrs[i].tokens)
                    ==> override_applied(
                    i,
                    Err(c_string_message()),
                    default_error@,
                    old(diagnostics)@,
                    final(diagnostics)@,
                    r.error@,
                ),
            forall|i: int|
                #![auto]
                first_error_attr(item@.attrs, i) && !has_c_string(item@.attrs[i].tokens)
                    ==> override_settled(
                        i,
                        default_error@,
                        old(diagnostics)@,
                        final(diagnostics)@,
                        r.error@,
                    ),
    {
        let ghost mut outcome: Result<Seq<char>, Seq<char>> = Err(Seq::empty());
        let error = match find_error_attr(&item.attrs) {
            Some(i) => {
                proof {
                    assert forall|j: int| first_error_attr(item@.attrs, j) implies j == i as int by {
                        lemma_first_error_attr_unique(item@.attrs, j, i as int);
                    }
                }
                let tokens = &item.attrs[i].tokens;
                assert(tokens@ == item@.attrs[i as int].tokens);
                let parsed = if contains_c_string(tokens) {
                    Err(
                        "C string literals are not supported in a contract's error type".to_owned(),
                    )
                } else {
                    parse_paren_type(tokens)
                };
                proof {
                    outcome = result_view(parsed);
                }
                apply_error_override(i, parsed, default_error, diagnostics)
            },
            None => default_error.clone(),
        };
        assert forall|j: int| #[trigger]
            first_error_attr(item@.attrs, j) implies override_applied(
                j,
                outcome,
                default_error@,
                old(diagnostics)@,
                diagnostics@,
                error@,
            ) && override_settled(j, default_error@, old(diagnostics)@, diagnostics@, error@) by {}
        ImplInput { attributes, error, item }
    }

    /// Generates the contract's messages. The implementation of a named
    /// interface gives only its test-harness helpers, when
    /// `emit_test_harness` is set, and no namespace; the contract's own
    /// surface gives its messages in their fixed order, then its helpers,
    /// inside the namespace that the arguments name, if any.
    pub fn process(&self, emit_test_harness: bool) -> (r: Output)
        ensures
            r@ == impl_output(self.attributes@, self.item@, self.error@, emit_test_harness),
    {
        let is_trait = self.item.trait_.is_some();
        let mut fragments: Vec<Fragment> = Vec::new();
        if !is_trait {
            self.emit_messages(&mut fragments);
        }
        if emit_test_harness {
            fragments.push(Fragment::ImplHelpers { is_trait, error: self.error.clone() });
        }
        let module = if is_trait {
            None
        } else {
            clone_opt(&self.attributes.module)
        };
        let r = Output { module, generics: clone_names(&self.item.generics), fragments };
        assert(r@.fragments =~= impl_fragments(self.item@, self.error@, emit_test_harness));
        r
    }

    /// Appends the contract's messages in their fixed order.
    fn emit_messages(&self, fragments: &mut Vec<Fragment>)
        requires
            old(fragments)@.len() == 0,
        ensures
            fragments_view(final(fragments)@) == contract_messages(self.item@.methods, self.error@),
    {
        let ghost ms = self.item@.methods;
        let ghost e = self.error@;
        self.emit_struct_msg(MsgType::Instantiate, fragments);
        let ghost a = fragments_view(fragments@);
        assert(a =~= struct_fragment(ms, MsgType::Instantiate));
        push_fragment(fragments, self.emit_enum_msg(MsgType::Exec));
        push_fragment(fragments, self.emit_enum_msg(MsgType::Query));
        assert(fragments_view(fragments@) =~= a + seq![
            contract_enum(ms, MsgType::Exec, e),
            contract_enum(ms, MsgType::Query, e),
        ]);
        self.emit_struct_msg(MsgType::Migrate, fragments);
        let ghost c = fragments_view(fragments@);
        push_fragment(fragments, self.emit_glue_msg(MsgType::Exec));
        push_fragment(fragments, self.emit_glue_msg(MsgType::Query));
        assert(fragments_view(fragments@) =~= c + seq![
            FragmentView::Glue { kind: MsgType::Exec, error: e },
            FragmentView::Glue { kind: MsgType::Query, error: e },
        ]);
        assert(fragments_view(fragments@) =~= contract_messages(ms, e));
    }

    /// Appends the single-message type of kind `k`, where a handler has it.
    fn emit_struct_msg(&self, k: MsgType, fragments: &mut Vec<Fragment>)
        ensures
            fragments_view(final(fragments)@) == fragments_view(old(fragments)@) + struct_fragment(
                self.item@.methods,
                k,
            ),
    {
        let methods = methods_of_kind(&self.item.methods, k);
        let ghost before = fragments@;
        if methods.len() > 0 {
            fragments.push(Fragment::Struct { kind: k, methods });
        }
        assert(fragments_view(fragments@) =~= fragments_view(before) + struct_fragment(
            self.item@.methods,
            k,
        ));
    }

    fn emit_enum_msg(&self, k: MsgType) -> (r: Fragment)
        ensures
            r@ == contract_enum(self.item@.methods, k, self.error@),
    {
        Fragment::ContractEnum {
            kind: k,
            methods: methods_of_kind(&self.item.methods, k),
            error: self.error.clone(),
        }
    }

    fn emit_glue_msg(&self, k: MsgType) -> (r: Fragment)
        ensures
            r@ == (FragmentView::Glue { kind: k, error: self.error@ }),
    {
        Fragment::Glue { kind: k, error: self.error.clone() }
    }
}

} // verus!
