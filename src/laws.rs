//! Properties of the generation passes that relate several inputs or calls.
use crate::input::{contract_enum, impl_helpers, impl_output, struct_fragment, trait_output};
use crate::item::{ItemImplView, ItemTraitView};
use crate::parser::{CustomView, InterfaceArgsView};
use crate::message::{names_of_kind, FragmentView, MsgType, OutputView};
use vstd::prelude::*;

verus! {

/// The place of a fragment in a contract's emission order.
pub open spec fn fragment_rank(f: FragmentView) -> int {
    match f {
        FragmentView::Struct { kind: MsgType::Instantiate, .. } => 0,
        FragmentView::ContractEnum { kind: MsgType::Exec, .. } => 1,
        FragmentView::ContractEnum { kind: MsgType::Query, .. } => 2,
        FragmentView::Struct { kind: MsgType::Migrate, .. } => 3,
        FragmentView::Glue { kind: MsgType::Exec, .. } => 4,
        FragmentView::Glue { kind: MsgType::Query, .. } => 5,
        FragmentView::ImplHelpers { .. } => 6,
        _ => 7,
    }
}

/// Some fragment of `fs` has rank `n`.
pub open spec fn has_rank(fs: Seq<FragmentView>, n: int) -> bool {
    exists|k: int| 0 <= k < fs.len() && fragment_rank(#[trigger] fs[k]) == n
}

/// The implementation of a named interface generates no message: at most the
/// test-harness helpers, and those exactly when they are asked for.
pub proof fn lemma_trait_impl_has_no_messages(
    module: Option<Seq<char>>,
    i: ItemImplView,
    error: Seq<char>,
    emit_test_harness: bool,
)
    requires
        i.is_trait,
    ensures
        ({
            let fs = impl_output(module, i, error, emit_test_harness).fragments;
            &&& fs.len() == if emit_test_harness { 1int } else { 0int }
            &&& forall|k: int| 0 <= k < fs.len() ==> #[trigger] fs[k] is ImplHelpers
        }),
{
}

/// A contract's own surface lists its fragments in the fixed order
/// instantiation, execute enum, query enum, migration, execute glue, query
/// glue, helpers: ranks rise strictly along the output. The two enums and
/// the two glue types are always there; an instantiation or migration type
/// exactly when a handler of that kind exists.
#[verifier::rlimit(40)]
pub proof fn lemma_contract_fragment_order(
    module: Option<Seq<char>>,
    i: ItemImplView,
    error: Seq<char>,
    emit_test_harness: bool,
)
    requires
        !i.is_trait,
    ensures
        ({
            let fs = impl_output(module, i, error, emit_test_harness).fragments;
            &&& forall|a: int, b: int|
                0 <= a < b < fs.len() ==> fragment_rank(#[trigger] fs[a]) < fragment_rank(
                    #[trigger] fs[b],
                )
            &&& has_rank(fs, 1) && has_rank(fs, 2) && has_rank(fs, 4) && has_rank(fs, 5)
            &&& has_rank(fs, 0) <==> names_of_kind(i.methods, MsgType::Instantiate).len() > 0
            &&& has_rank(fs, 3) <==> names_of_kind(i.methods, MsgType::Migrate).len() > 0
            &&& has_rank(fs, 6) <==> emit_test_harness
        }),
{
    let ms = i.methods;
    let fs = impl_output(module, i, error, emit_test_harness).fragments;
    let si = struct_fragment(ms, MsgType::Instantiate);
    let sm = struct_fragment(ms, MsgType::Migrate);
    let h = impl_helpers(false, error, emit_test_harness);
    let ranks = fs.map_values(|f: FragmentView| fragment_rank(f));
    let expected = (if si.len() == 0 { Seq::<int>::empty() } else { seq![0int] }) + seq![1int, 2int]
        + (if sm.len() == 0 { Seq::<int>::empty() } else { seq![3int] }) + seq![4int, 5int] + (
    if emit_test_harness {
        seq![6int]
    } else {
        Seq::<int>::empty()
    });
    assert(ranks =~= expected);
    assert forall|a: int, b: int| 0 <= a < b < fs.len() implies fragment_rank(
        #[trigger] fs[a],
    ) < fragment_rank(#[trigger] fs[b]) by {
        assert(ranks[a] == fragment_rank(fs[a]));
        assert(ranks[b] == fragment_rank(fs[b]));
    }
    assert forall|n: int| #![auto] 0 <= n <= 6 implies (has_rank(fs, n) <==> expected.contains(n)) by {
        if has_rank(fs, n) {
            let k = choose|k: int| 0 <= k < fs.len() && fragment_rank(#[trigger] fs[k]) == n;
            assert(ranks[k] == n);
        }
        if expected.contains(n) {
            let k = choose|k: int| 0 <= k < expected.len() && expected[k] == n;
            assert(fragment_rank(fs[k]) == ranks[k]);
        }
    }
    assert(expected.contains(1) && expected.contains(2) && expected.contains(4) && expected.contains(5)) by {
        let off = si.len() as int;
        assert(expected[off] == 1 && expected[off + 1] == 2);
        let off2 = off + 2 + sm.len();
        assert(expected[off2] == 4 && expected[off2 + 1] == 5);
    }
    if si.len() != 0 {
        assert(expected[0] == 0);
    }
    if sm.len() != 0 {
        assert(expected[si.len() as int + 2] == 3);
    }
    if emit_test_harness {
        assert(expected[expected.len() - 1] == 6);
    }
}

/// A contract's own surface with no instantiation handler generates no
/// instantiation type: its fragments open with the execute and query enums,
/// and both glue types follow.
pub proof fn lemma_contract_without_instantiate(
    module: Option<Seq<char>>,
    i: ItemImplView,
    error: Seq<char>,
    emit_test_harness: bool,
)
    requires
        !i.is_trait,
        names_of_kind(i.methods, MsgType::Instantiate).len() == 0,
    ensures
        ({
            let fs = impl_output(module, i, error, emit_test_harness).fragments;
            &&& fs[0] == contract_enum(i.methods, MsgType::Exec, error)
            &&& fs[1] == contract_enum(i.methods, MsgType::Query, error)
            &&& !has_rank(fs, 0)
            &&& has_rank(fs, 4) && has_rank(fs, 5)
        }),
{
    lemma_contract_fragment_order(module, i, error, emit_test_harness);
    let fs = impl_output(module, i, error, emit_test_harness).fragments;
    assert(struct_fragment(i.methods, MsgType::Instantiate) =~= Seq::empty());
    assert(fs[0] == contract_enum(i.methods, MsgType::Exec, error));
    assert(fs[1] == contract_enum(i.methods, MsgType::Query, error));
}

/// Generating twice from the same interface definition and arguments gives
/// the same output.
pub proof fn lemma_trait_output_deterministic(
    args: InterfaceArgsView,
    t: ItemTraitView,
    emit_test_harness: bool,
    first: OutputView,
    second: OutputView,
)
    requires
        first == trait_output(args, t, emit_test_harness),
        second == trait_output(args, t, emit_test_harness),
    ensures
        first == second,
{
}

/// Generating twice from the same implementation block and error type gives
/// the same output.
pub proof fn lemma_impl_output_deterministic(
    module: Option<Seq<char>>,
    i: ItemImplView,
    error: Seq<char>,
    emit_test_harness: bool,
    first: OutputView,
    second: OutputView,
)
    requires
        first == impl_output(module, i, error, emit_test_harness),
        second == impl_output(module, i, error, emit_test_harness),
    ensures
        first == second,
{
}

/// A namespace only wraps an interface's output: with a module name the
/// generics and fragments are those generated without one.
pub proof fn lemma_trait_namespace_wraps(
    name: Seq<char>,
    custom: CustomView,
    t: ItemTraitView,
    emit_test_harness: bool,
)
    ensures
        trait_output(InterfaceArgsView { module: Some(name), custom }, t, emit_test_harness) == (
        OutputView {
            module: Some(name),
            ..trait_output(InterfaceArgsView { module: None, custom }, t, emit_test_harness)
        }),
{
}

/// A namespace only wraps a contract's output: with a module name the
/// generics and fragments are those generated without one.
pub proof fn lemma_contract_namespace_wraps(
    name: Seq<char>,
    i: ItemImplView,
    error: Seq<char>,
    emit_test_harness: bool,
)
    requires
        !i.is_trait,
    ensures
        impl_output(Some(name), i, error, emit_test_harness) == (OutputView {
            module: Some(name),
            ..impl_output(None, i, error, emit_test_harness)
        }),
{
}

} // verus!
