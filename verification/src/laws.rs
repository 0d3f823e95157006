//! The general laws of the rewrites, stated over the outcome spec
//! functions and proved once and for all declarations.

use vstd::prelude::*;
use crate::decl::FnDeclView;
use crate::diag::{Diagnostic, DiagnosticKind};
use crate::transform::{
    bench_marker_text, bench_output, benchmark_spec, entry_inner_text, entry_name, entry_output,
    entry_point_spec, test_marker_text, test_output, unit_test_spec,
};

verus! {

/// Does `needle` appear verbatim, as one contiguous stretch, in `hay`?
pub open spec fn embeds(hay: Seq<char>, needle: Seq<char>) -> bool {
    exists|pre: Seq<char>, post: Seq<char>| hay == #[trigger] (pre + needle + post)
}

/// Law: the entry-point rewrite accepts every async declaration carrying
/// the reserved entry-point name, whatever its return type and body. The
/// emitted wrapper is synchronous and keeps the name, return type and
/// annotations, and its body plants an inner async declaration with the
/// original parameter list, return type and body, verbatim — so the inner
/// function behaves exactly as the original declaration would have.
pub proof fn lemma_entry_point_accepts(d: FnDeclView)
    requires
        d.is_async,
        d.name == entry_name(),
    ensures
        entry_point_spec(d) == Result::<FnDeclView, Diagnostic>::Ok(entry_output(d)),
        entry_output(d).name == d.name,
        entry_output(d).ret == d.ret,
        entry_output(d).attrs == d.attrs,
        !entry_output(d).is_async,
        embeds(entry_output(d).body, entry_inner_text(d)),
        embeds(entry_inner_text(d), d.body),
{
    let whole = entry_output(d).body;
    let inner = entry_inner_text(d);
    let pre = "{ "@;
    let post = " async_std::task::block_on(async { main().await }) }"@;
    assert(whole == pre + inner + post);
    let ipre = "async fn main("@ + crate::text::comma_join(d.params) + ")"@
        + crate::text::ret_clause(d.ret) + " "@;
    let ipost = Seq::<char>::empty();
    assert(inner =~= ipre + d.body + ipost);
}

/// Law: a declaration not marked `async` is rejected as
/// `MissingAsyncMarker`, anchored at the signature span, by the unit-test
/// and benchmark rewrites whatever its name and parameters, and by the
/// entry-point rewrite whenever it carries the reserved entry-point name.
/// (On a synchronous declaration with any other name the entry-point
/// rewrite reports `WrongFunctionName` instead: its name check comes
/// first.)
pub proof fn lemma_missing_async_rejected(d: FnDeclView)
    requires
        !d.is_async,
    ensures
        unit_test_spec(d) == Result::<FnDeclView, Diagnostic>::Err(
            Diagnostic { kind: DiagnosticKind::MissingAsyncMarker, span: d.sig_span },
        ),
        benchmark_spec(d) == Result::<FnDeclView, Diagnostic>::Err(
            Diagnostic { kind: DiagnosticKind::MissingAsyncMarker, span: d.sig_span },
        ),
        d.name == entry_name() ==> entry_point_spec(d) == Result::<FnDeclView, Diagnostic>::Err(
            Diagnostic { kind: DiagnosticKind::MissingAsyncMarker, span: d.sig_span },
        ),
{
}

/// Law: the entry-point rewrite rejects every async declaration whose name
/// is not the reserved entry-point name, as `WrongFunctionName` anchored at
/// the name span.
pub proof fn lemma_entry_point_rejects_wrong_name(d: FnDeclView)
    requires
        d.is_async,
        d.name != entry_name(),
    ensures
        entry_point_spec(d) == Result::<FnDeclView, Diagnostic>::Err(
            Diagnostic { kind: DiagnosticKind::WrongFunctionName, span: d.name_span },
        ),
{
}

/// Law: the benchmark rewrite rejects every async declaration with one or
/// more parameters, as `UnexpectedArguments` anchored at the
/// parameter-list span, and accepts every async declaration with none.
pub proof fn lemma_benchmark_parameter_rule(d: FnDeclView)
    requires
        d.is_async,
    ensures
        d.params.len() >= 1 ==> benchmark_spec(d) == Result::<FnDeclView, Diagnostic>::Err(
            Diagnostic { kind: DiagnosticKind::UnexpectedArguments, span: d.params_span },
        ),
        d.params.len() == 0 ==> benchmark_spec(d) == Result::<FnDeclView, Diagnostic>::Ok(
            bench_output(d),
        ),
{
}

/// Law: every annotation already attached to the input appears verbatim,
/// in the same order, on the declaration the unit-test and benchmark
/// rewrites emit, right after the added registration marker; the
/// entry-point rewrite keeps the annotation list unchanged.
pub proof fn lemma_annotations_pass_through(d: FnDeclView)
    requires
        d.is_async,
    ensures
        unit_test_spec(d) matches Result::Ok(o) && o.attrs == seq![test_marker_text()] + d.attrs
            && o.attrs.skip(1) == d.attrs,
        d.params.len() == 0 ==> (benchmark_spec(d) matches Result::Ok(o) && o.attrs == seq![
            bench_marker_text(),
        ] + d.attrs && o.attrs.skip(1) == d.attrs),
        entry_point_spec(d) matches Result::Ok(o) ==> o.attrs == d.attrs,
{
    assert((seq![test_marker_text()] + d.attrs).skip(1) =~= d.attrs);
    assert((seq![bench_marker_text()] + d.attrs).skip(1) =~= d.attrs);
    assert(test_output(d).attrs == seq![test_marker_text()] + d.attrs);
    if d.params.len() == 0 {
        assert(bench_output(d).attrs == seq![bench_marker_text()] + d.attrs);
    }
}

} // verus!
