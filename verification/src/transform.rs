//! The three rewrites.
//!
//! Each rewrite validates one declaration and either emits a replacement
//! declaration or reports a diagnostic; the whole outcome, success and
//! failure alike, is pinned by a spec function of the input declaration.

use vstd::prelude::*;
use crate::decl::{texts_view, FnDecl, FnDeclView};
use crate::diag::{Diagnostic, DiagnosticKind};
use crate::text::{comma_join, join_params, ret_clause};

verus! {

/// The reserved entry-point name.
pub open spec fn entry_name() -> Seq<char> {
    "main"@
}

/// The test-registration marker the unit-test rewrite adds.
pub open spec fn test_marker_text() -> Seq<char> {
    "#[test]"@
}

/// The benchmark-registration marker the benchmark rewrite adds.
pub open spec fn bench_marker_text() -> Seq<char> {
    "#[bench]"@
}

/// The fixed iteration-handle parameter of an emitted benchmark.
pub open spec fn bench_param_text() -> Seq<char> {
    "b: &mut test::Bencher"@
}

/// The inner declaration the entry-point rewrite plants in the wrapper's
/// body: the original parameter list, return type and body, under the
/// entry-point name, so that the body may even call itself recursively.
pub open spec fn entry_inner_text(d: FnDeclView) -> Seq<char> {
    "async fn main("@ + comma_join(d.params) + ")"@ + ret_clause(d.ret) + " "@ + d.body
}

/// The body of the emitted entry point: the inner declaration, then one
/// call that drives it to completion on the calling thread and passes its
/// result through.
pub open spec fn entry_body_text(d: FnDeclView) -> Seq<char> {
    "{ "@ + entry_inner_text(d) + " async_std::task::block_on(async { main().await }) }"@
}

/// The declaration the entry-point rewrite emits on success: synchronous,
/// same name, return type and annotations, no parameters, wrapper body.
pub open spec fn entry_output(d: FnDeclView) -> FnDeclView {
    FnDeclView { is_async: false, params: Seq::empty(), body: entry_body_text(d), ..d }
}

/// The body of an emitted unit test: one expression that drives the
/// original body to completion and yields its result.
pub open spec fn test_body_text(d: FnDeclView) -> Seq<char> {
    "{ async_std::task::block_on(async "@ + d.body + ") }"@
}

/// The declaration the unit-test rewrite emits on success: synchronous,
/// same name and return type, the test marker followed by every original
/// annotation in order, no parameters, wrapper body.
pub open spec fn test_output(d: FnDeclView) -> FnDeclView {
    FnDeclView {
        attrs: seq![test_marker_text()] + d.attrs,
        is_async: false,
        params: Seq::empty(),
        body: test_body_text(d),
        ..d
    }
}

/// The body of an emitted benchmark: the iteration handle repeats a unit
/// of work that drives the original body to completion and discards the
/// result.
pub open spec fn bench_body_text(d: FnDeclView) -> Seq<char> {
    "{ b.iter(|| { let _ = async_std::task::block_on(async "@ + d.body + "); }); }"@
}

/// The declaration the benchmark rewrite emits on success: synchronous,
/// same name and return type, the benchmark marker followed by every
/// original annotation in order, the fixed iteration-handle parameter,
/// wrapper body.
pub open spec fn bench_output(d: FnDeclView) -> FnDeclView {
    FnDeclView {
        attrs: seq![bench_marker_text()] + d.attrs,
        is_async: false,
        params: seq![bench_param_text()],
        body: bench_body_text(d),
        ..d
    }
}

/// The whole outcome of the entry-point rewrite on one declaration.
/// The name is checked first, then the `async` marker; the first failure
/// wins and is anchored at the narrowest offending span.
pub open spec fn entry_point_spec(d: FnDeclView) -> Result<FnDeclView, Diagnostic> {
    if d.name != entry_name() {
        Result::Err(Diagnostic { kind: DiagnosticKind::WrongFunctionName, span: d.name_span })
    } else if !d.is_async {
        Result::Err(Diagnostic { kind: DiagnosticKind::MissingAsyncMarker, span: d.sig_span })
    } else {
        Result::Ok(entry_output(d))
    }
}

/// The whole outcome of the unit-test rewrite on one declaration.
pub open spec fn unit_test_spec(d: FnDeclView) -> Result<FnDeclView, Diagnostic> {
    if !d.is_async {
        Result::Err(Diagnostic { kind: DiagnosticKind::MissingAsyncMarker, span: d.sig_span })
    } else {
        Result::Ok(test_output(d))
    }
}

/// The whole outcome of the benchmark rewrite on one declaration: the
/// `async` marker is checked first, then the parameter list.
pub open spec fn benchmark_spec(d: FnDeclView) -> Result<FnDeclView, Diagnostic> {
    if !d.is_async {
        Result::Err(Diagnostic { kind: DiagnosticKind::MissingAsyncMarker, span: d.sig_span })
    } else if d.params.len() != 0 {
        Result::Err(Diagnostic { kind: DiagnosticKind::UnexpectedArguments, span: d.params_span })
    } else {
        Result::Ok(bench_output(d))
    }
}

/// The mathematical value of a rewrite's outcome.
pub open spec fn outcome_view(r: Result<FnDecl, Diagnostic>) -> Result<FnDeclView, Diagnostic> {
    match r {
        Result::Ok(o) => Result::Ok(o@),
        Result::Err(e) => Result::Err(e),
    }
}

/// Clones a vector of texts.
fn clone_texts(v: &Vec<String>) -> (r: Vec<String>)
    ensures
        r@ == v@,
{
    let mut r: Vec<String> = Vec::new();
    let mut i: usize = 0;
    while i < v.len()
        invariant
            i <= v.len(),
            r@ == v@.take(i as int),
        decreases v.len() - i,
    {
        r.push(v[i].clone());
        proof {
            assert(v@.take(i + 1 as int) =~= v@.take(i as int).push(v@[i as int]));
        }
        i = i + 1;
    }
    proof {
        assert(v@.take(v@.len() as int) =~= v@);
    }
    r
}

/// Clones an optional text.
fn clone_opt_text(o: &Option<String>) -> (r: Option<String>)
    ensures
        r == *o,
{
    match o {
        Option::None => Option::None,
        Option::Some(t) => Option::Some(t.clone()),
    }
}

/// Does this declaration carry the reserved entry-point name?
fn has_entry_name(d: &FnDecl) -> (r: bool)
    ensures
        r == (d@.name == entry_name()),
{
    let m = String::from_str("main");
    d.name == m
}

/// EntryPointTransform: rewrites the designated async entry point into a
/// synchronous entry point that drives the original body to completion.
///
/// The outcome is exactly `entry_point_spec` of the input: a declaration
/// not named `main` is rejected as `WrongFunctionName` at the name span, a
/// synchronous one as `MissingAsyncMarker` at the signature span, and any
/// other is rewritten to `entry_output`.
pub fn entry_point_transform(d: &FnDecl) -> (r: Result<FnDecl, Diagnostic>)
    ensures
        outcome_view(r) == entry_point_spec(d@),
{
    if !has_entry_name(d) {
        return Result::Err(
            Diagnostic { kind: DiagnosticKind::WrongFunctionName, span: d.name_span },
        );
    }
    if !d.is_async {
        return Result::Err(
            Diagnostic { kind: DiagnosticKind::MissingAsyncMarker, span: d.sig_span },
        );
    }
    let mut body = String::new();
    body.append("{ ");
    body.append("async fn main(");
    let pj = join_params(&d.params);
    body.append(pj.as_str());
    body.append(")");
    match &d.ret {
        Option::None => {},
        Option::Some(t) => {
            body.append(" -> ");
            body.append(t.as_str());
        },
    }
    body.append(" ");
    body.append(d.body.as_str());
    body.append(" async_std::task::block_on(async { main().await }) }");
    let out = FnDecl {
        attrs: clone_texts(&d.attrs),
        is_async: false,
        name: d.name.clone(),
        params: Vec::new(),
        ret: clone_opt_text(&d.ret),
        body,
        name_span: d.name_span,
        sig_span: d.sig_span,
        params_span: d.params_span,
    };
    proof {
        assert(out@.body =~= entry_body_text(d@));
        assert(out@ =~~= entry_output(d@));
    }
    Result::Ok(out)
}

/// UnitTestTransform: rewrites an async unit test into a synchronous test
/// function that drives the original body to completion.
///
/// The outcome is exactly `unit_test_spec` of the input: a synchronous
/// declaration is rejected as `MissingAsyncMarker` at the signature span,
/// and any other is rewritten to `test_output`.
pub fn unit_test_transform(d: &FnDecl) -> (r: Result<FnDecl, Diagnostic>)
    ensures
        outcome_view(r) == unit_test_spec(d@),
{
    if !d.is_async {
        return Result::Err(
            Diagnostic { kind: DiagnosticKind::MissingAsyncMarker, span: d.sig_span },
        );
    }
    let mut body = String::new();
    body.append("{ async_std::task::block_on(async ");
    body.append(d.body.as_str());
    body.append(") }");
    let mut attrs: Vec<String> = Vec::new();
    attrs.push(String::from_str("#[test]"));
    let mut rest = clone_texts(&d.attrs);
    attrs.append(&mut rest);
    let out = FnDecl {
        attrs,
        is_async: false,
        name: d.name.clone(),
        params: Vec::new(),
        ret: clone_opt_text(&d.ret),
        body,
        name_span: d.name_span,
        sig_span: d.sig_span,
        params_span: d.params_span,
    };
    proof {
        assert(out@.attrs =~= seq![test_marker_text()] + d@.attrs);
        assert(out@.body =~= test_body_text(d@));
        assert(out@ =~~= test_output(d@));
    }
    Result::Ok(out)
}

/// BenchmarkTransform: rewrites a parameterless async benchmark into a
/// synchronous benchmark function whose iteration handle repeatedly drives
/// the original body to completion.
///
/// The outcome is exactly `benchmark_spec` of the input: a synchronous
/// declaration is rejected as `MissingAsyncMarker` at the signature span, a
/// parameter-bearing one as `UnexpectedArguments` at the parameter-list
/// span, and any other is rewritten to `bench_output`.
pub fn benchmark_transform(d: &FnDecl) -> (r: Result<FnDecl, Diagnostic>)
    ensures
        outcome_view(r) == benchmark_spec(d@),
{
    if !d.is_async {
        return Result::Err(
            Diagnostic { kind: DiagnosticKind::MissingAsyncMarker, span: d.sig_span },
        );
    }
    if d.params.len() > 0 {
        return Result::Err(
            Diagnostic { kind: DiagnosticKind::UnexpectedArguments, span: d.params_span },
        );
    }
    let mut body = String::new();
    body.append("{ b.iter(|| { let _ = async_std::task::block_on(async ");
    body.append(d.body.as_str());
    body.append("); }); }");
    let mut attrs: Vec<String> = Vec::new();
    attrs.push(String::from_str("#[bench]"));
    let mut rest = clone_texts(&d.attrs);
    attrs.append(&mut rest);
    let mut params: Vec<String> = Vec::new();
    params.push(String::from_str("b: &mut test::Bencher"));
    let out = FnDecl {
        attrs,
        is_async: false,
        name: d.name.clone(),
        params,
        ret: clone_opt_text(&d.ret),
        body,
        name_span: d.name_span,
        sig_span: d.sig_span,
        params_span: d.params_span,
    };
    proof {
        assert(out@.attrs =~= seq![bench_marker_text()] + d@.attrs);
        assert(out@.params =~= seq![bench_param_text()]);
        assert(out@.body =~= bench_body_text(d@));
        assert(out@ =~~= bench_output(d@));
    }
    Result::Ok(out)
}

} // verus!
