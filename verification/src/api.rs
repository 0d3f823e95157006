//! The marker surface: one function per marker, from raw source text to
//! replacement source text or a diagnostic.
//!
//! Each function hands the text to the outside parser, runs the verified
//! rewrite on whatever declaration came back, and serializes a successful
//! replacement. Since nothing is known of the parsed values, the contract
//! of each function says that its answer is the rewrite's pinned outcome
//! for some declaration; the rewrites themselves carry the exact
//! contracts.

use vstd::prelude::*;
use crate::decl::FnDeclView;
use crate::diag::Diagnostic;
use crate::parse::parse_fn_decl;
use crate::text::{render_decl, render_text};
use crate::transform::{
    benchmark_spec, benchmark_transform, entry_point_spec, entry_point_transform, unit_test_spec,
    unit_test_transform,
};

verus! {

/// Is `r` the entry-point rewrite's outcome on `d`, with a successful
/// replacement rendered to source text?
pub open spec fn entry_point_outcome(d: FnDeclView, r: Result<String, Diagnostic>) -> bool {
    match r {
        Result::Ok(s) => entry_point_spec(d) matches Result::Ok(o) && s@ == render_text(o),
        Result::Err(e) => entry_point_spec(d) == Result::<FnDeclView, Diagnostic>::Err(e),
    }
}

/// Is `r` the unit-test rewrite's outcome on `d`, with a successful
/// replacement rendered to source text?
pub open spec fn unit_test_outcome(d: FnDeclView, r: Result<String, Diagnostic>) -> bool {
    match r {
        Result::Ok(s) => unit_test_spec(d) matches Result::Ok(o) && s@ == render_text(o),
        Result::Err(e) => unit_test_spec(d) == Result::<FnDeclView, Diagnostic>::Err(e),
    }
}

/// Is `r` the benchmark rewrite's outcome on `d`, with a successful
/// replacement rendered to source text?
pub open spec fn benchmark_outcome(d: FnDeclView, r: Result<String, Diagnostic>) -> bool {
    match r {
        Result::Ok(s) => benchmark_spec(d) matches Result::Ok(o) && s@ == render_text(o),
        Result::Err(e) => benchmark_spec(d) == Result::<FnDeclView, Diagnostic>::Err(e),
    }
}

/// The entry-point marker. Marker arguments are accepted and ignored.
/// Yields nothing when `item` is not the text of one function
/// declaration; else the answer is the entry-point rewrite's outcome on
/// the declaration the parser read.
pub fn main(_marker_args: &str, item: &str) -> (r: Option<Result<String, Diagnostic>>)
    ensures
        r matches Some(res) ==> exists|d: FnDeclView| #[trigger] entry_point_outcome(d, res),
{
    match parse_fn_decl(item) {
        Option::None => Option::None,
        Option::Some(decl) => {
            let ghost dv = decl@;
            let res: Result<String, Diagnostic> = match entry_point_transform(&decl) {
                Result::Ok(out) => Result::Ok(render_decl(&out)),
                Result::Err(e) => Result::Err(e),
            };
            proof {
                assert(entry_point_outcome(dv, res));
            }
            Option::Some(res)
        },
    }
}

/// The test marker. Marker arguments are accepted and ignored. Yields
/// nothing when `item` is not the text of one function declaration; else
/// the answer is the unit-test rewrite's outcome on the declaration the
/// parser read.
pub fn test(_marker_args: &str, item: &str) -> (r: Option<Result<String, Diagnostic>>)
    ensures
        r matches Some(res) ==> exists|d: FnDeclView| #[trigger] unit_test_outcome(d, res),
{
    match parse_fn_decl(item) {
        Option::None => Option::None,
        Option::Some(decl) => {
            let ghost dv = decl@;
            let res: Result<String, Diagnostic> = match unit_test_transform(&decl) {
                Result::Ok(out) => Result::Ok(render_decl(&out)),
                Result::Err(e) => Result::Err(e),
            };
            proof {
                assert(unit_test_outcome(dv, res));
            }
            Option::Some(res)
        },
    }
}

/// The benchmark marker. Marker arguments are accepted and ignored.
/// Yields nothing when `item` is not the text of one function
/// declaration; else the answer is the benchmark rewrite's outcome on the
/// declaration the parser read.
pub fn bench(_marker_args: &str, item: &str) -> (r: Option<Result<String, Diagnostic>>)
    ensures
        r matches Some(res) ==> exists|d: FnDeclView| #[trigger] benchmark_outcome(d, res),
{
    match parse_fn_decl(item) {
        Option::None => Option::None,
        Option::Some(decl) => {
            let ghost dv = decl@;
            let res: Result<String, Diagnostic> = match benchmark_transform(&decl) {
                Result::Ok(out) => Result::Ok(render_decl(&out)),
                Result::Err(e) => Result::Err(e),
            };
            proof {
                assert(benchmark_outcome(dv, res));
            }
            Option::Some(res)
        },
    }
}

} // verus!
