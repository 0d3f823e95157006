//! Diagnostics: the three rejection reasons and their rendered messages.

use vstd::prelude::*;
use crate::decl::Span;

verus! {

/// Why a declaration was rejected.
#[derive(Clone, Copy, Debug, PartialEq, Eq, Structural)]
pub enum DiagnosticKind {
    /// The entry-point marker was put on a function whose name is not the
    /// reserved entry-point name.
    WrongFunctionName,
    /// A marker was put on a function not declared `async`.
    MissingAsyncMarker,
    /// The benchmark marker was put on a function that declares parameters.
    UnexpectedArguments,
}

/// A rejection: a reason and the narrowest offending source location.
#[derive(Clone, Copy, Debug, PartialEq, Eq, Structural)]
pub struct Diagnostic {
    pub kind: DiagnosticKind,
    pub span: Span,
}

/// The message text shown for each rejection reason.
pub open spec fn message_text(kind: DiagnosticKind) -> Seq<char> {
    match kind {
        DiagnosticKind::WrongFunctionName => "only the main function can be tagged with #[runtime::main]"@,
        DiagnosticKind::MissingAsyncMarker => "the async keyword is missing from the function declaration"@,
        DiagnosticKind::UnexpectedArguments => "async benchmarks don't take any arguments"@,
    }
}

impl Diagnostic {
    /// The human-readable message of this diagnostic.
    pub fn message(&self) -> (r: String)
        ensures
            r@ == message_text(self.kind),
    {
        match self.kind {
            DiagnosticKind::WrongFunctionName => String::from_str(
                "only the main function can be tagged with #[runtime::main]",
            ),
            DiagnosticKind::MissingAsyncMarker => String::from_str(
                "the async keyword is missing from the function declaration",
            ),
            DiagnosticKind::UnexpectedArguments => String::from_str(
                "async benchmarks don't take any arguments",
            ),
        }
    }
}

} // verus!
