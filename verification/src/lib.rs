//! Source-level rewriting of `async` function declarations.
//!
//! Three rewrites are offered, one per marker of the original attribute
//! surface: an async program entry point becomes a synchronous `main` that
//! drives the original body to completion, an async unit test becomes a
//! synchronous `#[test]` function, and an async benchmark becomes a
//! synchronous `#[bench]` function driven by the harness's iteration handle.
//! Each rewrite either emits a replacement declaration or reports a
//! diagnostic anchored at the offending span.

pub mod api;
pub mod decl;
pub mod diag;
pub mod laws;
pub mod parse;
pub mod text;
pub mod transform;

pub use decl::{FnDecl, Span};
pub use diag::{Diagnostic, DiagnosticKind};
