//! Obtaining a declaration from raw source text.
//!
//! The host-language grammar is the outside parser's business. The items
//! below marked `#[verifier::external_body]` are the trusted boundary to
//! it: each one makes a single call into the parser's surface and converts
//! the answer to plain values, and its doc comment names the outside
//! function relied on. Nothing is promised of the values read out of a
//! parsed declaration — the rewrites are verified for every declaration
//! value, whatever the parser returned.

use vstd::prelude::*;
use crate::decl::{FnDecl, Span};

verus! {

/// The outside parser's syntax-tree node for one function declaration;
/// opaque to the verifier.
#[verifier::external_type_specification]
#[verifier::external_body]
pub struct ExItemFn(syn::ItemFn);

/// Relies on syn::parse_str::<syn::ItemFn>: parses the source text of one
/// function declaration, and fails on any other text.
#[verifier::external_body]
fn parse_item_fn(src: &str) -> (r: Option<syn::ItemFn>) {
    syn::parse_str(src).ok()
}

/// Relies on quote::ToTokens::to_token_stream on syn::Attribute: the
/// source text of each annotation already attached, in order.
#[verifier::external_body]
fn item_fn_attrs(f: &syn::ItemFn) -> (r: Vec<String>) {
    f.attrs.iter().map(|a| quote::ToTokens::to_token_stream(a).to_string()).collect()
}

/// Relies on the syn::Signature::asyncness field: whether the declaration
/// is marked `async`.
#[verifier::external_body]
fn item_fn_is_async(f: &syn::ItemFn) -> (r: bool) {
    f.sig.asyncness.is_some()
}

/// Relies on proc_macro2::Ident's Display form: the declared name.
#[verifier::external_body]
fn item_fn_name(f: &syn::ItemFn) -> (r: String) {
    f.sig.ident.to_string()
}

/// Relies on quote::ToTokens::to_token_stream on syn::FnArg: the source
/// text of each parameter binding, in order.
#[verifier::external_body]
fn item_fn_params(f: &syn::ItemFn) -> (r: Vec<String>) {
    f.sig.inputs.iter().map(|p| quote::ToTokens::to_token_stream(p).to_string()).collect()
}

/// Relies on the syn::ReturnType of the signature: the return-type text,
/// without the arrow, where an annotation is present.
#[verifier::external_body]
fn item_fn_ret(f: &syn::ItemFn) -> (r: Option<String>) {
    match &f.sig.output {
        syn::ReturnType::Default => None,
        syn::ReturnType::Type(_, t) => Some(
            quote::ToTokens::to_token_stream(t.as_ref()).to_string(),
        ),
    }
}

/// Relies on quote::ToTokens::to_token_stream on syn::Block: the source
/// text of the body block, braces and all.
#[verifier::external_body]
fn item_fn_body(f: &syn::ItemFn) -> (r: String) {
    quote::ToTokens::to_token_stream(f.block.as_ref()).to_string()
}

/// Relies on proc_macro2::Ident::span and proc_macro2's span locations:
/// where the declared name stands in the source.
#[verifier::external_body]
fn item_fn_name_span(f: &syn::ItemFn) -> (r: Span) {
    let s = f.sig.ident.span();
    let (a, b) = (s.start(), s.end());
    Span { start_line: a.line, start_col: a.column, end_line: b.line, end_col: b.column }
}

/// Relies on syn::spanned::Spanned::span on syn::Signature and
/// proc_macro2's span locations: where the whole signature stands.
#[verifier::external_body]
fn item_fn_sig_span(f: &syn::ItemFn) -> (r: Span) {
    let s = syn::spanned::Spanned::span(&f.sig);
    let (a, b) = (s.start(), s.end());
    Span { start_line: a.line, start_col: a.column, end_line: b.line, end_col: b.column }
}

/// Relies on syn::spanned::Spanned::span on the signature's parameter list
/// and proc_macro2's span locations: where the parameter list stands.
#[verifier::external_body]
fn item_fn_params_span(f: &syn::ItemFn) -> (r: Span) {
    let s = syn::spanned::Spanned::span(&f.sig.inputs);
    let (a, b) = (s.start(), s.end());
    Span { start_line: a.line, start_col: a.column, end_line: b.line, end_col: b.column }
}

/// Parses the raw source text of one function declaration into its plain
/// representation, reading out name, asyncness, parameters, return type,
/// body, annotations, and the spans a diagnostic may anchor at. Yields
/// nothing when the text is not one function declaration.
pub fn parse_fn_decl(src: &str) -> (r: Option<FnDecl>) {
    match parse_item_fn(src) {
        Option::None => Option::None,
        Option::Some(f) => Option::Some(
            FnDecl {
                attrs: item_fn_attrs(&f),
                is_async: item_fn_is_async(&f),
                name: item_fn_name(&f),
                params: item_fn_params(&f),
                ret: item_fn_ret(&f),
                body: item_fn_body(&f),
                name_span: item_fn_name_span(&f),
                sig_span: item_fn_sig_span(&f),
                params_span: item_fn_params_span(&f),
            },
        ),
    }
}

} // verus!
