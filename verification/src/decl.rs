//! The parsed shape of one function declaration.
//!
//! A declaration is held as plain values: the pieces the rewrites read
//! (name, asyncness, parameter count) are structured, while the pieces
//! they only carry through (parameter texts, return type, body block,
//! annotations) are kept as source text. Every sub-element that a
//! diagnostic may anchor at keeps its source location.

use vstd::prelude::*;

verus! {

/// A source location: the start and end of a construct in the original
/// text, as one-based lines and zero-based columns.
#[derive(Clone, Copy, Debug, PartialEq, Eq, Structural)]
pub struct Span {
    pub start_line: usize,
    pub start_col: usize,
    pub end_line: usize,
    pub end_col: usize,
}

/// One function declaration, as handed to a rewrite.
///
/// `params` holds the source text of each parameter binding in order;
/// `ret` the return-type text without the arrow, if an annotation is
/// present; `body` the text of the whole body block, braces included;
/// `attrs` the text of each annotation already attached, in order.
#[derive(Clone, Debug)]
pub struct FnDecl {
    pub attrs: Vec<String>,
    pub is_async: bool,
    pub name: String,
    pub params: Vec<String>,
    pub ret: Option<String>,
    pub body: String,
    pub name_span: Span,
    pub sig_span: Span,
    pub params_span: Span,
}

/// The mathematical value of a `FnDecl`: every text as a `Seq<char>`.
#[verifier::ext_equal]
pub ghost struct FnDeclView {
    pub attrs: Seq<Seq<char>>,
    pub is_async: bool,
    pub name: Seq<char>,
    pub params: Seq<Seq<char>>,
    pub ret: Option<Seq<char>>,
    pub body: Seq<char>,
    pub name_span: Span,
    pub sig_span: Span,
    pub params_span: Span,
}

/// The views of a sequence of texts.
pub open spec fn texts_view(v: Seq<String>) -> Seq<Seq<char>> {
    v.map_values(|s: String| s@)
}

/// The view of an optional text.
pub open spec fn opt_text_view(o: Option<String>) -> Option<Seq<char>> {
    match o {
        Option::None => Option::None,
        Option::Some(t) => Option::Some(t@),
    }
}

impl View for FnDecl {
    type V = FnDeclView;

    open spec fn view(&self) -> FnDeclView {
        FnDeclView {
            attrs: texts_view(self.attrs@),
            is_async: self.is_async,
            name: self.name@,
            params: texts_view(self.params@),
            ret: opt_text_view(self.ret),
            body: self.body@,
            name_span: self.name_span,
            sig_span: self.sig_span,
            params_span: self.params_span,
        }
    }
}

} // verus!
