//! Serialization of a declaration back to source text.
//!
//! The exact emitted text is pinned at the specification level: every
//! executable builder below is proved to return precisely the character
//! sequence its spec function describes.

use vstd::prelude::*;
use crate::decl::{opt_text_view, texts_view, FnDecl, FnDeclView};

verus! {

/// The parameter texts joined with a comma and a space.
pub open spec fn comma_join(ps: Seq<Seq<char>>) -> Seq<char>
    decreases ps.len(),
{
    if ps.len() == 0 {
        Seq::empty()
    } else if ps.len() == 1 {
        ps[0]
    } else {
        comma_join(ps.drop_last()) + ", "@ + ps.last()
    }
}

/// Each annotation text on a line of its own.
pub open spec fn attr_lines(attrs: Seq<Seq<char>>) -> Seq<char>
    decreases attrs.len(),
{
    if attrs.len() == 0 {
        Seq::empty()
    } else {
        attr_lines(attrs.drop_last()) + attrs.last() + "\n"@
    }
}

/// The return-type clause: empty when no annotation is present, else the
/// arrow followed by the type text.
pub open spec fn ret_clause(ret: Option<Seq<char>>) -> Seq<char> {
    match ret {
        Option::None => Seq::empty(),
        Option::Some(t) => " -> "@ + t,
    }
}

/// The full source text of a declaration: annotations, header with the
/// `async` keyword where the declaration carries it, name, parameter list,
/// return-type clause, and the body block.
pub open spec fn render_text(d: FnDeclView) -> Seq<char> {
    attr_lines(d.attrs) + (if d.is_async {
        "async fn "@
    } else {
        "fn "@
    }) + d.name + "("@ + comma_join(d.params) + ")"@ + ret_clause(d.ret) + " "@ + d.body
}

/// Joins parameter texts with a comma and a space.
pub fn join_params(v: &Vec<String>) -> (r: String)
    ensures
        r@ == comma_join(texts_view(v@)),
{
    let ghost ps = texts_view(v@);
    let mut r = String::new();
    let mut i: usize = 0;
    while i < v.len()
        invariant
            i <= v.len(),
            ps == texts_view(v@),
            ps.len() == v@.len(),
            r@ == comma_join(ps.take(i as int)),
        decreases v.len() - i,
    {
        if i > 0 {
            r.append(", ");
        }
        r.append(v[i].as_str());
        proof {
            let t = ps.take(i + 1 as int);
            assert(t.last() == ps[i as int]);
            if i == 0 {
                assert(r@ =~= comma_join(t));
            } else {
                assert(t.drop_last() =~= ps.take(i as int));
                assert(r@ =~= comma_join(t));
            }
        }
        i = i + 1;
    }
    proof {
        assert(ps.take(v@.len() as int) =~= ps);
    }
    r
}

/// Writes each annotation text on a line of its own.
pub fn write_attr_lines(out: &mut String, attrs: &Vec<String>)
    ensures
        final(out)@ == old(out)@ + attr_lines(texts_view(attrs@)),
{
    let ghost base = out@;
    let ghost at = texts_view(attrs@);
    let mut i: usize = 0;
    while i < attrs.len()
        invariant
            i <= attrs.len(),
            at == texts_view(attrs@),
            at.len() == attrs@.len(),
            out@ == base + attr_lines(at.take(i as int)),
        decreases attrs.len() - i,
    {
        out.append(attrs[i].as_str());
        out.append("\n");
        proof {
            let t = at.take(i + 1 as int);
            assert(t.drop_last() =~= at.take(i as int));
            assert(t.last() == at[i as int]);
            assert(out@ =~= base + attr_lines(t));
        }
        i = i + 1;
    }
    proof {
        assert(at.take(attrs@.len() as int) =~= at);
    }
}

/// Serializes a declaration to source text.
pub fn render_decl(d: &FnDecl) -> (r: String)
    ensures
        r@ == render_text(d@),
{
    let mut r = String::new();
    write_attr_lines(&mut r, &d.attrs);
    if d.is_async {
        r.append("async fn ");
    } else {
        r.append("fn ");
    }
    r.append(d.name.as_str());
    r.append("(");
    let pj = join_params(&d.params);
    r.append(pj.as_str());
    r.append(")");
    match &d.ret {
        Option::None => {},
        Option::Some(t) => {
            r.append(" -> ");
            r.append(t.as_str());
        },
    }
    r.append(" ");
    r.append(d.body.as_str());
    proof {
        assert(opt_text_view(d.ret) == d@.ret);
        assert(r@ =~= render_text(d@));
    }
    r
}

} // verus!
