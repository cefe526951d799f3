//! Names: the identifier-bearing leaf productions.

use vstd::prelude::*;

use crate::parser::{adds_node, prod1, Parser};
use crate::syntax_kind::SyntaxKind;
use crate::token::TokenKind;

verus! {

broadcast use crate::parser::lemma_prod_trans;

/// A name: one identifier.
pub(crate) fn name(p: &mut Parser)
    requires
        old(p).wf(),
        old(p).depth() >= 1,
        old(p).peek_kind() == Some(TokenKind::Ident),
    ensures
        prod1(*old(p), *final(p)),
        adds_node(*old(p), *final(p), SyntaxKind::NAME),
{
    let ghost p0 = *p;
    p.start_node(SyntaxKind::NAME);
    p.bump(SyntaxKind::IDENT);
    p.finish_node();
    proof {
        assert(p.top().subrange(0, p0.top_len() as int) =~= p0.top());
    }
}

/// A fragment name: any name but `on`.
pub(crate) fn fragment_name(p: &mut Parser)
    requires
        old(p).wf(),
        old(p).depth() >= 1,
        old(p).peek_kind() == Some(TokenKind::Ident),
    ensures
        prod1(*old(p), *final(p)),
        adds_node(*old(p), *final(p), SyntaxKind::FRAGMENT_NAME),
{
    let ghost p0 = *p;
    p.start_node(SyntaxKind::FRAGMENT_NAME);
    name(p);
    p.finish_node();
    proof {
        assert(p.top().subrange(0, p0.top_len() as int) =~= p0.top());
    }
}

/// A named type: a name used as a type.
pub(crate) fn named_type(p: &mut Parser)
    requires
        old(p).wf(),
        old(p).depth() >= 1,
        old(p).peek_kind() == Some(TokenKind::Ident),
    ensures
        prod1(*old(p), *final(p)),
        adds_node(*old(p), *final(p), SyntaxKind::NAMED_TYPE),
{
    let ghost p0 = *p;
    p.start_node(SyntaxKind::NAMED_TYPE);
    name(p);
    p.finish_node();
    proof {
        assert(p.top().subrange(0, p0.top_len() as int) =~= p0.top());
    }
}

/// An enum value: any name that is not `true`, `false` or `null`.
pub(crate) fn enum_value(p: &mut Parser)
    requires
        old(p).wf(),
        old(p).depth() >= 1,
        old(p).peek_kind() == Some(TokenKind::Ident),
    ensures
        prod1(*old(p), *final(p)),
        adds_node(*old(p), *final(p), SyntaxKind::ENUM_VALUE),
{
    let ghost p0 = *p;
    p.start_node(SyntaxKind::ENUM_VALUE);
    name(p);
    p.finish_node();
    proof {
        assert(p.top().subrange(0, p0.top_len() as int) =~= p0.top());
    }
}

} // verus!
