//! Fragment definitions, fragment spreads, inline fragments, and type
//! conditions.

use vstd::prelude::*;

use crate::parser::directive::directives;
use crate::parser::name::{fragment_name, named_type};
use crate::parser::selection::selection_set;
use crate::parser::utils::{at_kw, eat_commas, err_here};
use crate::parser::{Parser, adds_node, at_kw_spec, prod1};
use crate::syntax_kind::SyntaxKind;
use crate::token::{Kw, TokenKind};

verus! {

broadcast use crate::parser::lemma_prod_trans;

/// A type condition: `on` followed by a named type.
pub(crate) fn type_condition(p: &mut Parser)
    requires
        old(p).wf(),
        old(p).depth() >= 1,
        at_kw_spec(*old(p), Kw::On),
    ensures
        prod1(*old(p), *final(p)),
        adds_node(*old(p), *final(p), SyntaxKind::TYPE_CONDITION),
{
    let ghost p0 = *p;
    p.start_node(SyntaxKind::TYPE_CONDITION);
    p.bump(SyntaxKind::ON_KW);
    eat_commas(p);
    if p.at(TokenKind::Ident) {
        named_type(p);
    } else {
        err_here(p, "expected a type name after on");
    }
    p.finish_node();
    proof {
        assert(p.top().subrange(0, p0.top_len() as int) =~= p0.top());
    }
}

/// A fragment spread: `...`, a fragment name, and optional directives.
pub(crate) fn fragment_spread(p: &mut Parser)
    requires
        old(p).wf(),
        old(p).depth() >= 1,
        old(p).peek_kind() == Some(TokenKind::Spread),
    ensures
        prod1(*old(p), *final(p)),
        adds_node(*old(p), *final(p), SyntaxKind::FRAGMENT_SPREAD),
{
    let ghost p0 = *p;
    p.start_node(SyntaxKind::FRAGMENT_SPREAD);
    p.bump(SyntaxKind::SPREAD);
    if p.at(TokenKind::Ident) {
        fragment_name(p);
    } else {
        err_here(p, "expected a fragment name after ...");
    }
    eat_commas(p);
    if p.at(TokenKind::At) {
        directives(p);
    }
    p.finish_node();
    proof {
        assert(p.top().subrange(0, p0.top_len() as int) =~= p0.top());
    }
}

/// An inline fragment: `...`, an optional type condition, optional
/// directives, and a selection set.
pub(crate) fn inline_fragment(p: &mut Parser)
    requires
        old(p).wf(),
        old(p).depth() >= 1,
        old(p).peek_kind() == Some(TokenKind::Spread),
    ensures
        prod1(*old(p), *final(p)),
        adds_node(*old(p), *final(p), SyntaxKind::INLINE_FRAGMENT),
    decreases old(p).n_tokens(), 1int,
{
    let ghost p0 = *p;
    p.start_node(SyntaxKind::INLINE_FRAGMENT);
    p.bump(SyntaxKind::SPREAD);
    eat_commas(p);
    if at_kw(p, Kw::On) {
        type_condition(p);
    }
    eat_commas(p);
    if p.at(TokenKind::At) {
        directives(p);
    }
    eat_commas(p);
    if p.at(TokenKind::LCurly) {
        selection_set(p);
    } else {
        err_here(p, "expected a selection set for the inline fragment");
    }
    p.finish_node();
    proof {
        assert(p.top().subrange(0, p0.top_len() as int) =~= p0.top());
    }
}

/// A fragment definition: the `fragment` keyword, a fragment name, a type
/// condition, optional directives, and a selection set.
pub(crate) fn fragment_definition(p: &mut Parser)
    requires
        old(p).wf(),
        old(p).depth() >= 1,
        at_kw_spec(*old(p), Kw::Fragment),
    ensures
        prod1(*old(p), *final(p)),
        adds_node(*old(p), *final(p), SyntaxKind::FRAGMENT_DEFINITION),
{
    let ghost p0 = *p;
    p.start_node(SyntaxKind::FRAGMENT_DEFINITION);
    p.bump(SyntaxKind::FRAGMENT_KW);
    eat_commas(p);
    let named = if p.at(TokenKind::Ident) {
        !at_kw(p, Kw::On)
    } else {
        false
    };
    if named {
        fragment_name(p);
    } else {
        err_here(p, "expected a name for the fragment definition");
    }
    eat_commas(p);
    if at_kw(p, Kw::On) {
        type_condition(p);
    } else {
        err_here(p, "expected a type condition in the fragment definition");
    }
    eat_commas(p);
    if p.at(TokenKind::At) {
        directives(p);
    }
    eat_commas(p);
    if p.at(TokenKind::LCurly) {
        selection_set(p);
    } else {
        err_here(p, "expected a selection set for the fragment definition");
    }
    p.finish_node();
    proof {
        assert(p.top().subrange(0, p0.top_len() as int) =~= p0.top());
    }
}

} // verus!
