//! Scalar type definitions and extensions.

use vstd::prelude::*;

use crate::parser::directive::directives;
use crate::parser::name::name;
use crate::parser::utils::{at_kw, description, eat_commas, err_here};
use crate::parser::{Parser, adds_node, at_kw_spec, prod1};
use crate::syntax_kind::SyntaxKind;
use crate::token::{Kw, TokenKind};

verus! {

broadcast use crate::parser::lemma_prod_trans;

/// A scalar type definition: an optional description, the `scalar`
/// keyword, a name, and optional directives.
pub(crate) fn scalar_type_definition(p: &mut Parser)
    requires
        old(p).wf(),
        old(p).depth() >= 1,
        old(p).peek_kind() == Some(TokenKind::StringValue) || at_kw_spec(*old(p), Kw::Scalar),
    ensures
        prod1(*old(p), *final(p)),
        adds_node(*old(p), *final(p), SyntaxKind::SCALAR_TYPE_DEFINITION),
{
    let ghost p0 = *p;
    p.start_node(SyntaxKind::SCALAR_TYPE_DEFINITION);
    if p.at(TokenKind::StringValue) {
        description(p);
    }
    eat_commas(p);
    if at_kw(p, Kw::Scalar) {
        p.bump(SyntaxKind::SCALAR_KW);
    } else {
        err_here(p, "expected the scalar keyword");
    }
    eat_commas(p);
    if p.at(TokenKind::Ident) {
        name(p);
    } else {
        err_here(p, "expected a name for the scalar type");
    }
    eat_commas(p);
    if p.at(TokenKind::At) {
        directives(p);
    }
    p.finish_node();
    proof {
        assert(p.top().subrange(0, p0.top_len() as int) =~= p0.top());
    }
}

/// A scalar type extension: `extend scalar`, a name, and optional
/// directives.
pub(crate) fn scalar_type_extension(p: &mut Parser)
    requires
        old(p).wf(),
        old(p).depth() >= 1,
        at_kw_spec(*old(p), Kw::Extend),
    ensures
        prod1(*old(p), *final(p)),
        adds_node(*old(p), *final(p), SyntaxKind::SCALAR_TYPE_EXTENSION),
{
    let ghost p0 = *p;
    p.start_node(SyntaxKind::SCALAR_TYPE_EXTENSION);
    p.bump(SyntaxKind::EXTEND_KW);
    if at_kw(p, Kw::Scalar) {
        p.bump(SyntaxKind::SCALAR_KW);
    } else {
        err_here(p, "expected the scalar keyword after extend");
    }
    eat_commas(p);
    if p.at(TokenKind::Ident) {
        name(p);
    } else {
        err_here(p, "expected a name for the scalar type extension");
    }
    eat_commas(p);
    if p.at(TokenKind::At) {
        directives(p);
    }
    p.finish_node();
    proof {
        assert(p.top().subrange(0, p0.top_len() as int) =~= p0.top());
    }
}

} // verus!
