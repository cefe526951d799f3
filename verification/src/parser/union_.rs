//! Union type definitions and extensions, and union member lists.

use vstd::prelude::*;

use crate::parser::directive::directives;
use crate::parser::name::{name, named_type};
use crate::parser::utils::{at_kw, description, eat_commas, err_here};
use crate::parser::{Parser, adds_node, at_kw_spec, prod1};
use crate::syntax_kind::SyntaxKind;
use crate::token::{Kw, TokenKind};

verus! {

broadcast use crate::parser::lemma_prod_trans;

/// The `|`-separated list of union members, right-nested: each node holds
/// the `=` or a pipe, one named type, and the rest of the list.
pub(crate) fn union_member_types(p: &mut Parser)
    requires
        old(p).wf(),
        old(p).depth() >= 1,
        old(p).peek_kind() == Some(TokenKind::Eq) || old(p).peek_kind() == Some(TokenKind::Pipe),
    ensures
        prod1(*old(p), *final(p)),
        adds_node(*old(p), *final(p), SyntaxKind::UNION_MEMBER_TYPES),
    decreases old(p).n_tokens(),
{
    let ghost p0 = *p;
    p.start_node(SyntaxKind::UNION_MEMBER_TYPES);
    if p.at(TokenKind::Eq) {
        p.bump(SyntaxKind::EQ);
    } else {
        p.bump(SyntaxKind::PIPE);
    }
    eat_commas(p);
    if p.at(TokenKind::Ident) {
        named_type(p);
    } else {
        err_here(p, "expected a union member type");
    }
    eat_commas(p);
    if p.at(TokenKind::Pipe) {
        union_member_types(p);
    }
    p.finish_node();
    proof {
        assert(p.top().subrange(0, p0.top_len() as int) =~= p0.top());
    }
}

/// A union type definition: an optional description, the `union`
/// keyword, a name, optional directives, and optional member types.
pub(crate) fn union_type_definition(p: &mut Parser)
    requires
        old(p).wf(),
        old(p).depth() >= 1,
        old(p).peek_kind() == Some(TokenKind::StringValue) || at_kw_spec(*old(p), Kw::Union),
    ensures
        prod1(*old(p), *final(p)),
        adds_node(*old(p), *final(p), SyntaxKind::UNION_TYPE_DEFINITION),
{
    let ghost p0 = *p;
    p.start_node(SyntaxKind::UNION_TYPE_DEFINITION);
    if p.at(TokenKind::StringValue) {
        description(p);
    }
    eat_commas(p);
    if at_kw(p, Kw::Union) {
        p.bump(SyntaxKind::UNION_KW);
    } else {
        err_here(p, "expected the union keyword");
    }
    eat_commas(p);
    if p.at(TokenKind::Ident) {
        name(p);
    } else {
        err_here(p, "expected a name for the union type");
    }
    eat_commas(p);
    if p.at(TokenKind::At) {
        directives(p);
    }
    eat_commas(p);
    if p.at(TokenKind::Eq) {
        union_member_types(p);
    }
    p.finish_node();
    proof {
        assert(p.top().subrange(0, p0.top_len() as int) =~= p0.top());
    }
}

/// A union type extension: `extend union`, a name, and the optional parts
/// of a union type definition.
pub(crate) fn union_type_extension(p: &mut Parser)
    requires
        old(p).wf(),
        old(p).depth() >= 1,
        at_kw_spec(*old(p), Kw::Extend),
    ensures
        prod1(*old(p), *final(p)),
        adds_node(*old(p), *final(p), SyntaxKind::UNION_TYPE_EXTENSION),
{
    let ghost p0 = *p;
    p.start_node(SyntaxKind::UNION_TYPE_EXTENSION);
    p.bump(SyntaxKind::EXTEND_KW);
    if at_kw(p, Kw::Union) {
        p.bump(SyntaxKind::UNION_KW);
    } else {
        err_here(p, "expected the union keyword after extend");
    }
    eat_commas(p);
    if p.at(TokenKind::Ident) {
        name(p);
    } else {
        err_here(p, "expected a name for the union type extension");
    }
    eat_commas(p);
    if p.at(TokenKind::At) {
        directives(p);
    }
    eat_commas(p);
    if p.at(TokenKind::Eq) {
        union_member_types(p);
    }
    p.finish_node();
    proof {
        assert(p.top().subrange(0, p0.top_len() as int) =~= p0.top());
    }
}

} // verus!
