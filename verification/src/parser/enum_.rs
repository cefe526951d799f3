//! Enum type definitions and extensions, and enum value lists.

use vstd::prelude::*;

use crate::parser::directive::directives;
use crate::parser::name::{enum_value, name};
use crate::parser::utils::{at_kw, description, eat_commas, err_at_peek, err_here};
use crate::parser::{Parser, adds_node, at_kw_spec, lemma_prod_refl, prod, prod1};
use crate::syntax_kind::SyntaxKind;
use crate::token::{Kw, TokenKind};

verus! {

broadcast use crate::parser::lemma_prod_trans;

/// One enum value definition: an optional description, the enum value,
/// and optional directives.
pub(crate) fn enum_value_definition(p: &mut Parser)
    requires
        old(p).wf(),
        old(p).depth() >= 1,
        old(p).peek_kind() == Some(TokenKind::Ident) || old(p).peek_kind() == Some(
            TokenKind::StringValue,
        ),
    ensures
        prod1(*old(p), *final(p)),
        adds_node(*old(p), *final(p), SyntaxKind::ENUM_VALUE_DEFINITION),
{
    let ghost p0 = *p;
    p.start_node(SyntaxKind::ENUM_VALUE_DEFINITION);
    if p.at(TokenKind::StringValue) {
        description(p);
    }
    if p.at(TokenKind::Ident) {
        enum_value(p);
    } else {
        err_here(p, "expected an enum value");
    }
    eat_commas(p);
    if p.at(TokenKind::At) {
        directives(p);
    }
    p.finish_node();
    proof {
        assert(p.top().subrange(0, p0.top_len() as int) =~= p0.top());
    }
}

/// The braced list of enum value definitions.
#[verifier::loop_isolation(false)]
pub(crate) fn enum_values_definition(p: &mut Parser)
    requires
        old(p).wf(),
        old(p).depth() >= 1,
        old(p).peek_kind() == Some(TokenKind::LCurly),
    ensures
        prod1(*old(p), *final(p)),
        adds_node(*old(p), *final(p), SyntaxKind::ENUM_VALUES_DEFINITION),
{
    let ghost p0 = *p;
    p.start_node(SyntaxKind::ENUM_VALUES_DEFINITION);
    p.bump(SyntaxKind::L_CURLY);
    let ghost q = *p;
    proof {
        lemma_prod_refl(q);
    }
    loop
        invariant
            prod(q, *p),
        decreases p.n_tokens(),
    {
        eat_commas(p);
        if p.at(TokenKind::RCurly) {
            p.bump(SyntaxKind::R_CURLY);
            break ;
        }
        let elem = if p.at(TokenKind::Ident) {
            true
        } else {
            p.at(TokenKind::StringValue)
        };
        if elem {
            enum_value_definition(p);
        } else {
            match p.peek() {
                None => {
                    err_here(p, "expected } to close the enum values");
                    break ;
                },
                _ => {
                    err_at_peek(p, "expected an enum value definition");
                    p.bump_raw();
                },
            }
        }
    }
    p.finish_node();
    proof {
        assert(p.top().subrange(0, p0.top_len() as int) =~= p0.top());
    }
}

/// An enum type definition: an optional description, the `enum` keyword,
/// a name, optional directives, and optional enum values.
pub(crate) fn enum_type_definition(p: &mut Parser)
    requires
        old(p).wf(),
        old(p).depth() >= 1,
        old(p).peek_kind() == Some(TokenKind::StringValue) || at_kw_spec(*old(p), Kw::Enum),
    ensures
        prod1(*old(p), *final(p)),
        adds_node(*old(p), *final(p), SyntaxKind::ENUM_TYPE_DEFINITION),
{
    let ghost p0 = *p;
    p.start_node(SyntaxKind::ENUM_TYPE_DEFINITION);
    if p.at(TokenKind::StringValue) {
        description(p);
    }
    eat_commas(p);
    if at_kw(p, Kw::Enum) {
        p.bump(SyntaxKind::ENUM_KW);
    } else {
        err_here(p, "expected the enum keyword");
    }
    eat_commas(p);
    if p.at(TokenKind::Ident) {
        name(p);
    } else {
        err_here(p, "expected a name for the enum type");
    }
    eat_commas(p);
    if p.at(TokenKind::At) {
        directives(p);
    }
    eat_commas(p);
    if p.at(TokenKind::LCurly) {
        enum_values_definition(p);
    }
    p.finish_node();
    proof {
        assert(p.top().subrange(0, p0.top_len() as int) =~= p0.top());
    }
}

/// An enum type extension: `extend enum`, a name, and the optional parts
/// of an enum type definition.
pub(crate) fn enum_type_extension(p: &mut Parser)
    requires
        old(p).wf(),
        old(p).depth() >= 1,
        at_kw_spec(*old(p), Kw::Extend),
    ensures
        prod1(*old(p), *final(p)),
        adds_node(*old(p), *final(p), SyntaxKind::ENUM_TYPE_EXTENSION),
{
    let ghost p0 = *p;
    p.start_node(SyntaxKind::ENUM_TYPE_EXTENSION);
    p.bump(SyntaxKind::EXTEND_KW);
    if at_kw(p, Kw::Enum) {
        p.bump(SyntaxKind::ENUM_KW);
    } else {
        err_here(p, "expected the enum keyword after extend");
    }
    eat_commas(p);
    if p.at(TokenKind::Ident) {
        name(p);
    } else {
        err_here(p, "expected a name for the enum type extension");
    }
    eat_commas(p);
    if p.at(TokenKind::At) {
        directives(p);
    }
    eat_commas(p);
    if p.at(TokenKind::LCurly) {
        enum_values_definition(p);
    }
    p.finish_node();
    proof {
        assert(p.top().subrange(0, p0.top_len() as int) =~= p0.top());
    }
}

} // verus!
