//! Fields of selection sets, and field definitions of type definitions.

use vstd::prelude::*;

use crate::parser::argument::{arguments, arguments_definition};
use crate::parser::directive::directives;
use crate::parser::name::name;
use crate::parser::selection::selection_set;
use crate::parser::ty::ty;
use crate::parser::utils::{description, eat_commas, err_at_peek, err_here, expect};
use crate::parser::{Parser, adds_node, lemma_prod_refl, prod, prod1};
use crate::syntax_kind::SyntaxKind;
use crate::token::TokenKind;

verus! {

broadcast use crate::parser::lemma_prod_trans;

/// One field of a selection set: an optional alias, a name, optional
/// arguments, optional directives, and an optional nested selection set.
pub(crate) fn field(p: &mut Parser)
    requires
        old(p).wf(),
        old(p).depth() >= 1,
        old(p).peek_kind() == Some(TokenKind::Ident),
    ensures
        prod1(*old(p), *final(p)),
        adds_node(*old(p), *final(p), SyntaxKind::FIELD),
    decreases old(p).n_tokens(), 1int,
{
    let ghost p0 = *p;
    p.start_node(SyntaxKind::FIELD);
    let has_alias = match p.peek_n(2) {
        Some(TokenKind::Colon) => true,
        _ => false,
    };
    if has_alias {
        p.start_node(SyntaxKind::ALIAS);
        name(p);
        expect(p, TokenKind::Colon, SyntaxKind::COLON, "expected : after the alias");
        p.finish_node();
        if p.at(TokenKind::Ident) {
            name(p);
        } else {
            err_here(p, "expected a field name after the alias");
        }
    } else {
        name(p);
    }
    eat_commas(p);
    if p.at(TokenKind::LParen) {
        arguments(p);
    }
    eat_commas(p);
    if p.at(TokenKind::At) {
        directives(p);
    }
    eat_commas(p);
    if p.at(TokenKind::LCurly) {
        selection_set(p);
    }
    p.finish_node();
    proof {
        assert(p.top().subrange(0, p0.top_len() as int) =~= p0.top());
    }
}

/// One field definition: an optional description, a name, optional
/// argument definitions, a colon, a type, and optional directives.
pub(crate) fn field_definition(p: &mut Parser)
    requires
        old(p).wf(),
        old(p).depth() >= 1,
        old(p).peek_kind() == Some(TokenKind::Ident) || old(p).peek_kind() == Some(
            TokenKind::StringValue,
        ),
    ensures
        prod1(*old(p), *final(p)),
        adds_node(*old(p), *final(p), SyntaxKind::FIELD_DEFINITION),
{
    let ghost p0 = *p;
    p.start_node(SyntaxKind::FIELD_DEFINITION);
    if p.at(TokenKind::StringValue) {
        description(p);
    }
    if p.at(TokenKind::Ident) {
        name(p);
    } else {
        err_here(p, "expected a name for the field definition");
    }
    eat_commas(p);
    if p.at(TokenKind::LParen) {
        arguments_definition(p);
    }
    expect(p, TokenKind::Colon, SyntaxKind::COLON, "expected : before the field type");
    let has_ty = if p.at(TokenKind::Ident) {
        true
    } else {
        p.at(TokenKind::LBrack)
    };
    if has_ty {
        ty(p);
    } else {
        err_here(p, "expected a type for the field definition");
    }
    eat_commas(p);
    if p.at(TokenKind::At) {
        directives(p);
    }
    p.finish_node();
    proof {
        assert(p.top().subrange(0, p0.top_len() as int) =~= p0.top());
    }
}

/// The braced list of field definitions of an object or interface type.
#[verifier::loop_isolation(false)]
pub(crate) fn fields_definition(p: &mut Parser)
    requires
        old(p).wf(),
        old(p).depth() >= 1,
        old(p).peek_kind() == Some(TokenKind::LCurly),
    ensures
        prod1(*old(p), *final(p)),
        adds_node(*old(p), *final(p), SyntaxKind::FIELDS_DEFINITION),
{
    let ghost p0 = *p;
    p.start_node(SyntaxKind::FIELDS_DEFINITION);
    p.bump(SyntaxKind::L_CURLY);
    let ghost q = *p;
    proof {
        lemma_prod_refl(q);
    }
    loop
        invariant
            prod(q, *p),
        decreases p.n_tokens(),
    {
        eat_commas(p);
        if p.at(TokenKind::RCurly) {
            p.bump(SyntaxKind::R_CURLY);
            break ;
        }
        let elem = if p.at(TokenKind::Ident) {
            true
        } else {
            p.at(TokenKind::StringValue)
        };
        if elem {
            field_definition(p);
        } else {
            match p.peek() {
                None => {
                    err_here(p, "expected } to close the fields definition");
                    break ;
                },
                _ => {
                    err_at_peek(p, "expected a field definition");
                    p.bump_raw();
                },
            }
        }
    }
    p.finish_node();
    proof {
        assert(p.top().subrange(0, p0.top_len() as int) =~= p0.top());
    }
}

} // verus!
