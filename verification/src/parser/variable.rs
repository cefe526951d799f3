//! Variables and variable definitions.

use vstd::prelude::*;

use crate::parser::name::name;
use crate::parser::utils::{eat_commas, err_at_peek, err_here, expect};
use crate::parser::value::default_value;
use crate::parser::ty::ty;
use crate::parser::{Parser, adds_node, lemma_prod_refl, prod, prod1};
use crate::syntax_kind::SyntaxKind;
use crate::token::TokenKind;

verus! {

broadcast use crate::parser::lemma_prod_trans;

/// A variable: `$` followed by a name.
pub(crate) fn variable(p: &mut Parser)
    requires
        old(p).wf(),
        old(p).depth() >= 1,
        old(p).peek_kind() == Some(TokenKind::Dollar),
    ensures
        prod1(*old(p), *final(p)),
        adds_node(*old(p), *final(p), SyntaxKind::VARIABLE),
{
    let ghost p0 = *p;
    p.start_node(SyntaxKind::VARIABLE);
    p.bump(SyntaxKind::DOLLAR);
    if p.at(TokenKind::Ident) {
        name(p);
    } else {
        err_here(p, "expected a variable name after $");
    }
    p.finish_node();
    proof {
        assert(p.top().subrange(0, p0.top_len() as int) =~= p0.top());
    }
}

/// One variable definition: a variable, a colon, its type, and an optional
/// default value.
pub(crate) fn variable_definition(p: &mut Parser)
    requires
        old(p).wf(),
        old(p).depth() >= 1,
        old(p).peek_kind() == Some(TokenKind::Dollar),
    ensures
        prod1(*old(p), *final(p)),
        adds_node(*old(p), *final(p), SyntaxKind::VARIABLE_DEFINITION),
{
    let ghost p0 = *p;
    p.start_node(SyntaxKind::VARIABLE_DEFINITION);
    variable(p);
    expect(p, TokenKind::Colon, SyntaxKind::COLON, "expected : after the variable");
    let has_ty = if p.at(TokenKind::Ident) {
        true
    } else {
        p.at(TokenKind::LBrack)
    };
    if has_ty {
        ty(p);
    } else {
        err_here(p, "expected a type for the variable");
    }
    eat_commas(p);
    if p.at(TokenKind::Eq) {
        default_value(p);
    }
    p.finish_node();
    proof {
        assert(p.top().subrange(0, p0.top_len() as int) =~= p0.top());
    }
}

/// The parenthesized list of variable definitions of an operation.
#[verifier::loop_isolation(false)]
pub(crate) fn variable_definitions(p: &mut Parser)
    requires
        old(p).wf(),
        old(p).depth() >= 1,
        old(p).peek_kind() == Some(TokenKind::LParen),
    ensures
        prod1(*old(p), *final(p)),
        adds_node(*old(p), *final(p), SyntaxKind::VARIABLE_DEFINITIONS),
{
    let ghost p0 = *p;
    p.start_node(SyntaxKind::VARIABLE_DEFINITIONS);
    p.bump(SyntaxKind::L_PAREN);
    let ghost q = *p;
    proof {
        lemma_prod_refl(q);
    }
    loop
        invariant
            prod(q, *p),
        decreases p.n_tokens(),
    {
        eat_commas(p);
        if p.at(TokenKind::RParen) {
            p.bump(SyntaxKind::R_PAREN);
            break ;
        }
        if p.at(TokenKind::Dollar) {
            variable_definition(p);
        } else {
            match p.peek() {
                None => {
                    err_here(p, "expected ) to close the variable definitions");
                    break ;
                },
                _ => {
                    err_at_peek(p, "expected a variable definition");
                    p.bump_raw();
                },
            }
        }
    }
    p.finish_node();
    proof {
        assert(p.top().subrange(0, p0.top_len() as int) =~= p0.top());
    }
}

} // verus!
