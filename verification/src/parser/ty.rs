//! Types: named types, list types, and non-null wrappers.
//!
//! `NonNullType` binds tighter than both alternatives it wraps, so the base
//! type is parsed first and a following `!` re-parents it under a
//! `NON_NULL_TYPE` node via a builder checkpoint.

use vstd::prelude::*;

use crate::parser::name::named_type;
use crate::parser::utils::{eat_commas, err_here, expect};
use crate::parser::{adds_node, prod1, Parser};
use crate::syntax_kind::SyntaxKind;
use crate::token::TokenKind;

verus! {

broadcast use crate::parser::lemma_prod_trans;

/// A type: a named type or a list type, either optionally wrapped by `!`
/// into a non-null type.
#[verifier::loop_isolation(false)]
pub(crate) fn ty(p: &mut Parser)
    requires
        old(p).wf(),
        old(p).depth() >= 1,
        old(p).peek_kind() == Some(TokenKind::Ident) || old(p).peek_kind() == Some(
            TokenKind::LBrack,
        ),
    ensures
        prod1(*old(p), *final(p)),
        adds_node(*old(p), *final(p), SyntaxKind::NAMED_TYPE) || adds_node(
            *old(p),
            *final(p),
            SyntaxKind::LIST_TYPE,
        ) || adds_node(*old(p), *final(p), SyntaxKind::NON_NULL_TYPE),
    decreases old(p).n_tokens(),
{
    let ghost p0 = *p;
    let cp = p.checkpoint();
    if p.at(TokenKind::LBrack) {
        p.start_node(SyntaxKind::LIST_TYPE);
        p.bump(SyntaxKind::L_BRACK);
        eat_commas(p);
        let inner = if p.at(TokenKind::Ident) {
            true
        } else {
            p.at(TokenKind::LBrack)
        };
        if inner {
            ty(p);
        } else {
            err_here(p, "expected a type inside the list type");
        }
        eat_commas(p);
        expect(p, TokenKind::RBrack, SyntaxKind::R_BRACK, "expected ] to close the list type");
        p.finish_node();
        proof {
            assert(p.top().subrange(0, p0.top_len() as int) =~= p0.top());
        }
    } else {
        named_type(p);
    }
    if p.at(TokenKind::Bang) {
        let ghost base = *p;
        p.start_node_at(cp, SyntaxKind::NON_NULL_TYPE);
        p.bump(SyntaxKind::BANG);
        p.finish_node();
        proof {
            assert(base.top().subrange(0, cp as int) =~= p0.top());
            assert(p.top().subrange(0, p0.top_len() as int) =~= p0.top());
        }
    }
}

} // verus!
