//! Operation definitions: explicit `query` / `mutation` / `subscription`
//! operations and the shorthand anonymous form.

use vstd::prelude::*;

use crate::parser::directive::directives;
use crate::parser::name::name;
use crate::parser::selection::selection_set;
use crate::parser::utils::{eat_commas, err_here};
use crate::parser::variable::variable_definitions;
use crate::parser::{Parser, adds_node, at_kw_spec, prod1};
use crate::syntax_kind::SyntaxKind;
use crate::token::{Kw, TokenKind};

verus! {

broadcast use crate::parser::lemma_prod_trans;

/// An operation definition: an optional operation type with name,
/// variable definitions and directives, then the selection set; or the
/// shorthand `{ ... }` alone.
pub(crate) fn operation_definition(p: &mut Parser)
    requires
        old(p).wf(),
        old(p).depth() >= 1,
        old(p).peek_kind() == Some(TokenKind::LCurly) || at_kw_spec(*old(p), Kw::Query)
            || at_kw_spec(*old(p), Kw::Mutation) || at_kw_spec(*old(p), Kw::Subscription),
    ensures
        prod1(*old(p), *final(p)),
        adds_node(*old(p), *final(p), SyntaxKind::OPERATION_DEFINITION),
{
    let ghost p0 = *p;
    p.start_node(SyntaxKind::OPERATION_DEFINITION);
    if p.at(TokenKind::Ident) {
        p.start_node(SyntaxKind::OPERATION_TYPE);
        match p.peek_kw() {
            Some(Kw::Mutation) => p.bump(SyntaxKind::MUTATION_KW),
            Some(Kw::Subscription) => p.bump(SyntaxKind::SUBSCRIPTION_KW),
            _ => p.bump(SyntaxKind::QUERY_KW),
        }
        p.finish_node();
        eat_commas(p);
        if p.at(TokenKind::Ident) {
            name(p);
        }
        eat_commas(p);
        if p.at(TokenKind::LParen) {
            variable_definitions(p);
        }
        eat_commas(p);
        if p.at(TokenKind::At) {
            directives(p);
        }
    }
    eat_commas(p);
    if p.at(TokenKind::LCurly) {
        selection_set(p);
    } else {
        err_here(p, "expected a selection set for the operation");
    }
    p.finish_node();
    proof {
        assert(p.top().subrange(0, p0.top_len() as int) =~= p0.top());
    }
}

} // verus!
