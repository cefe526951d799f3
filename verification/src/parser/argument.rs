//! Arguments, argument definitions, and input value definitions.

use vstd::prelude::*;

use crate::parser::directive::directives;
use crate::parser::name::name;
use crate::parser::ty::ty;
use crate::parser::utils::{description, eat_commas, err_at_peek, err_here, expect};
use crate::parser::value::{at_value_first, default_value, value};
use crate::parser::{Parser, adds_node, lemma_prod_refl, prod, prod1};
use crate::syntax_kind::SyntaxKind;
use crate::token::TokenKind;

verus! {

broadcast use crate::parser::lemma_prod_trans;

/// One argument: a name, a colon, and a value.  A missing value is
/// reported at the current offset, nothing is synthesized, and the
/// enclosing list recovers at the next element.
pub(crate) fn argument(p: &mut Parser)
    requires
        old(p).wf(),
        old(p).depth() >= 1,
        old(p).peek_kind() == Some(TokenKind::Ident),
    ensures
        prod1(*old(p), *final(p)),
        adds_node(*old(p), *final(p), SyntaxKind::ARGUMENT),
{
    let ghost p0 = *p;
    p.start_node(SyntaxKind::ARGUMENT);
    name(p);
    expect(p, TokenKind::Colon, SyntaxKind::COLON, "expected : after the argument name");
    if at_value_first(p) {
        value(p);
    } else {
        err_here(p, "expected a value for the argument");
    }
    p.finish_node();
    proof {
        assert(p.top().subrange(0, p0.top_len() as int) =~= p0.top());
    }
}

/// The parenthesized argument list of a field or directive.
#[verifier::loop_isolation(false)]
pub(crate) fn arguments(p: &mut Parser)
    requires
        old(p).wf(),
        old(p).depth() >= 1,
        old(p).peek_kind() == Some(TokenKind::LParen),
    ensures
        prod1(*old(p), *final(p)),
        adds_node(*old(p), *final(p), SyntaxKind::ARGUMENTS),
{
    let ghost p0 = *p;
    p.start_node(SyntaxKind::ARGUMENTS);
    p.bump(SyntaxKind::L_PAREN);
    let ghost q = *p;
    proof {
        lemma_prod_refl(q);
    }
    loop
        invariant
            prod(q, *p),
        decreases p.n_tokens(),
    {
        eat_commas(p);
        if p.at(TokenKind::RParen) {
            p.bump(SyntaxKind::R_PAREN);
            break ;
        }
        if p.at(TokenKind::Ident) {
            argument(p);
        } else {
            match p.peek() {
                None => {
                    err_here(p, "expected ) to close the arguments");
                    break ;
                },
                _ => {
                    err_at_peek(p, "expected an argument");
                    p.bump_raw();
                },
            }
        }
    }
    p.finish_node();
    proof {
        assert(p.top().subrange(0, p0.top_len() as int) =~= p0.top());
    }
}

/// One input value definition: an optional description, a name, a colon,
/// a type, an optional default value, and optional directives.
pub(crate) fn input_value_definition(p: &mut Parser)
    requires
        old(p).wf(),
        old(p).depth() >= 1,
        old(p).peek_kind() == Some(TokenKind::Ident) || old(p).peek_kind() == Some(
            TokenKind::StringValue,
        ),
    ensures
        prod1(*old(p), *final(p)),
        adds_node(*old(p), *final(p), SyntaxKind::INPUT_VALUE_DEFINITION),
{
    let ghost p0 = *p;
    p.start_node(SyntaxKind::INPUT_VALUE_DEFINITION);
    if p.at(TokenKind::StringValue) {
        description(p);
    }
    if p.at(TokenKind::Ident) {
        name(p);
    } else {
        err_here(p, "expected a name for the input value definition");
    }
    expect(p, TokenKind::Colon, SyntaxKind::COLON, "expected : before the input value type");
    let has_ty = if p.at(TokenKind::Ident) {
        true
    } else {
        p.at(TokenKind::LBrack)
    };
    if has_ty {
        ty(p);
    } else {
        err_here(p, "expected a type for the input value definition");
    }
    if p.at(TokenKind::Eq) {
        default_value(p);
    }
    if p.at(TokenKind::At) {
        directives(p);
    }
    p.finish_node();
    proof {
        assert(p.top().subrange(0, p0.top_len() as int) =~= p0.top());
    }
}

/// The parenthesized list of input value definitions of a field or
/// directive definition.
#[verifier::loop_isolation(false)]
pub(crate) fn arguments_definition(p: &mut Parser)
    requires
        old(p).wf(),
        old(p).depth() >= 1,
        old(p).peek_kind() == Some(TokenKind::LParen),
    ensures
        prod1(*old(p), *final(p)),
        adds_node(*old(p), *final(p), SyntaxKind::ARGUMENTS_DEFINITION),
{
    let ghost p0 = *p;
    p.start_node(SyntaxKind::ARGUMENTS_DEFINITION);
    p.bump(SyntaxKind::L_PAREN);
    let ghost q = *p;
    proof {
        lemma_prod_refl(q);
    }
    loop
        invariant
            prod(q, *p),
        decreases p.n_tokens(),
    {
        eat_commas(p);
        if p.at(TokenKind::RParen) {
            p.bump(SyntaxKind::R_PAREN);
            break ;
        }
        let elem = if p.at(TokenKind::Ident) {
            true
        } else {
            p.at(TokenKind::StringValue)
        };
        if elem {
            input_value_definition(p);
        } else {
            match p.peek() {
                None => {
                    err_here(p, "expected ) to close the arguments definition");
                    break ;
                },
                _ => {
                    err_at_peek(p, "expected an input value definition");
                    p.bump_raw();
                },
            }
        }
    }
    p.finish_node();
    proof {
        assert(p.top().subrange(0, p0.top_len() as int) =~= p0.top());
    }
}

} // verus!
