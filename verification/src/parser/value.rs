//! Values: variables, literals, enum values, lists and input objects.

use vstd::prelude::*;

use crate::parser::name::{enum_value, name};
use crate::parser::utils::{eat_commas, err_at_peek, err_here, expect};
use crate::parser::variable::variable;
use crate::parser::{Parser, adds_node, lemma_prod_refl, prod, prod1};
use crate::syntax_kind::SyntaxKind;
use crate::token::{Kw, TokenKind};

verus! {

broadcast use crate::parser::lemma_prod_trans;

/// The production appended exactly one value node: one of the nine value
/// forms.
pub open spec fn adds_value_node(pre: Parser, post: Parser) -> bool {
    ||| adds_node(pre, post, SyntaxKind::VARIABLE)
    ||| adds_node(pre, post, SyntaxKind::INT_VALUE)
    ||| adds_node(pre, post, SyntaxKind::FLOAT_VALUE)
    ||| adds_node(pre, post, SyntaxKind::STRING_VALUE)
    ||| adds_node(pre, post, SyntaxKind::BOOLEAN_VALUE)
    ||| adds_node(pre, post, SyntaxKind::NULL_VALUE)
    ||| adds_node(pre, post, SyntaxKind::ENUM_VALUE)
    ||| adds_node(pre, post, SyntaxKind::LIST_VALUE)
    ||| adds_node(pre, post, SyntaxKind::OBJECT_VALUE)
}

/// Whether the next significant token can start a value.
pub(crate) fn at_value_first(p: &Parser) -> (r: bool)
    ensures
        r == (p.peek_kind() == Some(TokenKind::Dollar) || p.peek_kind() == Some(TokenKind::Int)
            || p.peek_kind() == Some(TokenKind::Float) || p.peek_kind() == Some(
            TokenKind::StringValue,
        ) || p.peek_kind() == Some(TokenKind::Ident) || p.peek_kind() == Some(TokenKind::LBrack)
            || p.peek_kind() == Some(TokenKind::LCurly)),
{
    match p.peek() {
        Some(TokenKind::Dollar) => true,
        Some(TokenKind::Int) => true,
        Some(TokenKind::Float) => true,
        Some(TokenKind::StringValue) => true,
        Some(TokenKind::Ident) => true,
        Some(TokenKind::LBrack) => true,
        Some(TokenKind::LCurly) => true,
        _ => false,
    }
}

/// A value: a variable, a literal, an enum value, a list value or an
/// object value.  Identifiers are classified by text as boolean, null or
/// enum, in that fixed order.
#[verifier::loop_isolation(false)]
pub(crate) fn value(p: &mut Parser)
    requires
        old(p).wf(),
        old(p).depth() >= 1,
        old(p).peek_kind() == Some(TokenKind::Dollar) || old(p).peek_kind() == Some(TokenKind::Int)
            || old(p).peek_kind() == Some(TokenKind::Float) || old(p).peek_kind() == Some(
            TokenKind::StringValue,
        ) || old(p).peek_kind() == Some(TokenKind::Ident) || old(p).peek_kind() == Some(
            TokenKind::LBrack,
        ) || old(p).peek_kind() == Some(TokenKind::LCurly),
    ensures
        prod1(*old(p), *final(p)),
        adds_value_node(*old(p), *final(p)),
    decreases old(p).n_tokens(),
{
    let ghost p0 = *p;
    match p.peek() {
        Some(TokenKind::Dollar) => {
            variable(p);
        },
        Some(TokenKind::Int) => {
            p.start_node(SyntaxKind::INT_VALUE);
            p.bump(SyntaxKind::INT_VALUE);
            p.finish_node();
            proof {
                assert(p.top().subrange(0, p0.top_len() as int) =~= p0.top());
            }
        },
        Some(TokenKind::Float) => {
            p.start_node(SyntaxKind::FLOAT_VALUE);
            p.bump(SyntaxKind::FLOAT_VALUE);
            p.finish_node();
            proof {
                assert(p.top().subrange(0, p0.top_len() as int) =~= p0.top());
            }
        },
        Some(TokenKind::StringValue) => {
            p.start_node(SyntaxKind::STRING_VALUE);
            p.bump(SyntaxKind::STRING_VALUE);
            p.finish_node();
            proof {
                assert(p.top().subrange(0, p0.top_len() as int) =~= p0.top());
            }
        },
        Some(TokenKind::Ident) => {
            let kw = p.peek_kw();
            match kw {
                Some(Kw::True) => {
                    p.start_node(SyntaxKind::BOOLEAN_VALUE);
                    p.bump(SyntaxKind::TRUE_KW);
                    p.finish_node();
                    proof {
                        assert(p.top().subrange(0, p0.top_len() as int) =~= p0.top());
                    }
                },
                Some(Kw::False) => {
                    p.start_node(SyntaxKind::BOOLEAN_VALUE);
                    p.bump(SyntaxKind::FALSE_KW);
                    p.finish_node();
                    proof {
                        assert(p.top().subrange(0, p0.top_len() as int) =~= p0.top());
                    }
                },
                Some(Kw::Null) => {
                    p.start_node(SyntaxKind::NULL_VALUE);
                    p.bump(SyntaxKind::NULL_KW);
                    p.finish_node();
                    proof {
                        assert(p.top().subrange(0, p0.top_len() as int) =~= p0.top());
                    }
                },
                _ => {
                    enum_value(p);
                },
            }
        },
        Some(TokenKind::LBrack) => {
            p.start_node(SyntaxKind::LIST_VALUE);
            p.bump(SyntaxKind::L_BRACK);
            let ghost q = *p;
            proof {
                lemma_prod_refl(q);
            }
            loop
                invariant
                    prod(q, *p),
                decreases p.n_tokens(),
            {
                eat_commas(p);
                if p.at(TokenKind::RBrack) {
                    p.bump(SyntaxKind::R_BRACK);
                    break ;
                }
                if at_value_first(p) {
                    value(p);
                } else {
                    match p.peek() {
                        None => {
                            err_here(p, "expected ] to close the list value");
                            break ;
                        },
                        _ => {
                            err_at_peek(p, "expected a value in the list value");
                            p.bump_raw();
                        },
                    }
                }
            }
            p.finish_node();
            proof {
                assert(p.top().subrange(0, p0.top_len() as int) =~= p0.top());
            }
        },
        _ => {
            p.start_node(SyntaxKind::OBJECT_VALUE);
            p.bump(SyntaxKind::L_CURLY);
            let ghost q = *p;
            proof {
                lemma_prod_refl(q);
            }
            loop
                invariant
                    prod(q, *p),
                decreases p.n_tokens(),
            {
                eat_commas(p);
                if p.at(TokenKind::RCurly) {
                    p.bump(SyntaxKind::R_CURLY);
                    break ;
                }
                if p.at(TokenKind::Ident) {
                    object_field(p);
                } else {
                    match p.peek() {
                        None => {
                            err_here(p, "expected } to close the object value");
                            break ;
                        },
                        _ => {
                            err_at_peek(p, "expected an object field");
                            p.bump_raw();
                        },
                    }
                }
            }
            p.finish_node();
            proof {
                assert(p.top().subrange(0, p0.top_len() as int) =~= p0.top());
            }
        },
    }
}

/// One field of an object value: a name, a colon, and a value.  A missing
/// value is reported at the current offset and nothing is synthesized.
pub(crate) fn object_field(p: &mut Parser)
    requires
        old(p).wf(),
        old(p).depth() >= 1,
        old(p).peek_kind() == Some(TokenKind::Ident),
    ensures
        prod1(*old(p), *final(p)),
        adds_node(*old(p), *final(p), SyntaxKind::OBJECT_FIELD),
    decreases old(p).n_tokens(),
{
    let ghost p0 = *p;
    p.start_node(SyntaxKind::OBJECT_FIELD);
    name(p);
    expect(p, TokenKind::Colon, SyntaxKind::COLON, "expected : after the object field name");
    if at_value_first(p) {
        value(p);
    } else {
        err_here(p, "expected a value for the object field");
    }
    p.finish_node();
    proof {
        assert(p.top().subrange(0, p0.top_len() as int) =~= p0.top());
    }
}

/// A default value: `=` followed by a value.
pub(crate) fn default_value(p: &mut Parser)
    requires
        old(p).wf(),
        old(p).depth() >= 1,
        old(p).peek_kind() == Some(TokenKind::Eq),
    ensures
        prod1(*old(p), *final(p)),
        adds_node(*old(p), *final(p), SyntaxKind::DEFAULT_VALUE),
{
    let ghost p0 = *p;
    p.start_node(SyntaxKind::DEFAULT_VALUE);
    p.bump(SyntaxKind::EQ);
    if at_value_first(p) {
        value(p);
    } else {
        err_here(p, "expected a default value");
    }
    p.finish_node();
    proof {
        assert(p.top().subrange(0, p0.top_len() as int) =~= p0.top());
    }
}

} // verus!
