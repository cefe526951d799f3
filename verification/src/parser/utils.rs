//! Small helpers shared by the grammar productions: expected-token
//! handling, comma eating, and uniform diagnostics.

use vstd::prelude::*;
use vstd::string::StringExecFns;

use crate::error::Error;
use crate::parser::{Parser, adds_node, at_kw_spec, lemma_prod_refl, lemma_prod_trans, prod, prod1};
use crate::syntax_kind::{is_token_kind, SyntaxKind};
use crate::token::{Kw, TokenKind};

verus! {

broadcast use lemma_prod_trans;

/// Record a zero-length diagnostic at the current offset: a required token
/// is missing; nothing is synthesized and parsing continues.
pub(crate) fn err_here(p: &mut Parser, msg: &str)
    requires
        old(p).wf(),
    ensures
        prod(*old(p), *final(p)),
        final(p).n_tokens() == old(p).n_tokens(),
        final(p).toks() == old(p).toks(),
        final(p).top() == old(p).top(),
        final(p).errors_seq().len() == old(p).errors_seq().len() + 1,
{
    let off = p.cur_offset();
    p.push_err(Error::new(String::from_str(msg), off, 0));
}

/// Record a diagnostic spanning the next significant token: the token is
/// not what the grammar expects here.
pub(crate) fn err_at_peek(p: &mut Parser, msg: &str)
    requires
        old(p).wf(),
    ensures
        prod(*old(p), *final(p)),
        final(p).n_tokens() == old(p).n_tokens(),
        final(p).toks() == old(p).toks(),
        final(p).top() == old(p).top(),
        final(p).errors_seq().len() == old(p).errors_seq().len() + 1,
{
    let off = p.cur_offset();
    let len = p.peek_len();
    p.push_err(Error::new(String::from_str(msg), off, len));
}

/// Consume the next significant token when it has the expected lexical
/// class, emitting it under the given tag; otherwise record a zero-length
/// diagnostic at the current offset and consume nothing.
pub(crate) fn expect(p: &mut Parser, tk: TokenKind, sk: SyntaxKind, msg: &str)
    requires
        old(p).wf(),
        old(p).depth() >= 1,
        is_token_kind(sk),
    ensures
        prod(*old(p), *final(p)),
{
    let hit = match p.peek() {
        Some(k) => k == tk,
        None => false,
    };
    if hit {
        p.bump(sk);
    } else {
        err_here(p, msg);
    }
}

/// Consume any run of commas: insignificant separators between list
/// elements.
#[verifier::loop_isolation(false)]
pub(crate) fn eat_commas(p: &mut Parser)
    requires
        old(p).wf(),
        old(p).depth() >= 1,
    ensures
        prod(*old(p), *final(p)),
        final(p).peek_kind() != Some(TokenKind::Comma),
        final(p).errors_seq() == old(p).errors_seq(),
        old(p).peek_kind() != Some(TokenKind::Comma) ==> *final(p) == *old(p),
{
    let ghost p0 = *p;
    proof {
        lemma_prod_refl(p0);
    }
    while p.at(TokenKind::Comma)
        invariant
            prod(p0, *p),
            p.errors_seq() == p0.errors_seq(),
            p0.peek_kind() != Some(TokenKind::Comma) ==> *p == p0,
        decreases p.n_tokens(),
    {
        p.bump(SyntaxKind::COMMA);
    }
}

/// Whether the next significant token is an identifier classified as the
/// given contextual keyword.
pub(crate) fn at_kw(p: &Parser, kw: Kw) -> (r: bool)
    ensures
        r == at_kw_spec(*p, kw),
{
    match p.peek() {
        Some(TokenKind::Ident) => {
            match p.peek_kw() {
                Some(k) => k == kw,
                None => false,
            }
        },
        _ => false,
    }
}

/// Consume the next significant token when it is an identifier classified
/// as the given contextual keyword, emitting it under the given tag;
/// otherwise record a zero-length diagnostic and consume nothing.
pub(crate) fn expect_kw(p: &mut Parser, kw: Kw, sk: SyntaxKind, msg: &str)
    requires
        old(p).wf(),
        old(p).depth() >= 1,
        is_token_kind(sk),
    ensures
        prod(*old(p), *final(p)),
{
    if at_kw(p, kw) {
        p.bump(sk);
    } else {
        err_here(p, msg);
    }
}

/// A description: a string literal documenting the definition that
/// follows.
pub(crate) fn description(p: &mut Parser)
    requires
        old(p).wf(),
        old(p).depth() >= 1,
        old(p).peek_kind() == Some(TokenKind::StringValue),
    ensures
        prod1(*old(p), *final(p)),
        adds_node(*old(p), *final(p), SyntaxKind::DESCRIPTION),
{
    let ghost p0 = *p;
    p.start_node(SyntaxKind::DESCRIPTION);
    p.start_node(SyntaxKind::STRING_VALUE);
    p.bump(SyntaxKind::STRING_VALUE);
    p.finish_node();
    p.finish_node();
    proof {
        assert(p.top().subrange(0, p0.top_len() as int) =~= p0.top());
    }
}

} // verus!
