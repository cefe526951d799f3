//! Selection sets and the dispatch between their three selection forms.

use vstd::prelude::*;

use crate::parser::field::field;
use crate::parser::fragment::{fragment_spread, inline_fragment};
use crate::parser::utils::{eat_commas, err_at_peek, err_here};
use crate::parser::{Parser, adds_node, lemma_prod_refl, prod, prod1};
use crate::syntax_kind::SyntaxKind;
use crate::token::{Kw, TokenKind};

verus! {

broadcast use crate::parser::lemma_prod_trans;

/// A selection set: `{`, any number of selections, `}`.  An unexpected
/// token inside is reported and skipped; a missing `}` is reported and the
/// node closes where the input ends.
#[verifier::loop_isolation(false)]
pub(crate) fn selection_set(p: &mut Parser)
    requires
        old(p).wf(),
        old(p).depth() >= 1,
        old(p).peek_kind() == Some(TokenKind::LCurly),
    ensures
        prod1(*old(p), *final(p)),
        adds_node(*old(p), *final(p), SyntaxKind::SELECTION_SET),
    decreases old(p).n_tokens(), 0int,
{
    let ghost p0 = *p;
    p.start_node(SyntaxKind::SELECTION_SET);
    p.bump(SyntaxKind::L_CURLY);
    let ghost q = *p;
    proof {
        lemma_prod_refl(q);
    }
    loop
        invariant
            prod(q, *p),
        decreases p.n_tokens(),
    {
        eat_commas(p);
        if p.at(TokenKind::RCurly) {
            p.bump(SyntaxKind::R_CURLY);
            break ;
        }
        match p.peek() {
            Some(TokenKind::Ident) => {
                field(p);
            },
            Some(TokenKind::Spread) => {
                selection_spread(p);
            },
            None => {
                err_here(p, "expected } to close the selection set");
                break ;
            },
            _ => {
                err_at_peek(p, "expected a selection");
                p.bump_raw();
            },
        }
    }
    p.finish_node();
    proof {
        assert(p.top().subrange(0, p0.top_len() as int) =~= p0.top());
    }
}

/// A selection starting with `...`: an identifier other than `on` makes it
/// a fragment spread; `on`, `{`, or a directive makes it an inline
/// fragment.
pub(crate) fn selection_spread(p: &mut Parser)
    requires
        old(p).wf(),
        old(p).depth() >= 1,
        old(p).peek_kind() == Some(TokenKind::Spread),
    ensures
        prod1(*old(p), *final(p)),
        adds_node(*old(p), *final(p), SyntaxKind::FRAGMENT_SPREAD) || adds_node(
            *old(p),
            *final(p),
            SyntaxKind::INLINE_FRAGMENT,
        ),
    decreases old(p).n_tokens(), 2int,
{
    let is_spread = match p.peek_n(2) {
        Some(TokenKind::Ident) => {
            match p.peek_kw_n(2) {
                Some(Kw::On) => false,
                _ => true,
            }
        },
        _ => false,
    };
    if is_spread {
        fragment_spread(p);
    } else {
        inline_fragment(p);
    }
}

} // verus!
