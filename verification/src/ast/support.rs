//! Lookup helpers behind every typed accessor: the first child a view
//! accepts, the first terminal child of a kind, and the list of all
//! children a view accepts.

use vstd::prelude::*;

use crate::ast::AstNode;
use crate::green::GreenData;
use crate::language::{child_view, SyntaxNode, SyntaxToken};
use crate::syntax_kind::SyntaxKind;

verus! {

/// The index of the first child at or after `i` whose kind the view `N`
/// accepts, or -1.
pub open spec fn first_cast_idx<N: AstNode>(s: Seq<GreenData>, i: int) -> int
    decreases s.len() - i,
    when i >= 0
{
    if i >= s.len() {
        -1
    } else if N::spec_can_cast(s[i].kind()) {
        i
    } else {
        first_cast_idx::<N>(s, i + 1)
    }
}

/// The index of the first terminal child at or after `i` with the given
/// kind, or -1.
pub open spec fn first_tok_idx(s: Seq<GreenData>, kind: SyntaxKind, i: int) -> int
    decreases s.len() - i,
    when i >= 0
{
    if i >= s.len() {
        -1
    } else if !(s[i] is Node) && s[i].kind() == kind {
        i
    } else {
        first_tok_idx(s, kind, i + 1)
    }
}

/// How many children at or after `i` the view `N` accepts.
pub open spec fn cast_count<N: AstNode>(s: Seq<GreenData>, i: int) -> int
    decreases s.len() - i,
    when i >= 0
{
    if i >= s.len() {
        0
    } else if N::spec_can_cast(s[i].kind()) {
        1 + cast_count::<N>(s, i + 1)
    } else {
        cast_count::<N>(s, i + 1)
    }
}

/// The index of the `k`th child at or after `i` whose kind the view `N`
/// accepts, counting from 0, or -1.
pub open spec fn nth_cast_idx<N: AstNode>(s: Seq<GreenData>, k: int, i: int) -> int
    decreases s.len() - i,
    when i >= 0
{
    if i >= s.len() {
        -1
    } else if N::spec_can_cast(s[i].kind()) {
        if k <= 0 {
            i
        } else {
            nth_cast_idx::<N>(s, k - 1, i + 1)
        }
    } else {
        nth_cast_idx::<N>(s, k, i + 1)
    }
}

/// What `child` returns: nothing exactly when no child fits the view;
/// otherwise the view over the first child that fits, at its offset.
pub open spec fn child_post<N: AstNode>(parent: SyntaxNode, r: Option<N>) -> bool {
    let cs = parent@.green.children();
    let idx = first_cast_idx::<N>(cs, 0);
    &&& (r is Some <==> idx >= 0)
    &&& match r {
        Some(n) => n.spec_syntax()@ == child_view(parent@, idx) && n.spec_syntax().wf(),
        None => true,
    }
}

/// What `token` returns: nothing exactly when no terminal child has the
/// kind; otherwise that terminal with its text and offset.
pub open spec fn token_post(parent: SyntaxNode, kind: SyntaxKind, r: Option<SyntaxToken>) -> bool {
    let cs = parent@.green.children();
    let idx = first_tok_idx(cs, kind, 0);
    &&& (r is Some <==> idx >= 0)
    &&& match r {
        Some(t) => t@.kind == kind && t@.text == cs[idx].text() && t@.offset == child_view(
            parent@,
            idx,
        ).offset,
        None => true,
    }
}

/// What `children` returns: one view per accepted child, in order, each
/// over the right child at the right offset.
pub open spec fn children_post<N: AstNode>(parent: SyntaxNode, r: Seq<N>) -> bool {
    let cs = parent@.green.children();
    &&& r.len() == cast_count::<N>(cs, 0)
    &&& forall|k: int|
        0 <= k < r.len() ==> (#[trigger] r[k]).spec_syntax()@ == child_view(
            parent@,
            nth_cast_idx::<N>(cs, k, 0),
        ) && r[k].spec_syntax().wf()
}

/// The first child the view `N` accepts, as that view.
#[verifier::loop_isolation(false)]
pub fn child<N: AstNode>(parent: &SyntaxNode) -> (r: Option<N>)
    requires
        parent.wf(),
    ensures
        child_post::<N>(*parent, r),
{
    let n = parent.child_count();
    let ghost cs = parent@.green.children();
    let mut i: usize = 0;
    while i < n
        invariant
            i <= n,
            n == cs.len(),
            first_cast_idx::<N>(cs, 0) == first_cast_idx::<N>(cs, i as int),
        decreases n - i,
    {
        if N::can_cast(parent.child_kind(i)) {
            let node = parent.child(i);
            let r = N::cast(node);
            return r;
        }
        i = i + 1;
    }
    None
}

/// The first terminal child with the given kind.
#[verifier::loop_isolation(false)]
pub fn token(parent: &SyntaxNode, kind: SyntaxKind) -> (r: Option<SyntaxToken>)
    requires
        parent.wf(),
    ensures
        token_post(*parent, kind, r),
{
    let n = parent.child_count();
    let ghost cs = parent@.green.children();
    let mut i: usize = 0;
    while i < n
        invariant
            i <= n,
            n == cs.len(),
            first_tok_idx(cs, kind, 0) == first_tok_idx(cs, kind, i as int),
        decreases n - i,
    {
        if parent.child_is_token(i) {
            if parent.child_kind(i) == kind {
                let t = parent.child_token(i);
                return Some(t);
            }
        }
        i = i + 1;
    }
    None
}

/// The number of accepted children only shrinks as the scan start moves
/// right.
proof fn lemma_count_mono<N: AstNode>(s: Seq<GreenData>, j: int, i: int)
    requires
        0 <= j <= i <= s.len(),
    ensures
        cast_count::<N>(s, j) >= cast_count::<N>(s, i),
    decreases i - j,
{
    if j < i {
        lemma_count_mono::<N>(s, j + 1, i);
    }
}

/// Scanning left to right, the child at a castable index `i` is the
/// `k`th accepted child, where `k` counts the accepted children before
/// `i`.
proof fn lemma_nth_from<N: AstNode>(s: Seq<GreenData>, j: int, i: int)
    requires
        0 <= j <= i < s.len(),
        N::spec_can_cast(s[i].kind()),
    ensures
        nth_cast_idx::<N>(s, cast_count::<N>(s, j) - cast_count::<N>(s, i), j) == i,
    decreases i - j,
{
    if j < i {
        lemma_nth_from::<N>(s, j + 1, i);
        lemma_count_mono::<N>(s, j + 1, i);
    }
}

/// All children the view `N` accepts, in order, as that view.
#[verifier::loop_isolation(false)]
pub fn children<N: AstNode>(parent: &SyntaxNode) -> (r: Vec<N>)
    requires
        parent.wf(),
    ensures
        children_post::<N>(*parent, r@),
{
    let n = parent.child_count();
    let ghost cs = parent@.green.children();
    let mut out: Vec<N> = Vec::new();
    let mut i: usize = 0;
    while i < n
        invariant
            i <= n,
            n == cs.len(),
            out@.len() == cast_count::<N>(cs, 0) - cast_count::<N>(cs, i as int),
            forall|k: int|
                0 <= k < out@.len() ==> (#[trigger] out@[k]).spec_syntax()@ == child_view(
                    parent@,
                    nth_cast_idx::<N>(cs, k, 0),
                ) && out@[k].spec_syntax().wf(),
        decreases n - i,
    {
        if N::can_cast(parent.child_kind(i)) {
            proof {
                lemma_nth_from::<N>(cs, 0, i as int);
                assert(cast_count::<N>(cs, i as int) == 1 + cast_count::<N>(cs, i + 1));
            }
            let node = parent.child(i);
            match N::cast(node) {
                Some(v) => {
                    out.push(v);
                },
                None => {
                    proof {
                        assert(false);
                    }
                },
            }
        } else {
            proof {
                assert(cast_count::<N>(cs, i as int) == cast_count::<N>(cs, i + 1));
            }
        }
        i = i + 1;
    }
    out
}

} // verus!
