//! The green-tree builder: an event-driven accumulator.
//!
//! The parser drives it with `start_node(kind)` / `token(kind, text)` /
//! `finish_node()` events; the builder maintains a stack of in-progress
//! internal nodes and, on completion, surrenders the single finished root.
//!
//! The contracts keep three facts available to the driver at every step: the
//! concatenated text of everything emitted so far (`text()`), the number of
//! open nodes (`depth()`), and well-formedness of all accumulated elements.

use vstd::prelude::*;

use crate::green::{
    greens_view, greens_wf, lemma_greens_view_len, lemma_texts_concat, lemma_texts_push,
    lemma_wf_push, texts_of, Green, GreenData,
};
use crate::syntax_kind::{is_node_kind, is_token_kind, SyntaxKind};

verus! {

/// One in-progress internal node: its kind and the children collected so
/// far.
struct Frame {
    kind: SyntaxKind,
    children: Vec<Green>,
}

/// The event-driven accumulator for the green tree.
pub struct SyntaxTreeBuilder {
    frames: Vec<Frame>,
}

impl SyntaxTreeBuilder {
    /// The number of nodes started and not yet finished.
    pub closed spec fn depth(self) -> nat {
        self.frames@.len()
    }

    /// The kind of the `i`th open node, outermost first.
    pub closed spec fn frame_kind(self, i: int) -> SyntaxKind {
        self.frames@[i].kind
    }

    /// The children collected so far for the `i`th open node.
    pub closed spec fn frame_children(self, i: int) -> Seq<GreenData> {
        greens_view(self.frames@[i].children@)
    }

    /// The children collected so far for the innermost open node.
    pub open spec fn top(self) -> Seq<GreenData> {
        self.frame_children(self.depth() - 1)
    }

    /// The kind of the innermost open node.
    pub open spec fn top_kind(self) -> SyntaxKind {
        self.frame_kind(self.depth() - 1)
    }

    /// The concatenated text of everything in the first `n` open nodes.
    pub closed spec fn text_upto(self, n: int) -> Seq<u8>
        decreases n,
    {
        if n <= 0 {
            Seq::empty()
        } else {
            self.text_upto(n - 1) + texts_of(self.frame_children(n - 1))
        }
    }

    /// The concatenated text of everything emitted so far.
    pub open spec fn text(self) -> Seq<u8> {
        self.text_upto(self.depth() as int)
    }

    /// Every open node's kind is a nonterminal tag and every collected
    /// child is well formed.
    pub closed spec fn wf(self) -> bool {
        forall|i: int|
            0 <= i < self.depth() ==> is_node_kind(#[trigger] self.frame_kind(i)) && greens_wf(
                self.frame_children(i),
            )
    }

    /// Frames strictly below `n` agree between two builder states.
    pub open spec fn agree_below(self, other: SyntaxTreeBuilder, n: int) -> bool {
        forall|i: int|
            0 <= i < n ==> #[trigger] self.frame_kind(i) == other.frame_kind(i)
                && self.frame_children(i) == other.frame_children(i)
    }

    /// Builders that agree on the first `n` frames cover the same text
    /// there.
    proof fn lemma_text_agree(self, other: SyntaxTreeBuilder, n: int)
        requires
            0 <= n <= self.depth(),
            n <= other.depth(),
            self.agree_below(other, n),
        ensures
            self.text_upto(n) == other.text_upto(n),
        decreases n,
    {
        if n > 0 {
            self.lemma_text_agree(other, n - 1);
            assert(self.frame_kind(n - 1) == other.frame_kind(n - 1));
            assert(self.frame_children(n - 1) == other.frame_children(n - 1));
        }
    }

    /// A fresh builder: nothing open, nothing emitted.
    pub fn new() -> (r: SyntaxTreeBuilder)
        ensures
            r.depth() == 0,
            r.text() == Seq::<u8>::empty(),
            r.wf(),
    {
        SyntaxTreeBuilder { frames: Vec::new() }
    }

    /// Open a new internal node of the given kind.
    pub fn start_node(&mut self, kind: SyntaxKind)
        requires
            old(self).wf(),
            is_node_kind(kind),
        ensures
            final(self).wf(),
            final(self).depth() == old(self).depth() + 1,
            final(self).agree_below(*old(self), old(self).depth() as int),
            final(self).top() == Seq::<GreenData>::empty(),
            final(self).top_kind() == kind,
            final(self).text() == old(self).text(),
    {
        let ghost pre = *self;
        self.frames.push(Frame { kind, children: Vec::new() });
        proof {
            assert forall|i: int| 0 <= i < pre.depth() implies #[trigger] self.frame_kind(i)
                == pre.frame_kind(i) && self.frame_children(i) == pre.frame_children(i) by {
                assert(self.frames@[i] == pre.frames@[i]);
            }
            assert(self.top() =~= Seq::<GreenData>::empty());
            pre.lemma_text_agree(*self, pre.depth() as int);
            assert(texts_of(self.frame_children(self.depth() - 1)) =~= Seq::<u8>::empty());
            assert(self.text() =~= pre.text());
        }
    }

    /// Emit one terminal into the innermost open node.
    pub fn token(&mut self, kind: SyntaxKind, text: Vec<u8>)
        requires
            old(self).wf(),
            old(self).depth() >= 1,
            is_token_kind(kind),
        ensures
            final(self).wf(),
            final(self).depth() == old(self).depth(),
            final(self).agree_below(*old(self), old(self).depth() - 1),
            final(self).top() == old(self).top().push(
                GreenData::Token { kind, text: text@ },
            ),
            final(self).top_kind() == old(self).top_kind(),
            final(self).text() == old(self).text() + text@,
    {
        let ghost pre = *self;
        let ghost g = GreenData::Token { kind, text: text@ };
        let mut f = self.frames.pop().unwrap();
        f.children.push(Green::Token { kind, text });
        self.frames.push(f);
        proof {
            assert forall|i: int| 0 <= i < pre.depth() - 1 implies #[trigger] self.frame_kind(i)
                == pre.frame_kind(i) && self.frame_children(i) == pre.frame_children(i) by {
                assert(self.frames@[i] == pre.frames@[i]);
            }
            let oldc = pre.frames@[pre.depth() - 1].children@;
            let newc = self.frames@[pre.depth() - 1].children@;
            lemma_greens_view_len(oldc);
            lemma_greens_view_len(newc);
            assert(greens_view(newc) =~= greens_view(oldc).push(g));
            lemma_texts_push(pre.top(), g);
            lemma_wf_push(pre.top(), g);
            pre.lemma_text_agree(*self, pre.depth() - 1);
            assert(self.text_upto(self.depth() as int) == self.text_upto(self.depth() - 1)
                + texts_of(self.frame_children(self.depth() - 1)));
            assert(pre.text_upto(pre.depth() as int) == pre.text_upto(pre.depth() - 1) + texts_of(
                pre.frame_children(pre.depth() - 1),
            ));
            assert(self.text() =~= pre.text() + text@);
        }
    }

    /// Close the innermost open node and hand it to its parent as one
    /// finished child.  The root node is closed by `finish_root` instead, so
    /// at least two nodes must be open here.
    pub fn finish_node(&mut self)
        requires
            old(self).wf(),
            old(self).depth() >= 2,
        ensures
            final(self).wf(),
            final(self).depth() == old(self).depth() - 1,
            final(self).agree_below(*old(self), old(self).depth() - 2),
            final(self).top() == old(self).frame_children(old(self).depth() - 2).push(
                GreenData::Node { kind: old(self).top_kind(), children: old(self).top() },
            ),
            final(self).top_kind() == old(self).frame_kind(old(self).depth() - 2),
            final(self).text() == old(self).text(),
    {
        let ghost pre = *self;
        let f = self.frames.pop().unwrap();
        let ghost g = GreenData::Node { kind: f.kind, children: greens_view(f.children@) };
        let node = Green::Node { kind: f.kind, children: f.children };
        let mut parent = self.frames.pop().unwrap();
        parent.children.push(node);
        self.frames.push(parent);
        proof {
            assert forall|i: int| 0 <= i < pre.depth() - 2 implies #[trigger] self.frame_kind(i)
                == pre.frame_kind(i) && self.frame_children(i) == pre.frame_children(i) by {
                assert(self.frames@[i] == pre.frames@[i]);
            }
            let oldc = pre.frames@[pre.depth() - 2].children@;
            let newc = self.frames@[pre.depth() - 2].children@;
            lemma_greens_view_len(oldc);
            lemma_greens_view_len(newc);
            assert(node@ == g);
            assert(greens_view(newc) =~= greens_view(oldc).push(g));
            lemma_texts_push(pre.frame_children(pre.depth() - 2), g);
            lemma_wf_push(pre.frame_children(pre.depth() - 2), g);
            pre.lemma_text_agree(*self, pre.depth() - 2);
            assert(pre.text_upto(pre.depth() as int) == pre.text_upto(pre.depth() - 1) + texts_of(
                pre.frame_children(pre.depth() - 1),
            ));
            assert(pre.text_upto(pre.depth() - 1) == pre.text_upto(pre.depth() - 2) + texts_of(
                pre.frame_children(pre.depth() - 2),
            ));
            assert(self.text_upto(self.depth() as int) == self.text_upto(self.depth() - 1)
                + texts_of(self.frame_children(self.depth() - 1)));
            assert(self.text() =~= pre.text());
        }
    }

    /// The number of children collected so far for the innermost open node:
    /// the checkpoint a later `start_node_at` may wrap from.
    pub fn checkpoint(&self) -> (r: usize)
        requires
            self.depth() >= 1,
        ensures
            r == self.top().len(),
    {
        proof {
            lemma_greens_view_len(self.frames@[self.depth() - 1].children@);
        }
        self.frames[self.frames.len() - 1].children.len()
    }

    /// Open a new internal node that adopts the children collected since
    /// the given checkpoint: they move from the innermost open node into the
    /// newly opened one, which subsequent events then extend.
    pub fn start_node_at(&mut self, checkpoint: usize, kind: SyntaxKind)
        requires
            old(self).wf(),
            old(self).depth() >= 1,
            is_node_kind(kind),
            checkpoint <= old(self).top().len(),
        ensures
            final(self).wf(),
            final(self).depth() == old(self).depth() + 1,
            final(self).agree_below(*old(self), old(self).depth() - 1),
            final(self).frame_children(old(self).depth() - 1) == old(self).top().subrange(
                0,
                checkpoint as int,
            ),
            final(self).frame_kind(old(self).depth() - 1) == old(self).top_kind(),
            final(self).top() == old(self).top().subrange(
                checkpoint as int,
                old(self).top().len() as int,
            ),
            final(self).top_kind() == kind,
            final(self).text() == old(self).text(),
    {
        let ghost pre = *self;
        let mut f = self.frames.pop().unwrap();
        proof {
            lemma_greens_view_len(f.children@);
        }
        let tail = f.children.split_off(checkpoint);
        self.frames.push(f);
        self.frames.push(Frame { kind, children: tail });
        proof {
            assert forall|i: int| 0 <= i < pre.depth() - 1 implies #[trigger] self.frame_kind(i)
                == pre.frame_kind(i) && self.frame_children(i) == pre.frame_children(i) by {
                assert(self.frames@[i] == pre.frames@[i]);
            }
            let oldc = pre.frames@[pre.depth() - 1].children@;
            let keep = self.frames@[pre.depth() - 1].children@;
            let moved = self.frames@[pre.depth() as int].children@;
            lemma_greens_view_len(oldc);
            lemma_greens_view_len(keep);
            lemma_greens_view_len(moved);
            let cp = checkpoint as int;
            assert(greens_view(keep) =~= pre.top().subrange(0, cp));
            assert(greens_view(moved) =~= pre.top().subrange(cp, pre.top().len() as int));
            lemma_texts_concat(greens_view(keep), greens_view(moved));
            assert(greens_view(keep) + greens_view(moved) =~= pre.top());
            lemma_split_wf(pre.top(), cp);
            pre.lemma_text_agree(*self, pre.depth() - 1);
            assert(self.text_upto(self.depth() as int) == self.text_upto(self.depth() - 1)
                + texts_of(self.frame_children(self.depth() - 1)));
            assert(self.text_upto(self.depth() - 1) == self.text_upto(self.depth() - 2) + texts_of(
                self.frame_children(self.depth() - 2),
            ));
            assert(pre.text_upto(pre.depth() as int) == pre.text_upto(pre.depth() - 1) + texts_of(
                pre.frame_children(pre.depth() - 1),
            ));
            assert(self.text() =~= pre.text());
        }
    }

    /// Close the single remaining open node and surrender it as the
    /// finished root of the tree.
    pub fn finish_root(self) -> (r: Green)
        requires
            self.wf(),
            self.depth() == 1,
        ensures
            r@ == (GreenData::Node { kind: self.top_kind(), children: self.top() }),
            r@.wf(),
            r@.text() == self.text(),
    {
        let mut frames = self.frames;
        let f = frames.pop().unwrap();
        let r = Green::Node { kind: f.kind, children: f.children };
        proof {
            assert(r@ == (GreenData::Node { kind: self.top_kind(), children: self.top() }));
            assert(self.text() == self.text_upto(0) + texts_of(self.frame_children(0)));
            assert(r@.text() =~= self.text());
        }
        r
    }
}

/// Splitting a well-formed sequence leaves both halves well formed.
proof fn lemma_split_wf(s: Seq<GreenData>, cp: int)
    requires
        0 <= cp <= s.len(),
        greens_wf(s),
    ensures
        greens_wf(s.subrange(0, cp)),
        greens_wf(s.subrange(cp, s.len() as int)),
{
    let a = s.subrange(0, cp);
    let b = s.subrange(cp, s.len() as int);
    lemma_wf_sub_upto(s, 0, cp, a.len() as int);
    lemma_wf_sub_upto(s, cp, s.len() as int, b.len() as int);
}

/// Any prefix of a subrange of a well-formed sequence is well formed.
proof fn lemma_wf_sub_upto(s: Seq<GreenData>, lo: int, hi: int, n: int)
    requires
        0 <= lo <= hi <= s.len(),
        0 <= n <= hi - lo,
        greens_wf(s),
    ensures
        crate::green::wf_upto(s.subrange(lo, hi), n),
    decreases n,
{
    if n > 0 {
        lemma_wf_sub_upto(s, lo, hi, n - 1);
        crate::green::lemma_wf_index(s, lo + n - 1);
        assert(s.subrange(lo, hi)[n - 1] == s[lo + n - 1]);
    }
}

} // verus!
