//! The red tree: on-demand wrappers that give a green element an absolute
//! byte offset computed from the text lengths of everything before it.
//!
//! Red wrappers are created lazily during traversal and are never stored in
//! the green tree.

use vstd::prelude::*;

use crate::green::{
    green_text, green_view, lemma_greens_view_len, lemma_texts_upto_prefix, lemma_wf_index,
    texts_upto, Green, GreenData,
};
use crate::syntax_kind::SyntaxKind;

verus! {

/// A red node: one green element together with the absolute byte offset
/// where its text starts.
#[derive(Debug, PartialEq, Eq, Hash)]
pub struct SyntaxNode {
    pub(crate) green: Green,
    pub(crate) offset: usize,
}

/// The model of a red node.
#[verifier::ext_equal]
pub struct NodeData {
    pub green: GreenData,
    pub offset: int,
}

impl View for SyntaxNode {
    type V = NodeData;

    closed spec fn view(&self) -> NodeData {
        NodeData { green: green_view(self.green), offset: self.offset as int }
    }
}

/// A red terminal: its kind, its exact text, and its absolute byte
/// offset.
#[derive(Debug, PartialEq, Eq, Hash)]
pub struct SyntaxToken {
    pub(crate) kind: SyntaxKind,
    pub(crate) text: Vec<u8>,
    pub(crate) offset: usize,
}

/// The model of a red terminal.
#[verifier::ext_equal]
pub struct TokenData {
    pub kind: SyntaxKind,
    pub text: Seq<u8>,
    pub offset: int,
}

impl View for SyntaxToken {
    type V = TokenData;

    closed spec fn view(&self) -> TokenData {
        TokenData { kind: self.kind, text: self.text@, offset: self.offset as int }
    }
}

/// The model of the `i`th child of a red node: the child's green element
/// at the parent's offset plus the text of the children before it.
pub open spec fn child_view(d: NodeData, i: int) -> NodeData {
    NodeData {
        green: d.green.children()[i],
        offset: d.offset + texts_upto(d.green.children(), i).len(),
    }
}

impl SyntaxNode {
    /// Wrap a green element as a red node at the given absolute offset.
    pub(crate) fn new(green: Green, offset: usize) -> (r: SyntaxNode)
        ensures
            r@.green == green@,
            r@.offset == offset,
    {
        SyntaxNode { green, offset }
    }

    /// A red node is well formed when its green element is and its span
    /// fits in the address space.
    pub open spec fn wf(self) -> bool {
        &&& self@.green.wf()
        &&& self@.offset + self@.green.text().len() <= usize::MAX
    }

    /// Whether this red element wraps an internal node, as opposed to a
    /// terminal.
    pub fn is_node(&self) -> (r: bool)
        ensures
            r == self@.green.is_node(),
    {
        match &self.green {
            Green::Node { .. } => true,
            Green::Token { .. } => false,
        }
    }

    /// The kind of this node.
    pub fn kind(&self) -> (r: SyntaxKind)
        ensures
            r == self@.green.kind(),
    {
        self.green.kind()
    }

    /// The absolute byte offset where this node's text starts.
    pub fn offset(&self) -> (r: usize)
        ensures
            r == self@.offset,
    {
        self.offset
    }

    /// The exact text this node covers.
    pub fn text(&self) -> (r: Vec<u8>)
        ensures
            r@ == self@.green.text(),
    {
        green_text(&self.green)
    }

    /// How many children this node has; a terminal has none.
    pub fn child_count(&self) -> (r: usize)
        ensures
            r == self@.green.children().len(),
    {
        match &self.green {
            Green::Node { children, .. } => {
                proof {
                    lemma_greens_view_len(children@);
                }
                children.len()
            },
            Green::Token { .. } => 0,
        }
    }

    /// The kind of the `i`th child.
    pub fn child_kind(&self, i: usize) -> (r: SyntaxKind)
        requires
            i < self@.green.children().len(),
        ensures
            r == self@.green.children()[i as int].kind(),
    {
        match &self.green {
            Green::Node { children, .. } => {
                proof {
                    lemma_greens_view_len(children@);
                }
                children[i].kind()
            },
            Green::Token { kind, .. } => *kind,
        }
    }

    /// Whether the `i`th child is a terminal.
    pub fn child_is_token(&self, i: usize) -> (r: bool)
        requires
            i < self@.green.children().len(),
        ensures
            r == !(self@.green.children()[i as int] is Node),
    {
        match &self.green {
            Green::Node { children, .. } => {
                proof {
                    lemma_greens_view_len(children@);
                }
                match &children[i] {
                    Green::Token { .. } => true,
                    Green::Node { .. } => false,
                }
            },
            Green::Token { .. } => false,
        }
    }

    /// The `i`th child as a red node of its own, with its absolute
    /// offset.
    #[verifier::loop_isolation(false)]
    pub fn child(&self, i: usize) -> (r: SyntaxNode)
        requires
            self.wf(),
            i < self@.green.children().len(),
        ensures
            r@ == child_view(self@, i as int),
            r.wf(),
    {
        let mut acc: usize = self.offset;
        match &self.green {
            Green::Node { children, .. } => {
                proof {
                    lemma_greens_view_len(children@);
                }
                let ghost cs = self@.green.children();
                let mut j: usize = 0;
                while j < i
                    invariant
                        j <= i,
                        acc == self@.offset + texts_upto(cs, j as int).len(),
                    decreases i - j,
                {
                    proof {
                        lemma_texts_upto_prefix(cs, j as int, cs.len() as int);
                    }
                    let l = child_text_len(&children[j]);
                    acc = acc + l;
                    j = j + 1;
                }
                let g = children[i].clone();
                proof {
                    lemma_texts_upto_prefix(cs, i as int, cs.len() as int);
                    lemma_wf_index(cs, i as int);
                }
                SyntaxNode { green: g, offset: acc }
            },
            Green::Token { .. } => {
                proof {
                    assert(false);
                }
                SyntaxNode { green: Green::Token { kind: SyntaxKind::ERROR, text: Vec::new() }, offset: 0 }
            },
        }
    }

    /// All children as red nodes, in order.
    #[verifier::loop_isolation(false)]
    pub fn children(&self) -> (r: Vec<SyntaxNode>)
        requires
            self.wf(),
        ensures
            r@.len() == self@.green.children().len(),
            forall|i: int|
                0 <= i < r@.len() ==> (#[trigger] r@[i])@ == child_view(self@, i) && r@[i].wf(),
    {
        let n = self.child_count();
        let mut out: Vec<SyntaxNode> = Vec::new();
        let mut i: usize = 0;
        while i < n
            invariant
                i <= n,
                out@.len() == i,
                forall|k: int|
                    0 <= k < i ==> (#[trigger] out@[k])@ == child_view(self@, k) && out@[k].wf(),
            decreases n - i,
        {
            let c = self.child(i);
            out.push(c);
            i = i + 1;
        }
        out
    }

    /// The `i`th child as a red terminal, when it is one.
    pub fn child_token(&self, i: usize) -> (r: SyntaxToken)
        requires
            self.wf(),
            i < self@.green.children().len(),
            !(self@.green.children()[i as int] is Node),
        ensures
            r@.kind == self@.green.children()[i as int].kind(),
            r@.text == self@.green.children()[i as int].text(),
            r@.offset == child_view(self@, i as int).offset,
    {
        let node = self.child(i);
        let kind = node.kind();
        let offset = node.offset;
        let text = node.text();
        SyntaxToken { kind, text, offset }
    }
}

/// How many children at or after `i` carry the given kind.
pub open spec fn kind_count(s: Seq<GreenData>, kind: SyntaxKind, i: int) -> int
    decreases s.len() - i,
    when i >= 0
{
    if i >= s.len() {
        0
    } else if s[i].kind() == kind {
        1 + kind_count(s, kind, i + 1)
    } else {
        kind_count(s, kind, i + 1)
    }
}

/// The index of the `k`th child at or after `i` with the given kind,
/// counting from 0, or -1.
pub open spec fn nth_kind_idx(s: Seq<GreenData>, kind: SyntaxKind, k: int, i: int) -> int
    decreases s.len() - i,
    when i >= 0
{
    if i >= s.len() {
        -1
    } else if s[i].kind() == kind {
        if k <= 0 {
            i
        } else {
            nth_kind_idx(s, kind, k - 1, i + 1)
        }
    } else {
        nth_kind_idx(s, kind, k, i + 1)
    }
}

/// The number of matching children only shrinks as the scan start moves
/// right.
proof fn lemma_kind_count_mono(s: Seq<GreenData>, kind: SyntaxKind, j: int, i: int)
    requires
        0 <= j <= i <= s.len(),
    ensures
        kind_count(s, kind, j) >= kind_count(s, kind, i),
    decreases i - j,
{
    if j < i {
        lemma_kind_count_mono(s, kind, j + 1, i);
    }
}

/// Scanning left to right, a matching child at index `i` is the `k`th
/// match, where `k` counts the matches before `i`.
proof fn lemma_nth_kind_from(s: Seq<GreenData>, kind: SyntaxKind, j: int, i: int)
    requires
        0 <= j <= i < s.len(),
        s[i].kind() == kind,
    ensures
        nth_kind_idx(s, kind, kind_count(s, kind, j) - kind_count(s, kind, i), j) == i,
    decreases i - j,
{
    if j < i {
        lemma_nth_kind_from(s, kind, j + 1, i);
        lemma_kind_count_mono(s, kind, j + 1, i);
    }
}

impl SyntaxNode {
    /// All children carrying the given kind, in order, as red nodes.
    #[verifier::loop_isolation(false)]
    pub fn children_of_kind(&self, kind: SyntaxKind) -> (r: Vec<SyntaxNode>)
        requires
            self.wf(),
        ensures
            r@.len() == kind_count(self@.green.children(), kind, 0),
            forall|k: int|
                0 <= k < r@.len() ==> (#[trigger] r@[k])@ == child_view(
                    self@,
                    nth_kind_idx(self@.green.children(), kind, k, 0),
                ) && r@[k].wf(),
    {
        let n = self.child_count();
        let ghost cs = self@.green.children();
        let mut out: Vec<SyntaxNode> = Vec::new();
        let mut i: usize = 0;
        while i < n
            invariant
                i <= n,
                n == cs.len(),
                out@.len() == kind_count(cs, kind, 0) - kind_count(cs, kind, i as int),
                forall|k: int|
                    0 <= k < out@.len() ==> (#[trigger] out@[k])@ == child_view(
                        self@,
                        nth_kind_idx(cs, kind, k, 0),
                    ) && out@[k].wf(),
            decreases n - i,
        {
            if self.child_kind(i) == kind {
                proof {
                    lemma_nth_kind_from(cs, kind, 0, i as int);
                    assert(kind_count(cs, kind, i as int) == 1 + kind_count(cs, kind, i + 1));
                }
                let c = self.child(i);
                out.push(c);
            } else {
                proof {
                    assert(kind_count(cs, kind, i as int) == kind_count(cs, kind, i + 1));
                }
            }
            i = i + 1;
        }
        out
    }
}

/// The concatenated text of the red terminals `[a, b)` of a stream.
pub open spec fn stream_text_range(ts: Seq<SyntaxToken>, a: int, b: int) -> Seq<u8>
    decreases b - a,
{
    if b <= a {
        Seq::empty()
    } else {
        stream_text_range(ts, a, b - 1) + ts[b - 1]@.text
    }
}

/// A range of a stream reads the same after the stream is extended.
proof fn lemma_stream_range_stable(a: Seq<SyntaxToken>, b: Seq<SyntaxToken>, x: int, y: int)
    requires
        0 <= x,
        x <= y <= a.len(),
        a.is_prefix_of(b),
    ensures
        stream_text_range(a, x, y) == stream_text_range(b, x, y),
    decreases y - x,
{
    if x < y {
        lemma_stream_range_stable(a, b, x, y - 1);
        assert(a[y - 1] == b[y - 1]);
    }
}

/// Adjacent ranges of a stream concatenate.
proof fn lemma_stream_range_concat(ts: Seq<SyntaxToken>, x: int, y: int, z: int)
    requires
        x <= y <= z,
    ensures
        stream_text_range(ts, x, z) == stream_text_range(ts, x, y) + stream_text_range(ts, y, z),
    decreases z - y,
{
    if y == z {
        assert(stream_text_range(ts, x, y) + stream_text_range(ts, y, z) =~= stream_text_range(
            ts,
            x,
            y,
        ));
    } else {
        lemma_stream_range_concat(ts, x, y, z - 1);
        assert(stream_text_range(ts, x, y) + (stream_text_range(ts, y, z - 1) + ts[z - 1]@.text)
            =~= (stream_text_range(ts, x, y) + stream_text_range(ts, y, z - 1)) + ts[z - 1]@.text);
    }
}

/// Collect the terminals of a green subtree, left to right, giving each
/// its absolute offset.
#[verifier::loop_isolation(false)]
fn push_subtree_tokens(g: &Green, offset: usize, out: &mut Vec<SyntaxToken>)
    requires
        offset + g@.text().len() <= usize::MAX,
    ensures
        old(out)@.is_prefix_of(final(out)@),
        stream_text_range(final(out)@, old(out)@.len() as int, final(out)@.len() as int)
            == g@.text(),
        forall|i: int|
            old(out)@.len() <= i < final(out)@.len() ==> (#[trigger] final(out)@[i])@.offset
                == offset + stream_text_range(final(out)@, old(out)@.len() as int, i).len(),
    decreases *g,
{
    let ghost base = out@.len() as int;
    match g {
        Green::Token { kind, text } => {
            let mut t: Vec<u8> = Vec::new();
            t.extend_from_slice(text.as_slice());
            proof {
                assert(t@ =~= text@);
            }
            out.push(SyntaxToken { kind: *kind, text: t, offset });
            proof {
                assert(out@.subrange(0, base) =~= old(out)@);
                assert(stream_text_range(out@, base, base) =~= Seq::<u8>::empty());
                assert(stream_text_range(out@, base, base + 1) =~= g@.text());
            }
        },
        Green::Node { kind, children } => {
            let n = children.len();
            let mut acc: usize = offset;
            let mut j: usize = 0;
            proof {
                lemma_greens_view_len(children@);
            }
            let ghost cs = g@.children();
            while j < n
                invariant
                    j <= n,
                    n == cs.len(),
                    base <= out@.len(),
                    old(out)@.is_prefix_of(out@),
                    acc == offset + texts_upto(cs, j as int).len(),
                    acc <= usize::MAX,
                    stream_text_range(out@, base, out@.len() as int) == texts_upto(cs, j as int),
                    forall|i: int|
                        base <= i < out@.len() ==> (#[trigger] out@[i])@.offset == offset
                            + stream_text_range(out@, base, i).len(),
                decreases n - j,
            {
                let ghost pre = out@;
                proof {
                    lemma_texts_upto_prefix(cs, j as int, cs.len() as int);
                }
                push_subtree_tokens(&children[j], acc, out);
                proof {
                    assert(pre.is_prefix_of(out@));
                    lemma_stream_range_stable(pre, out@, base, pre.len() as int);
                    lemma_stream_range_concat(out@, base, pre.len() as int, out@.len() as int);
                    assert(stream_text_range(out@, base, out@.len() as int) =~= texts_upto(
                        cs,
                        j + 1,
                    ));
                    assert forall|i: int| base <= i < out@.len() implies (#[trigger] out@[i])@.offset
                        == offset + stream_text_range(out@, base, i).len() by {
                        if i < pre.len() {
                            lemma_stream_range_stable(pre, out@, base, i);
                            assert(out@[i] == pre[i]);
                        } else {
                            lemma_stream_range_concat(out@, base, pre.len() as int, i);
                        }
                    }
                }
                let l = child_text_len(&children[j]);
                acc = acc + l;
                j = j + 1;
            }
            proof {
                assert(g@.text() == texts_upto(cs, n as int));
            }
        },
    }
}

impl SyntaxNode {
    /// The token stream of this subtree: every terminal, left to right,
    /// each with its absolute offset.  Concatenating the texts reproduces
    /// the exact text this node covers.
    pub fn tokens(&self) -> (r: Vec<SyntaxToken>)
        requires
            self.wf(),
        ensures
            stream_text_range(r@, 0, r@.len() as int) == self@.green.text(),
            forall|i: int|
                0 <= i < r@.len() ==> (#[trigger] r@[i])@.offset == self@.offset
                    + stream_text_range(r@, 0, i).len(),
    {
        let mut out: Vec<SyntaxToken> = Vec::new();
        push_subtree_tokens(&self.green, self.offset, &mut out);
        proof {
            assert(out@.subrange(0, 0) =~= Seq::<SyntaxToken>::empty());
        }
        out
    }
}

/// The length of the text a green element covers, for offset accounting.
fn child_text_len(g: &Green) -> (r: usize)
    requires
        g@.text().len() <= usize::MAX,
    ensures
        r == g@.text().len(),
{
    let t = green_text(g);
    t.len()
}

impl SyntaxToken {
    /// The kind of this terminal.
    pub fn kind(&self) -> (r: SyntaxKind)
        ensures
            r == self@.kind,
    {
        self.kind
    }

    /// The exact text of this terminal.
    pub fn text(&self) -> (r: &Vec<u8>)
        ensures
            r@ == self@.text,
    {
        &self.text
    }

    /// The absolute byte offset where this terminal starts.
    pub fn offset(&self) -> (r: usize)
        ensures
            r == self@.offset,
    {
        self.offset
    }
}

} // verus!
