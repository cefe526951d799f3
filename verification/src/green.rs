//! The green tree: an immutable, position-free representation of the parse.
//!
//! A green element is either an internal node (a nonterminal kind and an
//! ordered sequence of children) or a terminal (a terminal kind and the owned
//! text it covers).  Concatenating every terminal's text left-to-right
//! reproduces the input that was parsed.
//!
//! Contracts speak about `GreenData`, the mathematical model of a green
//! element; `Green` is the executable representation and views into it.

use vstd::prelude::*;

use crate::syntax_kind::{is_node_kind, is_token_kind, SyntaxKind};

verus! {

/// One element of the green tree, as executable data.
#[derive(Debug, PartialEq, Eq, Hash)]
pub enum Green {
    /// An internal node: a nonterminal kind over ordered children.
    Node { kind: SyntaxKind, children: Vec<Green> },
    /// A terminal: a terminal kind carrying the exact source text it covers.
    Token { kind: SyntaxKind, text: Vec<u8> },
}

/// The mathematical model of a green element.
#[verifier::ext_equal]
pub enum GreenData {
    /// An internal node over a sequence of child models.
    Node { kind: SyntaxKind, children: Seq<GreenData> },
    /// A terminal carrying the byte sequence it covers.
    Token { kind: SyntaxKind, text: Seq<u8> },
}

/// The models of the first `n` elements of a sequence of green elements.
pub open spec fn views_upto(s: Seq<Green>, n: int) -> Seq<GreenData>
    decreases s, n,
    when 0 <= n <= s.len()
{
    if n <= 0 {
        Seq::empty()
    } else {
        views_upto(s, n - 1).push(green_view(s[n - 1]))
    }
}

/// The models of a whole sequence of green elements.
pub open spec fn greens_view(s: Seq<Green>) -> Seq<GreenData>
    decreases s, s.len() as int + 1,
{
    views_upto(s, s.len() as int)
}

/// The model of a green element.
pub open spec fn green_view(g: Green) -> GreenData
    decreases g,
{
    match g {
        Green::Token { kind, text } => GreenData::Token { kind, text: text@ },
        Green::Node { kind, children } => GreenData::Node {
            kind,
            children: greens_view(children@),
        },
    }
}

impl View for Green {
    type V = GreenData;

    open spec fn view(&self) -> GreenData {
        green_view(*self)
    }
}

/// The models of a sequence keep its length and go element by element.
pub proof fn lemma_greens_view_len(s: Seq<Green>)
    ensures
        greens_view(s).len() == s.len(),
        forall|i: int| 0 <= i < s.len() ==> #[trigger] greens_view(s)[i] == green_view(s[i]),
{
    lemma_views_upto_len(s, s.len() as int);
}

proof fn lemma_views_upto_len(s: Seq<Green>, n: int)
    requires
        0 <= n <= s.len(),
    ensures
        views_upto(s, n).len() == n,
        forall|i: int| 0 <= i < n ==> #[trigger] views_upto(s, n)[i] == green_view(s[i]),
    decreases n,
{
    if n > 0 {
        lemma_views_upto_len(s, n - 1);
    }
}

impl GreenData {
    /// The kind carried by this element.
    pub open spec fn kind(self) -> SyntaxKind {
        match self {
            GreenData::Node { kind, .. } => kind,
            GreenData::Token { kind, .. } => kind,
        }
    }

    /// The children of an internal node; a terminal has none.
    pub open spec fn children(self) -> Seq<GreenData> {
        match self {
            GreenData::Node { children, .. } => children,
            GreenData::Token { .. } => Seq::empty(),
        }
    }

    /// Whether this element is an internal node.
    pub open spec fn is_node(self) -> bool {
        self is Node
    }

    /// The text covered by this element: a terminal's own text, or the
    /// concatenation of the texts of an internal node's children.
    pub open spec fn text(self) -> Seq<u8>
        decreases self,
    {
        match self {
            GreenData::Token { text, .. } => text,
            GreenData::Node { children, .. } => texts_of(children),
        }
    }

    /// Well-formedness: every internal node's kind is a nonterminal tag,
    /// every terminal's kind is a terminal tag, recursively.
    pub open spec fn wf(self) -> bool
        decreases self,
    {
        match self {
            GreenData::Token { kind, .. } => is_token_kind(kind),
            GreenData::Node { kind, children } => is_node_kind(kind) && greens_wf(children),
        }
    }
}

/// The text covered by the first `n` elements of a sequence, concatenated
/// left to right.
pub open spec fn texts_upto(s: Seq<GreenData>, n: int) -> Seq<u8>
    decreases s, n,
    when 0 <= n <= s.len()
{
    if n <= 0 {
        Seq::empty()
    } else {
        texts_upto(s, n - 1) + s[n - 1].text()
    }
}

/// The text covered by a whole sequence of green elements.
pub open spec fn texts_of(s: Seq<GreenData>) -> Seq<u8>
    decreases s, s.len() as int + 1,
{
    texts_upto(s, s.len() as int)
}

/// Well-formedness of the first `n` elements of a sequence.
pub open spec fn wf_upto(s: Seq<GreenData>, n: int) -> bool
    decreases s, n,
    when 0 <= n <= s.len()
{
    if n <= 0 {
        true
    } else {
        wf_upto(s, n - 1) && s[n - 1].wf()
    }
}

/// Well-formedness of a whole sequence of green elements.
pub open spec fn greens_wf(s: Seq<GreenData>) -> bool
    decreases s, s.len() as int + 1,
{
    wf_upto(s, s.len() as int)
}

/// Appending an element to a sequence extends the covered text by exactly
/// that element's text.
pub proof fn lemma_texts_push(s: Seq<GreenData>, g: GreenData)
    ensures
        texts_of(s.push(g)) == texts_of(s) + g.text(),
{
    let t = s.push(g);
    assert(t[t.len() - 1] == g);
    lemma_texts_upto_unchanged(s, t, s.len() as int);
}

/// `texts_upto` only looks at the first `n` elements.
pub proof fn lemma_texts_upto_unchanged(a: Seq<GreenData>, b: Seq<GreenData>, n: int)
    requires
        0 <= n,
        n <= a.len(),
        n <= b.len(),
        forall|i: int| 0 <= i < n ==> a[i] == b[i],
    ensures
        texts_upto(a, n) == texts_upto(b, n),
    decreases n,
{
    if n > 0 {
        lemma_texts_upto_unchanged(a, b, n - 1);
    }
}

/// The covered text distributes over sequence concatenation.
pub proof fn lemma_texts_concat(a: Seq<GreenData>, b: Seq<GreenData>)
    ensures
        texts_of(a + b) == texts_of(a) + texts_of(b),
    decreases b.len(),
{
    if b.len() == 0 {
        assert(a + b =~= a);
        assert(texts_of(a) + texts_upto(b, 0) =~= texts_of(a));
    } else {
        let b0 = b.drop_last();
        let c = a + b;
        lemma_texts_concat(a, b0);
        assert(a + b0 =~= c.subrange(0, c.len() - 1));
        lemma_texts_upto_unchanged(a + b0, c, (a + b0).len() as int);
        lemma_texts_upto_unchanged(b0, b, b.len() - 1);
        assert(c[c.len() - 1] == b[b.len() - 1]);
        assert(texts_of(c) == texts_upto(c, c.len() - 1) + c[c.len() - 1].text());
        assert(texts_of(b) == texts_upto(b, b.len() - 1) + b[b.len() - 1].text());
        assert(texts_of(a) + (texts_of(b0) + b[b.len() - 1].text()) =~= (texts_of(a) + texts_of(b0))
            + b[b.len() - 1].text());
    }
}

/// Each step of `texts_upto` appends exactly one element's text, and a
/// prefix never covers more text than the whole.
pub proof fn lemma_texts_upto_prefix(s: Seq<GreenData>, i: int, n: int)
    requires
        0 <= i < n <= s.len(),
    ensures
        texts_upto(s, i + 1) == texts_upto(s, i) + s[i].text(),
        texts_upto(s, i).len() + s[i].text().len() <= texts_upto(s, n).len(),
    decreases n - i,
{
    if i + 1 < n {
        lemma_texts_upto_prefix(s, i + 1, n);
    }
}

/// Appending a well-formed element preserves sequence well-formedness.
pub proof fn lemma_wf_push(s: Seq<GreenData>, g: GreenData)
    requires
        greens_wf(s),
        g.wf(),
    ensures
        greens_wf(s.push(g)),
{
    let t = s.push(g);
    lemma_wf_upto_unchanged(s, t, s.len() as int);
    assert(t[t.len() - 1] == g);
}

/// `wf_upto` only looks at the first `n` elements.
pub proof fn lemma_wf_upto_unchanged(a: Seq<GreenData>, b: Seq<GreenData>, n: int)
    requires
        0 <= n,
        n <= a.len(),
        n <= b.len(),
        forall|i: int| 0 <= i < n ==> a[i] == b[i],
    ensures
        wf_upto(a, n) == wf_upto(b, n),
    decreases n,
{
    if n > 0 {
        lemma_wf_upto_unchanged(a, b, n - 1);
    }
}

/// Every element of a well-formed sequence is well-formed.
pub proof fn lemma_wf_index(s: Seq<GreenData>, i: int)
    requires
        greens_wf(s),
        0 <= i < s.len(),
    ensures
        s[i].wf(),
{
    lemma_wf_at(s, s.len() as int, i);
}

/// Within the well-formed prefix of length `n`, every element is
/// well-formed.
proof fn lemma_wf_at(s: Seq<GreenData>, n: int, i: int)
    requires
        wf_upto(s, n),
        0 <= i < n <= s.len(),
    ensures
        s[i].wf(),
    decreases n,
{
    if i < n - 1 {
        lemma_wf_at(s, n - 1, i);
    }
}

impl Green {
    /// The kind carried by this element.
    pub fn kind(&self) -> (r: SyntaxKind)
        ensures
            r == self@.kind(),
    {
        match self {
            Green::Node { kind, .. } => *kind,
            Green::Token { kind, .. } => *kind,
        }
    }
}

impl Clone for Green {
    /// A deep, structure-preserving copy.
    #[verifier::loop_isolation(false)]
    fn clone(&self) -> (r: Green)
        ensures
            r@ == self@,
        decreases *self,
    {
        match self {
            Green::Token { kind, text } => {
                let mut t: Vec<u8> = Vec::new();
                t.extend_from_slice(text.as_slice());
                proof {
                    assert(t@ =~= text@);
                }
                Green::Token { kind: *kind, text: t }
            },
            Green::Node { kind, children } => {
                let mut out: Vec<Green> = Vec::new();
                let n = children.len();
                let mut i: usize = 0;
                while i < n
                    invariant
                        n == children@.len(),
                        i <= n,
                        out@.len() == i,
                        forall|j: int| 0 <= j < i ==> #[trigger] out@[j]@ == children@[j]@,
                    decreases n - i,
                {
                    let c = children[i].clone();
                    out.push(c);
                    i = i + 1;
                }
                proof {
                    lemma_views_eq(out@, children@);
                }
                Green::Node { kind: *kind, children: out }
            },
        }
    }
}

/// Two sequences whose elements agree model for model have the same model.
pub proof fn lemma_views_eq(a: Seq<Green>, b: Seq<Green>)
    requires
        a.len() == b.len(),
        forall|j: int| 0 <= j < a.len() ==> #[trigger] a[j]@ == b[j]@,
    ensures
        greens_view(a) == greens_view(b),
{
    lemma_views_upto_eq(a, b, a.len() as int);
}

proof fn lemma_views_upto_eq(a: Seq<Green>, b: Seq<Green>, n: int)
    requires
        0 <= n <= a.len(),
        a.len() == b.len(),
        forall|j: int| 0 <= j < a.len() ==> #[trigger] a[j]@ == b[j]@,
    ensures
        views_upto(a, n) == views_upto(b, n),
    decreases n,
{
    if n > 0 {
        lemma_views_upto_eq(a, b, n - 1);
        assert(a[n - 1]@ == b[n - 1]@);
        assert(views_upto(a, n) =~= views_upto(b, n));
    }
}

/// Append the text covered by a green element to a byte buffer.
#[verifier::loop_isolation(false)]
pub fn push_green_text(g: &Green, out: &mut Vec<u8>)
    ensures
        final(out)@ == old(out)@ + g@.text(),
    decreases *g,
{
    match g {
        Green::Token { text, .. } => {
            out.extend_from_slice(text.as_slice());
            proof {
                assert(out@ =~= old(out)@ + g@.text());
            }
        },
        Green::Node { kind, children } => {
            let n = children.len();
            let mut i: usize = 0;
            proof {
                lemma_greens_view_len(children@);
            }
            while i < n
                invariant
                    n == children@.len(),
                    i <= n,
                    greens_view(children@).len() == n,
                    forall|k: int|
                        0 <= k < n ==> #[trigger] greens_view(children@)[k] == green_view(
                            children@[k],
                        ),
                    out@ == old(out)@ + texts_upto(greens_view(children@), i as int),
                decreases n - i,
            {
                push_green_text(&children[i], out);
                proof {
                    let cv = greens_view(children@);
                    assert(old(out)@ + texts_upto(cv, i as int) + cv[i as int].text() =~= old(out)@
                        + (texts_upto(cv, i as int) + cv[i as int].text()));
                }
                i = i + 1;
            }
            proof {
                assert(g@.text() == texts_upto(greens_view(children@), n as int));
            }
        },
    }
}

/// The text covered by a green element, as an owned byte vector.
pub fn green_text(g: &Green) -> (r: Vec<u8>)
    ensures
        r@ == g@.text(),
{
    let mut out: Vec<u8> = Vec::new();
    push_green_text(g, &mut out);
    out
}

} // verus!
