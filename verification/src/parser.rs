//! The parser driver.
//!
//! The driver owns the token buffer in reverse order (the next token is the
//! last element), the green-tree builder, and the accumulated errors.  The
//! grammar productions drive it through a small set of primitives: `peek`
//! variants for non-consuming lookahead, `bump` to move the next token into
//! the tree under a caller-chosen kind, `start_node` / `finish_node` to open
//! and close internal nodes, and `push_err` to record a diagnostic without
//! aborting.
//!
//! The driver's well-formedness invariant carries the central conservation
//! fact: the text already emitted to the builder plus the text of the
//! remaining tokens is exactly the input.  Every production preserves it, so
//! when the last token is consumed the finished tree covers the input
//! byte for byte.

use vstd::prelude::*;
use vstd::string::StringSliceAdditionalSpecFns;


use crate::builder::SyntaxTreeBuilder;
use crate::lexer::{error_tokens_reported, shape_ok, Lexer};
use crate::syntax_tree::SyntaxTree;
use crate::error::{errors_wf, Error};
use crate::green::GreenData;
use crate::syntax_kind::{is_token_kind, SyntaxKind};
use crate::token::{Kw, Token, TokenKind};

mod argument;
mod directive;
mod enum_;
mod field;
mod input;
mod interface;
mod union_;
mod fragment;
mod name;
mod operation;
mod scalar;
mod schema;
mod selection;
mod object;
mod ty;
mod utils;
mod value;
mod variable;

verus! {

/// The concatenated text of a reversed token buffer, next token first.
pub open spec fn rev_text(toks: Seq<Token>) -> Seq<u8>
    decreases toks.len(),
{
    if toks.len() == 0 {
        Seq::empty()
    } else {
        toks.last().text@ + rev_text(toks.drop_last())
    }
}

/// Whitespace and comments: skipped by lookahead, flushed into the tree on
/// the next `bump`.  Commas stay visible to the grammar, which treats them
/// as insignificant separators but uses them to anchor error recovery.
pub open spec fn is_trivia_kind(k: TokenKind) -> bool {
    k == TokenKind::Whitespace || k == TokenKind::Comment
}

/// The index (in a reversed buffer) of the `n`th upcoming token that is not
/// whitespace or a comment, counting from 1, or -1 when fewer remain.
pub open spec fn nth_sig_idx(toks: Seq<Token>, n: int) -> int
    decreases toks.len(),
{
    if toks.len() == 0 {
        -1
    } else if is_trivia_kind(toks.last().kind) {
        nth_sig_idx(toks.drop_last(), n)
    } else if n <= 1 {
        toks.len() - 1
    } else {
        nth_sig_idx(toks.drop_last(), n - 1)
    }
}

/// The `n`th-significant-token index is always inside the buffer or -1.
pub proof fn lemma_nth_sig_bounds(toks: Seq<Token>, n: int)
    ensures
        -1 <= nth_sig_idx(toks, n) < toks.len(),
    decreases toks.len(),
{
    if toks.len() > 0 {
        lemma_nth_sig_bounds(toks.drop_last(), n);
        lemma_nth_sig_bounds(toks.drop_last(), n - 1);
    }
}

/// The terminal tag a raw token of each lexical class carries in the
/// tree.
pub open spec fn raw_kind_spec(tk: TokenKind) -> SyntaxKind {
    match tk {
        TokenKind::Whitespace => SyntaxKind::WHITESPACE,
        TokenKind::Comma => SyntaxKind::COMMA,
        TokenKind::Comment => SyntaxKind::COMMENT,
        TokenKind::Ident => SyntaxKind::IDENT,
        TokenKind::Int => SyntaxKind::INT_VALUE,
        TokenKind::Float => SyntaxKind::FLOAT_VALUE,
        TokenKind::StringValue => SyntaxKind::STRING_VALUE,
        TokenKind::Bang => SyntaxKind::BANG,
        TokenKind::Dollar => SyntaxKind::DOLLAR,
        TokenKind::Amp => SyntaxKind::AMP,
        TokenKind::LParen => SyntaxKind::L_PAREN,
        TokenKind::RParen => SyntaxKind::R_PAREN,
        TokenKind::Spread => SyntaxKind::SPREAD,
        TokenKind::Colon => SyntaxKind::COLON,
        TokenKind::Eq => SyntaxKind::EQ,
        TokenKind::At => SyntaxKind::AT,
        TokenKind::LBrack => SyntaxKind::L_BRACK,
        TokenKind::RBrack => SyntaxKind::R_BRACK,
        TokenKind::LCurly => SyntaxKind::L_CURLY,
        TokenKind::Pipe => SyntaxKind::PIPE,
        TokenKind::RCurly => SyntaxKind::R_CURLY,
        TokenKind::Error => SyntaxKind::ERROR,
    }
}

/// The green terminal a raw token becomes when flushed into the tree
/// under its own lexical tag.
pub open spec fn raw_view(t: Token) -> GreenData {
    GreenData::Token { kind: raw_kind_spec(t.kind), text: t.text@ }
}

/// The green terminals of the buffer entries above `stop`, in the order
/// they are popped: last entry first.
pub open spec fn raw_views(toks: Seq<Token>, stop: int) -> Seq<GreenData>
    decreases toks.len(),
    when 0 <= stop
{
    if toks.len() <= stop {
        Seq::empty()
    } else {
        seq![raw_view(toks.last())] + raw_views(toks.drop_last(), stop)
    }
}

/// Lowering `stop` by one appends exactly that entry's terminal.
pub proof fn lemma_raw_views_step(s: Seq<Token>, stop: int)
    requires
        0 <= stop < s.len(),
    ensures
        raw_views(s, stop) == raw_views(s, stop + 1).push(raw_view(s[stop])),
    decreases s.len(),
{
    if stop < s.len() - 1 {
        lemma_raw_views_step(s.drop_last(), stop);
        assert(s.drop_last()[stop] == s[stop]);
        assert((seq![raw_view(s.last())] + raw_views(s.drop_last(), stop + 1)).push(
            raw_view(s[stop]),
        ) =~= seq![raw_view(s.last())] + (raw_views(s.drop_last(), stop + 1).push(
            raw_view(s[stop]),
        )));
    } else {
        assert(raw_views(s.drop_last(), stop) =~= Seq::<GreenData>::empty());
        assert(raw_views(s, stop + 1) =~= Seq::<GreenData>::empty());
        assert(raw_views(s, stop) =~= Seq::<GreenData>::empty().push(raw_view(s[stop])));
    }
}

/// The elements of `raw_views`, element by element: the popped entries'
/// terminals, last entry first.
pub proof fn lemma_raw_views_elts(s: Seq<Token>, stop: int)
    requires
        0 <= stop,
    ensures
        raw_views(s, stop).len() == if s.len() <= stop {
            0int
        } else {
            s.len() - stop
        },
        forall|j: int|
            0 <= j < raw_views(s, stop).len() ==> #[trigger] raw_views(s, stop)[j] == raw_view(
                s[s.len() - 1 - j],
            ),
    decreases s.len(),
{
    if s.len() > stop {
        lemma_raw_views_elts(s.drop_last(), stop);
        assert forall|j: int| 0 <= j < raw_views(s, stop).len() implies #[trigger] raw_views(
            s,
            stop,
        )[j] == raw_view(s[s.len() - 1 - j]) by {
            if j > 0 {
                assert(raw_views(s, stop)[j] == raw_views(s.drop_last(), stop)[j - 1]);
                assert(s.drop_last()[s.len() - 1 - j] == s[s.len() - 1 - j]);
            }
        }
    }
}

/// Everything in the buffer above the next significant token is
/// whitespace or a comment.
pub proof fn lemma_trivia_above_peek(s: Seq<Token>)
    ensures
        forall|j: int|
            nth_sig_idx(s, 1) < j < s.len() ==> is_trivia_kind((#[trigger] s[j]).kind),
    decreases s.len(),
{
    if s.len() > 0 {
        lemma_trivia_above_peek(s.drop_last());
        lemma_nth_sig_bounds(s.drop_last(), 1);
        if is_trivia_kind(s.last().kind) {
            assert forall|j: int| nth_sig_idx(s, 1) < j < s.len() implies is_trivia_kind(
                (#[trigger] s[j]).kind,
            ) by {
                if j < s.len() - 1 {
                    assert(s.drop_last()[j] == s[j]);
                }
            }
        }
    }
}

/// The nonterminal tags a definition may carry: what the document
/// dispatch produces.
pub open spec fn is_definition_kind(k: SyntaxKind) -> bool {
    ||| k == SyntaxKind::OPERATION_DEFINITION
    ||| k == SyntaxKind::FRAGMENT_DEFINITION
    ||| k == SyntaxKind::SCHEMA_DEFINITION
    ||| k == SyntaxKind::DIRECTIVE_DEFINITION
    ||| k == SyntaxKind::SCALAR_TYPE_DEFINITION
    ||| k == SyntaxKind::OBJECT_TYPE_DEFINITION
    ||| k == SyntaxKind::INTERFACE_TYPE_DEFINITION
    ||| k == SyntaxKind::UNION_TYPE_DEFINITION
    ||| k == SyntaxKind::ENUM_TYPE_DEFINITION
    ||| k == SyntaxKind::INPUT_OBJECT_TYPE_DEFINITION
    ||| k == SyntaxKind::SCHEMA_EXTENSION
    ||| k == SyntaxKind::SCALAR_TYPE_EXTENSION
    ||| k == SyntaxKind::OBJECT_TYPE_EXTENSION
    ||| k == SyntaxKind::INTERFACE_TYPE_EXTENSION
    ||| k == SyntaxKind::UNION_TYPE_EXTENSION
    ||| k == SyntaxKind::ENUM_TYPE_EXTENSION
    ||| k == SyntaxKind::INPUT_OBJECT_TYPE_EXTENSION
}

/// What the document may hold directly: definition nodes; any stray
/// terminal stays a terminal.
pub open spec fn doc_entry_ok(g: GreenData) -> bool {
    g is Node ==> is_definition_kind(g.kind())
}

/// What an error-free document holds directly: definition nodes and
/// insignificant separators only.
pub open spec fn clean_doc_entry(g: GreenData) -> bool {
    if g is Node {
        is_definition_kind(g.kind())
    } else {
        ||| g.kind() == SyntaxKind::WHITESPACE
        ||| g.kind() == SyntaxKind::COMMENT
        ||| g.kind() == SyntaxKind::COMMA
    }
}

/// The running guarantee of the document dispatch: every child collected
/// for the document is a definition node or a stray terminal, and while no
/// diagnostic has been added, only definition nodes and insignificant
/// separators.
pub open spec fn doc_entries_ok(pre_errors: Seq<Error>, p: Parser) -> bool {
    &&& forall|i: int| 0 <= i < p.top().len() ==> doc_entry_ok(#[trigger] p.top()[i])
    &&& (p.errors_seq() == pre_errors ==> forall|i: int|
        0 <= i < p.top().len() ==> clean_doc_entry(#[trigger] p.top()[i]))
}

/// Parse text into a lossless syntax tree.
pub struct Parser {
    /// Input tokens, including whitespace, in *reverse* order.
    tokens: Vec<Token>,
    /// The in-progress tree.
    builder: SyntaxTreeBuilder,
    /// The list of syntax errors accumulated so far.
    errors: Vec<Error>,
    /// The length of the source in bytes.
    src_len: u32,
    /// The whole source, as the contracts speak of it.
    input: Ghost<Seq<u8>>,
}

impl Parser {
    /// The remaining tokens, next first at the end.
    pub closed spec fn toks(self) -> Seq<Token> {
        self.tokens@
    }

    /// How many tokens remain.
    pub open spec fn n_tokens(self) -> nat {
        self.toks().len()
    }

    /// The source being parsed.
    pub closed spec fn input_view(self) -> Seq<u8> {
        self.input@
    }

    /// The text already emitted into the tree.
    pub closed spec fn emitted(self) -> Seq<u8> {
        self.builder.text()
    }

    /// The text of the tokens not yet consumed.
    pub open spec fn remaining(self) -> Seq<u8> {
        rev_text(self.toks())
    }

    /// The number of nodes started and not yet finished.
    pub closed spec fn depth(self) -> nat {
        self.builder.depth()
    }

    /// The children collected so far for the innermost open node.
    pub closed spec fn top(self) -> Seq<GreenData> {
        self.builder.top()
    }

    /// How many children the innermost open node has so far.
    pub open spec fn top_len(self) -> nat {
        self.top().len()
    }

    /// The kind of the innermost open node.
    pub closed spec fn top_kind(self) -> SyntaxKind {
        self.builder.top_kind()
    }

    /// The diagnostics accumulated so far.
    pub closed spec fn errors_seq(self) -> Seq<Error> {
        self.errors@
    }

    /// The builder state, for contracts that must name open nodes below
    /// the innermost.
    pub closed spec fn builder_spec(self) -> SyntaxTreeBuilder {
        self.builder
    }

    /// The driver's invariant: the builder is well formed, emitted plus
    /// remaining text is exactly the input, every remaining token lies
    /// inside the source, and every recorded error span does too.
    pub closed spec fn wf(self) -> bool {
        &&& self.builder.wf()
        &&& self.emitted() + self.remaining() == self.input@
        &&& self.src_len == self.input@.len()
        &&& forall|i: int|
            0 <= i < self.toks().len() ==> (#[trigger] self.toks()[i]).wf(self.input@.len() as int)
        &&& errors_wf(self.errors@, self.input@.len() as int)
    }

    /// The index of the next significant token, or -1 at the end.
    pub open spec fn peek_idx(self) -> int {
        nth_sig_idx(self.toks(), 1)
    }

    /// The kind of the next significant token, if any.
    pub open spec fn peek_kind(self) -> Option<TokenKind> {
        if self.peek_idx() >= 0 {
            Some(self.toks()[self.peek_idx()].kind)
        } else {
            None
        }
    }

    /// The keyword classification of the next significant token, if any.
    pub open spec fn peek_kw_spec(self) -> Option<Kw> {
        if self.peek_idx() >= 0 {
            Some(self.toks()[self.peek_idx()].kw)
        } else {
            None
        }
    }
}

/// What every grammar production preserves, comparing the driver before
/// (`pre`) and after (`post`) the call:
/// the invariant holds, the input is the same, the nesting depth is
/// restored (every node started was finished), no tokens reappear, the
/// children already collected for the innermost open node are untouched and
/// at most extended, the nodes below it are untouched, and diagnostics are
/// only appended, in order.
pub open spec fn prod(pre: Parser, post: Parser) -> bool {
    &&& post.wf()
    &&& post.input_view() == pre.input_view()
    &&& post.depth() == pre.depth()
    &&& post.n_tokens() <= pre.n_tokens()
    &&& post.top_len() >= pre.top_len()
    &&& post.top().subrange(0, pre.top_len() as int) == pre.top()
    &&& post.top_kind() == pre.top_kind()
    &&& builder_agree(pre, post)
    &&& pre.errors_seq().is_prefix_of(post.errors_seq())
}

/// A production that consumed at least one token.
pub open spec fn prod1(pre: Parser, post: Parser) -> bool {
    prod(pre, post) && post.n_tokens() < pre.n_tokens()
}

/// The open nodes below the innermost agree between two driver states.
pub closed spec fn builder_agree(pre: Parser, post: Parser) -> bool {
    post.builder.agree_below(pre.builder, pre.depth() - 1)
}

/// The production appended exactly one internal node of the given kind to
/// the innermost open node.
pub open spec fn adds_node(pre: Parser, post: Parser, kind: SyntaxKind) -> bool {
    &&& post.top_len() == pre.top_len() + 1
    &&& post.top().last() is Node
    &&& post.top().last().kind() == kind
}

/// The next significant token is an identifier classified as the given
/// contextual keyword.
pub open spec fn at_kw_spec(p: Parser, kw: Kw) -> bool {
    p.peek_kind() == Some(TokenKind::Ident) && p.peek_kw_spec() == Some(kw)
}

/// `prod` holds from a well-formed state to itself.
pub proof fn lemma_prod_refl(a: Parser)
    requires
        a.wf(),
    ensures
        prod(a, a),
{
    assert(a.top().subrange(0, a.top_len() as int) =~= a.top());
    assert(a.errors_seq().subrange(0, a.errors_seq().len() as int) =~= a.errors_seq());
}

/// Balanced construction: a grammar production returns the builder at the
/// depth it found it, so every node it started it also finished — on every
/// exit path, error recovery included.  `SyntaxTreeBuilder::finish_node`
/// demands an open pair and `finish_root` demands exactly the root left
/// open, so no trace can close a node twice or leave one open.
pub proof fn lemma_balanced_production(pre: Parser, post: Parser)
    requires
        prod(pre, post),
    ensures
        post.depth() == pre.depth(),
{
}

/// `prod` composes: two production steps in sequence are one.
pub broadcast proof fn lemma_prod_trans(a: Parser, b: Parser, c: Parser)
    requires
        #[trigger] prod(a, b),
        #[trigger] prod(b, c),
    ensures
        prod(a, c),
{
    assert(c.top().subrange(0, a.top_len() as int) =~= c.top().subrange(
        0,
        b.top_len() as int,
    ).subrange(0, a.top_len() as int));
    assert(c.errors_seq().subrange(0, a.errors_seq().len() as int) =~= c.errors_seq().subrange(
        0,
        b.errors_seq().len() as int,
    ).subrange(0, a.errors_seq().len() as int));
}

impl Parser {
    /// Map a lexical class to the terminal tag a raw token of that class
    /// carries in the tree.
    pub(crate) fn raw_kind(tk: TokenKind) -> (r: SyntaxKind)
        ensures
            r == raw_kind_spec(tk),
            is_token_kind(r),
    {
        match tk {
            TokenKind::Whitespace => SyntaxKind::WHITESPACE,
            TokenKind::Comma => SyntaxKind::COMMA,
            TokenKind::Comment => SyntaxKind::COMMENT,
            TokenKind::Ident => SyntaxKind::IDENT,
            TokenKind::Int => SyntaxKind::INT_VALUE,
            TokenKind::Float => SyntaxKind::FLOAT_VALUE,
            TokenKind::StringValue => SyntaxKind::STRING_VALUE,
            TokenKind::Bang => SyntaxKind::BANG,
            TokenKind::Dollar => SyntaxKind::DOLLAR,
            TokenKind::Amp => SyntaxKind::AMP,
            TokenKind::LParen => SyntaxKind::L_PAREN,
            TokenKind::RParen => SyntaxKind::R_PAREN,
            TokenKind::Spread => SyntaxKind::SPREAD,
            TokenKind::Colon => SyntaxKind::COLON,
            TokenKind::Eq => SyntaxKind::EQ,
            TokenKind::At => SyntaxKind::AT,
            TokenKind::LBrack => SyntaxKind::L_BRACK,
            TokenKind::RBrack => SyntaxKind::R_BRACK,
            TokenKind::LCurly => SyntaxKind::L_CURLY,
            TokenKind::Pipe => SyntaxKind::PIPE,
            TokenKind::RCurly => SyntaxKind::R_CURLY,
            TokenKind::Error => SyntaxKind::ERROR,
        }
    }

    /// Find the buffer index of the `n`th upcoming significant token.
    fn find_nth(&self, n: usize) -> (r: Option<usize>)
        requires
            n >= 1,
        ensures
            match r {
                Some(i) => nth_sig_idx(self.toks(), n as int) == i && i < self.toks().len(),
                None => nth_sig_idx(self.toks(), n as int) == -1,
            },
    {
        let mut idx = self.tokens.len();
        let mut rem = n;
        proof {
            assert(self.toks().subrange(0, idx as int) =~= self.toks());
        }
        while idx > 0
            invariant
                idx <= self.toks().len(),
                rem >= 1,
                nth_sig_idx(self.toks(), n as int) == nth_sig_idx(
                    self.toks().subrange(0, idx as int),
                    rem as int,
                ),
            decreases idx,
        {
            let t = &self.tokens[idx - 1];
            let trivia = match t.kind {
                TokenKind::Whitespace => true,
                TokenKind::Comment => true,
                _ => false,
            };
            proof {
                let pre = self.toks().subrange(0, idx as int);
                assert(pre.last() == self.toks()[idx - 1]);
                assert(pre.drop_last() =~= self.toks().subrange(0, idx - 1));
            }
            if !trivia {
                if rem == 1 {
                    return Some(idx - 1);
                }
                rem = rem - 1;
            }
            idx = idx - 1;
        }
        proof {
            assert(self.toks().subrange(0, 0) =~= Seq::<Token>::empty());
        }
        None
    }

    /// The kind of the next significant token; `None` at the end of input.
    pub(crate) fn peek(&self) -> (r: Option<TokenKind>)
        ensures
            r == self.peek_kind(),
    {
        match self.find_nth(1) {
            Some(i) => Some(self.tokens[i].kind),
            None => None,
        }
    }

    /// The kind of the `n`th upcoming significant token, counting from 1.
    pub(crate) fn peek_n(&self, n: usize) -> (r: Option<TokenKind>)
        requires
            n >= 1,
        ensures
            match r {
                Some(k) => nth_sig_idx(self.toks(), n as int) >= 0 && k == self.toks()[nth_sig_idx(
                    self.toks(),
                    n as int,
                )].kind,
                None => nth_sig_idx(self.toks(), n as int) == -1,
            },
    {
        match self.find_nth(n) {
            Some(i) => Some(self.tokens[i].kind),
            None => None,
        }
    }

    /// Whether the next significant token has the given lexical class.
    pub(crate) fn at(&self, tk: TokenKind) -> (r: bool)
        ensures
            r == (self.peek_kind() == Some(tk)),
    {
        match self.find_nth(1) {
            Some(i) => self.tokens[i].kind == tk,
            None => false,
        }
    }

    /// The keyword classification of the next significant token.
    pub(crate) fn peek_kw(&self) -> (r: Option<Kw>)
        ensures
            r == self.peek_kw_spec(),
    {
        match self.find_nth(1) {
            Some(i) => Some(self.tokens[i].kw),
            None => None,
        }
    }

    /// The keyword classification of the `n`th upcoming significant token.
    pub(crate) fn peek_kw_n(&self, n: usize) -> (r: Option<Kw>)
        requires
            n >= 1,
        ensures
            match r {
                Some(k) => nth_sig_idx(self.toks(), n as int) >= 0 && k == self.toks()[nth_sig_idx(
                    self.toks(),
                    n as int,
                )].kw,
                None => nth_sig_idx(self.toks(), n as int) == -1,
            },
    {
        match self.find_nth(n) {
            Some(i) => Some(self.tokens[i].kw),
            None => None,
        }
    }

    /// The offset where the next significant token starts, or the end of
    /// the source: where a "missing token" diagnostic points.
    pub(crate) fn cur_offset(&self) -> (r: u32)
        requires
            self.wf(),
        ensures
            r == self.cur_offset_spec(),
            r <= self.input_view().len(),
    {
        match self.find_nth(1) {
            Some(i) => self.tokens[i].offset,
            None => self.src_len,
        }
    }

    /// The length of the next significant token, or zero at the end: with
    /// `cur_offset`, the span an "unexpected token" diagnostic covers.
    pub(crate) fn peek_len(&self) -> (r: u32)
        requires
            self.wf(),
        ensures
            self.cur_offset_spec() + r <= self.input_view().len(),
    {
        match self.find_nth(1) {
            Some(i) => {
                let t = &self.tokens[i];
                proof {
                    assert(self.toks()[i as int].wf(self.input_view().len() as int));
                }
                t.text.len() as u32
            },
            None => 0,
        }
    }

    /// The offset `cur_offset` returns.
    pub open spec fn cur_offset_spec(self) -> int {
        if self.peek_idx() >= 0 {
            self.toks()[self.peek_idx()].offset as int
        } else {
            self.input_view().len() as int
        }
    }

    /// Record a diagnostic without aborting the parse.
    pub(crate) fn push_err(&mut self, err: Error)
        requires
            old(self).wf(),
            err.wf(old(self).input_view().len() as int),
        ensures
            prod(*old(self), *final(self)),
            final(self).n_tokens() == old(self).n_tokens(),
            final(self).toks() == old(self).toks(),
            final(self).top() == old(self).top(),
            final(self).errors_seq() == old(self).errors_seq().push(err),
    {
        let ghost pre = *self;
        self.errors.push(err);
        proof {
            assert(self.top().subrange(0, pre.top_len() as int) =~= pre.top());
            assert(errors_wf(self.errors@, self.input@.len() as int));
            assert(self.errors@.subrange(0, pre.errors_seq().len() as int) =~= pre.errors_seq());
        }
    }

    /// Open a new internal node; the matching `finish_node` closes it.
    pub(crate) fn start_node(&mut self, kind: SyntaxKind)
        requires
            old(self).wf(),
            crate::syntax_kind::is_node_kind(kind),
        ensures
            final(self).wf(),
            final(self).input_view() == old(self).input_view(),
            final(self).depth() == old(self).depth() + 1,
            final(self).n_tokens() == old(self).n_tokens(),
            final(self).toks() == old(self).toks(),
            final(self).top() == Seq::<GreenData>::empty(),
            final(self).top_kind() == kind,
            final(self).errors_seq() == old(self).errors_seq(),
            final(self).builder_spec().agree_below(old(self).builder_spec(), old(self).depth() as int),
    {
        self.builder.start_node(kind);
    }

    /// Close the innermost open node: it becomes one finished child of its
    /// parent.
    pub(crate) fn finish_node(&mut self)
        requires
            old(self).wf(),
            old(self).depth() >= 2,
        ensures
            final(self).wf(),
            final(self).input_view() == old(self).input_view(),
            final(self).depth() == old(self).depth() - 1,
            final(self).n_tokens() == old(self).n_tokens(),
            final(self).toks() == old(self).toks(),
            final(self).top() == old(self).builder_spec().frame_children(old(self).depth() - 2).push(
                GreenData::Node { kind: old(self).top_kind(), children: old(self).top() },
            ),
            final(self).errors_seq() == old(self).errors_seq(),
            final(self).builder_spec().agree_below(old(self).builder_spec(), old(self).depth() - 2),
            final(self).top_kind() == old(self).builder_spec().frame_kind(old(self).depth() - 2),
    {
        self.builder.finish_node();
    }

    /// The number of children the innermost open node has so far: the
    /// checkpoint a later `start_node_at` may wrap from.
    pub(crate) fn checkpoint(&self) -> (r: usize)
        requires
            self.wf(),
            self.depth() >= 1,
        ensures
            r == self.top_len(),
    {
        self.builder.checkpoint()
    }

    /// Open a node that adopts the children collected since `checkpoint`:
    /// used where a later token decides that finished children must become
    /// the head of a wrapping node.
    pub(crate) fn start_node_at(&mut self, checkpoint: usize, kind: SyntaxKind)
        requires
            old(self).wf(),
            old(self).depth() >= 1,
            crate::syntax_kind::is_node_kind(kind),
            checkpoint <= old(self).top_len(),
        ensures
            final(self).wf(),
            final(self).input_view() == old(self).input_view(),
            final(self).depth() == old(self).depth() + 1,
            final(self).n_tokens() == old(self).n_tokens(),
            final(self).toks() == old(self).toks(),
            final(self).top() == old(self).top().subrange(
                checkpoint as int,
                old(self).top_len() as int,
            ),
            final(self).top_kind() == kind,
            final(self).builder_spec().frame_children(old(self).depth() - 1) == old(self).top().subrange(
                0,
                checkpoint as int,
            ),
            final(self).builder_spec().frame_kind(old(self).depth() - 1) == old(self).top_kind(),
            final(self).errors_seq() == old(self).errors_seq(),
            final(self).builder_spec().agree_below(old(self).builder_spec(), old(self).depth() - 1),
    {
        self.builder.start_node_at(checkpoint, kind);
    }

    /// Pop the next raw token (trivia included) and emit it into the tree
    /// under the given terminal tag.
    fn pop_emit(&mut self, kind: SyntaxKind)
        requires
            old(self).wf(),
            old(self).depth() >= 1,
            old(self).n_tokens() > 0,
            is_token_kind(kind),
        ensures
            final(self).wf(),
            final(self).input_view() == old(self).input_view(),
            final(self).depth() == old(self).depth(),
            final(self).n_tokens() == old(self).n_tokens() - 1,
            final(self).toks() == old(self).toks().drop_last(),
            final(self).top() == old(self).top().push(
                GreenData::Token {
                    kind,
                    text: old(self).toks().last().text@,
                },
            ),
            final(self).top_kind() == old(self).top_kind(),
            final(self).errors_seq() == old(self).errors_seq(),
            final(self).builder_spec().agree_below(old(self).builder_spec(), old(self).depth() - 1),
    {
        let ghost pre = *self;
        let t = self.tokens.pop().unwrap();
        let ghost txt = t.text@;
        self.builder.token(kind, t.text);
        proof {
            assert(pre.remaining() == txt + self.remaining());
            assert((pre.emitted() + txt) + self.remaining() =~= pre.emitted() + (txt
                + self.remaining()));
            assert(forall|i: int|
                0 <= i < self.toks().len() ==> (#[trigger] self.toks()[i]).wf(
                    self.input@.len() as int,
                ));
        }
    }

    /// Whether the very next raw token is whitespace or a comment.
    fn next_is_trivia(&self) -> (r: bool)
        requires
            self.n_tokens() > 0,
        ensures
            r == is_trivia_kind(self.toks().last().kind),
    {
        let t = &self.tokens[self.tokens.len() - 1];
        match t.kind {
            TokenKind::Whitespace => true,
            TokenKind::Comment => true,
            _ => false,
        }
    }

    /// Consume the next significant token and emit it into the tree under
    /// the caller-chosen kind, flushing any whitespace and comments before
    /// it into the tree first.
    pub(crate) fn bump(&mut self, kind: SyntaxKind)
        requires
            old(self).wf(),
            old(self).depth() >= 1,
            old(self).peek_kind() is Some,
            is_token_kind(kind),
        ensures
            prod1(*old(self), *final(self)),
            final(self).errors_seq() == old(self).errors_seq(),
            final(self).top_len() > old(self).top_len(),
            final(self).toks() == old(self).toks().subrange(0, old(self).peek_idx()),
            final(self).top() == old(self).top() + raw_views(
                old(self).toks(),
                old(self).peek_idx() + 1,
            ).push(
                GreenData::Token { kind, text: old(self).toks()[old(self).peek_idx()].text@ },
            ),
    {
        let ghost pre = *self;
        proof {
            lemma_nth_sig_bounds(self.toks(), 1);
            assert(self.toks().subrange(0, self.n_tokens() as int) =~= pre.toks());
            assert(raw_views(pre.toks(), pre.n_tokens() as int) =~= Seq::<GreenData>::empty());
            assert(pre.top() + Seq::<GreenData>::empty() =~= pre.top());
        }
        while self.next_is_trivia()
            invariant
                self.wf(),
                self.depth() == pre.depth(),
                self.depth() >= 1,
                self.input_view() == pre.input_view(),
                self.peek_kind() == pre.peek_kind(),
                self.peek_kind() is Some,
                pre.peek_idx() == nth_sig_idx(self.toks(), 1),
                self.n_tokens() <= pre.n_tokens(),
                self.n_tokens() > 0,
                self.toks() == pre.toks().subrange(0, self.n_tokens() as int),
                self.top() == pre.top() + raw_views(pre.toks(), self.n_tokens() as int),
                self.top_kind() == pre.top_kind(),
                self.errors_seq() == pre.errors_seq(),
                builder_agree(pre, *self),
            decreases self.n_tokens(),
        {
            let ghost loop_pre = *self;
            let tk = self.tokens[self.tokens.len() - 1].kind;
            self.pop_emit(Parser::raw_kind(tk));
            proof {
                let cur = loop_pre.n_tokens() as int;
                assert(loop_pre.toks().last() == pre.toks()[cur - 1]);
                assert(is_trivia_kind(loop_pre.toks().last().kind));
                assert(nth_sig_idx(loop_pre.toks(), 1) == nth_sig_idx(
                    loop_pre.toks().drop_last(),
                    1,
                ));
                assert(self.toks() == loop_pre.toks().drop_last());
                assert(self.toks() =~= pre.toks().subrange(0, cur - 1));
                lemma_nth_sig_bounds(self.toks(), 1);
                if self.peek_idx() >= 0 {
                    assert(self.toks()[self.peek_idx()] == loop_pre.toks()[self.peek_idx()]);
                }
                assert(self.peek_kind() == loop_pre.peek_kind());
                assert(self.peek_idx() >= 0);
                assert(self.n_tokens() > 0);
                lemma_raw_views_step(pre.toks(), cur - 1);
                assert((pre.top() + raw_views(pre.toks(), cur)).push(
                    raw_view(pre.toks()[cur - 1]),
                ) =~= pre.top() + raw_views(pre.toks(), cur).push(raw_view(pre.toks()[cur - 1])));
            }
        }
        let ghost before_last = *self;
        self.pop_emit(kind);
        proof {
            let cur = before_last.n_tokens() as int;
            assert(before_last.toks().last() == pre.toks()[cur - 1]);
            assert(!is_trivia_kind(before_last.toks().last().kind));
            assert(nth_sig_idx(before_last.toks(), 1) == cur - 1);
            assert(pre.peek_idx() == cur - 1);
            assert(self.toks() =~= pre.toks().subrange(0, pre.peek_idx()));
            assert((pre.top() + raw_views(pre.toks(), cur)).push(
                GreenData::Token { kind, text: pre.toks()[cur - 1].text@ },
            ) =~= pre.top() + raw_views(pre.toks(), cur).push(
                GreenData::Token { kind, text: pre.toks()[cur - 1].text@ },
            ));
            assert(self.top().subrange(0, pre.top_len() as int) =~= pre.top());
            assert(self.errors_seq().subrange(0, pre.errors_seq().len() as int)
                =~= pre.errors_seq());
        }
    }

    /// Pop the next raw token, whatever it is, and emit it under its own
    /// lexical tag: how unknown or stray tokens stay in the tree.
    pub(crate) fn bump_raw(&mut self)
        requires
            old(self).wf(),
            old(self).depth() >= 1,
            old(self).n_tokens() > 0,
        ensures
            prod1(*old(self), *final(self)),
            final(self).errors_seq() == old(self).errors_seq(),
            final(self).n_tokens() == old(self).n_tokens() - 1,
            final(self).toks() == old(self).toks().drop_last(),
            final(self).top() == old(self).top().push(raw_view(old(self).toks().last())),
    {
        let ghost pre = *self;
        let tk = self.tokens[self.tokens.len() - 1].kind;
        self.pop_emit(Parser::raw_kind(tk));
        proof {
            assert(self.top().subrange(0, pre.top_len() as int) =~= pre.top());
            assert(self.errors_seq().subrange(0, pre.errors_seq().len() as int)
                =~= pre.errors_seq());
        }
    }
}

impl Parser {
    /// Prepare to parse: lex the input and load the tokens, in reverse
    /// order, with the lexical errors first in the diagnostic list.
    ///
    /// The held buffer is the lexer's output: its texts concatenate to the
    /// input, each token sits at the offset its predecessors' texts reach,
    /// each is well shaped for its class, and every `Error`-kind token has
    /// a diagnostic anchored at its span.
    #[verifier::loop_isolation(false)]
    pub fn new(input: &str) -> (r: Parser)
        requires
            input.spec_bytes().len() <= u32::MAX,
        ensures
            r.wf(),
            r.depth() == 0,
            r.input_view() == input.spec_bytes(),
            rev_text(r.toks()) == input.spec_bytes(),
            forall|i: int|
                0 <= i < r.toks().len() ==> (#[trigger] r.toks()[i]).wf(
                    input.spec_bytes().len() as int,
                ) && shape_ok(r.toks()[i].kind, r.toks()[i].text@),
            forall|i: int|
                0 <= i < r.toks().len() ==> (#[trigger] r.toks()[i]).offset == rev_text(
                    r.toks().subrange(i + 1, r.toks().len() as int),
                ).len(),
            errors_wf(r.errors_seq(), input.spec_bytes().len() as int),
            error_tokens_reported(r.toks(), r.errors_seq()),
    {
        let lexer = Lexer::new(input);
        let mut forward = lexer.tokens;
        let errors = lexer.errors;
        let ghost orig = forward@;
        let ghost src = input.spec_bytes();
        let mut tokens: Vec<Token> = Vec::new();
        proof {
            assert(orig.subrange(0, orig.len() as int) =~= orig);
        }
        while forward.len() > 0
            invariant
                forward@.len() <= orig.len(),
                forward@ == orig.subrange(0, forward@.len() as int),
                crate::token::toks_text_upto(orig, forward@.len() as int) + rev_text(tokens@)
                    == crate::token::toks_text(orig),
                forall|i: int|
                    0 <= i < tokens@.len() ==> (#[trigger] tokens@[i]).wf(src.len() as int)
                        && shape_ok(tokens@[i].kind, tokens@[i].text@),
                forall|i: int|
                    0 <= i < tokens@.len() ==> crate::lexer::error_token_reported(
                        errors@,
                        #[trigger] tokens@[i],
                    ),
                forall|i: int|
                    0 <= i < tokens@.len() ==> (#[trigger] tokens@[i]).offset
                        == crate::token::toks_text_upto(orig, forward@.len() as int).len()
                        + rev_text(tokens@.subrange(i + 1, tokens@.len() as int)).len(),
                forall|i: int| 0 <= i < orig.len() ==> (#[trigger] orig[i]).wf(src.len() as int),
            decreases forward@.len(),
        {
            let ghost k = forward@.len() as int;
            let ghost prev = tokens@;
            let ghost fwd_pre = forward@;
            let t = forward.pop().unwrap();
            proof {
                assert(fwd_pre == orig.subrange(0, k));
                assert(t == fwd_pre.last());
                assert(t == orig[k - 1]);
                assert(forward@ =~= orig.subrange(0, k - 1));
            }
            tokens.push(t);
            proof {
                assert(tokens@.last() == t);
                assert(tokens@.drop_last() =~= prev);
                assert(rev_text(tokens@) == t.text@ + rev_text(tokens@.drop_last()));
                let cur = tokens@.len() as int;
                assert(tokens@.subrange(cur, cur) =~= Seq::<Token>::empty());
                assert(t.offset == crate::token::toks_text_upto(orig, k - 1).len());
                assert forall|i: int| 0 <= i < cur - 1 implies (#[trigger] tokens@[i]).offset
                    == crate::token::toks_text_upto(orig, k - 1).len() + rev_text(
                    tokens@.subrange(i + 1, cur),
                ).len() by {
                    let sub = tokens@.subrange(i + 1, cur);
                    assert(sub.last() == t);
                    assert(sub.drop_last() =~= prev.subrange(i + 1, cur - 1));
                    assert(rev_text(sub) == t.text@ + rev_text(prev.subrange(i + 1, cur - 1)));
                    assert(prev[i] == tokens@[i]);
                }
                assert(crate::token::toks_text_upto(orig, k) == crate::token::toks_text_upto(
                    orig,
                    k - 1,
                ) + t.text@);
                assert(crate::token::toks_text_upto(orig, k - 1) + (t.text@ + rev_text(
                    tokens@.drop_last(),
                )) =~= (crate::token::toks_text_upto(orig, k - 1) + t.text@) + rev_text(
                    tokens@.drop_last(),
                ));
            }
        }
        let src_len = input.len() as u32;
        let r = Parser {
            tokens,
            builder: SyntaxTreeBuilder::new(),
            errors,
            src_len,
            input: Ghost(src),
        };
        proof {
            assert(crate::token::toks_text_upto(orig, 0) =~= Seq::<u8>::empty());
            assert(Seq::<u8>::empty() + rev_text(r.toks()) =~= rev_text(r.toks()));
            assert(r.emitted() + r.remaining() =~= src);
        }
        r
    }

    /// Whether any tokens, trivia included, remain unconsumed.
    fn has_tokens(&self) -> (r: bool)
        ensures
            r == (self.n_tokens() > 0),
    {
        self.tokens.len() > 0
    }

    /// Parse the loaded input to completion.
    ///
    /// Definitions are dispatched by their leading token; an unknown
    /// construct is reported once and everything after it stays in the
    /// tree as raw tokens.  The resulting tree is well formed with a
    /// `DOCUMENT` root, the concatenation of its terminal texts is exactly
    /// the input, every diagnostic span lies inside the input, and the
    /// loaded (lexical) diagnostics stay in front of the ones added here.
    /// The document's own children are definition nodes or stray
    /// terminals; when parsing added no diagnostic, they are definition
    /// nodes and insignificant separators only.
    #[verifier::loop_isolation(false)]
    pub fn parse(self) -> (r: SyntaxTree)
        requires
            self.wf(),
            self.depth() == 0,
        ensures
            r.wf(),
            r.root_view().text() == self.input_view(),
            errors_wf(r.errors_seq(), self.input_view().len() as int),
            self.errors_seq().is_prefix_of(r.errors_seq()),
            forall|i: int|
                0 <= i < r.root_view().children().len() ==> doc_entry_ok(
                    #[trigger] r.root_view().children()[i],
                ),
            r.errors_seq() == self.errors_seq() ==> forall|i: int|
                0 <= i < r.root_view().children().len() ==> clean_doc_entry(
                    #[trigger] r.root_view().children()[i],
                ),
    {
        let mut p = self;
        p.start_node(SyntaxKind::DOCUMENT);
        proof {
            lemma_prod_refl(p);
        }
        let ghost q = p;
        loop
            invariant
                prod(q, p),
                doc_entries_ok(q.errors_seq(), p),
            decreases p.n_tokens(),
        {
            let ghost step = p;
            let next = p.peek();
            match next {
                None => {
                    break ;
                },
                Some(TokenKind::LCurly) => operation::operation_definition(&mut p),
                Some(TokenKind::Comma) => p.bump(SyntaxKind::COMMA),
                Some(TokenKind::StringValue) => {
                    match p.peek_kw_n(2) {
                        Some(Kw::Schema) => schema::schema_definition(&mut p),
                        Some(Kw::Scalar) => scalar::scalar_type_definition(&mut p),
                        Some(Kw::Type) => object::object_type_definition(&mut p),
                        Some(Kw::Interface) => interface::interface_type_definition(&mut p),
                        Some(Kw::Union) => union_::union_type_definition(&mut p),
                        Some(Kw::Enum) => enum_::enum_type_definition(&mut p),
                        Some(Kw::Input) => input::input_object_type_definition(&mut p),
                        Some(Kw::Directive) => directive::directive_definition(&mut p),
                        _ => {
                            break ;
                        },
                    }
                },
                Some(TokenKind::Ident) => {
                    match p.peek_kw() {
                        Some(Kw::Query) => operation::operation_definition(&mut p),
                        Some(Kw::Mutation) => operation::operation_definition(&mut p),
                        Some(Kw::Subscription) => operation::operation_definition(&mut p),
                        Some(Kw::Fragment) => fragment::fragment_definition(&mut p),
                        Some(Kw::Schema) => schema::schema_definition(&mut p),
                        Some(Kw::Scalar) => scalar::scalar_type_definition(&mut p),
                        Some(Kw::Type) => object::object_type_definition(&mut p),
                        Some(Kw::Interface) => interface::interface_type_definition(&mut p),
                        Some(Kw::Union) => union_::union_type_definition(&mut p),
                        Some(Kw::Enum) => enum_::enum_type_definition(&mut p),
                        Some(Kw::Input) => input::input_object_type_definition(&mut p),
                        Some(Kw::Directive) => directive::directive_definition(&mut p),
                        Some(Kw::Extend) => {
                            match p.peek_kw_n(2) {
                                Some(Kw::Schema) => schema::schema_extension(&mut p),
                                Some(Kw::Scalar) => scalar::scalar_type_extension(&mut p),
                                Some(Kw::Type) => object::object_type_extension(&mut p),
                                Some(Kw::Interface) => interface::interface_type_extension(&mut p),
                                Some(Kw::Union) => union_::union_type_extension(&mut p),
                                Some(Kw::Enum) => enum_::enum_type_extension(&mut p),
                                Some(Kw::Input) => input::input_object_type_extension(&mut p),
                                _ => {
                                    break ;
                                },
                            }
                        },
                        _ => {
                            break ;
                        },
                    }
                },
                Some(_) => {
                    break ;
                },
            }
            proof {
                lemma_prod_trans(q, step, p);
                if step.peek_kind() == Some(TokenKind::Comma) {
                    lemma_nth_sig_bounds(step.toks(), 1);
                    lemma_raw_views_elts(step.toks(), step.peek_idx() + 1);
                    lemma_trivia_above_peek(step.toks());
                }
                if p.errors_seq() == q.errors_seq() {
                    assert(step.errors_seq() == p.errors_seq().subrange(
                        0,
                        step.errors_seq().len() as int,
                    ));
                    assert(p.errors_seq().subrange(0, p.errors_seq().len() as int)
                        =~= p.errors_seq());
                    assert(step.errors_seq() == q.errors_seq());
                }
                assert forall|i: int| 0 <= i < p.top().len() implies doc_entry_ok(
                    #[trigger] p.top()[i],
                ) && (p.errors_seq() == q.errors_seq() ==> clean_doc_entry(p.top()[i])) by {
                    if i < step.top_len() {
                        assert(p.top()[i] == step.top()[i]);
                    } else if i < p.top().len() - 1 {
                        if step.peek_kind() == Some(TokenKind::Comma) {
                            let rv = raw_views(step.toks(), step.peek_idx() + 1);
                            let j = i - step.top_len();
                            assert(p.top()[i] == rv[j]);
                            assert(rv[j] == raw_view(step.toks()[step.toks().len() - 1 - j]));
                            assert(step.toks().len() - 1 - j > step.peek_idx());
                            assert(is_trivia_kind(
                                step.toks()[step.toks().len() - 1 - j].kind,
                            ));
                        }
                    } else {
                        assert(p.top()[i] == p.top().last());
                    }
                }
            }
        }
        let leftover = match p.peek() {
            Some(_) => true,
            None => false,
        };
        proof {
            lemma_trivia_above_peek(p.toks());
        }
        if leftover {
            let ghost step = p;
            utils::err_at_peek(&mut p, "expected a definition");
            proof {
                lemma_prod_trans(q, step, p);
                assert(p.errors_seq().len() > q.errors_seq().len());
            }
        }
        while p.has_tokens()
            invariant
                prod(q, p),
                doc_entries_ok(q.errors_seq(), p),
                p.errors_seq() == q.errors_seq() ==> forall|j: int|
                    0 <= j < p.toks().len() ==> is_trivia_kind((#[trigger] p.toks()[j]).kind),
            decreases p.n_tokens(),
        {
            let ghost step = p;
            p.bump_raw();
            proof {
                lemma_prod_trans(q, step, p);
                if p.errors_seq() == q.errors_seq() {
                    assert(step.errors_seq() == q.errors_seq());
                    assert(forall|j: int|
                        0 <= j < p.toks().len() ==> step.toks()[j] == #[trigger] p.toks()[j]);
                }
                assert forall|i: int| 0 <= i < p.top().len() implies doc_entry_ok(
                    #[trigger] p.top()[i],
                ) && (p.errors_seq() == q.errors_seq() ==> clean_doc_entry(p.top()[i])) by {
                    if i < step.top_len() {
                        assert(p.top()[i] == step.top()[i]);
                    } else {
                        assert(p.top()[i] == raw_view(step.toks().last()));
                    }
                }
            }
        }
        proof {
            assert(p.remaining() =~= Seq::<u8>::empty());
            assert(p.emitted() + p.remaining() =~= p.emitted());
        }
        let Parser { tokens: _, builder, errors, src_len: _, input: _ } = p;
        let root = builder.finish_root();
        SyntaxTree::from_parts(root, errors)
    }

}

} // verus!
