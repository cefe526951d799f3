//! Typed views over the untyped tree.
//!
//! For each nonterminal the grammar produces, a value-typed wrapper over a
//! red node of that kind offers one accessor per grammar child and per
//! grammar token.  Sum nonterminals are tagged unions over the concrete
//! wrappers.  Because the tree tolerates missing children after error
//! recovery, every accessor returns an option.

use vstd::prelude::*;

use crate::language::SyntaxNode;
use crate::syntax_kind::SyntaxKind;

pub mod nodes;
pub mod support;

verus! {

/// A typed view over a red node.
///
/// Casting succeeds exactly when the node's kind is one the view accepts:
/// for a concrete view, the single matching nonterminal tag; for a sum
/// view, any of its variants' tags.
pub trait AstNode: Sized {
    /// The kinds this view accepts.
    spec fn spec_can_cast(kind: SyntaxKind) -> bool;

    /// The red node under this view.
    spec fn spec_syntax(self) -> SyntaxNode;

    /// Whether a node of the given kind can be seen through this view.
    fn can_cast(kind: SyntaxKind) -> (r: bool)
        ensures
            r == Self::spec_can_cast(kind),
    ;

    /// See the given node through this view, or nothing when its kind
    /// does not fit.
    fn cast(syntax: SyntaxNode) -> (r: Option<Self>)
        ensures
            r is Some <==> Self::spec_can_cast(syntax@.green.kind()),
            r is Some ==> r->0.spec_syntax() == syntax,
    ;

    /// The red node under this view.
    fn syntax(&self) -> (r: &SyntaxNode)
        ensures
            *r == self.spec_syntax(),
    ;
}

/// The exact source text a typed view's subtree covers: concatenating the
/// rendered texts of a document's definitions reproduces the input.
pub fn node_text<N: AstNode>(n: &N) -> (r: Vec<u8>)
    ensures
        r@ == n.spec_syntax()@.green.text(),
{
    n.syntax().text()
}

} // verus!
