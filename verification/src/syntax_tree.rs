//! The finished artifact of a parse: an immutable green tree plus the
//! ordered list of diagnostics collected along the way.

use vstd::prelude::*;

use crate::ast::nodes::Document;
use crate::ast::AstNode;
use crate::error::{errors_wf, Error};
use crate::green::{green_text, green_view, Green, GreenData};
use crate::language::SyntaxNode;
use crate::syntax_kind::SyntaxKind;

verus! {

/// A finished parse: the root of the green tree and every diagnostic, in
/// the order encountered.  Immutable after construction.
#[derive(Debug, PartialEq, Eq, Hash)]
pub struct SyntaxTree {
    root: Green,
    errors: Vec<Error>,
}

impl SyntaxTree {
    /// The model of the root node.
    pub closed spec fn root_view(self) -> GreenData {
        green_view(self.root)
    }

    /// The diagnostics, in the order encountered.
    pub closed spec fn errors_seq(self) -> Seq<Error> {
        self.errors@
    }

    /// A well-formed tree: the root is an internal `DOCUMENT` node, every
    /// node below it carries the right class of tag, and every diagnostic
    /// span lies inside the text the tree covers.
    pub open spec fn wf(self) -> bool {
        &&& self.root_view().wf()
        &&& self.root_view().is_node()
        &&& self.root_view().kind() == SyntaxKind::DOCUMENT
        &&& self.root_view().text().len() <= u32::MAX
        &&& errors_wf(self.errors_seq(), self.root_view().text().len() as int)
    }

    /// Assemble a tree from a finished root and the collected diagnostics.
    pub(crate) fn from_parts(root: Green, errors: Vec<Error>) -> (r: SyntaxTree)
        ensures
            r.root_view() == root@,
            r.errors_seq() == errors@,
    {
        SyntaxTree { root, errors }
    }

    /// The diagnostics, in the order encountered.
    pub fn errors(&self) -> (r: &Vec<Error>)
        ensures
            r@ == self.errors_seq(),
    {
        &self.errors
    }

    /// Re-render the tree: the exact text its terminals cover, in order.
    pub fn text(&self) -> (r: Vec<u8>)
        ensures
            r@ == self.root_view().text(),
    {
        green_text(&self.root)
    }

    /// The typed view of the root: every definition of the document hangs
    /// off it.
    pub fn document(&self) -> (r: Document)
        requires
            self.wf(),
        ensures
            r.spec_syntax()@.green == self.root_view(),
            r.spec_syntax()@.offset == 0,
            r.spec_syntax().wf(),
    {
        let green = self.root.clone();
        let node = SyntaxNode::new(green, 0);
        match Document::cast(node) {
            Some(d) => d,
            None => {
                proof {
                    assert(false);
                }
                Document {
                    syntax: SyntaxNode {
                        green: Green::Token { kind: SyntaxKind::ERROR, text: Vec::new() },
                        offset: 0,
                    },
                }
            },
        }
    }

    /// Borrow the root green node.
    pub fn root_green(&self) -> (r: &Green)
        ensures
            r@ == self.root_view(),
    {
        &self.root
    }
}

} // verus!
