//! A lossless, error-resilient parser for a schema-and-query definition
//! language describing typed graph APIs.
//!
//! The pipeline is: source text -> lexer -> token stream -> recursive-descent
//! parser -> green-tree builder -> immutable syntax tree with a flat error
//! list.  Every byte of the input, including whitespace and comments, is
//! preserved verbatim in the tree's terminals, and a typed-view layer exposes
//! grammar productions as named accessors over the untyped tree.

pub mod syntax_kind;
pub mod green;
pub mod language;
pub mod ast;
pub mod token;
pub mod error;
pub mod builder;
pub mod lexer;
pub mod parser;
pub mod syntax_tree;

pub use error::Error;
pub use language::{SyntaxNode, SyntaxToken};
pub use lexer::Lexer;
pub use parser::Parser;
pub use syntax_kind::SyntaxKind;
pub use syntax_tree::SyntaxTree;
