//! Object type definitions and extensions, and implemented interfaces.

use vstd::prelude::*;

use crate::parser::directive::directives;
use crate::parser::field::fields_definition;
use crate::parser::name::{name, named_type};
use crate::parser::utils::{at_kw, description, eat_commas, err_here};
use crate::parser::{Parser, adds_node, at_kw_spec, prod1};
use crate::syntax_kind::SyntaxKind;
use crate::token::{Kw, TokenKind};

verus! {

broadcast use crate::parser::lemma_prod_trans;

/// The `&`-separated list of implemented interfaces, right-nested: each
/// node holds the `implements` keyword or an ampersand, one named type,
/// and the rest of the list.
pub(crate) fn implements_interfaces(p: &mut Parser)
    requires
        old(p).wf(),
        old(p).depth() >= 1,
        at_kw_spec(*old(p), Kw::Implements) || old(p).peek_kind() == Some(TokenKind::Amp),
    ensures
        prod1(*old(p), *final(p)),
        adds_node(*old(p), *final(p), SyntaxKind::IMPLEMENTS_INTERFACES),
    decreases old(p).n_tokens(),
{
    let ghost p0 = *p;
    p.start_node(SyntaxKind::IMPLEMENTS_INTERFACES);
    if p.at(TokenKind::Amp) {
        p.bump(SyntaxKind::AMP);
    } else {
        p.bump(SyntaxKind::IMPLEMENTS_KW);
    }
    eat_commas(p);
    if p.at(TokenKind::Ident) {
        named_type(p);
    } else {
        err_here(p, "expected an interface name");
    }
    eat_commas(p);
    if p.at(TokenKind::Amp) {
        implements_interfaces(p);
    }
    p.finish_node();
    proof {
        assert(p.top().subrange(0, p0.top_len() as int) =~= p0.top());
    }
}

/// An object type definition: an optional description, the `type`
/// keyword, a name, optional implemented interfaces, optional directives,
/// and an optional fields definition.
pub(crate) fn object_type_definition(p: &mut Parser)
    requires
        old(p).wf(),
        old(p).depth() >= 1,
        old(p).peek_kind() == Some(TokenKind::StringValue) || at_kw_spec(*old(p), Kw::Type),
    ensures
        prod1(*old(p), *final(p)),
        adds_node(*old(p), *final(p), SyntaxKind::OBJECT_TYPE_DEFINITION),
{
    let ghost p0 = *p;
    p.start_node(SyntaxKind::OBJECT_TYPE_DEFINITION);
    if p.at(TokenKind::StringValue) {
        description(p);
    }
    eat_commas(p);
    if at_kw(p, Kw::Type) {
        p.bump(SyntaxKind::TYPE_KW);
    } else {
        err_here(p, "expected the type keyword");
    }
    eat_commas(p);
    if p.at(TokenKind::Ident) {
        name(p);
    } else {
        err_here(p, "expected a name for the object type");
    }
    eat_commas(p);
    if at_kw(p, Kw::Implements) {
        implements_interfaces(p);
    }
    eat_commas(p);
    if p.at(TokenKind::At) {
        directives(p);
    }
    eat_commas(p);
    if p.at(TokenKind::LCurly) {
        fields_definition(p);
    }
    p.finish_node();
    proof {
        assert(p.top().subrange(0, p0.top_len() as int) =~= p0.top());
    }
}

/// An object type extension: `extend type`, a name, and any of the
/// optional parts of an object type definition.
pub(crate) fn object_type_extension(p: &mut Parser)
    requires
        old(p).wf(),
        old(p).depth() >= 1,
        at_kw_spec(*old(p), Kw::Extend),
    ensures
        prod1(*old(p), *final(p)),
        adds_node(*old(p), *final(p), SyntaxKind::OBJECT_TYPE_EXTENSION),
{
    let ghost p0 = *p;
    p.start_node(SyntaxKind::OBJECT_TYPE_EXTENSION);
    p.bump(SyntaxKind::EXTEND_KW);
    if at_kw(p, Kw::Type) {
        p.bump(SyntaxKind::TYPE_KW);
    } else {
        err_here(p, "expected the type keyword after extend");
    }
    eat_commas(p);
    if p.at(TokenKind::Ident) {
        name(p);
    } else {
        err_here(p, "expected a name for the object type extension");
    }
    eat_commas(p);
    if at_kw(p, Kw::Implements) {
        implements_interfaces(p);
    }
    eat_commas(p);
    if p.at(TokenKind::At) {
        directives(p);
    }
    eat_commas(p);
    if p.at(TokenKind::LCurly) {
        fields_definition(p);
    }
    p.finish_node();
    proof {
        assert(p.top().subrange(0, p0.top_len() as int) =~= p0.top());
    }
}

} // verus!
