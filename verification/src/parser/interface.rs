//! Interface type definitions and extensions.

use vstd::prelude::*;

use crate::parser::directive::directives;
use crate::parser::field::fields_definition;
use crate::parser::name::name;
use crate::parser::utils::{at_kw, description, eat_commas, err_here};
use crate::parser::{Parser, adds_node, at_kw_spec, prod1};
use crate::syntax_kind::SyntaxKind;
use crate::token::{Kw, TokenKind};

verus! {

broadcast use crate::parser::lemma_prod_trans;

/// An interface type definition: an optional description, the
/// `interface` keyword, a name, optional directives, and an optional
/// fields definition.
pub(crate) fn interface_type_definition(p: &mut Parser)
    requires
        old(p).wf(),
        old(p).depth() >= 1,
        old(p).peek_kind() == Some(TokenKind::StringValue) || at_kw_spec(*old(p), Kw::Interface),
    ensures
        prod1(*old(p), *final(p)),
        adds_node(*old(p), *final(p), SyntaxKind::INTERFACE_TYPE_DEFINITION),
{
    let ghost p0 = *p;
    p.start_node(SyntaxKind::INTERFACE_TYPE_DEFINITION);
    if p.at(TokenKind::StringValue) {
        description(p);
    }
    eat_commas(p);
    if at_kw(p, Kw::Interface) {
        p.bump(SyntaxKind::INTERFACE_KW);
    } else {
        err_here(p, "expected the interface keyword");
    }
    eat_commas(p);
    if p.at(TokenKind::Ident) {
        name(p);
    } else {
        err_here(p, "expected a name for the interface type");
    }
    eat_commas(p);
    if p.at(TokenKind::At) {
        directives(p);
    }
    eat_commas(p);
    if p.at(TokenKind::LCurly) {
        fields_definition(p);
    }
    p.finish_node();
    proof {
        assert(p.top().subrange(0, p0.top_len() as int) =~= p0.top());
    }
}

/// An interface type extension: `extend interface`, a name, and the
/// optional parts of an interface type definition.
pub(crate) fn interface_type_extension(p: &mut Parser)
    requires
        old(p).wf(),
        old(p).depth() >= 1,
        at_kw_spec(*old(p), Kw::Extend),
    ensures
        prod1(*old(p), *final(p)),
        adds_node(*old(p), *final(p), SyntaxKind::INTERFACE_TYPE_EXTENSION),
{
    let ghost p0 = *p;
    p.start_node(SyntaxKind::INTERFACE_TYPE_EXTENSION);
    p.bump(SyntaxKind::EXTEND_KW);
    if at_kw(p, Kw::Interface) {
        p.bump(SyntaxKind::INTERFACE_KW);
    } else {
        err_here(p, "expected the interface keyword after extend");
    }
    eat_commas(p);
    if p.at(TokenKind::Ident) {
        name(p);
    } else {
        err_here(p, "expected a name for the interface type extension");
    }
    eat_commas(p);
    if p.at(TokenKind::At) {
        directives(p);
    }
    eat_commas(p);
    if p.at(TokenKind::LCurly) {
        fields_definition(p);
    }
    p.finish_node();
    proof {
        assert(p.top().subrange(0, p0.top_len() as int) =~= p0.top());
    }
}

} // verus!
