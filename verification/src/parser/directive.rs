//! Directives, directive lists, directive definitions, and directive
//! locations.

use vstd::prelude::*;

use crate::parser::argument::{arguments, arguments_definition};
use crate::parser::name::name;
use crate::parser::utils::{at_kw, description, eat_commas, err_here, expect, expect_kw};
use crate::parser::{Parser, adds_node, at_kw_spec, lemma_prod_refl, prod, prod1};
use crate::syntax_kind::SyntaxKind;
use crate::token::{Kw, TokenKind};

verus! {

broadcast use crate::parser::lemma_prod_trans;

/// One directive: `@`, a name, and optional arguments.
pub(crate) fn directive(p: &mut Parser)
    requires
        old(p).wf(),
        old(p).depth() >= 1,
        old(p).peek_kind() == Some(TokenKind::At),
    ensures
        prod1(*old(p), *final(p)),
        adds_node(*old(p), *final(p), SyntaxKind::DIRECTIVE),
{
    let ghost p0 = *p;
    p.start_node(SyntaxKind::DIRECTIVE);
    p.bump(SyntaxKind::AT);
    if p.at(TokenKind::Ident) {
        name(p);
    } else {
        err_here(p, "expected a directive name after @");
    }
    eat_commas(p);
    if p.at(TokenKind::LParen) {
        arguments(p);
    }
    p.finish_node();
    proof {
        assert(p.top().subrange(0, p0.top_len() as int) =~= p0.top());
    }
}

/// A run of one or more directives.
#[verifier::loop_isolation(false)]
pub(crate) fn directives(p: &mut Parser)
    requires
        old(p).wf(),
        old(p).depth() >= 1,
        old(p).peek_kind() == Some(TokenKind::At),
    ensures
        prod1(*old(p), *final(p)),
        adds_node(*old(p), *final(p), SyntaxKind::DIRECTIVES),
{
    let ghost p0 = *p;
    p.start_node(SyntaxKind::DIRECTIVES);
    directive(p);
    eat_commas(p);
    let ghost q = *p;
    proof {
        lemma_prod_refl(q);
    }
    while p.at(TokenKind::At)
        invariant
            prod(q, *p),
        decreases p.n_tokens(),
    {
        directive(p);
        eat_commas(p);
    }
    p.finish_node();
    proof {
        assert(p.top().subrange(0, p0.top_len() as int) =~= p0.top());
    }
}

/// One directive location, classified by its spelling into an executable
/// or a type-system location.
pub(crate) fn directive_location(p: &mut Parser)
    requires
        old(p).wf(),
        old(p).depth() >= 1,
        old(p).peek_kind() == Some(TokenKind::Ident),
    ensures
        prod1(*old(p), *final(p)),
        adds_node(*old(p), *final(p), SyntaxKind::DIRECTIVE_LOCATION),
{
    let ghost p0 = *p;
    p.start_node(SyntaxKind::DIRECTIVE_LOCATION);
    let kw = p.peek_kw();
    match kw {
        Some(Kw::UpperQuery) => executable_location(p, SyntaxKind::UPPER_QUERY),
        Some(Kw::UpperMutation) => executable_location(p, SyntaxKind::UPPER_MUTATION),
        Some(Kw::UpperSubscription) => executable_location(p, SyntaxKind::UPPER_SUBSCRIPTION),
        Some(Kw::UpperField) => executable_location(p, SyntaxKind::UPPER_FIELD),
        Some(Kw::UpperFragmentDefinition) => executable_location(
            p,
            SyntaxKind::UPPER_FRAGMENT_DEFINITION,
        ),
        Some(Kw::UpperFragmentSpread) => executable_location(p, SyntaxKind::UPPER_FRAGMENT_SPREAD),
        Some(Kw::UpperInlineFragment) => executable_location(p, SyntaxKind::UPPER_INLINE_FRAGMENT),
        Some(Kw::UpperSchema) => type_system_location(p, SyntaxKind::UPPER_SCHEMA),
        Some(Kw::UpperScalar) => type_system_location(p, SyntaxKind::SCALAR_KW),
        Some(Kw::UpperObject) => type_system_location(p, SyntaxKind::UPPER_OBJECT),
        Some(Kw::UpperFieldDefinition) => type_system_location(
            p,
            SyntaxKind::UPPER_FIELD_DEFINITION,
        ),
        Some(Kw::UpperArgumentDefinition) => type_system_location(
            p,
            SyntaxKind::UPPER_ARGUMENT_DEFINITION,
        ),
        Some(Kw::UpperInterface) => type_system_location(p, SyntaxKind::UPPER_INTERFACE),
        Some(Kw::UpperUnion) => type_system_location(p, SyntaxKind::UPPER_UNION),
        Some(Kw::UpperEnum) => type_system_location(p, SyntaxKind::UPPER_ENUM),
        Some(Kw::UpperEnumValue) => type_system_location(p, SyntaxKind::UPPER_ENUM_VALUE),
        Some(Kw::UpperInputObject) => type_system_location(p, SyntaxKind::UPPER_INPUT_OBJECT),
        Some(Kw::UpperInputFieldDefinition) => type_system_location(
            p,
            SyntaxKind::UPPER_INPUT_FIELD_DEFINITION,
        ),
        _ => {
            err_here(p, "expected a directive location");
            p.bump(SyntaxKind::IDENT);
        },
    }
    p.finish_node();
    proof {
        assert(p.top().subrange(0, p0.top_len() as int) =~= p0.top());
    }
}

/// An executable directive location: one classified identifier.
fn executable_location(p: &mut Parser, kind: SyntaxKind)
    requires
        old(p).wf(),
        old(p).depth() >= 1,
        old(p).peek_kind() == Some(TokenKind::Ident),
        crate::syntax_kind::is_token_kind(kind),
    ensures
        prod1(*old(p), *final(p)),
        adds_node(*old(p), *final(p), SyntaxKind::EXECUTABLE_DIRECTIVE_LOCATION),
{
    let ghost p0 = *p;
    p.start_node(SyntaxKind::EXECUTABLE_DIRECTIVE_LOCATION);
    p.bump(kind);
    p.finish_node();
    proof {
        assert(p.top().subrange(0, p0.top_len() as int) =~= p0.top());
    }
}

/// A type-system directive location: one classified identifier.
fn type_system_location(p: &mut Parser, kind: SyntaxKind)
    requires
        old(p).wf(),
        old(p).depth() >= 1,
        old(p).peek_kind() == Some(TokenKind::Ident),
        crate::syntax_kind::is_token_kind(kind),
    ensures
        prod1(*old(p), *final(p)),
        adds_node(*old(p), *final(p), SyntaxKind::TYPE_SYSTEM_DIRECTIVE_LOCATION),
{
    let ghost p0 = *p;
    p.start_node(SyntaxKind::TYPE_SYSTEM_DIRECTIVE_LOCATION);
    p.bump(kind);
    p.finish_node();
    proof {
        assert(p.top().subrange(0, p0.top_len() as int) =~= p0.top());
    }
}

/// The `|`-separated list of directive locations, right-nested: each node
/// holds an optional pipe, one location, and the rest of the list.
pub(crate) fn directive_locations(p: &mut Parser)
    requires
        old(p).wf(),
        old(p).depth() >= 1,
    ensures
        prod(*old(p), *final(p)),
        adds_node(*old(p), *final(p), SyntaxKind::DIRECTIVE_LOCATIONS),
    decreases old(p).n_tokens(),
{
    let ghost p0 = *p;
    p.start_node(SyntaxKind::DIRECTIVE_LOCATIONS);
    eat_commas(p);
    if p.at(TokenKind::Pipe) {
        p.bump(SyntaxKind::PIPE);
    }
    eat_commas(p);
    if p.at(TokenKind::Ident) {
        directive_location(p);
    } else {
        err_here(p, "expected a directive location");
    }
    eat_commas(p);
    if p.at(TokenKind::Pipe) {
        directive_locations(p);
    }
    p.finish_node();
    proof {
        assert(p.top().subrange(0, p0.top_len() as int) =~= p0.top());
    }
}

/// A directive definition: an optional description, the `directive`
/// keyword, `@`, a name, optional argument definitions, `on`, and the
/// directive locations.
pub(crate) fn directive_definition(p: &mut Parser)
    requires
        old(p).wf(),
        old(p).depth() >= 1,
        old(p).peek_kind() == Some(TokenKind::StringValue) || at_kw_spec(*old(p), Kw::Directive),
    ensures
        prod1(*old(p), *final(p)),
        adds_node(*old(p), *final(p), SyntaxKind::DIRECTIVE_DEFINITION),
{
    let ghost p0 = *p;
    p.start_node(SyntaxKind::DIRECTIVE_DEFINITION);
    if p.at(TokenKind::StringValue) {
        description(p);
    }
    if at_kw(p, Kw::Directive) {
        p.bump(SyntaxKind::DIRECTIVE_KW);
    } else {
        err_here(p, "expected the directive keyword");
    }
    expect(p, TokenKind::At, SyntaxKind::AT, "expected @ before the directive name");
    if p.at(TokenKind::Ident) {
        name(p);
    } else {
        err_here(p, "expected a name for the directive definition");
    }
    eat_commas(p);
    if p.at(TokenKind::LParen) {
        arguments_definition(p);
    }
    eat_commas(p);
    expect_kw(p, Kw::On, SyntaxKind::ON_KW, "expected on before the directive locations");
    directive_locations(p);
    p.finish_node();
    proof {
        assert(p.top().subrange(0, p0.top_len() as int) =~= p0.top());
    }
}

} // verus!
