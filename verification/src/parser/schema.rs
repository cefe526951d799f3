//! Schema definitions and schema extensions.

use vstd::prelude::*;

use crate::parser::directive::directives;
use crate::parser::name::named_type;
use crate::parser::utils::{at_kw, description, eat_commas, err_at_peek, err_here, expect};
use crate::parser::{Parser, adds_node, at_kw_spec, lemma_prod_refl, prod, prod1};
use crate::syntax_kind::SyntaxKind;
use crate::token::{Kw, TokenKind};

verus! {

broadcast use crate::parser::lemma_prod_trans;

/// One root-operation binding: an operation type, a colon, and the named
/// type serving it.
pub(crate) fn operation_type_definition(p: &mut Parser)
    requires
        old(p).wf(),
        old(p).depth() >= 1,
        old(p).peek_kind() == Some(TokenKind::Ident),
    ensures
        prod1(*old(p), *final(p)),
        adds_node(*old(p), *final(p), SyntaxKind::OPERATION_TYPE_DEFINITION),
{
    let ghost p0 = *p;
    p.start_node(SyntaxKind::OPERATION_TYPE_DEFINITION);
    p.start_node(SyntaxKind::OPERATION_TYPE);
    match p.peek_kw() {
        Some(Kw::Mutation) => p.bump(SyntaxKind::MUTATION_KW),
        Some(Kw::Subscription) => p.bump(SyntaxKind::SUBSCRIPTION_KW),
        Some(Kw::Query) => p.bump(SyntaxKind::QUERY_KW),
        _ => {
            err_at_peek(p, "expected query, mutation or subscription");
            p.bump(SyntaxKind::IDENT);
        },
    }
    p.finish_node();
    expect(p, TokenKind::Colon, SyntaxKind::COLON, "expected : after the operation type");
    if p.at(TokenKind::Ident) {
        named_type(p);
    } else {
        err_here(p, "expected a type name for the root operation");
    }
    p.finish_node();
    proof {
        assert(p.top().subrange(0, p0.top_len() as int) =~= p0.top());
    }
}

/// The braced list of root-operation bindings.
#[verifier::loop_isolation(false)]
pub(crate) fn operation_type_definitions(p: &mut Parser)
    requires
        old(p).wf(),
        old(p).depth() >= 1,
        old(p).peek_kind() == Some(TokenKind::LCurly),
    ensures
        prod1(*old(p), *final(p)),
{
    let ghost p0 = *p;
    p.bump(SyntaxKind::L_CURLY);
    let ghost q = *p;
    proof {
        lemma_prod_refl(q);
    }
    loop
        invariant
            prod(q, *p),
        decreases p.n_tokens(),
    {
        eat_commas(p);
        if p.at(TokenKind::RCurly) {
            p.bump(SyntaxKind::R_CURLY);
            break ;
        }
        if p.at(TokenKind::Ident) {
            operation_type_definition(p);
        } else {
            match p.peek() {
                None => {
                    err_here(p, "expected } to close the schema block");
                    break ;
                },
                _ => {
                    err_at_peek(p, "expected a root operation definition");
                    p.bump_raw();
                },
            }
        }
    }
    proof {
        assert(p.top().subrange(0, p0.top_len() as int) =~= p0.top());
    }
}

/// A schema definition: an optional description, the `schema` keyword,
/// optional directives, and the braced root-operation bindings.
pub(crate) fn schema_definition(p: &mut Parser)
    requires
        old(p).wf(),
        old(p).depth() >= 1,
        old(p).peek_kind() == Some(TokenKind::StringValue) || at_kw_spec(*old(p), Kw::Schema),
    ensures
        prod1(*old(p), *final(p)),
        adds_node(*old(p), *final(p), SyntaxKind::SCHEMA_DEFINITION),
{
    let ghost p0 = *p;
    p.start_node(SyntaxKind::SCHEMA_DEFINITION);
    if p.at(TokenKind::StringValue) {
        description(p);
    }
    eat_commas(p);
    if at_kw(p, Kw::Schema) {
        p.bump(SyntaxKind::SCHEMA_KW);
    } else {
        err_here(p, "expected the schema keyword");
    }
    eat_commas(p);
    if p.at(TokenKind::At) {
        directives(p);
    }
    eat_commas(p);
    if p.at(TokenKind::LCurly) {
        operation_type_definitions(p);
    } else {
        err_here(p, "expected { to open the schema block");
    }
    p.finish_node();
    proof {
        assert(p.top().subrange(0, p0.top_len() as int) =~= p0.top());
    }
}

/// A schema extension: `extend schema`, optional directives, and an
/// optional braced block of root-operation bindings.
pub(crate) fn schema_extension(p: &mut Parser)
    requires
        old(p).wf(),
        old(p).depth() >= 1,
        at_kw_spec(*old(p), Kw::Extend),
    ensures
        prod1(*old(p), *final(p)),
        adds_node(*old(p), *final(p), SyntaxKind::SCHEMA_EXTENSION),
{
    let ghost p0 = *p;
    p.start_node(SyntaxKind::SCHEMA_EXTENSION);
    p.bump(SyntaxKind::EXTEND_KW);
    if at_kw(p, Kw::Schema) {
        p.bump(SyntaxKind::SCHEMA_KW);
    } else {
        err_here(p, "expected the schema keyword after extend");
    }
    eat_commas(p);
    if p.at(TokenKind::At) {
        directives(p);
    }
    eat_commas(p);
    if p.at(TokenKind::LCurly) {
        operation_type_definitions(p);
    }
    p.finish_node();
    proof {
        assert(p.top().subrange(0, p0.top_len() as int) =~= p0.top());
    }
}

} // verus!
