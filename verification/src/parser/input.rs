//! Input object type definitions and extensions, and input field lists.

use vstd::prelude::*;

use crate::parser::argument::input_value_definition;
use crate::parser::directive::directives;
use crate::parser::name::name;
use crate::parser::utils::{at_kw, description, eat_commas, err_at_peek, err_here};
use crate::parser::{Parser, adds_node, at_kw_spec, lemma_prod_refl, prod, prod1};
use crate::syntax_kind::SyntaxKind;
use crate::token::{Kw, TokenKind};

verus! {

broadcast use crate::parser::lemma_prod_trans;

/// The braced list of input field definitions.
#[verifier::loop_isolation(false)]
pub(crate) fn input_fields_definition(p: &mut Parser)
    requires
        old(p).wf(),
        old(p).depth() >= 1,
        old(p).peek_kind() == Some(TokenKind::LCurly),
    ensures
        prod1(*old(p), *final(p)),
        adds_node(*old(p), *final(p), SyntaxKind::INPUT_FIELDS_DEFINITION),
{
    let ghost p0 = *p;
    p.start_node(SyntaxKind::INPUT_FIELDS_DEFINITION);
    p.bump(SyntaxKind::L_CURLY);
    let ghost q = *p;
    proof {
        lemma_prod_refl(q);
    }
    loop
        invariant
            prod(q, *p),
        decreases p.n_tokens(),
    {
        eat_commas(p);
        if p.at(TokenKind::RCurly) {
            p.bump(SyntaxKind::R_CURLY);
            break ;
        }
        let elem = if p.at(TokenKind::Ident) {
            true
        } else {
            p.at(TokenKind::StringValue)
        };
        if elem {
            input_value_definition(p);
        } else {
            match p.peek() {
                None => {
                    err_here(p, "expected } to close the input fields");
                    break ;
                },
                _ => {
                    err_at_peek(p, "expected an input field definition");
                    p.bump_raw();
                },
            }
        }
    }
    p.finish_node();
    proof {
        assert(p.top().subrange(0, p0.top_len() as int) =~= p0.top());
    }
}

/// An input object type definition: an optional description, the `input`
/// keyword, a name, optional directives, and optional input fields.
pub(crate) fn input_object_type_definition(p: &mut Parser)
    requires
        old(p).wf(),
        old(p).depth() >= 1,
        old(p).peek_kind() == Some(TokenKind::StringValue) || at_kw_spec(*old(p), Kw::Input),
    ensures
        prod1(*old(p), *final(p)),
        adds_node(*old(p), *final(p), SyntaxKind::INPUT_OBJECT_TYPE_DEFINITION),
{
    let ghost p0 = *p;
    p.start_node(SyntaxKind::INPUT_OBJECT_TYPE_DEFINITION);
    if p.at(TokenKind::StringValue) {
        description(p);
    }
    eat_commas(p);
    if at_kw(p, Kw::Input) {
        p.bump(SyntaxKind::INPUT_KW);
    } else {
        err_here(p, "expected the input keyword");
    }
    eat_commas(p);
    if p.at(TokenKind::Ident) {
        name(p);
    } else {
        err_here(p, "expected a name for the input object type");
    }
    eat_commas(p);
    if p.at(TokenKind::At) {
        directives(p);
    }
    eat_commas(p);
    if p.at(TokenKind::LCurly) {
        input_fields_definition(p);
    }
    p.finish_node();
    proof {
        assert(p.top().subrange(0, p0.top_len() as int) =~= p0.top());
    }
}

/// An input object type extension: `extend input`, a name, and the
/// optional parts of an input object type definition.
pub(crate) fn input_object_type_extension(p: &mut Parser)
    requires
        old(p).wf(),
        old(p).depth() >= 1,
        at_kw_spec(*old(p), Kw::Extend),
    ensures
        prod1(*old(p), *final(p)),
        adds_node(*old(p), *final(p), SyntaxKind::INPUT_OBJECT_TYPE_EXTENSION),
{
    let ghost p0 = *p;
    p.start_node(SyntaxKind::INPUT_OBJECT_TYPE_EXTENSION);
    p.bump(SyntaxKind::EXTEND_KW);
    if at_kw(p, Kw::Input) {
        p.bump(SyntaxKind::INPUT_KW);
    } else {
        err_here(p, "expected the input keyword after extend");
    }
    eat_commas(p);
    if p.at(TokenKind::Ident) {
        name(p);
    } else {
        err_here(p, "expected a name for the input object type extension");
    }
    eat_commas(p);
    if p.at(TokenKind::At) {
        directives(p);
    }
    eat_commas(p);
    if p.at(TokenKind::LCurly) {
        input_fields_definition(p);
    }
    p.finish_node();
    proof {
        assert(p.top().subrange(0, p0.top_len() as int) =~= p0.top());
    }
}

} // verus!
