//! The flat enumeration of syntax kinds: every terminal kind (trivia,
//! identifiers, punctuators, literals and contextual keywords) and every
//! nonterminal kind (grammar productions) share one closed enumeration.
//!
//! The literal kinds `INT_VALUE`, `FLOAT_VALUE` and `STRING_VALUE` name both
//! the literal token and the value node that wraps it, so they belong to the
//! terminal tags and the nonterminal tags alike.

use vstd::prelude::*;

verus! {

/// One tag for every terminal and every nonterminal of the grammar.
#[allow(non_camel_case_types)]
#[derive(Clone, Copy, Debug, PartialEq, Eq, Hash, Structural)]
pub enum SyntaxKind {
    WHITESPACE,
    COMMA,
    COMMENT,
    ERROR,
    IDENT,
    BANG,
    DOLLAR,
    AMP,
    L_PAREN,
    R_PAREN,
    SPREAD,
    COLON,
    EQ,
    AT,
    L_BRACK,
    R_BRACK,
    L_CURLY,
    PIPE,
    R_CURLY,
    INT_VALUE,
    FLOAT_VALUE,
    STRING_VALUE,
    QUERY_KW,
    MUTATION_KW,
    SUBSCRIPTION_KW,
    FRAGMENT_KW,
    ON_KW,
    SCHEMA_KW,
    SCALAR_KW,
    TYPE_KW,
    INTERFACE_KW,
    UNION_KW,
    ENUM_KW,
    INPUT_KW,
    EXTEND_KW,
    IMPLEMENTS_KW,
    DIRECTIVE_KW,
    TRUE_KW,
    FALSE_KW,
    NULL_KW,
    UPPER_QUERY,
    UPPER_MUTATION,
    UPPER_SUBSCRIPTION,
    UPPER_FIELD,
    UPPER_FRAGMENT_DEFINITION,
    UPPER_FRAGMENT_SPREAD,
    UPPER_INLINE_FRAGMENT,
    UPPER_SCHEMA,
    UPPER_OBJECT,
    UPPER_FIELD_DEFINITION,
    UPPER_ARGUMENT_DEFINITION,
    UPPER_INTERFACE,
    UPPER_UNION,
    UPPER_ENUM,
    UPPER_ENUM_VALUE,
    UPPER_INPUT_OBJECT,
    UPPER_INPUT_FIELD_DEFINITION,
    NAME,
    DOCUMENT,
    OPERATION_DEFINITION,
    FRAGMENT_DEFINITION,
    OPERATION_TYPE,
    VARIABLE_DEFINITIONS,
    VARIABLE_DEFINITION,
    VARIABLE,
    DIRECTIVES,
    DIRECTIVE,
    SELECTION_SET,
    FIELD,
    FRAGMENT_SPREAD,
    INLINE_FRAGMENT,
    ALIAS,
    ARGUMENTS,
    ARGUMENT,
    FRAGMENT_NAME,
    TYPE_CONDITION,
    NAMED_TYPE,
    BOOLEAN_VALUE,
    NULL_VALUE,
    ENUM_VALUE,
    LIST_VALUE,
    OBJECT_VALUE,
    OBJECT_FIELD,
    DEFAULT_VALUE,
    LIST_TYPE,
    NON_NULL_TYPE,
    SCHEMA_DEFINITION,
    DIRECTIVE_DEFINITION,
    SCHEMA_EXTENSION,
    OPERATION_TYPE_DEFINITION,
    DESCRIPTION,
    SCALAR_TYPE_DEFINITION,
    OBJECT_TYPE_DEFINITION,
    INTERFACE_TYPE_DEFINITION,
    UNION_TYPE_DEFINITION,
    ENUM_TYPE_DEFINITION,
    INPUT_OBJECT_TYPE_DEFINITION,
    SCALAR_TYPE_EXTENSION,
    OBJECT_TYPE_EXTENSION,
    INTERFACE_TYPE_EXTENSION,
    UNION_TYPE_EXTENSION,
    ENUM_TYPE_EXTENSION,
    INPUT_OBJECT_TYPE_EXTENSION,
    IMPLEMENTS_INTERFACES,
    FIELDS_DEFINITION,
    FIELD_DEFINITION,
    ARGUMENTS_DEFINITION,
    INPUT_VALUE_DEFINITION,
    UNION_MEMBER_TYPES,
    ENUM_VALUES_DEFINITION,
    ENUM_VALUE_DEFINITION,
    INPUT_FIELDS_DEFINITION,
    DIRECTIVE_LOCATIONS,
    DIRECTIVE_LOCATION,
    EXECUTABLE_DIRECTIVE_LOCATION,
    TYPE_SYSTEM_DIRECTIVE_LOCATION,
}

/// The terminal tags: kinds a token in the tree may carry.
pub open spec fn is_token_kind(k: SyntaxKind) -> bool {
    match k {
            SyntaxKind::WHITESPACE => true,
            SyntaxKind::COMMA => true,
            SyntaxKind::COMMENT => true,
            SyntaxKind::ERROR => true,
            SyntaxKind::IDENT => true,
            SyntaxKind::BANG => true,
            SyntaxKind::DOLLAR => true,
            SyntaxKind::AMP => true,
            SyntaxKind::L_PAREN => true,
            SyntaxKind::R_PAREN => true,
            SyntaxKind::SPREAD => true,
            SyntaxKind::COLON => true,
            SyntaxKind::EQ => true,
            SyntaxKind::AT => true,
            SyntaxKind::L_BRACK => true,
            SyntaxKind::R_BRACK => true,
            SyntaxKind::L_CURLY => true,
            SyntaxKind::PIPE => true,
            SyntaxKind::R_CURLY => true,
            SyntaxKind::INT_VALUE => true,
            SyntaxKind::FLOAT_VALUE => true,
            SyntaxKind::STRING_VALUE => true,
            SyntaxKind::QUERY_KW => true,
            SyntaxKind::MUTATION_KW => true,
            SyntaxKind::SUBSCRIPTION_KW => true,
            SyntaxKind::FRAGMENT_KW => true,
            SyntaxKind::ON_KW => true,
            SyntaxKind::SCHEMA_KW => true,
            SyntaxKind::SCALAR_KW => true,
            SyntaxKind::TYPE_KW => true,
            SyntaxKind::INTERFACE_KW => true,
            SyntaxKind::UNION_KW => true,
            SyntaxKind::ENUM_KW => true,
            SyntaxKind::INPUT_KW => true,
            SyntaxKind::EXTEND_KW => true,
            SyntaxKind::IMPLEMENTS_KW => true,
            SyntaxKind::DIRECTIVE_KW => true,
            SyntaxKind::TRUE_KW => true,
            SyntaxKind::FALSE_KW => true,
            SyntaxKind::NULL_KW => true,
            SyntaxKind::UPPER_QUERY => true,
            SyntaxKind::UPPER_MUTATION => true,
            SyntaxKind::UPPER_SUBSCRIPTION => true,
            SyntaxKind::UPPER_FIELD => true,
            SyntaxKind::UPPER_FRAGMENT_DEFINITION => true,
            SyntaxKind::UPPER_FRAGMENT_SPREAD => true,
            SyntaxKind::UPPER_INLINE_FRAGMENT => true,
            SyntaxKind::UPPER_SCHEMA => true,
            SyntaxKind::UPPER_OBJECT => true,
            SyntaxKind::UPPER_FIELD_DEFINITION => true,
            SyntaxKind::UPPER_ARGUMENT_DEFINITION => true,
            SyntaxKind::UPPER_INTERFACE => true,
            SyntaxKind::UPPER_UNION => true,
            SyntaxKind::UPPER_ENUM => true,
            SyntaxKind::UPPER_ENUM_VALUE => true,
            SyntaxKind::UPPER_INPUT_OBJECT => true,
            SyntaxKind::UPPER_INPUT_FIELD_DEFINITION => true,
        _ => false,
    }
}

/// The nonterminal tags: kinds an internal node in the tree may carry.
pub open spec fn is_node_kind(k: SyntaxKind) -> bool {
    match k {
            SyntaxKind::NAME => true,
            SyntaxKind::DOCUMENT => true,
            SyntaxKind::OPERATION_DEFINITION => true,
            SyntaxKind::FRAGMENT_DEFINITION => true,
            SyntaxKind::OPERATION_TYPE => true,
            SyntaxKind::VARIABLE_DEFINITIONS => true,
            SyntaxKind::VARIABLE_DEFINITION => true,
            SyntaxKind::VARIABLE => true,
            SyntaxKind::DIRECTIVES => true,
            SyntaxKind::DIRECTIVE => true,
            SyntaxKind::SELECTION_SET => true,
            SyntaxKind::FIELD => true,
            SyntaxKind::FRAGMENT_SPREAD => true,
            SyntaxKind::INLINE_FRAGMENT => true,
            SyntaxKind::ALIAS => true,
            SyntaxKind::ARGUMENTS => true,
            SyntaxKind::ARGUMENT => true,
            SyntaxKind::FRAGMENT_NAME => true,
            SyntaxKind::TYPE_CONDITION => true,
            SyntaxKind::NAMED_TYPE => true,
            SyntaxKind::INT_VALUE => true,
            SyntaxKind::FLOAT_VALUE => true,
            SyntaxKind::STRING_VALUE => true,
            SyntaxKind::BOOLEAN_VALUE => true,
            SyntaxKind::NULL_VALUE => true,
            SyntaxKind::ENUM_VALUE => true,
            SyntaxKind::LIST_VALUE => true,
            SyntaxKind::OBJECT_VALUE => true,
            SyntaxKind::OBJECT_FIELD => true,
            SyntaxKind::DEFAULT_VALUE => true,
            SyntaxKind::LIST_TYPE => true,
            SyntaxKind::NON_NULL_TYPE => true,
            SyntaxKind::SCHEMA_DEFINITION => true,
            SyntaxKind::DIRECTIVE_DEFINITION => true,
            SyntaxKind::SCHEMA_EXTENSION => true,
            SyntaxKind::OPERATION_TYPE_DEFINITION => true,
            SyntaxKind::DESCRIPTION => true,
            SyntaxKind::SCALAR_TYPE_DEFINITION => true,
            SyntaxKind::OBJECT_TYPE_DEFINITION => true,
            SyntaxKind::INTERFACE_TYPE_DEFINITION => true,
            SyntaxKind::UNION_TYPE_DEFINITION => true,
            SyntaxKind::ENUM_TYPE_DEFINITION => true,
            SyntaxKind::INPUT_OBJECT_TYPE_DEFINITION => true,
            SyntaxKind::SCALAR_TYPE_EXTENSION => true,
            SyntaxKind::OBJECT_TYPE_EXTENSION => true,
            SyntaxKind::INTERFACE_TYPE_EXTENSION => true,
            SyntaxKind::UNION_TYPE_EXTENSION => true,
            SyntaxKind::ENUM_TYPE_EXTENSION => true,
            SyntaxKind::INPUT_OBJECT_TYPE_EXTENSION => true,
            SyntaxKind::IMPLEMENTS_INTERFACES => true,
            SyntaxKind::FIELDS_DEFINITION => true,
            SyntaxKind::FIELD_DEFINITION => true,
            SyntaxKind::ARGUMENTS_DEFINITION => true,
            SyntaxKind::INPUT_VALUE_DEFINITION => true,
            SyntaxKind::UNION_MEMBER_TYPES => true,
            SyntaxKind::ENUM_VALUES_DEFINITION => true,
            SyntaxKind::ENUM_VALUE_DEFINITION => true,
            SyntaxKind::INPUT_FIELDS_DEFINITION => true,
            SyntaxKind::DIRECTIVE_LOCATIONS => true,
            SyntaxKind::DIRECTIVE_LOCATION => true,
            SyntaxKind::EXECUTABLE_DIRECTIVE_LOCATION => true,
            SyntaxKind::TYPE_SYSTEM_DIRECTIVE_LOCATION => true,
        _ => false,
    }
}

impl SyntaxKind {
    /// Whether this kind is a terminal tag, as exec code tests it.
    pub fn is_terminal(self) -> (r: bool)
        ensures
            r == is_token_kind(self),
    {
        matches!(
            self,
            SyntaxKind::WHITESPACE
            | SyntaxKind::COMMA
            | SyntaxKind::COMMENT
            | SyntaxKind::ERROR
            | SyntaxKind::IDENT
            | SyntaxKind::BANG
            | SyntaxKind::DOLLAR
            | SyntaxKind::AMP
            | SyntaxKind::L_PAREN
            | SyntaxKind::R_PAREN
            | SyntaxKind::SPREAD
            | SyntaxKind::COLON
            | SyntaxKind::EQ
            | SyntaxKind::AT
            | SyntaxKind::L_BRACK
            | SyntaxKind::R_BRACK
            | SyntaxKind::L_CURLY
            | SyntaxKind::PIPE
            | SyntaxKind::R_CURLY
            | SyntaxKind::INT_VALUE
            | SyntaxKind::FLOAT_VALUE
            | SyntaxKind::STRING_VALUE
            | SyntaxKind::QUERY_KW
            | SyntaxKind::MUTATION_KW
            | SyntaxKind::SUBSCRIPTION_KW
            | SyntaxKind::FRAGMENT_KW
            | SyntaxKind::ON_KW
            | SyntaxKind::SCHEMA_KW
            | SyntaxKind::SCALAR_KW
            | SyntaxKind::TYPE_KW
            | SyntaxKind::INTERFACE_KW
            | SyntaxKind::UNION_KW
            | SyntaxKind::ENUM_KW
            | SyntaxKind::INPUT_KW
            | SyntaxKind::EXTEND_KW
            | SyntaxKind::IMPLEMENTS_KW
            | SyntaxKind::DIRECTIVE_KW
            | SyntaxKind::TRUE_KW
            | SyntaxKind::FALSE_KW
            | SyntaxKind::NULL_KW
            | SyntaxKind::UPPER_QUERY
            | SyntaxKind::UPPER_MUTATION
            | SyntaxKind::UPPER_SUBSCRIPTION
            | SyntaxKind::UPPER_FIELD
            | SyntaxKind::UPPER_FRAGMENT_DEFINITION
            | SyntaxKind::UPPER_FRAGMENT_SPREAD
            | SyntaxKind::UPPER_INLINE_FRAGMENT
            | SyntaxKind::UPPER_SCHEMA
            | SyntaxKind::UPPER_OBJECT
            | SyntaxKind::UPPER_FIELD_DEFINITION
            | SyntaxKind::UPPER_ARGUMENT_DEFINITION
            | SyntaxKind::UPPER_INTERFACE
            | SyntaxKind::UPPER_UNION
            | SyntaxKind::UPPER_ENUM
            | SyntaxKind::UPPER_ENUM_VALUE
            | SyntaxKind::UPPER_INPUT_OBJECT
            | SyntaxKind::UPPER_INPUT_FIELD_DEFINITION
        )
    }

    /// Whether this kind is a nonterminal tag, as exec code tests it.
    pub fn is_nonterminal(self) -> (r: bool)
        ensures
            r == is_node_kind(self),
    {
        matches!(
            self,
            SyntaxKind::NAME
            | SyntaxKind::DOCUMENT
            | SyntaxKind::OPERATION_DEFINITION
            | SyntaxKind::FRAGMENT_DEFINITION
            | SyntaxKind::OPERATION_TYPE
            | SyntaxKind::VARIABLE_DEFINITIONS
            | SyntaxKind::VARIABLE_DEFINITION
            | SyntaxKind::VARIABLE
            | SyntaxKind::DIRECTIVES
            | SyntaxKind::DIRECTIVE
            | SyntaxKind::SELECTION_SET
            | SyntaxKind::FIELD
            | SyntaxKind::FRAGMENT_SPREAD
            | SyntaxKind::INLINE_FRAGMENT
            | SyntaxKind::ALIAS
            | SyntaxKind::ARGUMENTS
            | SyntaxKind::ARGUMENT
            | SyntaxKind::FRAGMENT_NAME
            | SyntaxKind::TYPE_CONDITION
            | SyntaxKind::NAMED_TYPE
            | SyntaxKind::INT_VALUE
            | SyntaxKind::FLOAT_VALUE
            | SyntaxKind::STRING_VALUE
            | SyntaxKind::BOOLEAN_VALUE
            | SyntaxKind::NULL_VALUE
            | SyntaxKind::ENUM_VALUE
            | SyntaxKind::LIST_VALUE
            | SyntaxKind::OBJECT_VALUE
            | SyntaxKind::OBJECT_FIELD
            | SyntaxKind::DEFAULT_VALUE
            | SyntaxKind::LIST_TYPE
            | SyntaxKind::NON_NULL_TYPE
            | SyntaxKind::SCHEMA_DEFINITION
            | SyntaxKind::DIRECTIVE_DEFINITION
            | SyntaxKind::SCHEMA_EXTENSION
            | SyntaxKind::OPERATION_TYPE_DEFINITION
            | SyntaxKind::DESCRIPTION
            | SyntaxKind::SCALAR_TYPE_DEFINITION
            | SyntaxKind::OBJECT_TYPE_DEFINITION
            | SyntaxKind::INTERFACE_TYPE_DEFINITION
            | SyntaxKind::UNION_TYPE_DEFINITION
            | SyntaxKind::ENUM_TYPE_DEFINITION
            | SyntaxKind::INPUT_OBJECT_TYPE_DEFINITION
            | SyntaxKind::SCALAR_TYPE_EXTENSION
            | SyntaxKind::OBJECT_TYPE_EXTENSION
            | SyntaxKind::INTERFACE_TYPE_EXTENSION
            | SyntaxKind::UNION_TYPE_EXTENSION
            | SyntaxKind::ENUM_TYPE_EXTENSION
            | SyntaxKind::INPUT_OBJECT_TYPE_EXTENSION
            | SyntaxKind::IMPLEMENTS_INTERFACES
            | SyntaxKind::FIELDS_DEFINITION
            | SyntaxKind::FIELD_DEFINITION
            | SyntaxKind::ARGUMENTS_DEFINITION
            | SyntaxKind::INPUT_VALUE_DEFINITION
            | SyntaxKind::UNION_MEMBER_TYPES
            | SyntaxKind::ENUM_VALUES_DEFINITION
            | SyntaxKind::ENUM_VALUE_DEFINITION
            | SyntaxKind::INPUT_FIELDS_DEFINITION
            | SyntaxKind::DIRECTIVE_LOCATIONS
            | SyntaxKind::DIRECTIVE_LOCATION
            | SyntaxKind::EXECUTABLE_DIRECTIVE_LOCATION
            | SyntaxKind::TYPE_SYSTEM_DIRECTIVE_LOCATION
        )
    }
}

} // verus!
