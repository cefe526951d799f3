//! Lexer-level tokens: a kind, the exact text covered, and the byte offset
//! where the text starts.  Identifier tokens additionally carry their
//! contextual-keyword classification, computed once from the text.

use vstd::prelude::*;

verus! {

/// The lexical class of a token.
#[derive(Clone, Copy, Debug, PartialEq, Eq, Hash, Structural)]
pub enum TokenKind {
    Whitespace,
    Comma,
    Comment,
    Ident,
    Int,
    Float,
    StringValue,
    Bang,
    Dollar,
    Amp,
    LParen,
    RParen,
    Spread,
    Colon,
    Eq,
    At,
    LBrack,
    RBrack,
    LCurly,
    Pipe,
    RCurly,
    Error,
}

/// The contextual-keyword classification of an identifier's text.
///
/// The lexer always emits `Ident`; the parser decides from the surrounding
/// grammar whether the identifier acts as a keyword, and this classification
/// saves it from comparing text at every call site.
#[derive(Clone, Copy, Debug, PartialEq, Eq, Hash, Structural)]
pub enum Kw {
    Other,
    Query,
    Mutation,
    Subscription,
    Fragment,
    On,
    Schema,
    Scalar,
    Type,
    Interface,
    Union,
    Enum,
    Input,
    Extend,
    Implements,
    Directive,
    True,
    False,
    Null,
    UpperQuery,
    UpperMutation,
    UpperSubscription,
    UpperField,
    UpperFragmentDefinition,
    UpperFragmentSpread,
    UpperInlineFragment,
    UpperSchema,
    UpperScalar,
    UpperObject,
    UpperFieldDefinition,
    UpperArgumentDefinition,
    UpperInterface,
    UpperUnion,
    UpperEnum,
    UpperEnumValue,
    UpperInputObject,
    UpperInputFieldDefinition,
}

/// One token of the source: its lexical class, its exact text, the byte
/// offset where it starts, and its keyword classification.
#[derive(Debug, Clone)]
pub struct Token {
    pub kind: TokenKind,
    pub kw: Kw,
    pub text: Vec<u8>,
    pub offset: u32,
}

impl Token {
    /// A token is well formed for a source of length `src_len` when it is
    /// nonempty, sits inside the source, and, for an identifier, carries the
    /// keyword classification of its own text.
    pub open spec fn wf(self, src_len: int) -> bool {
        &&& self.text@.len() > 0
        &&& self.offset + self.text@.len() <= src_len
        &&& self.kind == TokenKind::Ident ==> self.kw == kw_of(self.text@)
    }

    /// The textual content of the token.
    pub fn data(&self) -> (r: &Vec<u8>)
        ensures
            r@ == self.text@,
    {
        &self.text
    }
}

/// The byte spelling of `query`.
pub open spec fn kw_query() -> Seq<u8> {
    seq![113, 117, 101, 114, 121u8]
}

/// The byte spelling of `mutation`.
pub open spec fn kw_mutation() -> Seq<u8> {
    seq![109, 117, 116, 97, 116, 105, 111, 110u8]
}

/// The byte spelling of `subscription`.
pub open spec fn kw_subscription() -> Seq<u8> {
    seq![115, 117, 98, 115, 99, 114, 105, 112, 116, 105, 111, 110u8]
}

/// The byte spelling of `fragment`.
pub open spec fn kw_fragment() -> Seq<u8> {
    seq![102, 114, 97, 103, 109, 101, 110, 116u8]
}

/// The byte spelling of `on`.
pub open spec fn kw_on() -> Seq<u8> {
    seq![111, 110u8]
}

/// The byte spelling of `schema`.
pub open spec fn kw_schema() -> Seq<u8> {
    seq![115, 99, 104, 101, 109, 97u8]
}

/// The byte spelling of `scalar`.
pub open spec fn kw_scalar() -> Seq<u8> {
    seq![115, 99, 97, 108, 97, 114u8]
}

/// The byte spelling of `type`.
pub open spec fn kw_type() -> Seq<u8> {
    seq![116, 121, 112, 101u8]
}

/// The byte spelling of `interface`.
pub open spec fn kw_interface() -> Seq<u8> {
    seq![105, 110, 116, 101, 114, 102, 97, 99, 101u8]
}

/// The byte spelling of `union`.
pub open spec fn kw_union() -> Seq<u8> {
    seq![117, 110, 105, 111, 110u8]
}

/// The byte spelling of `enum`.
pub open spec fn kw_enum() -> Seq<u8> {
    seq![101, 110, 117, 109u8]
}

/// The byte spelling of `input`.
pub open spec fn kw_input() -> Seq<u8> {
    seq![105, 110, 112, 117, 116u8]
}

/// The byte spelling of `extend`.
pub open spec fn kw_extend() -> Seq<u8> {
    seq![101, 120, 116, 101, 110, 100u8]
}

/// The byte spelling of `implements`.
pub open spec fn kw_implements() -> Seq<u8> {
    seq![105, 109, 112, 108, 101, 109, 101, 110, 116, 115u8]
}

/// The byte spelling of `directive`.
pub open spec fn kw_directive() -> Seq<u8> {
    seq![100, 105, 114, 101, 99, 116, 105, 118, 101u8]
}

/// The byte spelling of `true`.
pub open spec fn kw_true() -> Seq<u8> {
    seq![116, 114, 117, 101u8]
}

/// The byte spelling of `false`.
pub open spec fn kw_false() -> Seq<u8> {
    seq![102, 97, 108, 115, 101u8]
}

/// The byte spelling of `null`.
pub open spec fn kw_null() -> Seq<u8> {
    seq![110, 117, 108, 108u8]
}

/// The byte spelling of `QUERY`.
pub open spec fn kw_u_query() -> Seq<u8> {
    seq![81, 85, 69, 82, 89u8]
}

/// The byte spelling of `MUTATION`.
pub open spec fn kw_u_mutation() -> Seq<u8> {
    seq![77, 85, 84, 65, 84, 73, 79, 78u8]
}

/// The byte spelling of `SUBSCRIPTION`.
pub open spec fn kw_u_subscription() -> Seq<u8> {
    seq![83, 85, 66, 83, 67, 82, 73, 80, 84, 73, 79, 78u8]
}

/// The byte spelling of `FIELD`.
pub open spec fn kw_u_field() -> Seq<u8> {
    seq![70, 73, 69, 76, 68u8]
}

/// The byte spelling of `FRAGMENT_DEFINITION`.
pub open spec fn kw_u_fragment_definition() -> Seq<u8> {
    seq![70, 82, 65, 71, 77, 69, 78, 84, 95, 68, 69, 70, 73, 78, 73, 84, 73, 79, 78u8]
}

/// The byte spelling of `FRAGMENT_SPREAD`.
pub open spec fn kw_u_fragment_spread() -> Seq<u8> {
    seq![70, 82, 65, 71, 77, 69, 78, 84, 95, 83, 80, 82, 69, 65, 68u8]
}

/// The byte spelling of `INLINE_FRAGMENT`.
pub open spec fn kw_u_inline_fragment() -> Seq<u8> {
    seq![73, 78, 76, 73, 78, 69, 95, 70, 82, 65, 71, 77, 69, 78, 84u8]
}

/// The byte spelling of `SCHEMA`.
pub open spec fn kw_u_schema() -> Seq<u8> {
    seq![83, 67, 72, 69, 77, 65u8]
}

/// The byte spelling of `SCALAR`.
pub open spec fn kw_u_scalar() -> Seq<u8> {
    seq![83, 67, 65, 76, 65, 82u8]
}

/// The byte spelling of `OBJECT`.
pub open spec fn kw_u_object() -> Seq<u8> {
    seq![79, 66, 74, 69, 67, 84u8]
}

/// The byte spelling of `FIELD_DEFINITION`.
pub open spec fn kw_u_field_definition() -> Seq<u8> {
    seq![70, 73, 69, 76, 68, 95, 68, 69, 70, 73, 78, 73, 84, 73, 79, 78u8]
}

/// The byte spelling of `ARGUMENT_DEFINITION`.
pub open spec fn kw_u_argument_definition() -> Seq<u8> {
    seq![65, 82, 71, 85, 77, 69, 78, 84, 95, 68, 69, 70, 73, 78, 73, 84, 73, 79, 78u8]
}

/// The byte spelling of `INTERFACE`.
pub open spec fn kw_u_interface() -> Seq<u8> {
    seq![73, 78, 84, 69, 82, 70, 65, 67, 69u8]
}

/// The byte spelling of `UNION`.
pub open spec fn kw_u_union() -> Seq<u8> {
    seq![85, 78, 73, 79, 78u8]
}

/// The byte spelling of `ENUM`.
pub open spec fn kw_u_enum() -> Seq<u8> {
    seq![69, 78, 85, 77u8]
}

/// The byte spelling of `ENUM_VALUE`.
pub open spec fn kw_u_enum_value() -> Seq<u8> {
    seq![69, 78, 85, 77, 95, 86, 65, 76, 85, 69u8]
}

/// The byte spelling of `INPUT_OBJECT`.
pub open spec fn kw_u_input_object() -> Seq<u8> {
    seq![73, 78, 80, 85, 84, 95, 79, 66, 74, 69, 67, 84u8]
}

/// The byte spelling of `INPUT_FIELD_DEFINITION`.
pub open spec fn kw_u_input_field_definition() -> Seq<u8> {
    seq![73, 78, 80, 85, 84, 95, 70, 73, 69, 76, 68, 95, 68, 69, 70, 73, 78, 73, 84, 73, 79, 78u8]
}

pub open spec fn kw_of(t: Seq<u8>) -> Kw {
    if t == kw_query() {
        Kw::Query
    } else
    if t == kw_mutation() {
        Kw::Mutation
    } else
    if t == kw_subscription() {
        Kw::Subscription
    } else
    if t == kw_fragment() {
        Kw::Fragment
    } else
    if t == kw_on() {
        Kw::On
    } else
    if t == kw_schema() {
        Kw::Schema
    } else
    if t == kw_scalar() {
        Kw::Scalar
    } else
    if t == kw_type() {
        Kw::Type
    } else
    if t == kw_interface() {
        Kw::Interface
    } else
    if t == kw_union() {
        Kw::Union
    } else
    if t == kw_enum() {
        Kw::Enum
    } else
    if t == kw_input() {
        Kw::Input
    } else
    if t == kw_extend() {
        Kw::Extend
    } else
    if t == kw_implements() {
        Kw::Implements
    } else
    if t == kw_directive() {
        Kw::Directive
    } else
    if t == kw_true() {
        Kw::True
    } else
    if t == kw_false() {
        Kw::False
    } else
    if t == kw_null() {
        Kw::Null
    } else
    if t == kw_u_query() {
        Kw::UpperQuery
    } else
    if t == kw_u_mutation() {
        Kw::UpperMutation
    } else
    if t == kw_u_subscription() {
        Kw::UpperSubscription
    } else
    if t == kw_u_field() {
        Kw::UpperField
    } else
    if t == kw_u_fragment_definition() {
        Kw::UpperFragmentDefinition
    } else
    if t == kw_u_fragment_spread() {
        Kw::UpperFragmentSpread
    } else
    if t == kw_u_inline_fragment() {
        Kw::UpperInlineFragment
    } else
    if t == kw_u_schema() {
        Kw::UpperSchema
    } else
    if t == kw_u_scalar() {
        Kw::UpperScalar
    } else
    if t == kw_u_object() {
        Kw::UpperObject
    } else
    if t == kw_u_field_definition() {
        Kw::UpperFieldDefinition
    } else
    if t == kw_u_argument_definition() {
        Kw::UpperArgumentDefinition
    } else
    if t == kw_u_interface() {
        Kw::UpperInterface
    } else
    if t == kw_u_union() {
        Kw::UpperUnion
    } else
    if t == kw_u_enum() {
        Kw::UpperEnum
    } else
    if t == kw_u_enum_value() {
        Kw::UpperEnumValue
    } else
    if t == kw_u_input_object() {
        Kw::UpperInputObject
    } else
    if t == kw_u_input_field_definition() {
        Kw::UpperInputFieldDefinition
    } else {
        Kw::Other
    }
}

/// Classify an identifier's text as a contextual keyword, a directive
/// location name, or an ordinary identifier.
pub fn classify_ident(t: &Vec<u8>) -> (r: Kw)
    ensures
        r == kw_of(t@),
{
    if t.len() == 5 && t[0] == 113u8 && t[1] == 117u8 && t[2] == 101u8 && t[3] == 114u8 && t[4] == 121u8 {
        proof { assert(t@ =~= kw_query()); }
        return Kw::Query;
    }
    if t.len() == 8 && t[0] == 109u8 && t[1] == 117u8 && t[2] == 116u8 && t[3] == 97u8 && t[4] == 116u8 && t[5] == 105u8 && t[6] == 111u8 && t[7] == 110u8 {
        proof { assert(t@ =~= kw_mutation()); }
        return Kw::Mutation;
    }
    if t.len() == 12 && t[0] == 115u8 && t[1] == 117u8 && t[2] == 98u8 && t[3] == 115u8 && t[4] == 99u8 && t[5] == 114u8 && t[6] == 105u8 && t[7] == 112u8 && t[8] == 116u8 && t[9] == 105u8 && t[10] == 111u8 && t[11] == 110u8 {
        proof { assert(t@ =~= kw_subscription()); }
        return Kw::Subscription;
    }
    if t.len() == 8 && t[0] == 102u8 && t[1] == 114u8 && t[2] == 97u8 && t[3] == 103u8 && t[4] == 109u8 && t[5] == 101u8 && t[6] == 110u8 && t[7] == 116u8 {
        proof { assert(t@ =~= kw_fragment()); }
        return Kw::Fragment;
    }
    if t.len() == 2 && t[0] == 111u8 && t[1] == 110u8 {
        proof { assert(t@ =~= kw_on()); }
        return Kw::On;
    }
    if t.len() == 6 && t[0] == 115u8 && t[1] == 99u8 && t[2] == 104u8 && t[3] == 101u8 && t[4] == 109u8 && t[5] == 97u8 {
        proof { assert(t@ =~= kw_schema()); }
        return Kw::Schema;
    }
    if t.len() == 6 && t[0] == 115u8 && t[1] == 99u8 && t[2] == 97u8 && t[3] == 108u8 && t[4] == 97u8 && t[5] == 114u8 {
        proof { assert(t@ =~= kw_scalar()); }
        return Kw::Scalar;
    }
    if t.len() == 4 && t[0] == 116u8 && t[1] == 121u8 && t[2] == 112u8 && t[3] == 101u8 {
        proof { assert(t@ =~= kw_type()); }
        return Kw::Type;
    }
    if t.len() == 9 && t[0] == 105u8 && t[1] == 110u8 && t[2] == 116u8 && t[3] == 101u8 && t[4] == 114u8 && t[5] == 102u8 && t[6] == 97u8 && t[7] == 99u8 && t[8] == 101u8 {
        proof { assert(t@ =~= kw_interface()); }
        return Kw::Interface;
    }
    if t.len() == 5 && t[0] == 117u8 && t[1] == 110u8 && t[2] == 105u8 && t[3] == 111u8 && t[4] == 110u8 {
        proof { assert(t@ =~= kw_union()); }
        return Kw::Union;
    }
    if t.len() == 4 && t[0] == 101u8 && t[1] == 110u8 && t[2] == 117u8 && t[3] == 109u8 {
        proof { assert(t@ =~= kw_enum()); }
        return Kw::Enum;
    }
    if t.len() == 5 && t[0] == 105u8 && t[1] == 110u8 && t[2] == 112u8 && t[3] == 117u8 && t[4] == 116u8 {
        proof { assert(t@ =~= kw_input()); }
        return Kw::Input;
    }
    if t.len() == 6 && t[0] == 101u8 && t[1] == 120u8 && t[2] == 116u8 && t[3] == 101u8 && t[4] == 110u8 && t[5] == 100u8 {
        proof { assert(t@ =~= kw_extend()); }
        return Kw::Extend;
    }
    if t.len() == 10 && t[0] == 105u8 && t[1] == 109u8 && t[2] == 112u8 && t[3] == 108u8 && t[4] == 101u8 && t[5] == 109u8 && t[6] == 101u8 && t[7] == 110u8 && t[8] == 116u8 && t[9] == 115u8 {
        proof { assert(t@ =~= kw_implements()); }
        return Kw::Implements;
    }
    if t.len() == 9 && t[0] == 100u8 && t[1] == 105u8 && t[2] == 114u8 && t[3] == 101u8 && t[4] == 99u8 && t[5] == 116u8 && t[6] == 105u8 && t[7] == 118u8 && t[8] == 101u8 {
        proof { assert(t@ =~= kw_directive()); }
        return Kw::Directive;
    }
    if t.len() == 4 && t[0] == 116u8 && t[1] == 114u8 && t[2] == 117u8 && t[3] == 101u8 {
        proof { assert(t@ =~= kw_true()); }
        return Kw::True;
    }
    if t.len() == 5 && t[0] == 102u8 && t[1] == 97u8 && t[2] == 108u8 && t[3] == 115u8 && t[4] == 101u8 {
        proof { assert(t@ =~= kw_false()); }
        return Kw::False;
    }
    if t.len() == 4 && t[0] == 110u8 && t[1] == 117u8 && t[2] == 108u8 && t[3] == 108u8 {
        proof { assert(t@ =~= kw_null()); }
        return Kw::Null;
    }
    if t.len() == 5 && t[0] == 81u8 && t[1] == 85u8 && t[2] == 69u8 && t[3] == 82u8 && t[4] == 89u8 {
        proof { assert(t@ =~= kw_u_query()); }
        return Kw::UpperQuery;
    }
    if t.len() == 8 && t[0] == 77u8 && t[1] == 85u8 && t[2] == 84u8 && t[3] == 65u8 && t[4] == 84u8 && t[5] == 73u8 && t[6] == 79u8 && t[7] == 78u8 {
        proof { assert(t@ =~= kw_u_mutation()); }
        return Kw::UpperMutation;
    }
    if t.len() == 12 && t[0] == 83u8 && t[1] == 85u8 && t[2] == 66u8 && t[3] == 83u8 && t[4] == 67u8 && t[5] == 82u8 && t[6] == 73u8 && t[7] == 80u8 && t[8] == 84u8 && t[9] == 73u8 && t[10] == 79u8 && t[11] == 78u8 {
        proof { assert(t@ =~= kw_u_subscription()); }
        return Kw::UpperSubscription;
    }
    if t.len() == 5 && t[0] == 70u8 && t[1] == 73u8 && t[2] == 69u8 && t[3] == 76u8 && t[4] == 68u8 {
        proof { assert(t@ =~= kw_u_field()); }
        return Kw::UpperField;
    }
    if t.len() == 19 && t[0] == 70u8 && t[1] == 82u8 && t[2] == 65u8 && t[3] == 71u8 && t[4] == 77u8 && t[5] == 69u8 && t[6] == 78u8 && t[7] == 84u8 && t[8] == 95u8 && t[9] == 68u8 && t[10] == 69u8 && t[11] == 70u8 && t[12] == 73u8 && t[13] == 78u8 && t[14] == 73u8 && t[15] == 84u8 && t[16] == 73u8 && t[17] == 79u8 && t[18] == 78u8 {
        proof { assert(t@ =~= kw_u_fragment_definition()); }
        return Kw::UpperFragmentDefinition;
    }
    if t.len() == 15 && t[0] == 70u8 && t[1] == 82u8 && t[2] == 65u8 && t[3] == 71u8 && t[4] == 77u8 && t[5] == 69u8 && t[6] == 78u8 && t[7] == 84u8 && t[8] == 95u8 && t[9] == 83u8 && t[10] == 80u8 && t[11] == 82u8 && t[12] == 69u8 && t[13] == 65u8 && t[14] == 68u8 {
        proof { assert(t@ =~= kw_u_fragment_spread()); }
        return Kw::UpperFragmentSpread;
    }
    if t.len() == 15 && t[0] == 73u8 && t[1] == 78u8 && t[2] == 76u8 && t[3] == 73u8 && t[4] == 78u8 && t[5] == 69u8 && t[6] == 95u8 && t[7] == 70u8 && t[8] == 82u8 && t[9] == 65u8 && t[10] == 71u8 && t[11] == 77u8 && t[12] == 69u8 && t[13] == 78u8 && t[14] == 84u8 {
        proof { assert(t@ =~= kw_u_inline_fragment()); }
        return Kw::UpperInlineFragment;
    }
    if t.len() == 6 && t[0] == 83u8 && t[1] == 67u8 && t[2] == 72u8 && t[3] == 69u8 && t[4] == 77u8 && t[5] == 65u8 {
        proof { assert(t@ =~= kw_u_schema()); }
        return Kw::UpperSchema;
    }
    if t.len() == 6 && t[0] == 83u8 && t[1] == 67u8 && t[2] == 65u8 && t[3] == 76u8 && t[4] == 65u8 && t[5] == 82u8 {
        proof { assert(t@ =~= kw_u_scalar()); }
        return Kw::UpperScalar;
    }
    if t.len() == 6 && t[0] == 79u8 && t[1] == 66u8 && t[2] == 74u8 && t[3] == 69u8 && t[4] == 67u8 && t[5] == 84u8 {
        proof { assert(t@ =~= kw_u_object()); }
        return Kw::UpperObject;
    }
    if t.len() == 16 && t[0] == 70u8 && t[1] == 73u8 && t[2] == 69u8 && t[3] == 76u8 && t[4] == 68u8 && t[5] == 95u8 && t[6] == 68u8 && t[7] == 69u8 && t[8] == 70u8 && t[9] == 73u8 && t[10] == 78u8 && t[11] == 73u8 && t[12] == 84u8 && t[13] == 73u8 && t[14] == 79u8 && t[15] == 78u8 {
        proof { assert(t@ =~= kw_u_field_definition()); }
        return Kw::UpperFieldDefinition;
    }
    if t.len() == 19 && t[0] == 65u8 && t[1] == 82u8 && t[2] == 71u8 && t[3] == 85u8 && t[4] == 77u8 && t[5] == 69u8 && t[6] == 78u8 && t[7] == 84u8 && t[8] == 95u8 && t[9] == 68u8 && t[10] == 69u8 && t[11] == 70u8 && t[12] == 73u8 && t[13] == 78u8 && t[14] == 73u8 && t[15] == 84u8 && t[16] == 73u8 && t[17] == 79u8 && t[18] == 78u8 {
        proof { assert(t@ =~= kw_u_argument_definition()); }
        return Kw::UpperArgumentDefinition;
    }
    if t.len() == 9 && t[0] == 73u8 && t[1] == 78u8 && t[2] == 84u8 && t[3] == 69u8 && t[4] == 82u8 && t[5] == 70u8 && t[6] == 65u8 && t[7] == 67u8 && t[8] == 69u8 {
        proof { assert(t@ =~= kw_u_interface()); }
        return Kw::UpperInterface;
    }
    if t.len() == 5 && t[0] == 85u8 && t[1] == 78u8 && t[2] == 73u8 && t[3] == 79u8 && t[4] == 78u8 {
        proof { assert(t@ =~= kw_u_union()); }
        return Kw::UpperUnion;
    }
    if t.len() == 4 && t[0] == 69u8 && t[1] == 78u8 && t[2] == 85u8 && t[3] == 77u8 {
        proof { assert(t@ =~= kw_u_enum()); }
        return Kw::UpperEnum;
    }
    if t.len() == 10 && t[0] == 69u8 && t[1] == 78u8 && t[2] == 85u8 && t[3] == 77u8 && t[4] == 95u8 && t[5] == 86u8 && t[6] == 65u8 && t[7] == 76u8 && t[8] == 85u8 && t[9] == 69u8 {
        proof { assert(t@ =~= kw_u_enum_value()); }
        return Kw::UpperEnumValue;
    }
    if t.len() == 12 && t[0] == 73u8 && t[1] == 78u8 && t[2] == 80u8 && t[3] == 85u8 && t[4] == 84u8 && t[5] == 95u8 && t[6] == 79u8 && t[7] == 66u8 && t[8] == 74u8 && t[9] == 69u8 && t[10] == 67u8 && t[11] == 84u8 {
        proof { assert(t@ =~= kw_u_input_object()); }
        return Kw::UpperInputObject;
    }
    if t.len() == 22 && t[0] == 73u8 && t[1] == 78u8 && t[2] == 80u8 && t[3] == 85u8 && t[4] == 84u8 && t[5] == 95u8 && t[6] == 70u8 && t[7] == 73u8 && t[8] == 69u8 && t[9] == 76u8 && t[10] == 68u8 && t[11] == 95u8 && t[12] == 68u8 && t[13] == 69u8 && t[14] == 70u8 && t[15] == 73u8 && t[16] == 78u8 && t[17] == 73u8 && t[18] == 84u8 && t[19] == 73u8 && t[20] == 79u8 && t[21] == 78u8 {
        proof { assert(t@ =~= kw_u_input_field_definition()); }
        return Kw::UpperInputFieldDefinition;
    }
    proof {
        assert(t@ != kw_query());
        assert(t@ != kw_mutation());
        assert(t@ != kw_subscription());
        assert(t@ != kw_fragment());
        assert(t@ != kw_on());
        assert(t@ != kw_schema());
        assert(t@ != kw_scalar());
        assert(t@ != kw_type());
        assert(t@ != kw_interface());
        assert(t@ != kw_union());
        assert(t@ != kw_enum());
        assert(t@ != kw_input());
        assert(t@ != kw_extend());
        assert(t@ != kw_implements());
        assert(t@ != kw_directive());
        assert(t@ != kw_true());
        assert(t@ != kw_false());
        assert(t@ != kw_null());
        assert(t@ != kw_u_query());
        assert(t@ != kw_u_mutation());
        assert(t@ != kw_u_subscription());
        assert(t@ != kw_u_field());
        assert(t@ != kw_u_fragment_definition());
        assert(t@ != kw_u_fragment_spread());
        assert(t@ != kw_u_inline_fragment());
        assert(t@ != kw_u_schema());
        assert(t@ != kw_u_scalar());
        assert(t@ != kw_u_object());
        assert(t@ != kw_u_field_definition());
        assert(t@ != kw_u_argument_definition());
        assert(t@ != kw_u_interface());
        assert(t@ != kw_u_union());
        assert(t@ != kw_u_enum());
        assert(t@ != kw_u_enum_value());
        assert(t@ != kw_u_input_object());
        assert(t@ != kw_u_input_field_definition());
    }
    Kw::Other
}

/// The concatenated text of the first `n` tokens of a stream, in stream
/// order.
pub open spec fn toks_text_upto(toks: Seq<Token>, n: int) -> Seq<u8>
    decreases n,
{
    if n <= 0 {
        Seq::empty()
    } else {
        toks_text_upto(toks, n - 1) + toks[n - 1].text@
    }
}

/// The concatenated text of a whole token stream.
pub open spec fn toks_text(toks: Seq<Token>) -> Seq<u8> {
    toks_text_upto(toks, toks.len() as int)
}

/// A token stream covers a source exactly: concatenating the texts
/// reproduces the source, and each token's offset is the length of the text
/// before it.
pub open spec fn toks_cover(toks: Seq<Token>, src: Seq<u8>) -> bool {
    &&& toks_text(toks) == src
    &&& forall|i: int|
        0 <= i < toks.len() ==> (#[trigger] toks[i].offset) == toks_text_upto(toks, i).len()
}

/// Appending a token extends the covered text by exactly its text.
pub proof fn lemma_toks_text_push(toks: Seq<Token>, t: Token)
    ensures
        toks_text(toks.push(t)) == toks_text(toks) + t.text@,
{
    let s = toks.push(t);
    assert(s[s.len() - 1] == t);
    lemma_toks_text_unchanged(toks, s, toks.len() as int);
}

/// `toks_text_upto` only looks at the first `n` tokens.
pub proof fn lemma_toks_text_unchanged(a: Seq<Token>, b: Seq<Token>, n: int)
    requires
        0 <= n,
        n <= a.len(),
        n <= b.len(),
        forall|i: int| 0 <= i < n ==> a[i] == b[i],
    ensures
        toks_text_upto(a, n) == toks_text_upto(b, n),
    decreases n,
{
    if n > 0 {
        lemma_toks_text_unchanged(a, b, n - 1);
    }
}

} // verus!
