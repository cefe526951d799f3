//! The catalogue of typed views: one value-typed wrapper per nonterminal,
//! with one accessor per grammar child and per grammar token, and one
//! tagged union per sum nonterminal.

use vstd::prelude::*;

use crate::ast::support;
use crate::ast::AstNode;
use crate::language::{SyntaxNode, SyntaxToken};
use crate::syntax_kind::SyntaxKind;

verus! {

#[derive(Debug, PartialEq, Eq, Hash)]
pub struct Name {
    pub(crate) syntax: SyntaxNode,
}

impl AstNode for Name {
    open spec fn spec_can_cast(kind: SyntaxKind) -> bool {
        kind == SyntaxKind::NAME
    }

    closed spec fn spec_syntax(self) -> SyntaxNode {
        self.syntax
    }

    fn can_cast(kind: SyntaxKind) -> (r: bool) {
        kind == SyntaxKind::NAME
    }

    fn cast(syntax: SyntaxNode) -> (r: Option<Self>) {
        if syntax.kind() == SyntaxKind::NAME {
            Some(Name { syntax })
        } else {
            None
        }
    }

    fn syntax(&self) -> (r: &SyntaxNode) {
        &self.syntax
    }
}

impl Name {
    pub fn ident_token(&self) -> (r: Option<SyntaxToken>)
        requires
            self.spec_syntax().wf(),
        ensures
            support::token_post(self.spec_syntax(), SyntaxKind::IDENT, r),
    {
        support::token(&self.syntax, SyntaxKind::IDENT)
    }
}

#[derive(Debug, PartialEq, Eq, Hash)]
pub struct Document {
    pub(crate) syntax: SyntaxNode,
}

impl AstNode for Document {
    open spec fn spec_can_cast(kind: SyntaxKind) -> bool {
        kind == SyntaxKind::DOCUMENT
    }

    closed spec fn spec_syntax(self) -> SyntaxNode {
        self.syntax
    }

    fn can_cast(kind: SyntaxKind) -> (r: bool) {
        kind == SyntaxKind::DOCUMENT
    }

    fn cast(syntax: SyntaxNode) -> (r: Option<Self>) {
        if syntax.kind() == SyntaxKind::DOCUMENT {
            Some(Document { syntax })
        } else {
            None
        }
    }

    fn syntax(&self) -> (r: &SyntaxNode) {
        &self.syntax
    }
}

impl Document {
    pub fn definitions(&self) -> (r: Vec<Definition>)
        requires
            self.spec_syntax().wf(),
        ensures
            support::children_post::<Definition>(self.spec_syntax(), r@),
    {
        support::children(&self.syntax)
    }
}

#[derive(Debug, PartialEq, Eq, Hash)]
pub struct OperationDefinition {
    pub(crate) syntax: SyntaxNode,
}

impl AstNode for OperationDefinition {
    open spec fn spec_can_cast(kind: SyntaxKind) -> bool {
        kind == SyntaxKind::OPERATION_DEFINITION
    }

    closed spec fn spec_syntax(self) -> SyntaxNode {
        self.syntax
    }

    fn can_cast(kind: SyntaxKind) -> (r: bool) {
        kind == SyntaxKind::OPERATION_DEFINITION
    }

    fn cast(syntax: SyntaxNode) -> (r: Option<Self>) {
        if syntax.kind() == SyntaxKind::OPERATION_DEFINITION {
            Some(OperationDefinition { syntax })
        } else {
            None
        }
    }

    fn syntax(&self) -> (r: &SyntaxNode) {
        &self.syntax
    }
}

impl OperationDefinition {
    pub fn operation_type(&self) -> (r: Option<OperationType>)
        requires
            self.spec_syntax().wf(),
        ensures
            support::child_post::<OperationType>(self.spec_syntax(), r),
    {
        support::child(&self.syntax)
    }

    pub fn name(&self) -> (r: Option<Name>)
        requires
            self.spec_syntax().wf(),
        ensures
            support::child_post::<Name>(self.spec_syntax(), r),
    {
        support::child(&self.syntax)
    }

    pub fn variable_definitions(&self) -> (r: Option<VariableDefinitions>)
        requires
            self.spec_syntax().wf(),
        ensures
            support::child_post::<VariableDefinitions>(self.spec_syntax(), r),
    {
        support::child(&self.syntax)
    }

    pub fn directives(&self) -> (r: Option<Directives>)
        requires
            self.spec_syntax().wf(),
        ensures
            support::child_post::<Directives>(self.spec_syntax(), r),
    {
        support::child(&self.syntax)
    }

    pub fn selection_set(&self) -> (r: Option<SelectionSet>)
        requires
            self.spec_syntax().wf(),
        ensures
            support::child_post::<SelectionSet>(self.spec_syntax(), r),
    {
        support::child(&self.syntax)
    }
}

#[derive(Debug, PartialEq, Eq, Hash)]
pub struct FragmentDefinition {
    pub(crate) syntax: SyntaxNode,
}

impl AstNode for FragmentDefinition {
    open spec fn spec_can_cast(kind: SyntaxKind) -> bool {
        kind == SyntaxKind::FRAGMENT_DEFINITION
    }

    closed spec fn spec_syntax(self) -> SyntaxNode {
        self.syntax
    }

    fn can_cast(kind: SyntaxKind) -> (r: bool) {
        kind == SyntaxKind::FRAGMENT_DEFINITION
    }

    fn cast(syntax: SyntaxNode) -> (r: Option<Self>) {
        if syntax.kind() == SyntaxKind::FRAGMENT_DEFINITION {
            Some(FragmentDefinition { syntax })
        } else {
            None
        }
    }

    fn syntax(&self) -> (r: &SyntaxNode) {
        &self.syntax
    }
}

impl FragmentDefinition {
    pub fn fragment_token(&self) -> (r: Option<SyntaxToken>)
        requires
            self.spec_syntax().wf(),
        ensures
            support::token_post(self.spec_syntax(), SyntaxKind::FRAGMENT_KW, r),
    {
        support::token(&self.syntax, SyntaxKind::FRAGMENT_KW)
    }

    pub fn fragment_name(&self) -> (r: Option<FragmentName>)
        requires
            self.spec_syntax().wf(),
        ensures
            support::child_post::<FragmentName>(self.spec_syntax(), r),
    {
        support::child(&self.syntax)
    }

    pub fn type_condition(&self) -> (r: Option<TypeCondition>)
        requires
            self.spec_syntax().wf(),
        ensures
            support::child_post::<TypeCondition>(self.spec_syntax(), r),
    {
        support::child(&self.syntax)
    }

    pub fn directives(&self) -> (r: Option<Directives>)
        requires
            self.spec_syntax().wf(),
        ensures
            support::child_post::<Directives>(self.spec_syntax(), r),
    {
        support::child(&self.syntax)
    }

    pub fn selection_set(&self) -> (r: Option<SelectionSet>)
        requires
            self.spec_syntax().wf(),
        ensures
            support::child_post::<SelectionSet>(self.spec_syntax(), r),
    {
        support::child(&self.syntax)
    }
}

#[derive(Debug, PartialEq, Eq, Hash)]
pub struct OperationType {
    pub(crate) syntax: SyntaxNode,
}

impl AstNode for OperationType {
    open spec fn spec_can_cast(kind: SyntaxKind) -> bool {
        kind == SyntaxKind::OPERATION_TYPE
    }

    closed spec fn spec_syntax(self) -> SyntaxNode {
        self.syntax
    }

    fn can_cast(kind: SyntaxKind) -> (r: bool) {
        kind == SyntaxKind::OPERATION_TYPE
    }

    fn cast(syntax: SyntaxNode) -> (r: Option<Self>) {
        if syntax.kind() == SyntaxKind::OPERATION_TYPE {
            Some(OperationType { syntax })
        } else {
            None
        }
    }

    fn syntax(&self) -> (r: &SyntaxNode) {
        &self.syntax
    }
}

impl OperationType {
    pub fn query_token(&self) -> (r: Option<SyntaxToken>)
        requires
            self.spec_syntax().wf(),
        ensures
            support::token_post(self.spec_syntax(), SyntaxKind::QUERY_KW, r),
    {
        support::token(&self.syntax, SyntaxKind::QUERY_KW)
    }

    pub fn mutation_token(&self) -> (r: Option<SyntaxToken>)
        requires
            self.spec_syntax().wf(),
        ensures
            support::token_post(self.spec_syntax(), SyntaxKind::MUTATION_KW, r),
    {
        support::token(&self.syntax, SyntaxKind::MUTATION_KW)
    }

    pub fn subscription_token(&self) -> (r: Option<SyntaxToken>)
        requires
            self.spec_syntax().wf(),
        ensures
            support::token_post(self.spec_syntax(), SyntaxKind::SUBSCRIPTION_KW, r),
    {
        support::token(&self.syntax, SyntaxKind::SUBSCRIPTION_KW)
    }
}

#[derive(Debug, PartialEq, Eq, Hash)]
pub struct VariableDefinitions {
    pub(crate) syntax: SyntaxNode,
}

impl AstNode for VariableDefinitions {
    open spec fn spec_can_cast(kind: SyntaxKind) -> bool {
        kind == SyntaxKind::VARIABLE_DEFINITIONS
    }

    closed spec fn spec_syntax(self) -> SyntaxNode {
        self.syntax
    }

    fn can_cast(kind: SyntaxKind) -> (r: bool) {
        kind == SyntaxKind::VARIABLE_DEFINITIONS
    }

    fn cast(syntax: SyntaxNode) -> (r: Option<Self>) {
        if syntax.kind() == SyntaxKind::VARIABLE_DEFINITIONS {
            Some(VariableDefinitions { syntax })
        } else {
            None
        }
    }

    fn syntax(&self) -> (r: &SyntaxNode) {
        &self.syntax
    }
}

impl VariableDefinitions {
    pub fn l_paren_token(&self) -> (r: Option<SyntaxToken>)
        requires
            self.spec_syntax().wf(),
        ensures
            support::token_post(self.spec_syntax(), SyntaxKind::L_PAREN, r),
    {
        support::token(&self.syntax, SyntaxKind::L_PAREN)
    }

    pub fn variable_definitions(&self) -> (r: Vec<VariableDefinition>)
        requires
            self.spec_syntax().wf(),
        ensures
            support::children_post::<VariableDefinition>(self.spec_syntax(), r@),
    {
        support::children(&self.syntax)
    }

    pub fn r_paren_token(&self) -> (r: Option<SyntaxToken>)
        requires
            self.spec_syntax().wf(),
        ensures
            support::token_post(self.spec_syntax(), SyntaxKind::R_PAREN, r),
    {
        support::token(&self.syntax, SyntaxKind::R_PAREN)
    }
}

#[derive(Debug, PartialEq, Eq, Hash)]
pub struct Directives {
    pub(crate) syntax: SyntaxNode,
}

impl AstNode for Directives {
    open spec fn spec_can_cast(kind: SyntaxKind) -> bool {
        kind == SyntaxKind::DIRECTIVES
    }

    closed spec fn spec_syntax(self) -> SyntaxNode {
        self.syntax
    }

    fn can_cast(kind: SyntaxKind) -> (r: bool) {
        kind == SyntaxKind::DIRECTIVES
    }

    fn cast(syntax: SyntaxNode) -> (r: Option<Self>) {
        if syntax.kind() == SyntaxKind::DIRECTIVES {
            Some(Directives { syntax })
        } else {
            None
        }
    }

    fn syntax(&self) -> (r: &SyntaxNode) {
        &self.syntax
    }
}

impl Directives {
    pub fn directives(&self) -> (r: Vec<Directive>)
        requires
            self.spec_syntax().wf(),
        ensures
            support::children_post::<Directive>(self.spec_syntax(), r@),
    {
        support::children(&self.syntax)
    }
}

#[derive(Debug, PartialEq, Eq, Hash)]
pub struct SelectionSet {
    pub(crate) syntax: SyntaxNode,
}

impl AstNode for SelectionSet {
    open spec fn spec_can_cast(kind: SyntaxKind) -> bool {
        kind == SyntaxKind::SELECTION_SET
    }

    closed spec fn spec_syntax(self) -> SyntaxNode {
        self.syntax
    }

    fn can_cast(kind: SyntaxKind) -> (r: bool) {
        kind == SyntaxKind::SELECTION_SET
    }

    fn cast(syntax: SyntaxNode) -> (r: Option<Self>) {
        if syntax.kind() == SyntaxKind::SELECTION_SET {
            Some(SelectionSet { syntax })
        } else {
            None
        }
    }

    fn syntax(&self) -> (r: &SyntaxNode) {
        &self.syntax
    }
}

impl SelectionSet {
    pub fn l_curly_token(&self) -> (r: Option<SyntaxToken>)
        requires
            self.spec_syntax().wf(),
        ensures
            support::token_post(self.spec_syntax(), SyntaxKind::L_CURLY, r),
    {
        support::token(&self.syntax, SyntaxKind::L_CURLY)
    }

    pub fn selections(&self) -> (r: Vec<Selection>)
        requires
            self.spec_syntax().wf(),
        ensures
            support::children_post::<Selection>(self.spec_syntax(), r@),
    {
        support::children(&self.syntax)
    }

    pub fn r_curly_token(&self) -> (r: Option<SyntaxToken>)
        requires
            self.spec_syntax().wf(),
        ensures
            support::token_post(self.spec_syntax(), SyntaxKind::R_CURLY, r),
    {
        support::token(&self.syntax, SyntaxKind::R_CURLY)
    }
}

#[derive(Debug, PartialEq, Eq, Hash)]
pub struct Field {
    pub(crate) syntax: SyntaxNode,
}

impl AstNode for Field {
    open spec fn spec_can_cast(kind: SyntaxKind) -> bool {
        kind == SyntaxKind::FIELD
    }

    closed spec fn spec_syntax(self) -> SyntaxNode {
        self.syntax
    }

    fn can_cast(kind: SyntaxKind) -> (r: bool) {
        kind == SyntaxKind::FIELD
    }

    fn cast(syntax: SyntaxNode) -> (r: Option<Self>) {
        if syntax.kind() == SyntaxKind::FIELD {
            Some(Field { syntax })
        } else {
            None
        }
    }

    fn syntax(&self) -> (r: &SyntaxNode) {
        &self.syntax
    }
}

impl Field {
    pub fn alias(&self) -> (r: Option<Alias>)
        requires
            self.spec_syntax().wf(),
        ensures
            support::child_post::<Alias>(self.spec_syntax(), r),
    {
        support::child(&self.syntax)
    }

    pub fn name(&self) -> (r: Option<Name>)
        requires
            self.spec_syntax().wf(),
        ensures
            support::child_post::<Name>(self.spec_syntax(), r),
    {
        support::child(&self.syntax)
    }

    pub fn arguments(&self) -> (r: Option<Arguments>)
        requires
            self.spec_syntax().wf(),
        ensures
            support::child_post::<Arguments>(self.spec_syntax(), r),
    {
        support::child(&self.syntax)
    }

    pub fn directives(&self) -> (r: Option<Directives>)
        requires
            self.spec_syntax().wf(),
        ensures
            support::child_post::<Directives>(self.spec_syntax(), r),
    {
        support::child(&self.syntax)
    }

    pub fn selection_set(&self) -> (r: Option<SelectionSet>)
        requires
            self.spec_syntax().wf(),
        ensures
            support::child_post::<SelectionSet>(self.spec_syntax(), r),
    {
        support::child(&self.syntax)
    }
}

#[derive(Debug, PartialEq, Eq, Hash)]
pub struct FragmentSpread {
    pub(crate) syntax: SyntaxNode,
}

impl AstNode for FragmentSpread {
    open spec fn spec_can_cast(kind: SyntaxKind) -> bool {
        kind == SyntaxKind::FRAGMENT_SPREAD
    }

    closed spec fn spec_syntax(self) -> SyntaxNode {
        self.syntax
    }

    fn can_cast(kind: SyntaxKind) -> (r: bool) {
        kind == SyntaxKind::FRAGMENT_SPREAD
    }

    fn cast(syntax: SyntaxNode) -> (r: Option<Self>) {
        if syntax.kind() == SyntaxKind::FRAGMENT_SPREAD {
            Some(FragmentSpread { syntax })
        } else {
            None
        }
    }

    fn syntax(&self) -> (r: &SyntaxNode) {
        &self.syntax
    }
}

impl FragmentSpread {
    pub fn dotdotdot_token(&self) -> (r: Option<SyntaxToken>)
        requires
            self.spec_syntax().wf(),
        ensures
            support::token_post(self.spec_syntax(), SyntaxKind::SPREAD, r),
    {
        support::token(&self.syntax, SyntaxKind::SPREAD)
    }

    pub fn fragment_name(&self) -> (r: Option<FragmentName>)
        requires
            self.spec_syntax().wf(),
        ensures
            support::child_post::<FragmentName>(self.spec_syntax(), r),
    {
        support::child(&self.syntax)
    }

    pub fn directives(&self) -> (r: Option<Directives>)
        requires
            self.spec_syntax().wf(),
        ensures
            support::child_post::<Directives>(self.spec_syntax(), r),
    {
        support::child(&self.syntax)
    }
}

#[derive(Debug, PartialEq, Eq, Hash)]
pub struct InlineFragment {
    pub(crate) syntax: SyntaxNode,
}

impl AstNode for InlineFragment {
    open spec fn spec_can_cast(kind: SyntaxKind) -> bool {
        kind == SyntaxKind::INLINE_FRAGMENT
    }

    closed spec fn spec_syntax(self) -> SyntaxNode {
        self.syntax
    }

    fn can_cast(kind: SyntaxKind) -> (r: bool) {
        kind == SyntaxKind::INLINE_FRAGMENT
    }

    fn cast(syntax: SyntaxNode) -> (r: Option<Self>) {
        if syntax.kind() == SyntaxKind::INLINE_FRAGMENT {
            Some(InlineFragment { syntax })
        } else {
            None
        }
    }

    fn syntax(&self) -> (r: &SyntaxNode) {
        &self.syntax
    }
}

impl InlineFragment {
    pub fn dotdotdot_token(&self) -> (r: Option<SyntaxToken>)
        requires
            self.spec_syntax().wf(),
        ensures
            support::token_post(self.spec_syntax(), SyntaxKind::SPREAD, r),
    {
        support::token(&self.syntax, SyntaxKind::SPREAD)
    }

    pub fn type_condition(&self) -> (r: Option<TypeCondition>)
        requires
            self.spec_syntax().wf(),
        ensures
            support::child_post::<TypeCondition>(self.spec_syntax(), r),
    {
        support::child(&self.syntax)
    }

    pub fn directives(&self) -> (r: Option<Directives>)
        requires
            self.spec_syntax().wf(),
        ensures
            support::child_post::<Directives>(self.spec_syntax(), r),
    {
        support::child(&self.syntax)
    }

    pub fn selection_set(&self) -> (r: Option<SelectionSet>)
        requires
            self.spec_syntax().wf(),
        ensures
            support::child_post::<SelectionSet>(self.spec_syntax(), r),
    {
        support::child(&self.syntax)
    }
}

#[derive(Debug, PartialEq, Eq, Hash)]
pub struct Alias {
    pub(crate) syntax: SyntaxNode,
}

impl AstNode for Alias {
    open spec fn spec_can_cast(kind: SyntaxKind) -> bool {
        kind == SyntaxKind::ALIAS
    }

    closed spec fn spec_syntax(self) -> SyntaxNode {
        self.syntax
    }

    fn can_cast(kind: SyntaxKind) -> (r: bool) {
        kind == SyntaxKind::ALIAS
    }

    fn cast(syntax: SyntaxNode) -> (r: Option<Self>) {
        if syntax.kind() == SyntaxKind::ALIAS {
            Some(Alias { syntax })
        } else {
            None
        }
    }

    fn syntax(&self) -> (r: &SyntaxNode) {
        &self.syntax
    }
}

impl Alias {
    pub fn name(&self) -> (r: Option<Name>)
        requires
            self.spec_syntax().wf(),
        ensures
            support::child_post::<Name>(self.spec_syntax(), r),
    {
        support::child(&self.syntax)
    }

    pub fn colon_token(&self) -> (r: Option<SyntaxToken>)
        requires
            self.spec_syntax().wf(),
        ensures
            support::token_post(self.spec_syntax(), SyntaxKind::COLON, r),
    {
        support::token(&self.syntax, SyntaxKind::COLON)
    }
}

#[derive(Debug, PartialEq, Eq, Hash)]
pub struct Arguments {
    pub(crate) syntax: SyntaxNode,
}

impl AstNode for Arguments {
    open spec fn spec_can_cast(kind: SyntaxKind) -> bool {
        kind == SyntaxKind::ARGUMENTS
    }

    closed spec fn spec_syntax(self) -> SyntaxNode {
        self.syntax
    }

    fn can_cast(kind: SyntaxKind) -> (r: bool) {
        kind == SyntaxKind::ARGUMENTS
    }

    fn cast(syntax: SyntaxNode) -> (r: Option<Self>) {
        if syntax.kind() == SyntaxKind::ARGUMENTS {
            Some(Arguments { syntax })
        } else {
            None
        }
    }

    fn syntax(&self) -> (r: &SyntaxNode) {
        &self.syntax
    }
}

impl Arguments {
    pub fn l_paren_token(&self) -> (r: Option<SyntaxToken>)
        requires
            self.spec_syntax().wf(),
        ensures
            support::token_post(self.spec_syntax(), SyntaxKind::L_PAREN, r),
    {
        support::token(&self.syntax, SyntaxKind::L_PAREN)
    }

    pub fn arguments(&self) -> (r: Vec<Argument>)
        requires
            self.spec_syntax().wf(),
        ensures
            support::children_post::<Argument>(self.spec_syntax(), r@),
    {
        support::children(&self.syntax)
    }

    pub fn r_paren_token(&self) -> (r: Option<SyntaxToken>)
        requires
            self.spec_syntax().wf(),
        ensures
            support::token_post(self.spec_syntax(), SyntaxKind::R_PAREN, r),
    {
        support::token(&self.syntax, SyntaxKind::R_PAREN)
    }
}

#[derive(Debug, PartialEq, Eq, Hash)]
pub struct Argument {
    pub(crate) syntax: SyntaxNode,
}

impl AstNode for Argument {
    open spec fn spec_can_cast(kind: SyntaxKind) -> bool {
        kind == SyntaxKind::ARGUMENT
    }

    closed spec fn spec_syntax(self) -> SyntaxNode {
        self.syntax
    }

    fn can_cast(kind: SyntaxKind) -> (r: bool) {
        kind == SyntaxKind::ARGUMENT
    }

    fn cast(syntax: SyntaxNode) -> (r: Option<Self>) {
        if syntax.kind() == SyntaxKind::ARGUMENT {
            Some(Argument { syntax })
        } else {
            None
        }
    }

    fn syntax(&self) -> (r: &SyntaxNode) {
        &self.syntax
    }
}

impl Argument {
    pub fn name(&self) -> (r: Option<Name>)
        requires
            self.spec_syntax().wf(),
        ensures
            support::child_post::<Name>(self.spec_syntax(), r),
    {
        support::child(&self.syntax)
    }

    pub fn colon_token(&self) -> (r: Option<SyntaxToken>)
        requires
            self.spec_syntax().wf(),
        ensures
            support::token_post(self.spec_syntax(), SyntaxKind::COLON, r),
    {
        support::token(&self.syntax, SyntaxKind::COLON)
    }

    pub fn value(&self) -> (r: Option<Value>)
        requires
            self.spec_syntax().wf(),
        ensures
            support::child_post::<Value>(self.spec_syntax(), r),
    {
        support::child(&self.syntax)
    }
}

#[derive(Debug, PartialEq, Eq, Hash)]
pub struct FragmentName {
    pub(crate) syntax: SyntaxNode,
}

impl AstNode for FragmentName {
    open spec fn spec_can_cast(kind: SyntaxKind) -> bool {
        kind == SyntaxKind::FRAGMENT_NAME
    }

    closed spec fn spec_syntax(self) -> SyntaxNode {
        self.syntax
    }

    fn can_cast(kind: SyntaxKind) -> (r: bool) {
        kind == SyntaxKind::FRAGMENT_NAME
    }

    fn cast(syntax: SyntaxNode) -> (r: Option<Self>) {
        if syntax.kind() == SyntaxKind::FRAGMENT_NAME {
            Some(FragmentName { syntax })
        } else {
            None
        }
    }

    fn syntax(&self) -> (r: &SyntaxNode) {
        &self.syntax
    }
}

impl FragmentName {
    pub fn name(&self) -> (r: Option<Name>)
        requires
            self.spec_syntax().wf(),
        ensures
            support::child_post::<Name>(self.spec_syntax(), r),
    {
        support::child(&self.syntax)
    }
}

#[derive(Debug, PartialEq, Eq, Hash)]
pub struct TypeCondition {
    pub(crate) syntax: SyntaxNode,
}

impl AstNode for TypeCondition {
    open spec fn spec_can_cast(kind: SyntaxKind) -> bool {
        kind == SyntaxKind::TYPE_CONDITION
    }

    closed spec fn spec_syntax(self) -> SyntaxNode {
        self.syntax
    }

    fn can_cast(kind: SyntaxKind) -> (r: bool) {
        kind == SyntaxKind::TYPE_CONDITION
    }

    fn cast(syntax: SyntaxNode) -> (r: Option<Self>) {
        if syntax.kind() == SyntaxKind::TYPE_CONDITION {
            Some(TypeCondition { syntax })
        } else {
            None
        }
    }

    fn syntax(&self) -> (r: &SyntaxNode) {
        &self.syntax
    }
}

impl TypeCondition {
    pub fn on_token(&self) -> (r: Option<SyntaxToken>)
        requires
            self.spec_syntax().wf(),
        ensures
            support::token_post(self.spec_syntax(), SyntaxKind::ON_KW, r),
    {
        support::token(&self.syntax, SyntaxKind::ON_KW)
    }

    pub fn named_type(&self) -> (r: Option<NamedType>)
        requires
            self.spec_syntax().wf(),
        ensures
            support::child_post::<NamedType>(self.spec_syntax(), r),
    {
        support::child(&self.syntax)
    }
}

#[derive(Debug, PartialEq, Eq, Hash)]
pub struct NamedType {
    pub(crate) syntax: SyntaxNode,
}

impl AstNode for NamedType {
    open spec fn spec_can_cast(kind: SyntaxKind) -> bool {
        kind == SyntaxKind::NAMED_TYPE
    }

    closed spec fn spec_syntax(self) -> SyntaxNode {
        self.syntax
    }

    fn can_cast(kind: SyntaxKind) -> (r: bool) {
        kind == SyntaxKind::NAMED_TYPE
    }

    fn cast(syntax: SyntaxNode) -> (r: Option<Self>) {
        if syntax.kind() == SyntaxKind::NAMED_TYPE {
            Some(NamedType { syntax })
        } else {
            None
        }
    }

    fn syntax(&self) -> (r: &SyntaxNode) {
        &self.syntax
    }
}

impl NamedType {
    pub fn name(&self) -> (r: Option<Name>)
        requires
            self.spec_syntax().wf(),
        ensures
            support::child_post::<Name>(self.spec_syntax(), r),
    {
        support::child(&self.syntax)
    }
}

#[derive(Debug, PartialEq, Eq, Hash)]
pub struct Variable {
    pub(crate) syntax: SyntaxNode,
}

impl AstNode for Variable {
    open spec fn spec_can_cast(kind: SyntaxKind) -> bool {
        kind == SyntaxKind::VARIABLE
    }

    closed spec fn spec_syntax(self) -> SyntaxNode {
        self.syntax
    }

    fn can_cast(kind: SyntaxKind) -> (r: bool) {
        kind == SyntaxKind::VARIABLE
    }

    fn cast(syntax: SyntaxNode) -> (r: Option<Self>) {
        if syntax.kind() == SyntaxKind::VARIABLE {
            Some(Variable { syntax })
        } else {
            None
        }
    }

    fn syntax(&self) -> (r: &SyntaxNode) {
        &self.syntax
    }
}

impl Variable {
    pub fn dollar_token(&self) -> (r: Option<SyntaxToken>)
        requires
            self.spec_syntax().wf(),
        ensures
            support::token_post(self.spec_syntax(), SyntaxKind::DOLLAR, r),
    {
        support::token(&self.syntax, SyntaxKind::DOLLAR)
    }

    pub fn name(&self) -> (r: Option<Name>)
        requires
            self.spec_syntax().wf(),
        ensures
            support::child_post::<Name>(self.spec_syntax(), r),
    {
        support::child(&self.syntax)
    }
}

#[derive(Debug, PartialEq, Eq, Hash)]
pub struct StringValue {
    pub(crate) syntax: SyntaxNode,
}

impl AstNode for StringValue {
    open spec fn spec_can_cast(kind: SyntaxKind) -> bool {
        kind == SyntaxKind::STRING_VALUE
    }

    closed spec fn spec_syntax(self) -> SyntaxNode {
        self.syntax
    }

    fn can_cast(kind: SyntaxKind) -> (r: bool) {
        kind == SyntaxKind::STRING_VALUE
    }

    fn cast(syntax: SyntaxNode) -> (r: Option<Self>) {
        if syntax.kind() == SyntaxKind::STRING_VALUE {
            Some(StringValue { syntax })
        } else {
            None
        }
    }

    fn syntax(&self) -> (r: &SyntaxNode) {
        &self.syntax
    }
}

impl StringValue {
    pub fn string_value_token(&self) -> (r: Option<SyntaxToken>)
        requires
            self.spec_syntax().wf(),
        ensures
            support::token_post(self.spec_syntax(), SyntaxKind::STRING_VALUE, r),
    {
        support::token(&self.syntax, SyntaxKind::STRING_VALUE)
    }
}

#[derive(Debug, PartialEq, Eq, Hash)]
pub struct FloatValue {
    pub(crate) syntax: SyntaxNode,
}

impl AstNode for FloatValue {
    open spec fn spec_can_cast(kind: SyntaxKind) -> bool {
        kind == SyntaxKind::FLOAT_VALUE
    }

    closed spec fn spec_syntax(self) -> SyntaxNode {
        self.syntax
    }

    fn can_cast(kind: SyntaxKind) -> (r: bool) {
        kind == SyntaxKind::FLOAT_VALUE
    }

    fn cast(syntax: SyntaxNode) -> (r: Option<Self>) {
        if syntax.kind() == SyntaxKind::FLOAT_VALUE {
            Some(FloatValue { syntax })
        } else {
            None
        }
    }

    fn syntax(&self) -> (r: &SyntaxNode) {
        &self.syntax
    }
}

impl FloatValue {
    pub fn float_value_token(&self) -> (r: Option<SyntaxToken>)
        requires
            self.spec_syntax().wf(),
        ensures
            support::token_post(self.spec_syntax(), SyntaxKind::FLOAT_VALUE, r),
    {
        support::token(&self.syntax, SyntaxKind::FLOAT_VALUE)
    }
}

#[derive(Debug, PartialEq, Eq, Hash)]
pub struct IntValue {
    pub(crate) syntax: SyntaxNode,
}

impl AstNode for IntValue {
    open spec fn spec_can_cast(kind: SyntaxKind) -> bool {
        kind == SyntaxKind::INT_VALUE
    }

    closed spec fn spec_syntax(self) -> SyntaxNode {
        self.syntax
    }

    fn can_cast(kind: SyntaxKind) -> (r: bool) {
        kind == SyntaxKind::INT_VALUE
    }

    fn cast(syntax: SyntaxNode) -> (r: Option<Self>) {
        if syntax.kind() == SyntaxKind::INT_VALUE {
            Some(IntValue { syntax })
        } else {
            None
        }
    }

    fn syntax(&self) -> (r: &SyntaxNode) {
        &self.syntax
    }
}

impl IntValue {
    pub fn int_value_token(&self) -> (r: Option<SyntaxToken>)
        requires
            self.spec_syntax().wf(),
        ensures
            support::token_post(self.spec_syntax(), SyntaxKind::INT_VALUE, r),
    {
        support::token(&self.syntax, SyntaxKind::INT_VALUE)
    }
}

#[derive(Debug, PartialEq, Eq, Hash)]
pub struct BooleanValue {
    pub(crate) syntax: SyntaxNode,
}

impl AstNode for BooleanValue {
    open spec fn spec_can_cast(kind: SyntaxKind) -> bool {
        kind == SyntaxKind::BOOLEAN_VALUE
    }

    closed spec fn spec_syntax(self) -> SyntaxNode {
        self.syntax
    }

    fn can_cast(kind: SyntaxKind) -> (r: bool) {
        kind == SyntaxKind::BOOLEAN_VALUE
    }

    fn cast(syntax: SyntaxNode) -> (r: Option<Self>) {
        if syntax.kind() == SyntaxKind::BOOLEAN_VALUE {
            Some(BooleanValue { syntax })
        } else {
            None
        }
    }

    fn syntax(&self) -> (r: &SyntaxNode) {
        &self.syntax
    }
}

impl BooleanValue {
    pub fn true_token(&self) -> (r: Option<SyntaxToken>)
        requires
            self.spec_syntax().wf(),
        ensures
            support::token_post(self.spec_syntax(), SyntaxKind::TRUE_KW, r),
    {
        support::token(&self.syntax, SyntaxKind::TRUE_KW)
    }

    pub fn false_token(&self) -> (r: Option<SyntaxToken>)
        requires
            self.spec_syntax().wf(),
        ensures
            support::token_post(self.spec_syntax(), SyntaxKind::FALSE_KW, r),
    {
        support::token(&self.syntax, SyntaxKind::FALSE_KW)
    }
}

#[derive(Debug, PartialEq, Eq, Hash)]
pub struct NullValue {
    pub(crate) syntax: SyntaxNode,
}

impl AstNode for NullValue {
    open spec fn spec_can_cast(kind: SyntaxKind) -> bool {
        kind == SyntaxKind::NULL_VALUE
    }

    closed spec fn spec_syntax(self) -> SyntaxNode {
        self.syntax
    }

    fn can_cast(kind: SyntaxKind) -> (r: bool) {
        kind == SyntaxKind::NULL_VALUE
    }

    fn cast(syntax: SyntaxNode) -> (r: Option<Self>) {
        if syntax.kind() == SyntaxKind::NULL_VALUE {
            Some(NullValue { syntax })
        } else {
            None
        }
    }

    fn syntax(&self) -> (r: &SyntaxNode) {
        &self.syntax
    }
}

impl NullValue {
    pub fn null_token(&self) -> (r: Option<SyntaxToken>)
        requires
            self.spec_syntax().wf(),
        ensures
            support::token_post(self.spec_syntax(), SyntaxKind::NULL_KW, r),
    {
        support::token(&self.syntax, SyntaxKind::NULL_KW)
    }
}

#[derive(Debug, PartialEq, Eq, Hash)]
pub struct EnumValue {
    pub(crate) syntax: SyntaxNode,
}

impl AstNode for EnumValue {
    open spec fn spec_can_cast(kind: SyntaxKind) -> bool {
        kind == SyntaxKind::ENUM_VALUE
    }

    closed spec fn spec_syntax(self) -> SyntaxNode {
        self.syntax
    }

    fn can_cast(kind: SyntaxKind) -> (r: bool) {
        kind == SyntaxKind::ENUM_VALUE
    }

    fn cast(syntax: SyntaxNode) -> (r: Option<Self>) {
        if syntax.kind() == SyntaxKind::ENUM_VALUE {
            Some(EnumValue { syntax })
        } else {
            None
        }
    }

    fn syntax(&self) -> (r: &SyntaxNode) {
        &self.syntax
    }
}

impl EnumValue {
    pub fn name(&self) -> (r: Option<Name>)
        requires
            self.spec_syntax().wf(),
        ensures
            support::child_post::<Name>(self.spec_syntax(), r),
    {
        support::child(&self.syntax)
    }
}

#[derive(Debug, PartialEq, Eq, Hash)]
pub struct ListValue {
    pub(crate) syntax: SyntaxNode,
}

impl AstNode for ListValue {
    open spec fn spec_can_cast(kind: SyntaxKind) -> bool {
        kind == SyntaxKind::LIST_VALUE
    }

    closed spec fn spec_syntax(self) -> SyntaxNode {
        self.syntax
    }

    fn can_cast(kind: SyntaxKind) -> (r: bool) {
        kind == SyntaxKind::LIST_VALUE
    }

    fn cast(syntax: SyntaxNode) -> (r: Option<Self>) {
        if syntax.kind() == SyntaxKind::LIST_VALUE {
            Some(ListValue { syntax })
        } else {
            None
        }
    }

    fn syntax(&self) -> (r: &SyntaxNode) {
        &self.syntax
    }
}

impl ListValue {
    pub fn l_brack_token(&self) -> (r: Option<SyntaxToken>)
        requires
            self.spec_syntax().wf(),
        ensures
            support::token_post(self.spec_syntax(), SyntaxKind::L_BRACK, r),
    {
        support::token(&self.syntax, SyntaxKind::L_BRACK)
    }

    pub fn r_brack_token(&self) -> (r: Option<SyntaxToken>)
        requires
            self.spec_syntax().wf(),
        ensures
            support::token_post(self.spec_syntax(), SyntaxKind::R_BRACK, r),
    {
        support::token(&self.syntax, SyntaxKind::R_BRACK)
    }

    pub fn values(&self) -> (r: Vec<Value>)
        requires
            self.spec_syntax().wf(),
        ensures
            support::children_post::<Value>(self.spec_syntax(), r@),
    {
        support::children(&self.syntax)
    }
}

#[derive(Debug, PartialEq, Eq, Hash)]
pub struct ObjectValue {
    pub(crate) syntax: SyntaxNode,
}

impl AstNode for ObjectValue {
    open spec fn spec_can_cast(kind: SyntaxKind) -> bool {
        kind == SyntaxKind::OBJECT_VALUE
    }

    closed spec fn spec_syntax(self) -> SyntaxNode {
        self.syntax
    }

    fn can_cast(kind: SyntaxKind) -> (r: bool) {
        kind == SyntaxKind::OBJECT_VALUE
    }

    fn cast(syntax: SyntaxNode) -> (r: Option<Self>) {
        if syntax.kind() == SyntaxKind::OBJECT_VALUE {
            Some(ObjectValue { syntax })
        } else {
            None
        }
    }

    fn syntax(&self) -> (r: &SyntaxNode) {
        &self.syntax
    }
}

impl ObjectValue {
    pub fn l_curly_token(&self) -> (r: Option<SyntaxToken>)
        requires
            self.spec_syntax().wf(),
        ensures
            support::token_post(self.spec_syntax(), SyntaxKind::L_CURLY, r),
    {
        support::token(&self.syntax, SyntaxKind::L_CURLY)
    }

    pub fn r_curly_token(&self) -> (r: Option<SyntaxToken>)
        requires
            self.spec_syntax().wf(),
        ensures
            support::token_post(self.spec_syntax(), SyntaxKind::R_CURLY, r),
    {
        support::token(&self.syntax, SyntaxKind::R_CURLY)
    }

    pub fn object_fields(&self) -> (r: Vec<ObjectField>)
        requires
            self.spec_syntax().wf(),
        ensures
            support::children_post::<ObjectField>(self.spec_syntax(), r@),
    {
        support::children(&self.syntax)
    }
}

#[derive(Debug, PartialEq, Eq, Hash)]
pub struct ObjectField {
    pub(crate) syntax: SyntaxNode,
}

impl AstNode for ObjectField {
    open spec fn spec_can_cast(kind: SyntaxKind) -> bool {
        kind == SyntaxKind::OBJECT_FIELD
    }

    closed spec fn spec_syntax(self) -> SyntaxNode {
        self.syntax
    }

    fn can_cast(kind: SyntaxKind) -> (r: bool) {
        kind == SyntaxKind::OBJECT_FIELD
    }

    fn cast(syntax: SyntaxNode) -> (r: Option<Self>) {
        if syntax.kind() == SyntaxKind::OBJECT_FIELD {
            Some(ObjectField { syntax })
        } else {
            None
        }
    }

    fn syntax(&self) -> (r: &SyntaxNode) {
        &self.syntax
    }
}

impl ObjectField {
    pub fn name(&self) -> (r: Option<Name>)
        requires
            self.spec_syntax().wf(),
        ensures
            support::child_post::<Name>(self.spec_syntax(), r),
    {
        support::child(&self.syntax)
    }

    pub fn colon_token(&self) -> (r: Option<SyntaxToken>)
        requires
            self.spec_syntax().wf(),
        ensures
            support::token_post(self.spec_syntax(), SyntaxKind::COLON, r),
    {
        support::token(&self.syntax, SyntaxKind::COLON)
    }

    pub fn value(&self) -> (r: Option<Value>)
        requires
            self.spec_syntax().wf(),
        ensures
            support::child_post::<Value>(self.spec_syntax(), r),
    {
        support::child(&self.syntax)
    }
}

#[derive(Debug, PartialEq, Eq, Hash)]
pub struct VariableDefinition {
    pub(crate) syntax: SyntaxNode,
}

impl AstNode for VariableDefinition {
    open spec fn spec_can_cast(kind: SyntaxKind) -> bool {
        kind == SyntaxKind::VARIABLE_DEFINITION
    }

    closed spec fn spec_syntax(self) -> SyntaxNode {
        self.syntax
    }

    fn can_cast(kind: SyntaxKind) -> (r: bool) {
        kind == SyntaxKind::VARIABLE_DEFINITION
    }

    fn cast(syntax: SyntaxNode) -> (r: Option<Self>) {
        if syntax.kind() == SyntaxKind::VARIABLE_DEFINITION {
            Some(VariableDefinition { syntax })
        } else {
            None
        }
    }

    fn syntax(&self) -> (r: &SyntaxNode) {
        &self.syntax
    }
}

impl VariableDefinition {
    pub fn variable(&self) -> (r: Option<Variable>)
        requires
            self.spec_syntax().wf(),
        ensures
            support::child_post::<Variable>(self.spec_syntax(), r),
    {
        support::child(&self.syntax)
    }

    pub fn colon_token(&self) -> (r: Option<SyntaxToken>)
        requires
            self.spec_syntax().wf(),
        ensures
            support::token_post(self.spec_syntax(), SyntaxKind::COLON, r),
    {
        support::token(&self.syntax, SyntaxKind::COLON)
    }

    pub fn ty(&self) -> (r: Option<Type>)
        requires
            self.spec_syntax().wf(),
        ensures
            support::child_post::<Type>(self.spec_syntax(), r),
    {
        support::child(&self.syntax)
    }

    pub fn default_value(&self) -> (r: Option<DefaultValue>)
        requires
            self.spec_syntax().wf(),
        ensures
            support::child_post::<DefaultValue>(self.spec_syntax(), r),
    {
        support::child(&self.syntax)
    }
}

#[derive(Debug, PartialEq, Eq, Hash)]
pub struct DefaultValue {
    pub(crate) syntax: SyntaxNode,
}

impl AstNode for DefaultValue {
    open spec fn spec_can_cast(kind: SyntaxKind) -> bool {
        kind == SyntaxKind::DEFAULT_VALUE
    }

    closed spec fn spec_syntax(self) -> SyntaxNode {
        self.syntax
    }

    fn can_cast(kind: SyntaxKind) -> (r: bool) {
        kind == SyntaxKind::DEFAULT_VALUE
    }

    fn cast(syntax: SyntaxNode) -> (r: Option<Self>) {
        if syntax.kind() == SyntaxKind::DEFAULT_VALUE {
            Some(DefaultValue { syntax })
        } else {
            None
        }
    }

    fn syntax(&self) -> (r: &SyntaxNode) {
        &self.syntax
    }
}

impl DefaultValue {
    pub fn eq_token(&self) -> (r: Option<SyntaxToken>)
        requires
            self.spec_syntax().wf(),
        ensures
            support::token_post(self.spec_syntax(), SyntaxKind::EQ, r),
    {
        support::token(&self.syntax, SyntaxKind::EQ)
    }

    pub fn value(&self) -> (r: Option<Value>)
        requires
            self.spec_syntax().wf(),
        ensures
            support::child_post::<Value>(self.spec_syntax(), r),
    {
        support::child(&self.syntax)
    }
}

#[derive(Debug, PartialEq, Eq, Hash)]
pub struct ListType {
    pub(crate) syntax: SyntaxNode,
}

impl AstNode for ListType {
    open spec fn spec_can_cast(kind: SyntaxKind) -> bool {
        kind == SyntaxKind::LIST_TYPE
    }

    closed spec fn spec_syntax(self) -> SyntaxNode {
        self.syntax
    }

    fn can_cast(kind: SyntaxKind) -> (r: bool) {
        kind == SyntaxKind::LIST_TYPE
    }

    fn cast(syntax: SyntaxNode) -> (r: Option<Self>) {
        if syntax.kind() == SyntaxKind::LIST_TYPE {
            Some(ListType { syntax })
        } else {
            None
        }
    }

    fn syntax(&self) -> (r: &SyntaxNode) {
        &self.syntax
    }
}

impl ListType {
    pub fn l_brack_token(&self) -> (r: Option<SyntaxToken>)
        requires
            self.spec_syntax().wf(),
        ensures
            support::token_post(self.spec_syntax(), SyntaxKind::L_BRACK, r),
    {
        support::token(&self.syntax, SyntaxKind::L_BRACK)
    }

    pub fn ty(&self) -> (r: Option<Type>)
        requires
            self.spec_syntax().wf(),
        ensures
            support::child_post::<Type>(self.spec_syntax(), r),
    {
        support::child(&self.syntax)
    }

    pub fn r_brack_token(&self) -> (r: Option<SyntaxToken>)
        requires
            self.spec_syntax().wf(),
        ensures
            support::token_post(self.spec_syntax(), SyntaxKind::R_BRACK, r),
    {
        support::token(&self.syntax, SyntaxKind::R_BRACK)
    }
}

#[derive(Debug, PartialEq, Eq, Hash)]
pub struct NonNullType {
    pub(crate) syntax: SyntaxNode,
}

impl AstNode for NonNullType {
    open spec fn spec_can_cast(kind: SyntaxKind) -> bool {
        kind == SyntaxKind::NON_NULL_TYPE
    }

    closed spec fn spec_syntax(self) -> SyntaxNode {
        self.syntax
    }

    fn can_cast(kind: SyntaxKind) -> (r: bool) {
        kind == SyntaxKind::NON_NULL_TYPE
    }

    fn cast(syntax: SyntaxNode) -> (r: Option<Self>) {
        if syntax.kind() == SyntaxKind::NON_NULL_TYPE {
            Some(NonNullType { syntax })
        } else {
            None
        }
    }

    fn syntax(&self) -> (r: &SyntaxNode) {
        &self.syntax
    }
}

impl NonNullType {
    pub fn named_type(&self) -> (r: Option<NamedType>)
        requires
            self.spec_syntax().wf(),
        ensures
            support::child_post::<NamedType>(self.spec_syntax(), r),
    {
        support::child(&self.syntax)
    }

    pub fn excl_token(&self) -> (r: Option<SyntaxToken>)
        requires
            self.spec_syntax().wf(),
        ensures
            support::token_post(self.spec_syntax(), SyntaxKind::BANG, r),
    {
        support::token(&self.syntax, SyntaxKind::BANG)
    }

    pub fn list_type(&self) -> (r: Option<ListType>)
        requires
            self.spec_syntax().wf(),
        ensures
            support::child_post::<ListType>(self.spec_syntax(), r),
    {
        support::child(&self.syntax)
    }
}

#[derive(Debug, PartialEq, Eq, Hash)]
pub struct Directive {
    pub(crate) syntax: SyntaxNode,
}

impl AstNode for Directive {
    open spec fn spec_can_cast(kind: SyntaxKind) -> bool {
        kind == SyntaxKind::DIRECTIVE
    }

    closed spec fn spec_syntax(self) -> SyntaxNode {
        self.syntax
    }

    fn can_cast(kind: SyntaxKind) -> (r: bool) {
        kind == SyntaxKind::DIRECTIVE
    }

    fn cast(syntax: SyntaxNode) -> (r: Option<Self>) {
        if syntax.kind() == SyntaxKind::DIRECTIVE {
            Some(Directive { syntax })
        } else {
            None
        }
    }

    fn syntax(&self) -> (r: &SyntaxNode) {
        &self.syntax
    }
}

impl Directive {
    pub fn at_token(&self) -> (r: Option<SyntaxToken>)
        requires
            self.spec_syntax().wf(),
        ensures
            support::token_post(self.spec_syntax(), SyntaxKind::AT, r),
    {
        support::token(&self.syntax, SyntaxKind::AT)
    }

    pub fn name(&self) -> (r: Option<Name>)
        requires
            self.spec_syntax().wf(),
        ensures
            support::child_post::<Name>(self.spec_syntax(), r),
    {
        support::child(&self.syntax)
    }

    pub fn arguments(&self) -> (r: Option<Arguments>)
        requires
            self.spec_syntax().wf(),
        ensures
            support::child_post::<Arguments>(self.spec_syntax(), r),
    {
        support::child(&self.syntax)
    }
}

#[derive(Debug, PartialEq, Eq, Hash)]
pub struct SchemaDefinition {
    pub(crate) syntax: SyntaxNode,
}

impl AstNode for SchemaDefinition {
    open spec fn spec_can_cast(kind: SyntaxKind) -> bool {
        kind == SyntaxKind::SCHEMA_DEFINITION
    }

    closed spec fn spec_syntax(self) -> SyntaxNode {
        self.syntax
    }

    fn can_cast(kind: SyntaxKind) -> (r: bool) {
        kind == SyntaxKind::SCHEMA_DEFINITION
    }

    fn cast(syntax: SyntaxNode) -> (r: Option<Self>) {
        if syntax.kind() == SyntaxKind::SCHEMA_DEFINITION {
            Some(SchemaDefinition { syntax })
        } else {
            None
        }
    }

    fn syntax(&self) -> (r: &SyntaxNode) {
        &self.syntax
    }
}

impl SchemaDefinition {
    pub fn schema_token(&self) -> (r: Option<SyntaxToken>)
        requires
            self.spec_syntax().wf(),
        ensures
            support::token_post(self.spec_syntax(), SyntaxKind::SCHEMA_KW, r),
    {
        support::token(&self.syntax, SyntaxKind::SCHEMA_KW)
    }

    pub fn directives(&self) -> (r: Option<Directives>)
        requires
            self.spec_syntax().wf(),
        ensures
            support::child_post::<Directives>(self.spec_syntax(), r),
    {
        support::child(&self.syntax)
    }

    pub fn l_curly_token(&self) -> (r: Option<SyntaxToken>)
        requires
            self.spec_syntax().wf(),
        ensures
            support::token_post(self.spec_syntax(), SyntaxKind::L_CURLY, r),
    {
        support::token(&self.syntax, SyntaxKind::L_CURLY)
    }

    pub fn operation_type_definitions(&self) -> (r: Vec<OperationTypeDefinition>)
        requires
            self.spec_syntax().wf(),
        ensures
            support::children_post::<OperationTypeDefinition>(self.spec_syntax(), r@),
    {
        support::children(&self.syntax)
    }

    pub fn r_curly_token(&self) -> (r: Option<SyntaxToken>)
        requires
            self.spec_syntax().wf(),
        ensures
            support::token_post(self.spec_syntax(), SyntaxKind::R_CURLY, r),
    {
        support::token(&self.syntax, SyntaxKind::R_CURLY)
    }
}

#[derive(Debug, PartialEq, Eq, Hash)]
pub struct DirectiveDefinition {
    pub(crate) syntax: SyntaxNode,
}

impl AstNode for DirectiveDefinition {
    open spec fn spec_can_cast(kind: SyntaxKind) -> bool {
        kind == SyntaxKind::DIRECTIVE_DEFINITION
    }

    closed spec fn spec_syntax(self) -> SyntaxNode {
        self.syntax
    }

    fn can_cast(kind: SyntaxKind) -> (r: bool) {
        kind == SyntaxKind::DIRECTIVE_DEFINITION
    }

    fn cast(syntax: SyntaxNode) -> (r: Option<Self>) {
        if syntax.kind() == SyntaxKind::DIRECTIVE_DEFINITION {
            Some(DirectiveDefinition { syntax })
        } else {
            None
        }
    }

    fn syntax(&self) -> (r: &SyntaxNode) {
        &self.syntax
    }
}

impl DirectiveDefinition {
    pub fn description(&self) -> (r: Option<Description>)
        requires
            self.spec_syntax().wf(),
        ensures
            support::child_post::<Description>(self.spec_syntax(), r),
    {
        support::child(&self.syntax)
    }

    pub fn directive_token(&self) -> (r: Option<SyntaxToken>)
        requires
            self.spec_syntax().wf(),
        ensures
            support::token_post(self.spec_syntax(), SyntaxKind::DIRECTIVE_KW, r),
    {
        support::token(&self.syntax, SyntaxKind::DIRECTIVE_KW)
    }

    pub fn at_token(&self) -> (r: Option<SyntaxToken>)
        requires
            self.spec_syntax().wf(),
        ensures
            support::token_post(self.spec_syntax(), SyntaxKind::AT, r),
    {
        support::token(&self.syntax, SyntaxKind::AT)
    }

    pub fn name(&self) -> (r: Option<Name>)
        requires
            self.spec_syntax().wf(),
        ensures
            support::child_post::<Name>(self.spec_syntax(), r),
    {
        support::child(&self.syntax)
    }

    pub fn arguments_definition(&self) -> (r: Option<ArgumentsDefinition>)
        requires
            self.spec_syntax().wf(),
        ensures
            support::child_post::<ArgumentsDefinition>(self.spec_syntax(), r),
    {
        support::child(&self.syntax)
    }

    pub fn on_token(&self) -> (r: Option<SyntaxToken>)
        requires
            self.spec_syntax().wf(),
        ensures
            support::token_post(self.spec_syntax(), SyntaxKind::ON_KW, r),
    {
        support::token(&self.syntax, SyntaxKind::ON_KW)
    }

    pub fn directive_locations(&self) -> (r: Option<DirectiveLocations>)
        requires
            self.spec_syntax().wf(),
        ensures
            support::child_post::<DirectiveLocations>(self.spec_syntax(), r),
    {
        support::child(&self.syntax)
    }
}

#[derive(Debug, PartialEq, Eq, Hash)]
pub struct SchemaExtension {
    pub(crate) syntax: SyntaxNode,
}

impl AstNode for SchemaExtension {
    open spec fn spec_can_cast(kind: SyntaxKind) -> bool {
        kind == SyntaxKind::SCHEMA_EXTENSION
    }

    closed spec fn spec_syntax(self) -> SyntaxNode {
        self.syntax
    }

    fn can_cast(kind: SyntaxKind) -> (r: bool) {
        kind == SyntaxKind::SCHEMA_EXTENSION
    }

    fn cast(syntax: SyntaxNode) -> (r: Option<Self>) {
        if syntax.kind() == SyntaxKind::SCHEMA_EXTENSION {
            Some(SchemaExtension { syntax })
        } else {
            None
        }
    }

    fn syntax(&self) -> (r: &SyntaxNode) {
        &self.syntax
    }
}

impl SchemaExtension {
    pub fn extend_token(&self) -> (r: Option<SyntaxToken>)
        requires
            self.spec_syntax().wf(),
        ensures
            support::token_post(self.spec_syntax(), SyntaxKind::EXTEND_KW, r),
    {
        support::token(&self.syntax, SyntaxKind::EXTEND_KW)
    }

    pub fn schema_token(&self) -> (r: Option<SyntaxToken>)
        requires
            self.spec_syntax().wf(),
        ensures
            support::token_post(self.spec_syntax(), SyntaxKind::SCHEMA_KW, r),
    {
        support::token(&self.syntax, SyntaxKind::SCHEMA_KW)
    }

    pub fn directives(&self) -> (r: Option<Directives>)
        requires
            self.spec_syntax().wf(),
        ensures
            support::child_post::<Directives>(self.spec_syntax(), r),
    {
        support::child(&self.syntax)
    }

    pub fn l_curly_token(&self) -> (r: Option<SyntaxToken>)
        requires
            self.spec_syntax().wf(),
        ensures
            support::token_post(self.spec_syntax(), SyntaxKind::L_CURLY, r),
    {
        support::token(&self.syntax, SyntaxKind::L_CURLY)
    }

    pub fn operation_type_definitions(&self) -> (r: Vec<OperationTypeDefinition>)
        requires
            self.spec_syntax().wf(),
        ensures
            support::children_post::<OperationTypeDefinition>(self.spec_syntax(), r@),
    {
        support::children(&self.syntax)
    }

    pub fn r_curly_token(&self) -> (r: Option<SyntaxToken>)
        requires
            self.spec_syntax().wf(),
        ensures
            support::token_post(self.spec_syntax(), SyntaxKind::R_CURLY, r),
    {
        support::token(&self.syntax, SyntaxKind::R_CURLY)
    }
}

#[derive(Debug, PartialEq, Eq, Hash)]
pub struct OperationTypeDefinition {
    pub(crate) syntax: SyntaxNode,
}

impl AstNode for OperationTypeDefinition {
    open spec fn spec_can_cast(kind: SyntaxKind) -> bool {
        kind == SyntaxKind::OPERATION_TYPE_DEFINITION
    }

    closed spec fn spec_syntax(self) -> SyntaxNode {
        self.syntax
    }

    fn can_cast(kind: SyntaxKind) -> (r: bool) {
        kind == SyntaxKind::OPERATION_TYPE_DEFINITION
    }

    fn cast(syntax: SyntaxNode) -> (r: Option<Self>) {
        if syntax.kind() == SyntaxKind::OPERATION_TYPE_DEFINITION {
            Some(OperationTypeDefinition { syntax })
        } else {
            None
        }
    }

    fn syntax(&self) -> (r: &SyntaxNode) {
        &self.syntax
    }
}

impl OperationTypeDefinition {
    pub fn operation_type(&self) -> (r: Option<OperationType>)
        requires
            self.spec_syntax().wf(),
        ensures
            support::child_post::<OperationType>(self.spec_syntax(), r),
    {
        support::child(&self.syntax)
    }

    pub fn colon_token(&self) -> (r: Option<SyntaxToken>)
        requires
            self.spec_syntax().wf(),
        ensures
            support::token_post(self.spec_syntax(), SyntaxKind::COLON, r),
    {
        support::token(&self.syntax, SyntaxKind::COLON)
    }

    pub fn named_type(&self) -> (r: Option<NamedType>)
        requires
            self.spec_syntax().wf(),
        ensures
            support::child_post::<NamedType>(self.spec_syntax(), r),
    {
        support::child(&self.syntax)
    }
}

#[derive(Debug, PartialEq, Eq, Hash)]
pub struct Description {
    pub(crate) syntax: SyntaxNode,
}

impl AstNode for Description {
    open spec fn spec_can_cast(kind: SyntaxKind) -> bool {
        kind == SyntaxKind::DESCRIPTION
    }

    closed spec fn spec_syntax(self) -> SyntaxNode {
        self.syntax
    }

    fn can_cast(kind: SyntaxKind) -> (r: bool) {
        kind == SyntaxKind::DESCRIPTION
    }

    fn cast(syntax: SyntaxNode) -> (r: Option<Self>) {
        if syntax.kind() == SyntaxKind::DESCRIPTION {
            Some(Description { syntax })
        } else {
            None
        }
    }

    fn syntax(&self) -> (r: &SyntaxNode) {
        &self.syntax
    }
}

impl Description {
    pub fn string_value(&self) -> (r: Option<StringValue>)
        requires
            self.spec_syntax().wf(),
        ensures
            support::child_post::<StringValue>(self.spec_syntax(), r),
    {
        support::child(&self.syntax)
    }
}

#[derive(Debug, PartialEq, Eq, Hash)]
pub struct ScalarTypeDefinition {
    pub(crate) syntax: SyntaxNode,
}

impl AstNode for ScalarTypeDefinition {
    open spec fn spec_can_cast(kind: SyntaxKind) -> bool {
        kind == SyntaxKind::SCALAR_TYPE_DEFINITION
    }

    closed spec fn spec_syntax(self) -> SyntaxNode {
        self.syntax
    }

    fn can_cast(kind: SyntaxKind) -> (r: bool) {
        kind == SyntaxKind::SCALAR_TYPE_DEFINITION
    }

    fn cast(syntax: SyntaxNode) -> (r: Option<Self>) {
        if syntax.kind() == SyntaxKind::SCALAR_TYPE_DEFINITION {
            Some(ScalarTypeDefinition { syntax })
        } else {
            None
        }
    }

    fn syntax(&self) -> (r: &SyntaxNode) {
        &self.syntax
    }
}

impl ScalarTypeDefinition {
    pub fn description(&self) -> (r: Option<Description>)
        requires
            self.spec_syntax().wf(),
        ensures
            support::child_post::<Description>(self.spec_syntax(), r),
    {
        support::child(&self.syntax)
    }

    pub fn scalar_token(&self) -> (r: Option<SyntaxToken>)
        requires
            self.spec_syntax().wf(),
        ensures
            support::token_post(self.spec_syntax(), SyntaxKind::SCALAR_KW, r),
    {
        support::token(&self.syntax, SyntaxKind::SCALAR_KW)
    }

    pub fn name(&self) -> (r: Option<Name>)
        requires
            self.spec_syntax().wf(),
        ensures
            support::child_post::<Name>(self.spec_syntax(), r),
    {
        support::child(&self.syntax)
    }

    pub fn directives(&self) -> (r: Option<Directives>)
        requires
            self.spec_syntax().wf(),
        ensures
            support::child_post::<Directives>(self.spec_syntax(), r),
    {
        support::child(&self.syntax)
    }
}

#[derive(Debug, PartialEq, Eq, Hash)]
pub struct ObjectTypeDefinition {
    pub(crate) syntax: SyntaxNode,
}

impl AstNode for ObjectTypeDefinition {
    open spec fn spec_can_cast(kind: SyntaxKind) -> bool {
        kind == SyntaxKind::OBJECT_TYPE_DEFINITION
    }

    closed spec fn spec_syntax(self) -> SyntaxNode {
        self.syntax
    }

    fn can_cast(kind: SyntaxKind) -> (r: bool) {
        kind == SyntaxKind::OBJECT_TYPE_DEFINITION
    }

    fn cast(syntax: SyntaxNode) -> (r: Option<Self>) {
        if syntax.kind() == SyntaxKind::OBJECT_TYPE_DEFINITION {
            Some(ObjectTypeDefinition { syntax })
        } else {
            None
        }
    }

    fn syntax(&self) -> (r: &SyntaxNode) {
        &self.syntax
    }
}

impl ObjectTypeDefinition {
    pub fn description(&self) -> (r: Option<Description>)
        requires
            self.spec_syntax().wf(),
        ensures
            support::child_post::<Description>(self.spec_syntax(), r),
    {
        support::child(&self.syntax)
    }

    pub fn type_token(&self) -> (r: Option<SyntaxToken>)
        requires
            self.spec_syntax().wf(),
        ensures
            support::token_post(self.spec_syntax(), SyntaxKind::TYPE_KW, r),
    {
        support::token(&self.syntax, SyntaxKind::TYPE_KW)
    }

    pub fn name(&self) -> (r: Option<Name>)
        requires
            self.spec_syntax().wf(),
        ensures
            support::child_post::<Name>(self.spec_syntax(), r),
    {
        support::child(&self.syntax)
    }

    pub fn implements_interfaces(&self) -> (r: Option<ImplementsInterfaces>)
        requires
            self.spec_syntax().wf(),
        ensures
            support::child_post::<ImplementsInterfaces>(self.spec_syntax(), r),
    {
        support::child(&self.syntax)
    }

    pub fn directives(&self) -> (r: Option<Directives>)
        requires
            self.spec_syntax().wf(),
        ensures
            support::child_post::<Directives>(self.spec_syntax(), r),
    {
        support::child(&self.syntax)
    }

    pub fn fields_definition(&self) -> (r: Option<FieldsDefinition>)
        requires
            self.spec_syntax().wf(),
        ensures
            support::child_post::<FieldsDefinition>(self.spec_syntax(), r),
    {
        support::child(&self.syntax)
    }
}

#[derive(Debug, PartialEq, Eq, Hash)]
pub struct InterfaceTypeDefinition {
    pub(crate) syntax: SyntaxNode,
}

impl AstNode for InterfaceTypeDefinition {
    open spec fn spec_can_cast(kind: SyntaxKind) -> bool {
        kind == SyntaxKind::INTERFACE_TYPE_DEFINITION
    }

    closed spec fn spec_syntax(self) -> SyntaxNode {
        self.syntax
    }

    fn can_cast(kind: SyntaxKind) -> (r: bool) {
        kind == SyntaxKind::INTERFACE_TYPE_DEFINITION
    }

    fn cast(syntax: SyntaxNode) -> (r: Option<Self>) {
        if syntax.kind() == SyntaxKind::INTERFACE_TYPE_DEFINITION {
            Some(InterfaceTypeDefinition { syntax })
        } else {
            None
        }
    }

    fn syntax(&self) -> (r: &SyntaxNode) {
        &self.syntax
    }
}

impl InterfaceTypeDefinition {
    pub fn description(&self) -> (r: Option<Description>)
        requires
            self.spec_syntax().wf(),
        ensures
            support::child_post::<Description>(self.spec_syntax(), r),
    {
        support::child(&self.syntax)
    }

    pub fn interface_token(&self) -> (r: Option<SyntaxToken>)
        requires
            self.spec_syntax().wf(),
        ensures
            support::token_post(self.spec_syntax(), SyntaxKind::INTERFACE_KW, r),
    {
        support::token(&self.syntax, SyntaxKind::INTERFACE_KW)
    }

    pub fn name(&self) -> (r: Option<Name>)
        requires
            self.spec_syntax().wf(),
        ensures
            support::child_post::<Name>(self.spec_syntax(), r),
    {
        support::child(&self.syntax)
    }

    pub fn directives(&self) -> (r: Option<Directives>)
        requires
            self.spec_syntax().wf(),
        ensures
            support::child_post::<Directives>(self.spec_syntax(), r),
    {
        support::child(&self.syntax)
    }

    pub fn fields_definition(&self) -> (r: Option<FieldsDefinition>)
        requires
            self.spec_syntax().wf(),
        ensures
            support::child_post::<FieldsDefinition>(self.spec_syntax(), r),
    {
        support::child(&self.syntax)
    }
}

#[derive(Debug, PartialEq, Eq, Hash)]
pub struct UnionTypeDefinition {
    pub(crate) syntax: SyntaxNode,
}

impl AstNode for UnionTypeDefinition {
    open spec fn spec_can_cast(kind: SyntaxKind) -> bool {
        kind == SyntaxKind::UNION_TYPE_DEFINITION
    }

    closed spec fn spec_syntax(self) -> SyntaxNode {
        self.syntax
    }

    fn can_cast(kind: SyntaxKind) -> (r: bool) {
        kind == SyntaxKind::UNION_TYPE_DEFINITION
    }

    fn cast(syntax: SyntaxNode) -> (r: Option<Self>) {
        if syntax.kind() == SyntaxKind::UNION_TYPE_DEFINITION {
            Some(UnionTypeDefinition { syntax })
        } else {
            None
        }
    }

    fn syntax(&self) -> (r: &SyntaxNode) {
        &self.syntax
    }
}

impl UnionTypeDefinition {
    pub fn description(&self) -> (r: Option<Description>)
        requires
            self.spec_syntax().wf(),
        ensures
            support::child_post::<Description>(self.spec_syntax(), r),
    {
        support::child(&self.syntax)
    }

    pub fn union_token(&self) -> (r: Option<SyntaxToken>)
        requires
            self.spec_syntax().wf(),
        ensures
            support::token_post(self.spec_syntax(), SyntaxKind::UNION_KW, r),
    {
        support::token(&self.syntax, SyntaxKind::UNION_KW)
    }

    pub fn name(&self) -> (r: Option<Name>)
        requires
            self.spec_syntax().wf(),
        ensures
            support::child_post::<Name>(self.spec_syntax(), r),
    {
        support::child(&self.syntax)
    }

    pub fn directives(&self) -> (r: Option<Directives>)
        requires
            self.spec_syntax().wf(),
        ensures
            support::child_post::<Directives>(self.spec_syntax(), r),
    {
        support::child(&self.syntax)
    }

    pub fn union_member_types(&self) -> (r: Option<UnionMemberTypes>)
        requires
            self.spec_syntax().wf(),
        ensures
            support::child_post::<UnionMemberTypes>(self.spec_syntax(), r),
    {
        support::child(&self.syntax)
    }
}

#[derive(Debug, PartialEq, Eq, Hash)]
pub struct EnumTypeDefinition {
    pub(crate) syntax: SyntaxNode,
}

impl AstNode for EnumTypeDefinition {
    open spec fn spec_can_cast(kind: SyntaxKind) -> bool {
        kind == SyntaxKind::ENUM_TYPE_DEFINITION
    }

    closed spec fn spec_syntax(self) -> SyntaxNode {
        self.syntax
    }

    fn can_cast(kind: SyntaxKind) -> (r: bool) {
        kind == SyntaxKind::ENUM_TYPE_DEFINITION
    }

    fn cast(syntax: SyntaxNode) -> (r: Option<Self>) {
        if syntax.kind() == SyntaxKind::ENUM_TYPE_DEFINITION {
            Some(EnumTypeDefinition { syntax })
        } else {
            None
        }
    }

    fn syntax(&self) -> (r: &SyntaxNode) {
        &self.syntax
    }
}

impl EnumTypeDefinition {
    pub fn description(&self) -> (r: Option<Description>)
        requires
            self.spec_syntax().wf(),
        ensures
            support::child_post::<Description>(self.spec_syntax(), r),
    {
        support::child(&self.syntax)
    }

    pub fn enum_token(&self) -> (r: Option<SyntaxToken>)
        requires
            self.spec_syntax().wf(),
        ensures
            support::token_post(self.spec_syntax(), SyntaxKind::ENUM_KW, r),
    {
        support::token(&self.syntax, SyntaxKind::ENUM_KW)
    }

    pub fn name(&self) -> (r: Option<Name>)
        requires
            self.spec_syntax().wf(),
        ensures
            support::child_post::<Name>(self.spec_syntax(), r),
    {
        support::child(&self.syntax)
    }

    pub fn directives(&self) -> (r: Option<Directives>)
        requires
            self.spec_syntax().wf(),
        ensures
            support::child_post::<Directives>(self.spec_syntax(), r),
    {
        support::child(&self.syntax)
    }

    pub fn enum_values_definition(&self) -> (r: Option<EnumValuesDefinition>)
        requires
            self.spec_syntax().wf(),
        ensures
            support::child_post::<EnumValuesDefinition>(self.spec_syntax(), r),
    {
        support::child(&self.syntax)
    }
}

#[derive(Debug, PartialEq, Eq, Hash)]
pub struct InputObjectTypeDefinition {
    pub(crate) syntax: SyntaxNode,
}

impl AstNode for InputObjectTypeDefinition {
    open spec fn spec_can_cast(kind: SyntaxKind) -> bool {
        kind == SyntaxKind::INPUT_OBJECT_TYPE_DEFINITION
    }

    closed spec fn spec_syntax(self) -> SyntaxNode {
        self.syntax
    }

    fn can_cast(kind: SyntaxKind) -> (r: bool) {
        kind == SyntaxKind::INPUT_OBJECT_TYPE_DEFINITION
    }

    fn cast(syntax: SyntaxNode) -> (r: Option<Self>) {
        if syntax.kind() == SyntaxKind::INPUT_OBJECT_TYPE_DEFINITION {
            Some(InputObjectTypeDefinition { syntax })
        } else {
            None
        }
    }

    fn syntax(&self) -> (r: &SyntaxNode) {
        &self.syntax
    }
}

impl InputObjectTypeDefinition {
    pub fn description(&self) -> (r: Option<Description>)
        requires
            self.spec_syntax().wf(),
        ensures
            support::child_post::<Description>(self.spec_syntax(), r),
    {
        support::child(&self.syntax)
    }

    pub fn input_token(&self) -> (r: Option<SyntaxToken>)
        requires
            self.spec_syntax().wf(),
        ensures
            support::token_post(self.spec_syntax(), SyntaxKind::INPUT_KW, r),
    {
        support::token(&self.syntax, SyntaxKind::INPUT_KW)
    }

    pub fn name(&self) -> (r: Option<Name>)
        requires
            self.spec_syntax().wf(),
        ensures
            support::child_post::<Name>(self.spec_syntax(), r),
    {
        support::child(&self.syntax)
    }

    pub fn directives(&self) -> (r: Option<Directives>)
        requires
            self.spec_syntax().wf(),
        ensures
            support::child_post::<Directives>(self.spec_syntax(), r),
    {
        support::child(&self.syntax)
    }

    pub fn input_fields_definition(&self) -> (r: Option<InputFieldsDefinition>)
        requires
            self.spec_syntax().wf(),
        ensures
            support::child_post::<InputFieldsDefinition>(self.spec_syntax(), r),
    {
        support::child(&self.syntax)
    }
}

#[derive(Debug, PartialEq, Eq, Hash)]
pub struct ScalarTypeExtension {
    pub(crate) syntax: SyntaxNode,
}

impl AstNode for ScalarTypeExtension {
    open spec fn spec_can_cast(kind: SyntaxKind) -> bool {
        kind == SyntaxKind::SCALAR_TYPE_EXTENSION
    }

    closed spec fn spec_syntax(self) -> SyntaxNode {
        self.syntax
    }

    fn can_cast(kind: SyntaxKind) -> (r: bool) {
        kind == SyntaxKind::SCALAR_TYPE_EXTENSION
    }

    fn cast(syntax: SyntaxNode) -> (r: Option<Self>) {
        if syntax.kind() == SyntaxKind::SCALAR_TYPE_EXTENSION {
            Some(ScalarTypeExtension { syntax })
        } else {
            None
        }
    }

    fn syntax(&self) -> (r: &SyntaxNode) {
        &self.syntax
    }
}

impl ScalarTypeExtension {
    pub fn extend_token(&self) -> (r: Option<SyntaxToken>)
        requires
            self.spec_syntax().wf(),
        ensures
            support::token_post(self.spec_syntax(), SyntaxKind::EXTEND_KW, r),
    {
        support::token(&self.syntax, SyntaxKind::EXTEND_KW)
    }

    pub fn scalar_token(&self) -> (r: Option<SyntaxToken>)
        requires
            self.spec_syntax().wf(),
        ensures
            support::token_post(self.spec_syntax(), SyntaxKind::SCALAR_KW, r),
    {
        support::token(&self.syntax, SyntaxKind::SCALAR_KW)
    }

    pub fn name(&self) -> (r: Option<Name>)
        requires
            self.spec_syntax().wf(),
        ensures
            support::child_post::<Name>(self.spec_syntax(), r),
    {
        support::child(&self.syntax)
    }

    pub fn directives(&self) -> (r: Option<Directives>)
        requires
            self.spec_syntax().wf(),
        ensures
            support::child_post::<Directives>(self.spec_syntax(), r),
    {
        support::child(&self.syntax)
    }
}

#[derive(Debug, PartialEq, Eq, Hash)]
pub struct ObjectTypeExtension {
    pub(crate) syntax: SyntaxNode,
}

impl AstNode for ObjectTypeExtension {
    open spec fn spec_can_cast(kind: SyntaxKind) -> bool {
        kind == SyntaxKind::OBJECT_TYPE_EXTENSION
    }

    closed spec fn spec_syntax(self) -> SyntaxNode {
        self.syntax
    }

    fn can_cast(kind: SyntaxKind) -> (r: bool) {
        kind == SyntaxKind::OBJECT_TYPE_EXTENSION
    }

    fn cast(syntax: SyntaxNode) -> (r: Option<Self>) {
        if syntax.kind() == SyntaxKind::OBJECT_TYPE_EXTENSION {
            Some(ObjectTypeExtension { syntax })
        } else {
            None
        }
    }

    fn syntax(&self) -> (r: &SyntaxNode) {
        &self.syntax
    }
}

impl ObjectTypeExtension {
    pub fn extend_token(&self) -> (r: Option<SyntaxToken>)
        requires
            self.spec_syntax().wf(),
        ensures
            support::token_post(self.spec_syntax(), SyntaxKind::EXTEND_KW, r),
    {
        support::token(&self.syntax, SyntaxKind::EXTEND_KW)
    }

    pub fn type_token(&self) -> (r: Option<SyntaxToken>)
        requires
            self.spec_syntax().wf(),
        ensures
            support::token_post(self.spec_syntax(), SyntaxKind::TYPE_KW, r),
    {
        support::token(&self.syntax, SyntaxKind::TYPE_KW)
    }

    pub fn name(&self) -> (r: Option<Name>)
        requires
            self.spec_syntax().wf(),
        ensures
            support::child_post::<Name>(self.spec_syntax(), r),
    {
        support::child(&self.syntax)
    }

    pub fn implements_interfaces(&self) -> (r: Option<ImplementsInterfaces>)
        requires
            self.spec_syntax().wf(),
        ensures
            support::child_post::<ImplementsInterfaces>(self.spec_syntax(), r),
    {
        support::child(&self.syntax)
    }

    pub fn directives(&self) -> (r: Option<Directives>)
        requires
            self.spec_syntax().wf(),
        ensures
            support::child_post::<Directives>(self.spec_syntax(), r),
    {
        support::child(&self.syntax)
    }

    pub fn fields_definition(&self) -> (r: Option<FieldsDefinition>)
        requires
            self.spec_syntax().wf(),
        ensures
            support::child_post::<FieldsDefinition>(self.spec_syntax(), r),
    {
        support::child(&self.syntax)
    }
}

#[derive(Debug, PartialEq, Eq, Hash)]
pub struct InterfaceTypeExtension {
    pub(crate) syntax: SyntaxNode,
}

impl AstNode for InterfaceTypeExtension {
    open spec fn spec_can_cast(kind: SyntaxKind) -> bool {
        kind == SyntaxKind::INTERFACE_TYPE_EXTENSION
    }

    closed spec fn spec_syntax(self) -> SyntaxNode {
        self.syntax
    }

    fn can_cast(kind: SyntaxKind) -> (r: bool) {
        kind == SyntaxKind::INTERFACE_TYPE_EXTENSION
    }

    fn cast(syntax: SyntaxNode) -> (r: Option<Self>) {
        if syntax.kind() == SyntaxKind::INTERFACE_TYPE_EXTENSION {
            Some(InterfaceTypeExtension { syntax })
        } else {
            None
        }
    }

    fn syntax(&self) -> (r: &SyntaxNode) {
        &self.syntax
    }
}

impl InterfaceTypeExtension {
    pub fn extend_token(&self) -> (r: Option<SyntaxToken>)
        requires
            self.spec_syntax().wf(),
        ensures
            support::token_post(self.spec_syntax(), SyntaxKind::EXTEND_KW, r),
    {
        support::token(&self.syntax, SyntaxKind::EXTEND_KW)
    }

    pub fn interface_token(&self) -> (r: Option<SyntaxToken>)
        requires
            self.spec_syntax().wf(),
        ensures
            support::token_post(self.spec_syntax(), SyntaxKind::INTERFACE_KW, r),
    {
        support::token(&self.syntax, SyntaxKind::INTERFACE_KW)
    }

    pub fn name(&self) -> (r: Option<Name>)
        requires
            self.spec_syntax().wf(),
        ensures
            support::child_post::<Name>(self.spec_syntax(), r),
    {
        support::child(&self.syntax)
    }

    pub fn directives(&self) -> (r: Option<Directives>)
        requires
            self.spec_syntax().wf(),
        ensures
            support::child_post::<Directives>(self.spec_syntax(), r),
    {
        support::child(&self.syntax)
    }

    pub fn fields_definition(&self) -> (r: Option<FieldsDefinition>)
        requires
            self.spec_syntax().wf(),
        ensures
            support::child_post::<FieldsDefinition>(self.spec_syntax(), r),
    {
        support::child(&self.syntax)
    }
}

#[derive(Debug, PartialEq, Eq, Hash)]
pub struct UnionTypeExtension {
    pub(crate) syntax: SyntaxNode,
}

impl AstNode for UnionTypeExtension {
    open spec fn spec_can_cast(kind: SyntaxKind) -> bool {
        kind == SyntaxKind::UNION_TYPE_EXTENSION
    }

    closed spec fn spec_syntax(self) -> SyntaxNode {
        self.syntax
    }

    fn can_cast(kind: SyntaxKind) -> (r: bool) {
        kind == SyntaxKind::UNION_TYPE_EXTENSION
    }

    fn cast(syntax: SyntaxNode) -> (r: Option<Self>) {
        if syntax.kind() == SyntaxKind::UNION_TYPE_EXTENSION {
            Some(UnionTypeExtension { syntax })
        } else {
            None
        }
    }

    fn syntax(&self) -> (r: &SyntaxNode) {
        &self.syntax
    }
}

impl UnionTypeExtension {
    pub fn extend_token(&self) -> (r: Option<SyntaxToken>)
        requires
            self.spec_syntax().wf(),
        ensures
            support::token_post(self.spec_syntax(), SyntaxKind::EXTEND_KW, r),
    {
        support::token(&self.syntax, SyntaxKind::EXTEND_KW)
    }

    pub fn union_token(&self) -> (r: Option<SyntaxToken>)
        requires
            self.spec_syntax().wf(),
        ensures
            support::token_post(self.spec_syntax(), SyntaxKind::UNION_KW, r),
    {
        support::token(&self.syntax, SyntaxKind::UNION_KW)
    }

    pub fn name(&self) -> (r: Option<Name>)
        requires
            self.spec_syntax().wf(),
        ensures
            support::child_post::<Name>(self.spec_syntax(), r),
    {
        support::child(&self.syntax)
    }

    pub fn directives(&self) -> (r: Option<Directives>)
        requires
            self.spec_syntax().wf(),
        ensures
            support::child_post::<Directives>(self.spec_syntax(), r),
    {
        support::child(&self.syntax)
    }

    pub fn union_member_types(&self) -> (r: Option<UnionMemberTypes>)
        requires
            self.spec_syntax().wf(),
        ensures
            support::child_post::<UnionMemberTypes>(self.spec_syntax(), r),
    {
        support::child(&self.syntax)
    }
}

#[derive(Debug, PartialEq, Eq, Hash)]
pub struct EnumTypeExtension {
    pub(crate) syntax: SyntaxNode,
}

impl AstNode for EnumTypeExtension {
    open spec fn spec_can_cast(kind: SyntaxKind) -> bool {
        kind == SyntaxKind::ENUM_TYPE_EXTENSION
    }

    closed spec fn spec_syntax(self) -> SyntaxNode {
        self.syntax
    }

    fn can_cast(kind: SyntaxKind) -> (r: bool) {
        kind == SyntaxKind::ENUM_TYPE_EXTENSION
    }

    fn cast(syntax: SyntaxNode) -> (r: Option<Self>) {
        if syntax.kind() == SyntaxKind::ENUM_TYPE_EXTENSION {
            Some(EnumTypeExtension { syntax })
        } else {
            None
        }
    }

    fn syntax(&self) -> (r: &SyntaxNode) {
        &self.syntax
    }
}

impl EnumTypeExtension {
    pub fn extend_token(&self) -> (r: Option<SyntaxToken>)
        requires
            self.spec_syntax().wf(),
        ensures
            support::token_post(self.spec_syntax(), SyntaxKind::EXTEND_KW, r),
    {
        support::token(&self.syntax, SyntaxKind::EXTEND_KW)
    }

    pub fn enum_token(&self) -> (r: Option<SyntaxToken>)
        requires
            self.spec_syntax().wf(),
        ensures
            support::token_post(self.spec_syntax(), SyntaxKind::ENUM_KW, r),
    {
        support::token(&self.syntax, SyntaxKind::ENUM_KW)
    }

    pub fn name(&self) -> (r: Option<Name>)
        requires
            self.spec_syntax().wf(),
        ensures
            support::child_post::<Name>(self.spec_syntax(), r),
    {
        support::child(&self.syntax)
    }

    pub fn directives(&self) -> (r: Option<Directives>)
        requires
            self.spec_syntax().wf(),
        ensures
            support::child_post::<Directives>(self.spec_syntax(), r),
    {
        support::child(&self.syntax)
    }

    pub fn enum_values_definition(&self) -> (r: Option<EnumValuesDefinition>)
        requires
            self.spec_syntax().wf(),
        ensures
            support::child_post::<EnumValuesDefinition>(self.spec_syntax(), r),
    {
        support::child(&self.syntax)
    }
}

#[derive(Debug, PartialEq, Eq, Hash)]
pub struct InputObjectTypeExtension {
    pub(crate) syntax: SyntaxNode,
}

impl AstNode for InputObjectTypeExtension {
    open spec fn spec_can_cast(kind: SyntaxKind) -> bool {
        kind == SyntaxKind::INPUT_OBJECT_TYPE_EXTENSION
    }

    closed spec fn spec_syntax(self) -> SyntaxNode {
        self.syntax
    }

    fn can_cast(kind: SyntaxKind) -> (r: bool) {
        kind == SyntaxKind::INPUT_OBJECT_TYPE_EXTENSION
    }

    fn cast(syntax: SyntaxNode) -> (r: Option<Self>) {
        if syntax.kind() == SyntaxKind::INPUT_OBJECT_TYPE_EXTENSION {
            Some(InputObjectTypeExtension { syntax })
        } else {
            None
        }
    }

    fn syntax(&self) -> (r: &SyntaxNode) {
        &self.syntax
    }
}

impl InputObjectTypeExtension {
    pub fn extend_token(&self) -> (r: Option<SyntaxToken>)
        requires
            self.spec_syntax().wf(),
        ensures
            support::token_post(self.spec_syntax(), SyntaxKind::EXTEND_KW, r),
    {
        support::token(&self.syntax, SyntaxKind::EXTEND_KW)
    }

    pub fn input_token(&self) -> (r: Option<SyntaxToken>)
        requires
            self.spec_syntax().wf(),
        ensures
            support::token_post(self.spec_syntax(), SyntaxKind::INPUT_KW, r),
    {
        support::token(&self.syntax, SyntaxKind::INPUT_KW)
    }

    pub fn name(&self) -> (r: Option<Name>)
        requires
            self.spec_syntax().wf(),
        ensures
            support::child_post::<Name>(self.spec_syntax(), r),
    {
        support::child(&self.syntax)
    }

    pub fn directives(&self) -> (r: Option<Directives>)
        requires
            self.spec_syntax().wf(),
        ensures
            support::child_post::<Directives>(self.spec_syntax(), r),
    {
        support::child(&self.syntax)
    }

    pub fn input_fields_definition(&self) -> (r: Option<InputFieldsDefinition>)
        requires
            self.spec_syntax().wf(),
        ensures
            support::child_post::<InputFieldsDefinition>(self.spec_syntax(), r),
    {
        support::child(&self.syntax)
    }
}

#[derive(Debug, PartialEq, Eq, Hash)]
pub struct ImplementsInterfaces {
    pub(crate) syntax: SyntaxNode,
}

impl AstNode for ImplementsInterfaces {
    open spec fn spec_can_cast(kind: SyntaxKind) -> bool {
        kind == SyntaxKind::IMPLEMENTS_INTERFACES
    }

    closed spec fn spec_syntax(self) -> SyntaxNode {
        self.syntax
    }

    fn can_cast(kind: SyntaxKind) -> (r: bool) {
        kind == SyntaxKind::IMPLEMENTS_INTERFACES
    }

    fn cast(syntax: SyntaxNode) -> (r: Option<Self>) {
        if syntax.kind() == SyntaxKind::IMPLEMENTS_INTERFACES {
            Some(ImplementsInterfaces { syntax })
        } else {
            None
        }
    }

    fn syntax(&self) -> (r: &SyntaxNode) {
        &self.syntax
    }
}

impl ImplementsInterfaces {
    pub fn implements_token(&self) -> (r: Option<SyntaxToken>)
        requires
            self.spec_syntax().wf(),
        ensures
            support::token_post(self.spec_syntax(), SyntaxKind::IMPLEMENTS_KW, r),
    {
        support::token(&self.syntax, SyntaxKind::IMPLEMENTS_KW)
    }

    pub fn amp_token(&self) -> (r: Option<SyntaxToken>)
        requires
            self.spec_syntax().wf(),
        ensures
            support::token_post(self.spec_syntax(), SyntaxKind::AMP, r),
    {
        support::token(&self.syntax, SyntaxKind::AMP)
    }

    pub fn named_type(&self) -> (r: Option<NamedType>)
        requires
            self.spec_syntax().wf(),
        ensures
            support::child_post::<NamedType>(self.spec_syntax(), r),
    {
        support::child(&self.syntax)
    }

    pub fn implements_interfaces(&self) -> (r: Option<ImplementsInterfaces>)
        requires
            self.spec_syntax().wf(),
        ensures
            support::child_post::<ImplementsInterfaces>(self.spec_syntax(), r),
    {
        support::child(&self.syntax)
    }
}

#[derive(Debug, PartialEq, Eq, Hash)]
pub struct FieldsDefinition {
    pub(crate) syntax: SyntaxNode,
}

impl AstNode for FieldsDefinition {
    open spec fn spec_can_cast(kind: SyntaxKind) -> bool {
        kind == SyntaxKind::FIELDS_DEFINITION
    }

    closed spec fn spec_syntax(self) -> SyntaxNode {
        self.syntax
    }

    fn can_cast(kind: SyntaxKind) -> (r: bool) {
        kind == SyntaxKind::FIELDS_DEFINITION
    }

    fn cast(syntax: SyntaxNode) -> (r: Option<Self>) {
        if syntax.kind() == SyntaxKind::FIELDS_DEFINITION {
            Some(FieldsDefinition { syntax })
        } else {
            None
        }
    }

    fn syntax(&self) -> (r: &SyntaxNode) {
        &self.syntax
    }
}

impl FieldsDefinition {
    pub fn l_curly_token(&self) -> (r: Option<SyntaxToken>)
        requires
            self.spec_syntax().wf(),
        ensures
            support::token_post(self.spec_syntax(), SyntaxKind::L_CURLY, r),
    {
        support::token(&self.syntax, SyntaxKind::L_CURLY)
    }

    pub fn field_definitions(&self) -> (r: Vec<FieldDefinition>)
        requires
            self.spec_syntax().wf(),
        ensures
            support::children_post::<FieldDefinition>(self.spec_syntax(), r@),
    {
        support::children(&self.syntax)
    }

    pub fn r_curly_token(&self) -> (r: Option<SyntaxToken>)
        requires
            self.spec_syntax().wf(),
        ensures
            support::token_post(self.spec_syntax(), SyntaxKind::R_CURLY, r),
    {
        support::token(&self.syntax, SyntaxKind::R_CURLY)
    }
}

#[derive(Debug, PartialEq, Eq, Hash)]
pub struct FieldDefinition {
    pub(crate) syntax: SyntaxNode,
}

impl AstNode for FieldDefinition {
    open spec fn spec_can_cast(kind: SyntaxKind) -> bool {
        kind == SyntaxKind::FIELD_DEFINITION
    }

    closed spec fn spec_syntax(self) -> SyntaxNode {
        self.syntax
    }

    fn can_cast(kind: SyntaxKind) -> (r: bool) {
        kind == SyntaxKind::FIELD_DEFINITION
    }

    fn cast(syntax: SyntaxNode) -> (r: Option<Self>) {
        if syntax.kind() == SyntaxKind::FIELD_DEFINITION {
            Some(FieldDefinition { syntax })
        } else {
            None
        }
    }

    fn syntax(&self) -> (r: &SyntaxNode) {
        &self.syntax
    }
}

impl FieldDefinition {
    pub fn description(&self) -> (r: Option<Description>)
        requires
            self.spec_syntax().wf(),
        ensures
            support::child_post::<Description>(self.spec_syntax(), r),
    {
        support::child(&self.syntax)
    }

    pub fn name(&self) -> (r: Option<Name>)
        requires
            self.spec_syntax().wf(),
        ensures
            support::child_post::<Name>(self.spec_syntax(), r),
    {
        support::child(&self.syntax)
    }

    pub fn arguments_definition(&self) -> (r: Option<ArgumentsDefinition>)
        requires
            self.spec_syntax().wf(),
        ensures
            support::child_post::<ArgumentsDefinition>(self.spec_syntax(), r),
    {
        support::child(&self.syntax)
    }

    pub fn colon_token(&self) -> (r: Option<SyntaxToken>)
        requires
            self.spec_syntax().wf(),
        ensures
            support::token_post(self.spec_syntax(), SyntaxKind::COLON, r),
    {
        support::token(&self.syntax, SyntaxKind::COLON)
    }

    pub fn ty(&self) -> (r: Option<Type>)
        requires
            self.spec_syntax().wf(),
        ensures
            support::child_post::<Type>(self.spec_syntax(), r),
    {
        support::child(&self.syntax)
    }

    pub fn directives(&self) -> (r: Option<Directives>)
        requires
            self.spec_syntax().wf(),
        ensures
            support::child_post::<Directives>(self.spec_syntax(), r),
    {
        support::child(&self.syntax)
    }
}

#[derive(Debug, PartialEq, Eq, Hash)]
pub struct ArgumentsDefinition {
    pub(crate) syntax: SyntaxNode,
}

impl AstNode for ArgumentsDefinition {
    open spec fn spec_can_cast(kind: SyntaxKind) -> bool {
        kind == SyntaxKind::ARGUMENTS_DEFINITION
    }

    closed spec fn spec_syntax(self) -> SyntaxNode {
        self.syntax
    }

    fn can_cast(kind: SyntaxKind) -> (r: bool) {
        kind == SyntaxKind::ARGUMENTS_DEFINITION
    }

    fn cast(syntax: SyntaxNode) -> (r: Option<Self>) {
        if syntax.kind() == SyntaxKind::ARGUMENTS_DEFINITION {
            Some(ArgumentsDefinition { syntax })
        } else {
            None
        }
    }

    fn syntax(&self) -> (r: &SyntaxNode) {
        &self.syntax
    }
}

impl ArgumentsDefinition {
    pub fn l_paren_token(&self) -> (r: Option<SyntaxToken>)
        requires
            self.spec_syntax().wf(),
        ensures
            support::token_post(self.spec_syntax(), SyntaxKind::L_PAREN, r),
    {
        support::token(&self.syntax, SyntaxKind::L_PAREN)
    }

    pub fn input_value_definitions(&self) -> (r: Vec<InputValueDefinition>)
        requires
            self.spec_syntax().wf(),
        ensures
            support::children_post::<InputValueDefinition>(self.spec_syntax(), r@),
    {
        support::children(&self.syntax)
    }

    pub fn r_paren_token(&self) -> (r: Option<SyntaxToken>)
        requires
            self.spec_syntax().wf(),
        ensures
            support::token_post(self.spec_syntax(), SyntaxKind::R_PAREN, r),
    {
        support::token(&self.syntax, SyntaxKind::R_PAREN)
    }
}

#[derive(Debug, PartialEq, Eq, Hash)]
pub struct InputValueDefinition {
    pub(crate) syntax: SyntaxNode,
}

impl AstNode for InputValueDefinition {
    open spec fn spec_can_cast(kind: SyntaxKind) -> bool {
        kind == SyntaxKind::INPUT_VALUE_DEFINITION
    }

    closed spec fn spec_syntax(self) -> SyntaxNode {
        self.syntax
    }

    fn can_cast(kind: SyntaxKind) -> (r: bool) {
        kind == SyntaxKind::INPUT_VALUE_DEFINITION
    }

    fn cast(syntax: SyntaxNode) -> (r: Option<Self>) {
        if syntax.kind() == SyntaxKind::INPUT_VALUE_DEFINITION {
            Some(InputValueDefinition { syntax })
        } else {
            None
        }
    }

    fn syntax(&self) -> (r: &SyntaxNode) {
        &self.syntax
    }
}

impl InputValueDefinition {
    pub fn description(&self) -> (r: Option<Description>)
        requires
            self.spec_syntax().wf(),
        ensures
            support::child_post::<Description>(self.spec_syntax(), r),
    {
        support::child(&self.syntax)
    }

    pub fn name(&self) -> (r: Option<Name>)
        requires
            self.spec_syntax().wf(),
        ensures
            support::child_post::<Name>(self.spec_syntax(), r),
    {
        support::child(&self.syntax)
    }

    pub fn colon_token(&self) -> (r: Option<SyntaxToken>)
        requires
            self.spec_syntax().wf(),
        ensures
            support::token_post(self.spec_syntax(), SyntaxKind::COLON, r),
    {
        support::token(&self.syntax, SyntaxKind::COLON)
    }

    pub fn ty(&self) -> (r: Option<Type>)
        requires
            self.spec_syntax().wf(),
        ensures
            support::child_post::<Type>(self.spec_syntax(), r),
    {
        support::child(&self.syntax)
    }

    pub fn default_value(&self) -> (r: Option<DefaultValue>)
        requires
            self.spec_syntax().wf(),
        ensures
            support::child_post::<DefaultValue>(self.spec_syntax(), r),
    {
        support::child(&self.syntax)
    }

    pub fn directives(&self) -> (r: Option<Directives>)
        requires
            self.spec_syntax().wf(),
        ensures
            support::child_post::<Directives>(self.spec_syntax(), r),
    {
        support::child(&self.syntax)
    }
}

#[derive(Debug, PartialEq, Eq, Hash)]
pub struct UnionMemberTypes {
    pub(crate) syntax: SyntaxNode,
}

impl AstNode for UnionMemberTypes {
    open spec fn spec_can_cast(kind: SyntaxKind) -> bool {
        kind == SyntaxKind::UNION_MEMBER_TYPES
    }

    closed spec fn spec_syntax(self) -> SyntaxNode {
        self.syntax
    }

    fn can_cast(kind: SyntaxKind) -> (r: bool) {
        kind == SyntaxKind::UNION_MEMBER_TYPES
    }

    fn cast(syntax: SyntaxNode) -> (r: Option<Self>) {
        if syntax.kind() == SyntaxKind::UNION_MEMBER_TYPES {
            Some(UnionMemberTypes { syntax })
        } else {
            None
        }
    }

    fn syntax(&self) -> (r: &SyntaxNode) {
        &self.syntax
    }
}

impl UnionMemberTypes {
    pub fn eq_token(&self) -> (r: Option<SyntaxToken>)
        requires
            self.spec_syntax().wf(),
        ensures
            support::token_post(self.spec_syntax(), SyntaxKind::EQ, r),
    {
        support::token(&self.syntax, SyntaxKind::EQ)
    }

    pub fn pipe_token(&self) -> (r: Option<SyntaxToken>)
        requires
            self.spec_syntax().wf(),
        ensures
            support::token_post(self.spec_syntax(), SyntaxKind::PIPE, r),
    {
        support::token(&self.syntax, SyntaxKind::PIPE)
    }

    pub fn named_type(&self) -> (r: Option<NamedType>)
        requires
            self.spec_syntax().wf(),
        ensures
            support::child_post::<NamedType>(self.spec_syntax(), r),
    {
        support::child(&self.syntax)
    }

    pub fn union_member_types(&self) -> (r: Option<UnionMemberTypes>)
        requires
            self.spec_syntax().wf(),
        ensures
            support::child_post::<UnionMemberTypes>(self.spec_syntax(), r),
    {
        support::child(&self.syntax)
    }
}

#[derive(Debug, PartialEq, Eq, Hash)]
pub struct EnumValuesDefinition {
    pub(crate) syntax: SyntaxNode,
}

impl AstNode for EnumValuesDefinition {
    open spec fn spec_can_cast(kind: SyntaxKind) -> bool {
        kind == SyntaxKind::ENUM_VALUES_DEFINITION
    }

    closed spec fn spec_syntax(self) -> SyntaxNode {
        self.syntax
    }

    fn can_cast(kind: SyntaxKind) -> (r: bool) {
        kind == SyntaxKind::ENUM_VALUES_DEFINITION
    }

    fn cast(syntax: SyntaxNode) -> (r: Option<Self>) {
        if syntax.kind() == SyntaxKind::ENUM_VALUES_DEFINITION {
            Some(EnumValuesDefinition { syntax })
        } else {
            None
        }
    }

    fn syntax(&self) -> (r: &SyntaxNode) {
        &self.syntax
    }
}

impl EnumValuesDefinition {
    pub fn l_curly_token(&self) -> (r: Option<SyntaxToken>)
        requires
            self.spec_syntax().wf(),
        ensures
            support::token_post(self.spec_syntax(), SyntaxKind::L_CURLY, r),
    {
        support::token(&self.syntax, SyntaxKind::L_CURLY)
    }

    pub fn enum_value_definitions(&self) -> (r: Vec<EnumValueDefinition>)
        requires
            self.spec_syntax().wf(),
        ensures
            support::children_post::<EnumValueDefinition>(self.spec_syntax(), r@),
    {
        support::children(&self.syntax)
    }

    pub fn r_curly_token(&self) -> (r: Option<SyntaxToken>)
        requires
            self.spec_syntax().wf(),
        ensures
            support::token_post(self.spec_syntax(), SyntaxKind::R_CURLY, r),
    {
        support::token(&self.syntax, SyntaxKind::R_CURLY)
    }
}

#[derive(Debug, PartialEq, Eq, Hash)]
pub struct EnumValueDefinition {
    pub(crate) syntax: SyntaxNode,
}

impl AstNode for EnumValueDefinition {
    open spec fn spec_can_cast(kind: SyntaxKind) -> bool {
        kind == SyntaxKind::ENUM_VALUE_DEFINITION
    }

    closed spec fn spec_syntax(self) -> SyntaxNode {
        self.syntax
    }

    fn can_cast(kind: SyntaxKind) -> (r: bool) {
        kind == SyntaxKind::ENUM_VALUE_DEFINITION
    }

    fn cast(syntax: SyntaxNode) -> (r: Option<Self>) {
        if syntax.kind() == SyntaxKind::ENUM_VALUE_DEFINITION {
            Some(EnumValueDefinition { syntax })
        } else {
            None
        }
    }

    fn syntax(&self) -> (r: &SyntaxNode) {
        &self.syntax
    }
}

impl EnumValueDefinition {
    pub fn description(&self) -> (r: Option<Description>)
        requires
            self.spec_syntax().wf(),
        ensures
            support::child_post::<Description>(self.spec_syntax(), r),
    {
        support::child(&self.syntax)
    }

    pub fn enum_value(&self) -> (r: Option<EnumValue>)
        requires
            self.spec_syntax().wf(),
        ensures
            support::child_post::<EnumValue>(self.spec_syntax(), r),
    {
        support::child(&self.syntax)
    }

    pub fn directives(&self) -> (r: Option<Directives>)
        requires
            self.spec_syntax().wf(),
        ensures
            support::child_post::<Directives>(self.spec_syntax(), r),
    {
        support::child(&self.syntax)
    }
}

#[derive(Debug, PartialEq, Eq, Hash)]
pub struct InputFieldsDefinition {
    pub(crate) syntax: SyntaxNode,
}

impl AstNode for InputFieldsDefinition {
    open spec fn spec_can_cast(kind: SyntaxKind) -> bool {
        kind == SyntaxKind::INPUT_FIELDS_DEFINITION
    }

    closed spec fn spec_syntax(self) -> SyntaxNode {
        self.syntax
    }

    fn can_cast(kind: SyntaxKind) -> (r: bool) {
        kind == SyntaxKind::INPUT_FIELDS_DEFINITION
    }

    fn cast(syntax: SyntaxNode) -> (r: Option<Self>) {
        if syntax.kind() == SyntaxKind::INPUT_FIELDS_DEFINITION {
            Some(InputFieldsDefinition { syntax })
        } else {
            None
        }
    }

    fn syntax(&self) -> (r: &SyntaxNode) {
        &self.syntax
    }
}

impl InputFieldsDefinition {
    pub fn l_curly_token(&self) -> (r: Option<SyntaxToken>)
        requires
            self.spec_syntax().wf(),
        ensures
            support::token_post(self.spec_syntax(), SyntaxKind::L_CURLY, r),
    {
        support::token(&self.syntax, SyntaxKind::L_CURLY)
    }

    pub fn input_value_definitions(&self) -> (r: Vec<InputValueDefinition>)
        requires
            self.spec_syntax().wf(),
        ensures
            support::children_post::<InputValueDefinition>(self.spec_syntax(), r@),
    {
        support::children(&self.syntax)
    }

    pub fn r_curly_token(&self) -> (r: Option<SyntaxToken>)
        requires
            self.spec_syntax().wf(),
        ensures
            support::token_post(self.spec_syntax(), SyntaxKind::R_CURLY, r),
    {
        support::token(&self.syntax, SyntaxKind::R_CURLY)
    }
}

#[derive(Debug, PartialEq, Eq, Hash)]
pub struct DirectiveLocations {
    pub(crate) syntax: SyntaxNode,
}

impl AstNode for DirectiveLocations {
    open spec fn spec_can_cast(kind: SyntaxKind) -> bool {
        kind == SyntaxKind::DIRECTIVE_LOCATIONS
    }

    closed spec fn spec_syntax(self) -> SyntaxNode {
        self.syntax
    }

    fn can_cast(kind: SyntaxKind) -> (r: bool) {
        kind == SyntaxKind::DIRECTIVE_LOCATIONS
    }

    fn cast(syntax: SyntaxNode) -> (r: Option<Self>) {
        if syntax.kind() == SyntaxKind::DIRECTIVE_LOCATIONS {
            Some(DirectiveLocations { syntax })
        } else {
            None
        }
    }

    fn syntax(&self) -> (r: &SyntaxNode) {
        &self.syntax
    }
}

impl DirectiveLocations {
    pub fn pipe_token(&self) -> (r: Option<SyntaxToken>)
        requires
            self.spec_syntax().wf(),
        ensures
            support::token_post(self.spec_syntax(), SyntaxKind::PIPE, r),
    {
        support::token(&self.syntax, SyntaxKind::PIPE)
    }

    pub fn directive_location(&self) -> (r: Option<DirectiveLocation>)
        requires
            self.spec_syntax().wf(),
        ensures
            support::child_post::<DirectiveLocation>(self.spec_syntax(), r),
    {
        support::child(&self.syntax)
    }

    pub fn directive_locations(&self) -> (r: Option<DirectiveLocations>)
        requires
            self.spec_syntax().wf(),
        ensures
            support::child_post::<DirectiveLocations>(self.spec_syntax(), r),
    {
        support::child(&self.syntax)
    }
}

#[derive(Debug, PartialEq, Eq, Hash)]
pub struct DirectiveLocation {
    pub(crate) syntax: SyntaxNode,
}

impl AstNode for DirectiveLocation {
    open spec fn spec_can_cast(kind: SyntaxKind) -> bool {
        kind == SyntaxKind::DIRECTIVE_LOCATION
    }

    closed spec fn spec_syntax(self) -> SyntaxNode {
        self.syntax
    }

    fn can_cast(kind: SyntaxKind) -> (r: bool) {
        kind == SyntaxKind::DIRECTIVE_LOCATION
    }

    fn cast(syntax: SyntaxNode) -> (r: Option<Self>) {
        if syntax.kind() == SyntaxKind::DIRECTIVE_LOCATION {
            Some(DirectiveLocation { syntax })
        } else {
            None
        }
    }

    fn syntax(&self) -> (r: &SyntaxNode) {
        &self.syntax
    }
}

impl DirectiveLocation {
    pub fn executable_directive_location(&self) -> (r: Option<ExecutableDirectiveLocation>)
        requires
            self.spec_syntax().wf(),
        ensures
            support::child_post::<ExecutableDirectiveLocation>(self.spec_syntax(), r),
    {
        support::child(&self.syntax)
    }

    pub fn type_system_directive_location(&self) -> (r: Option<TypeSystemDirectiveLocation>)
        requires
            self.spec_syntax().wf(),
        ensures
            support::child_post::<TypeSystemDirectiveLocation>(self.spec_syntax(), r),
    {
        support::child(&self.syntax)
    }
}

#[derive(Debug, PartialEq, Eq, Hash)]
pub struct ExecutableDirectiveLocation {
    pub(crate) syntax: SyntaxNode,
}

impl AstNode for ExecutableDirectiveLocation {
    open spec fn spec_can_cast(kind: SyntaxKind) -> bool {
        kind == SyntaxKind::EXECUTABLE_DIRECTIVE_LOCATION
    }

    closed spec fn spec_syntax(self) -> SyntaxNode {
        self.syntax
    }

    fn can_cast(kind: SyntaxKind) -> (r: bool) {
        kind == SyntaxKind::EXECUTABLE_DIRECTIVE_LOCATION
    }

    fn cast(syntax: SyntaxNode) -> (r: Option<Self>) {
        if syntax.kind() == SyntaxKind::EXECUTABLE_DIRECTIVE_LOCATION {
            Some(ExecutableDirectiveLocation { syntax })
        } else {
            None
        }
    }

    fn syntax(&self) -> (r: &SyntaxNode) {
        &self.syntax
    }
}

impl ExecutableDirectiveLocation {
    #[allow(non_snake_case)]
    pub fn QUERY_token(&self) -> (r: Option<SyntaxToken>)
        requires
            self.spec_syntax().wf(),
        ensures
            support::token_post(self.spec_syntax(), SyntaxKind::UPPER_QUERY, r),
    {
        support::token(&self.syntax, SyntaxKind::UPPER_QUERY)
    }

    #[allow(non_snake_case)]
    pub fn MUTATION_token(&self) -> (r: Option<SyntaxToken>)
        requires
            self.spec_syntax().wf(),
        ensures
            support::token_post(self.spec_syntax(), SyntaxKind::UPPER_MUTATION, r),
    {
        support::token(&self.syntax, SyntaxKind::UPPER_MUTATION)
    }

    #[allow(non_snake_case)]
    pub fn SUBSCRIPTION_token(&self) -> (r: Option<SyntaxToken>)
        requires
            self.spec_syntax().wf(),
        ensures
            support::token_post(self.spec_syntax(), SyntaxKind::UPPER_SUBSCRIPTION, r),
    {
        support::token(&self.syntax, SyntaxKind::UPPER_SUBSCRIPTION)
    }

    #[allow(non_snake_case)]
    pub fn FIELD_token(&self) -> (r: Option<SyntaxToken>)
        requires
            self.spec_syntax().wf(),
        ensures
            support::token_post(self.spec_syntax(), SyntaxKind::UPPER_FIELD, r),
    {
        support::token(&self.syntax, SyntaxKind::UPPER_FIELD)
    }

    #[allow(non_snake_case)]
    pub fn FRAGMENT_DEFINITION_token(&self) -> (r: Option<SyntaxToken>)
        requires
            self.spec_syntax().wf(),
        ensures
            support::token_post(self.spec_syntax(), SyntaxKind::UPPER_FRAGMENT_DEFINITION, r),
    {
        support::token(&self.syntax, SyntaxKind::UPPER_FRAGMENT_DEFINITION)
    }

    #[allow(non_snake_case)]
    pub fn FRAGMENT_SPREAD_token(&self) -> (r: Option<SyntaxToken>)
        requires
            self.spec_syntax().wf(),
        ensures
            support::token_post(self.spec_syntax(), SyntaxKind::UPPER_FRAGMENT_SPREAD, r),
    {
        support::token(&self.syntax, SyntaxKind::UPPER_FRAGMENT_SPREAD)
    }

    #[allow(non_snake_case)]
    pub fn INLINE_FRAGMENT_token(&self) -> (r: Option<SyntaxToken>)
        requires
            self.spec_syntax().wf(),
        ensures
            support::token_post(self.spec_syntax(), SyntaxKind::UPPER_INLINE_FRAGMENT, r),
    {
        support::token(&self.syntax, SyntaxKind::UPPER_INLINE_FRAGMENT)
    }
}

#[derive(Debug, PartialEq, Eq, Hash)]
pub struct TypeSystemDirectiveLocation {
    pub(crate) syntax: SyntaxNode,
}

impl AstNode for TypeSystemDirectiveLocation {
    open spec fn spec_can_cast(kind: SyntaxKind) -> bool {
        kind == SyntaxKind::TYPE_SYSTEM_DIRECTIVE_LOCATION
    }

    closed spec fn spec_syntax(self) -> SyntaxNode {
        self.syntax
    }

    fn can_cast(kind: SyntaxKind) -> (r: bool) {
        kind == SyntaxKind::TYPE_SYSTEM_DIRECTIVE_LOCATION
    }

    fn cast(syntax: SyntaxNode) -> (r: Option<Self>) {
        if syntax.kind() == SyntaxKind::TYPE_SYSTEM_DIRECTIVE_LOCATION {
            Some(TypeSystemDirectiveLocation { syntax })
        } else {
            None
        }
    }

    fn syntax(&self) -> (r: &SyntaxNode) {
        &self.syntax
    }
}

impl TypeSystemDirectiveLocation {
    #[allow(non_snake_case)]
    pub fn SCHEMA_token(&self) -> (r: Option<SyntaxToken>)
        requires
            self.spec_syntax().wf(),
        ensures
            support::token_post(self.spec_syntax(), SyntaxKind::UPPER_SCHEMA, r),
    {
        support::token(&self.syntax, SyntaxKind::UPPER_SCHEMA)
    }

    pub fn scalar_token(&self) -> (r: Option<SyntaxToken>)
        requires
            self.spec_syntax().wf(),
        ensures
            support::token_post(self.spec_syntax(), SyntaxKind::SCALAR_KW, r),
    {
        support::token(&self.syntax, SyntaxKind::SCALAR_KW)
    }

    #[allow(non_snake_case)]
    pub fn OBJECT_token(&self) -> (r: Option<SyntaxToken>)
        requires
            self.spec_syntax().wf(),
        ensures
            support::token_post(self.spec_syntax(), SyntaxKind::UPPER_OBJECT, r),
    {
        support::token(&self.syntax, SyntaxKind::UPPER_OBJECT)
    }

    #[allow(non_snake_case)]
    pub fn FIELD_DEFINITION_token(&self) -> (r: Option<SyntaxToken>)
        requires
            self.spec_syntax().wf(),
        ensures
            support::token_post(self.spec_syntax(), SyntaxKind::UPPER_FIELD_DEFINITION, r),
    {
        support::token(&self.syntax, SyntaxKind::UPPER_FIELD_DEFINITION)
    }

    #[allow(non_snake_case)]
    pub fn ARGUMENT_DEFINITION_token(&self) -> (r: Option<SyntaxToken>)
        requires
            self.spec_syntax().wf(),
        ensures
            support::token_post(self.spec_syntax(), SyntaxKind::UPPER_ARGUMENT_DEFINITION, r),
    {
        support::token(&self.syntax, SyntaxKind::UPPER_ARGUMENT_DEFINITION)
    }

    #[allow(non_snake_case)]
    pub fn INTERFACE_token(&self) -> (r: Option<SyntaxToken>)
        requires
            self.spec_syntax().wf(),
        ensures
            support::token_post(self.spec_syntax(), SyntaxKind::UPPER_INTERFACE, r),
    {
        support::token(&self.syntax, SyntaxKind::UPPER_INTERFACE)
    }

    #[allow(non_snake_case)]
    pub fn UNION_token(&self) -> (r: Option<SyntaxToken>)
        requires
            self.spec_syntax().wf(),
        ensures
            support::token_post(self.spec_syntax(), SyntaxKind::UPPER_UNION, r),
    {
        support::token(&self.syntax, SyntaxKind::UPPER_UNION)
    }

    #[allow(non_snake_case)]
    pub fn ENUM_token(&self) -> (r: Option<SyntaxToken>)
        requires
            self.spec_syntax().wf(),
        ensures
            support::token_post(self.spec_syntax(), SyntaxKind::UPPER_ENUM, r),
    {
        support::token(&self.syntax, SyntaxKind::UPPER_ENUM)
    }

    #[allow(non_snake_case)]
    pub fn ENUM_VALUE_token(&self) -> (r: Option<SyntaxToken>)
        requires
            self.spec_syntax().wf(),
        ensures
            support::token_post(self.spec_syntax(), SyntaxKind::UPPER_ENUM_VALUE, r),
    {
        support::token(&self.syntax, SyntaxKind::UPPER_ENUM_VALUE)
    }

    #[allow(non_snake_case)]
    pub fn INPUT_OBJECT_token(&self) -> (r: Option<SyntaxToken>)
        requires
            self.spec_syntax().wf(),
        ensures
            support::token_post(self.spec_syntax(), SyntaxKind::UPPER_INPUT_OBJECT, r),
    {
        support::token(&self.syntax, SyntaxKind::UPPER_INPUT_OBJECT)
    }

    #[allow(non_snake_case)]
    pub fn INPUT_FIELD_DEFINITION_token(&self) -> (r: Option<SyntaxToken>)
        requires
            self.spec_syntax().wf(),
        ensures
            support::token_post(self.spec_syntax(), SyntaxKind::UPPER_INPUT_FIELD_DEFINITION, r),
    {
        support::token(&self.syntax, SyntaxKind::UPPER_INPUT_FIELD_DEFINITION)
    }
}

#[derive(Debug, PartialEq, Eq, Hash)]
pub enum Definition {
    ExecutableDefinition(ExecutableDefinition),
    TypeSystemDefinition(TypeSystemDefinition),
    TypeSystemExtension(TypeSystemExtension),
}

impl AstNode for Definition {
    open spec fn spec_can_cast(kind: SyntaxKind) -> bool {
        ExecutableDefinition::spec_can_cast(kind) || TypeSystemDefinition::spec_can_cast(kind) || TypeSystemExtension::spec_can_cast(kind)
    }

    open spec fn spec_syntax(self) -> SyntaxNode {
        match self {
            Definition::ExecutableDefinition(x) => x.spec_syntax(),
            Definition::TypeSystemDefinition(x) => x.spec_syntax(),
            Definition::TypeSystemExtension(x) => x.spec_syntax(),
        }
    }

    fn can_cast(kind: SyntaxKind) -> (r: bool) {
        ExecutableDefinition::can_cast(kind) || TypeSystemDefinition::can_cast(kind) || TypeSystemExtension::can_cast(kind)
    }

    fn cast(syntax: SyntaxNode) -> (r: Option<Self>) {
        let k = syntax.kind();
        if ExecutableDefinition::can_cast(k) {
            match ExecutableDefinition::cast(syntax) {
                Some(x) => Some(Definition::ExecutableDefinition(x)),
                None => None,
            }
        } else if TypeSystemDefinition::can_cast(k) {
            match TypeSystemDefinition::cast(syntax) {
                Some(x) => Some(Definition::TypeSystemDefinition(x)),
                None => None,
            }
        } else if TypeSystemExtension::can_cast(k) {
            match TypeSystemExtension::cast(syntax) {
                Some(x) => Some(Definition::TypeSystemExtension(x)),
                None => None,
            }
        } else {
            None
        }
    }

    fn syntax(&self) -> (r: &SyntaxNode) {
        match self {
            Definition::ExecutableDefinition(x) => x.syntax(),
            Definition::TypeSystemDefinition(x) => x.syntax(),
            Definition::TypeSystemExtension(x) => x.syntax(),
        }
    }
}

#[derive(Debug, PartialEq, Eq, Hash)]
pub enum ExecutableDefinition {
    OperationDefinition(OperationDefinition),
    FragmentDefinition(FragmentDefinition),
}

impl AstNode for ExecutableDefinition {
    open spec fn spec_can_cast(kind: SyntaxKind) -> bool {
        OperationDefinition::spec_can_cast(kind) || FragmentDefinition::spec_can_cast(kind)
    }

    open spec fn spec_syntax(self) -> SyntaxNode {
        match self {
            ExecutableDefinition::OperationDefinition(x) => x.spec_syntax(),
            ExecutableDefinition::FragmentDefinition(x) => x.spec_syntax(),
        }
    }

    fn can_cast(kind: SyntaxKind) -> (r: bool) {
        OperationDefinition::can_cast(kind) || FragmentDefinition::can_cast(kind)
    }

    fn cast(syntax: SyntaxNode) -> (r: Option<Self>) {
        let k = syntax.kind();
        if OperationDefinition::can_cast(k) {
            match OperationDefinition::cast(syntax) {
                Some(x) => Some(ExecutableDefinition::OperationDefinition(x)),
                None => None,
            }
        } else if FragmentDefinition::can_cast(k) {
            match FragmentDefinition::cast(syntax) {
                Some(x) => Some(ExecutableDefinition::FragmentDefinition(x)),
                None => None,
            }
        } else {
            None
        }
    }

    fn syntax(&self) -> (r: &SyntaxNode) {
        match self {
            ExecutableDefinition::OperationDefinition(x) => x.syntax(),
            ExecutableDefinition::FragmentDefinition(x) => x.syntax(),
        }
    }
}

#[derive(Debug, PartialEq, Eq, Hash)]
pub enum TypeSystemDefinition {
    SchemaDefinition(SchemaDefinition),
    TypeDefinition(TypeDefinition),
    DirectiveDefinition(DirectiveDefinition),
}

impl AstNode for TypeSystemDefinition {
    open spec fn spec_can_cast(kind: SyntaxKind) -> bool {
        SchemaDefinition::spec_can_cast(kind) || TypeDefinition::spec_can_cast(kind) || DirectiveDefinition::spec_can_cast(kind)
    }

    open spec fn spec_syntax(self) -> SyntaxNode {
        match self {
            TypeSystemDefinition::SchemaDefinition(x) => x.spec_syntax(),
            TypeSystemDefinition::TypeDefinition(x) => x.spec_syntax(),
            TypeSystemDefinition::DirectiveDefinition(x) => x.spec_syntax(),
        }
    }

    fn can_cast(kind: SyntaxKind) -> (r: bool) {
        SchemaDefinition::can_cast(kind) || TypeDefinition::can_cast(kind) || DirectiveDefinition::can_cast(kind)
    }

    fn cast(syntax: SyntaxNode) -> (r: Option<Self>) {
        let k = syntax.kind();
        if SchemaDefinition::can_cast(k) {
            match SchemaDefinition::cast(syntax) {
                Some(x) => Some(TypeSystemDefinition::SchemaDefinition(x)),
                None => None,
            }
        } else if TypeDefinition::can_cast(k) {
            match TypeDefinition::cast(syntax) {
                Some(x) => Some(TypeSystemDefinition::TypeDefinition(x)),
                None => None,
            }
        } else if DirectiveDefinition::can_cast(k) {
            match DirectiveDefinition::cast(syntax) {
                Some(x) => Some(TypeSystemDefinition::DirectiveDefinition(x)),
                None => None,
            }
        } else {
            None
        }
    }

    fn syntax(&self) -> (r: &SyntaxNode) {
        match self {
            TypeSystemDefinition::SchemaDefinition(x) => x.syntax(),
            TypeSystemDefinition::TypeDefinition(x) => x.syntax(),
            TypeSystemDefinition::DirectiveDefinition(x) => x.syntax(),
        }
    }
}

#[derive(Debug, PartialEq, Eq, Hash)]
pub enum TypeSystemExtension {
    SchemaExtension(SchemaExtension),
    TypeExtension(TypeExtension),
}

impl AstNode for TypeSystemExtension {
    open spec fn spec_can_cast(kind: SyntaxKind) -> bool {
        SchemaExtension::spec_can_cast(kind) || TypeExtension::spec_can_cast(kind)
    }

    open spec fn spec_syntax(self) -> SyntaxNode {
        match self {
            TypeSystemExtension::SchemaExtension(x) => x.spec_syntax(),
            TypeSystemExtension::TypeExtension(x) => x.spec_syntax(),
        }
    }

    fn can_cast(kind: SyntaxKind) -> (r: bool) {
        SchemaExtension::can_cast(kind) || TypeExtension::can_cast(kind)
    }

    fn cast(syntax: SyntaxNode) -> (r: Option<Self>) {
        let k = syntax.kind();
        if SchemaExtension::can_cast(k) {
            match SchemaExtension::cast(syntax) {
                Some(x) => Some(TypeSystemExtension::SchemaExtension(x)),
                None => None,
            }
        } else if TypeExtension::can_cast(k) {
            match TypeExtension::cast(syntax) {
                Some(x) => Some(TypeSystemExtension::TypeExtension(x)),
                None => None,
            }
        } else {
            None
        }
    }

    fn syntax(&self) -> (r: &SyntaxNode) {
        match self {
            TypeSystemExtension::SchemaExtension(x) => x.syntax(),
            TypeSystemExtension::TypeExtension(x) => x.syntax(),
        }
    }
}

#[derive(Debug, PartialEq, Eq, Hash)]
pub enum Selection {
    Field(Field),
    FragmentSpread(FragmentSpread),
    InlineFragment(InlineFragment),
}

impl AstNode for Selection {
    open spec fn spec_can_cast(kind: SyntaxKind) -> bool {
        Field::spec_can_cast(kind) || FragmentSpread::spec_can_cast(kind) || InlineFragment::spec_can_cast(kind)
    }

    open spec fn spec_syntax(self) -> SyntaxNode {
        match self {
            Selection::Field(x) => x.spec_syntax(),
            Selection::FragmentSpread(x) => x.spec_syntax(),
            Selection::InlineFragment(x) => x.spec_syntax(),
        }
    }

    fn can_cast(kind: SyntaxKind) -> (r: bool) {
        Field::can_cast(kind) || FragmentSpread::can_cast(kind) || InlineFragment::can_cast(kind)
    }

    fn cast(syntax: SyntaxNode) -> (r: Option<Self>) {
        let k = syntax.kind();
        if Field::can_cast(k) {
            match Field::cast(syntax) {
                Some(x) => Some(Selection::Field(x)),
                None => None,
            }
        } else if FragmentSpread::can_cast(k) {
            match FragmentSpread::cast(syntax) {
                Some(x) => Some(Selection::FragmentSpread(x)),
                None => None,
            }
        } else if InlineFragment::can_cast(k) {
            match InlineFragment::cast(syntax) {
                Some(x) => Some(Selection::InlineFragment(x)),
                None => None,
            }
        } else {
            None
        }
    }

    fn syntax(&self) -> (r: &SyntaxNode) {
        match self {
            Selection::Field(x) => x.syntax(),
            Selection::FragmentSpread(x) => x.syntax(),
            Selection::InlineFragment(x) => x.syntax(),
        }
    }
}

#[derive(Debug, PartialEq, Eq, Hash)]
pub enum Value {
    Variable(Variable),
    StringValue(StringValue),
    FloatValue(FloatValue),
    IntValue(IntValue),
    BooleanValue(BooleanValue),
    NullValue(NullValue),
    EnumValue(EnumValue),
    ListValue(ListValue),
    ObjectValue(ObjectValue),
}

impl AstNode for Value {
    open spec fn spec_can_cast(kind: SyntaxKind) -> bool {
        Variable::spec_can_cast(kind) || StringValue::spec_can_cast(kind) || FloatValue::spec_can_cast(kind) || IntValue::spec_can_cast(kind) || BooleanValue::spec_can_cast(kind) || NullValue::spec_can_cast(kind) || EnumValue::spec_can_cast(kind) || ListValue::spec_can_cast(kind) || ObjectValue::spec_can_cast(kind)
    }

    open spec fn spec_syntax(self) -> SyntaxNode {
        match self {
            Value::Variable(x) => x.spec_syntax(),
            Value::StringValue(x) => x.spec_syntax(),
            Value::FloatValue(x) => x.spec_syntax(),
            Value::IntValue(x) => x.spec_syntax(),
            Value::BooleanValue(x) => x.spec_syntax(),
            Value::NullValue(x) => x.spec_syntax(),
            Value::EnumValue(x) => x.spec_syntax(),
            Value::ListValue(x) => x.spec_syntax(),
            Value::ObjectValue(x) => x.spec_syntax(),
        }
    }

    fn can_cast(kind: SyntaxKind) -> (r: bool) {
        Variable::can_cast(kind) || StringValue::can_cast(kind) || FloatValue::can_cast(kind) || IntValue::can_cast(kind) || BooleanValue::can_cast(kind) || NullValue::can_cast(kind) || EnumValue::can_cast(kind) || ListValue::can_cast(kind) || ObjectValue::can_cast(kind)
    }

    fn cast(syntax: SyntaxNode) -> (r: Option<Self>) {
        let k = syntax.kind();
        if Variable::can_cast(k) {
            match Variable::cast(syntax) {
                Some(x) => Some(Value::Variable(x)),
                None => None,
            }
        } else if StringValue::can_cast(k) {
            match StringValue::cast(syntax) {
                Some(x) => Some(Value::StringValue(x)),
                None => None,
            }
        } else if FloatValue::can_cast(k) {
            match FloatValue::cast(syntax) {
                Some(x) => Some(Value::FloatValue(x)),
                None => None,
            }
        } else if IntValue::can_cast(k) {
            match IntValue::cast(syntax) {
                Some(x) => Some(Value::IntValue(x)),
                None => None,
            }
        } else if BooleanValue::can_cast(k) {
            match BooleanValue::cast(syntax) {
                Some(x) => Some(Value::BooleanValue(x)),
                None => None,
            }
        } else if NullValue::can_cast(k) {
            match NullValue::cast(syntax) {
                Some(x) => Some(Value::NullValue(x)),
                None => None,
            }
        } else if EnumValue::can_cast(k) {
            match EnumValue::cast(syntax) {
                Some(x) => Some(Value::EnumValue(x)),
                None => None,
            }
        } else if ListValue::can_cast(k) {
            match ListValue::cast(syntax) {
                Some(x) => Some(Value::ListValue(x)),
                None => None,
            }
        } else if ObjectValue::can_cast(k) {
            match ObjectValue::cast(syntax) {
                Some(x) => Some(Value::ObjectValue(x)),
                None => None,
            }
        } else {
            None
        }
    }

    fn syntax(&self) -> (r: &SyntaxNode) {
        match self {
            Value::Variable(x) => x.syntax(),
            Value::StringValue(x) => x.syntax(),
            Value::FloatValue(x) => x.syntax(),
            Value::IntValue(x) => x.syntax(),
            Value::BooleanValue(x) => x.syntax(),
            Value::NullValue(x) => x.syntax(),
            Value::EnumValue(x) => x.syntax(),
            Value::ListValue(x) => x.syntax(),
            Value::ObjectValue(x) => x.syntax(),
        }
    }
}

#[derive(Debug, PartialEq, Eq, Hash)]
pub enum Type {
    NamedType(NamedType),
    ListType(ListType),
    NonNullType(NonNullType),
}

impl AstNode for Type {
    open spec fn spec_can_cast(kind: SyntaxKind) -> bool {
        NamedType::spec_can_cast(kind) || ListType::spec_can_cast(kind) || NonNullType::spec_can_cast(kind)
    }

    open spec fn spec_syntax(self) -> SyntaxNode {
        match self {
            Type::NamedType(x) => x.spec_syntax(),
            Type::ListType(x) => x.spec_syntax(),
            Type::NonNullType(x) => x.spec_syntax(),
        }
    }

    fn can_cast(kind: SyntaxKind) -> (r: bool) {
        NamedType::can_cast(kind) || ListType::can_cast(kind) || NonNullType::can_cast(kind)
    }

    fn cast(syntax: SyntaxNode) -> (r: Option<Self>) {
        let k = syntax.kind();
        if NamedType::can_cast(k) {
            match NamedType::cast(syntax) {
                Some(x) => Some(Type::NamedType(x)),
                None => None,
            }
        } else if ListType::can_cast(k) {
            match ListType::cast(syntax) {
                Some(x) => Some(Type::ListType(x)),
                None => None,
            }
        } else if NonNullType::can_cast(k) {
            match NonNullType::cast(syntax) {
                Some(x) => Some(Type::NonNullType(x)),
                None => None,
            }
        } else {
            None
        }
    }

    fn syntax(&self) -> (r: &SyntaxNode) {
        match self {
            Type::NamedType(x) => x.syntax(),
            Type::ListType(x) => x.syntax(),
            Type::NonNullType(x) => x.syntax(),
        }
    }
}

#[derive(Debug, PartialEq, Eq, Hash)]
pub enum TypeDefinition {
    ScalarTypeDefinition(ScalarTypeDefinition),
    ObjectTypeDefinition(ObjectTypeDefinition),
    InterfaceTypeDefinition(InterfaceTypeDefinition),
    UnionTypeDefinition(UnionTypeDefinition),
    EnumTypeDefinition(EnumTypeDefinition),
    InputObjectTypeDefinition(InputObjectTypeDefinition),
}

impl AstNode for TypeDefinition {
    open spec fn spec_can_cast(kind: SyntaxKind) -> bool {
        ScalarTypeDefinition::spec_can_cast(kind) || ObjectTypeDefinition::spec_can_cast(kind) || InterfaceTypeDefinition::spec_can_cast(kind) || UnionTypeDefinition::spec_can_cast(kind) || EnumTypeDefinition::spec_can_cast(kind) || InputObjectTypeDefinition::spec_can_cast(kind)
    }

    open spec fn spec_syntax(self) -> SyntaxNode {
        match self {
            TypeDefinition::ScalarTypeDefinition(x) => x.spec_syntax(),
            TypeDefinition::ObjectTypeDefinition(x) => x.spec_syntax(),
            TypeDefinition::InterfaceTypeDefinition(x) => x.spec_syntax(),
            TypeDefinition::UnionTypeDefinition(x) => x.spec_syntax(),
            TypeDefinition::EnumTypeDefinition(x) => x.spec_syntax(),
            TypeDefinition::InputObjectTypeDefinition(x) => x.spec_syntax(),
        }
    }

    fn can_cast(kind: SyntaxKind) -> (r: bool) {
        ScalarTypeDefinition::can_cast(kind) || ObjectTypeDefinition::can_cast(kind) || InterfaceTypeDefinition::can_cast(kind) || UnionTypeDefinition::can_cast(kind) || EnumTypeDefinition::can_cast(kind) || InputObjectTypeDefinition::can_cast(kind)
    }

    fn cast(syntax: SyntaxNode) -> (r: Option<Self>) {
        let k = syntax.kind();
        if ScalarTypeDefinition::can_cast(k) {
            match ScalarTypeDefinition::cast(syntax) {
                Some(x) => Some(TypeDefinition::ScalarTypeDefinition(x)),
                None => None,
            }
        } else if ObjectTypeDefinition::can_cast(k) {
            match ObjectTypeDefinition::cast(syntax) {
                Some(x) => Some(TypeDefinition::ObjectTypeDefinition(x)),
                None => None,
            }
        } else if InterfaceTypeDefinition::can_cast(k) {
            match InterfaceTypeDefinition::cast(syntax) {
                Some(x) => Some(TypeDefinition::InterfaceTypeDefinition(x)),
                None => None,
            }
        } else if UnionTypeDefinition::can_cast(k) {
            match UnionTypeDefinition::cast(syntax) {
                Some(x) => Some(TypeDefinition::UnionTypeDefinition(x)),
                None => None,
            }
        } else if EnumTypeDefinition::can_cast(k) {
            match EnumTypeDefinition::cast(syntax) {
                Some(x) => Some(TypeDefinition::EnumTypeDefinition(x)),
                None => None,
            }
        } else if InputObjectTypeDefinition::can_cast(k) {
            match InputObjectTypeDefinition::cast(syntax) {
                Some(x) => Some(TypeDefinition::InputObjectTypeDefinition(x)),
                None => None,
            }
        } else {
            None
        }
    }

    fn syntax(&self) -> (r: &SyntaxNode) {
        match self {
            TypeDefinition::ScalarTypeDefinition(x) => x.syntax(),
            TypeDefinition::ObjectTypeDefinition(x) => x.syntax(),
            TypeDefinition::InterfaceTypeDefinition(x) => x.syntax(),
            TypeDefinition::UnionTypeDefinition(x) => x.syntax(),
            TypeDefinition::EnumTypeDefinition(x) => x.syntax(),
            TypeDefinition::InputObjectTypeDefinition(x) => x.syntax(),
        }
    }
}

#[derive(Debug, PartialEq, Eq, Hash)]
pub enum TypeExtension {
    ScalarTypeExtension(ScalarTypeExtension),
    ObjectTypeExtension(ObjectTypeExtension),
    InterfaceTypeExtension(InterfaceTypeExtension),
    UnionTypeExtension(UnionTypeExtension),
    EnumTypeExtension(EnumTypeExtension),
    InputObjectTypeExtension(InputObjectTypeExtension),
}

impl AstNode for TypeExtension {
    open spec fn spec_can_cast(kind: SyntaxKind) -> bool {
        ScalarTypeExtension::spec_can_cast(kind) || ObjectTypeExtension::spec_can_cast(kind) || InterfaceTypeExtension::spec_can_cast(kind) || UnionTypeExtension::spec_can_cast(kind) || EnumTypeExtension::spec_can_cast(kind) || InputObjectTypeExtension::spec_can_cast(kind)
    }

    open spec fn spec_syntax(self) -> SyntaxNode {
        match self {
            TypeExtension::ScalarTypeExtension(x) => x.spec_syntax(),
            TypeExtension::ObjectTypeExtension(x) => x.spec_syntax(),
            TypeExtension::InterfaceTypeExtension(x) => x.spec_syntax(),
            TypeExtension::UnionTypeExtension(x) => x.spec_syntax(),
            TypeExtension::EnumTypeExtension(x) => x.spec_syntax(),
            TypeExtension::InputObjectTypeExtension(x) => x.spec_syntax(),
        }
    }

    fn can_cast(kind: SyntaxKind) -> (r: bool) {
        ScalarTypeExtension::can_cast(kind) || ObjectTypeExtension::can_cast(kind) || InterfaceTypeExtension::can_cast(kind) || UnionTypeExtension::can_cast(kind) || EnumTypeExtension::can_cast(kind) || InputObjectTypeExtension::can_cast(kind)
    }

    fn cast(syntax: SyntaxNode) -> (r: Option<Self>) {
        let k = syntax.kind();
        if ScalarTypeExtension::can_cast(k) {
            match ScalarTypeExtension::cast(syntax) {
                Some(x) => Some(TypeExtension::ScalarTypeExtension(x)),
                None => None,
            }
        } else if ObjectTypeExtension::can_cast(k) {
            match ObjectTypeExtension::cast(syntax) {
                Some(x) => Some(TypeExtension::ObjectTypeExtension(x)),
                None => None,
            }
        } else if InterfaceTypeExtension::can_cast(k) {
            match InterfaceTypeExtension::cast(syntax) {
                Some(x) => Some(TypeExtension::InterfaceTypeExtension(x)),
                None => None,
            }
        } else if UnionTypeExtension::can_cast(k) {
            match UnionTypeExtension::cast(syntax) {
                Some(x) => Some(TypeExtension::UnionTypeExtension(x)),
                None => None,
            }
        } else if EnumTypeExtension::can_cast(k) {
            match EnumTypeExtension::cast(syntax) {
                Some(x) => Some(TypeExtension::EnumTypeExtension(x)),
                None => None,
            }
        } else if InputObjectTypeExtension::can_cast(k) {
            match InputObjectTypeExtension::cast(syntax) {
                Some(x) => Some(TypeExtension::InputObjectTypeExtension(x)),
                None => None,
            }
        } else {
            None
        }
    }

    fn syntax(&self) -> (r: &SyntaxNode) {
        match self {
            TypeExtension::ScalarTypeExtension(x) => x.syntax(),
            TypeExtension::ObjectTypeExtension(x) => x.syntax(),
            TypeExtension::InterfaceTypeExtension(x) => x.syntax(),
            TypeExtension::UnionTypeExtension(x) => x.syntax(),
            TypeExtension::EnumTypeExtension(x) => x.syntax(),
            TypeExtension::InputObjectTypeExtension(x) => x.syntax(),
        }
    }
}

} // verus!
