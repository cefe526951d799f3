//! Grammar coverage: one test per construct family, plus the documented
//! recovery behaviors.

use apollo_parser::ast::nodes::{
    Definition, ExecutableDefinition, Selection, TypeDefinition, TypeSystemDefinition,
    TypeSystemExtension, TypeExtension, Value,
};
use apollo_parser::{Parser, SyntaxTree};

fn parse(input: &str) -> SyntaxTree {
    Parser::new(input).parse()
}

fn only_def(tree: &SyntaxTree) -> Definition {
    let mut defs = tree.document().definitions();
    assert_eq!(defs.len(), 1);
    defs.remove(0)
}

#[test]
fn named_operation_with_variables_and_directives() {
    let input = "query Q($v: Int = 3, $w: [String]) @d(a: 1) { f }";
    let tree = parse(input);
    assert!(tree.errors().is_empty(), "{:?}", tree.errors());
    let op = match only_def(&tree) {
        Definition::ExecutableDefinition(ExecutableDefinition::OperationDefinition(op)) => op,
        other => panic!("expected an operation, got {:?}", other),
    };
    assert!(op.operation_type().unwrap().query_token().is_some());
    assert_eq!(
        op.name().unwrap().ident_token().unwrap().text().as_slice(),
        b"Q".as_slice()
    );
    let vars = op.variable_definitions().unwrap().variable_definitions();
    assert_eq!(vars.len(), 2);
    assert!(vars[0].default_value().is_some());
    assert!(vars[1].default_value().is_none());
    let dirs = op.directives().unwrap().directives();
    assert_eq!(dirs.len(), 1);
    assert_eq!(
        dirs[0].name().unwrap().ident_token().unwrap().text().as_slice(),
        b"d".as_slice()
    );
}

#[test]
fn every_value_form() {
    let input = "{ f(a: $v, b: 1, c: 2.5, d: \"s\", e: true, g: false, h: null, i: UP, j: [1 2], k: {m: 1}) }";
    let tree = parse(input);
    assert!(tree.errors().is_empty(), "{:?}", tree.errors());
    let op = match only_def(&tree) {
        Definition::ExecutableDefinition(ExecutableDefinition::OperationDefinition(op)) => op,
        other => panic!("expected an operation, got {:?}", other),
    };
    let sels = op.selection_set().unwrap().selections();
    let field = match &sels[0] {
        Selection::Field(f) => f,
        other => panic!("expected a field, got {:?}", other),
    };
    let args = field.arguments().unwrap().arguments();
    assert_eq!(args.len(), 10);
    let vals: Vec<Value> = args.iter().map(|a| a.value().unwrap()).collect();
    assert!(matches!(vals[0], Value::Variable(_)));
    assert!(matches!(vals[1], Value::IntValue(_)));
    assert!(matches!(vals[2], Value::FloatValue(_)));
    assert!(matches!(vals[3], Value::StringValue(_)));
    assert!(matches!(vals[4], Value::BooleanValue(_)));
    assert!(matches!(vals[5], Value::BooleanValue(_)));
    assert!(matches!(vals[6], Value::NullValue(_)));
    assert!(matches!(vals[7], Value::EnumValue(_)));
    assert!(matches!(vals[8], Value::ListValue(_)));
    assert!(matches!(vals[9], Value::ObjectValue(_)));
    match &vals[8] {
        Value::ListValue(l) => assert_eq!(l.values().len(), 2),
        _ => unreachable!(),
    }
    match &vals[9] {
        Value::ObjectValue(o) => {
            let fields = o.object_fields();
            assert_eq!(fields.len(), 1);
            assert!(fields[0].value().is_some());
        }
        _ => unreachable!(),
    }
}

#[test]
fn aliased_field() {
    let tree = parse("{ alias: real }");
    assert!(tree.errors().is_empty());
    let op = match only_def(&tree) {
        Definition::ExecutableDefinition(ExecutableDefinition::OperationDefinition(op)) => op,
        other => panic!("expected an operation, got {:?}", other),
    };
    let sels = op.selection_set().unwrap().selections();
    let field = match &sels[0] {
        Selection::Field(f) => f,
        other => panic!("expected a field, got {:?}", other),
    };
    let alias = field.alias().expect("alias");
    assert_eq!(
        alias.name().unwrap().ident_token().unwrap().text().as_slice(),
        b"alias".as_slice()
    );
    assert!(alias.colon_token().is_some());
    assert_eq!(
        field.name().unwrap().ident_token().unwrap().text().as_slice(),
        b"real".as_slice()
    );
}

#[test]
fn schema_definition_roots() {
    let tree = parse("schema @d { query: Q, mutation: M }");
    assert!(tree.errors().is_empty(), "{:?}", tree.errors());
    let schema = match only_def(&tree) {
        Definition::TypeSystemDefinition(TypeSystemDefinition::SchemaDefinition(s)) => s,
        other => panic!("expected a schema definition, got {:?}", other),
    };
    assert!(schema.schema_token().is_some());
    assert!(schema.directives().is_some());
    let roots = schema.operation_type_definitions();
    assert_eq!(roots.len(), 2);
    assert!(roots[0].operation_type().unwrap().query_token().is_some());
    assert!(roots[1].operation_type().unwrap().mutation_token().is_some());
    assert_eq!(
        roots[1].named_type().unwrap().name().unwrap().ident_token().unwrap().text().as_slice(),
        b"M".as_slice()
    );
}

#[test]
fn directive_definition_locations() {
    let tree = parse("directive @lim(n: Int) on FIELD | QUERY | INPUT_FIELD_DEFINITION");
    assert!(tree.errors().is_empty(), "{:?}", tree.errors());
    let dd = match only_def(&tree) {
        Definition::TypeSystemDefinition(TypeSystemDefinition::DirectiveDefinition(d)) => d,
        other => panic!("expected a directive definition, got {:?}", other),
    };
    assert!(dd.directive_token().is_some());
    assert!(dd.at_token().is_some());
    assert!(dd.on_token().is_some());
    assert!(dd.arguments_definition().is_some());
    // The location list is right-nested: FIELD, then | QUERY, then the rest.
    let locs = dd.directive_locations().expect("locations");
    let first = locs.directive_location().expect("first location");
    assert!(first.executable_directive_location().is_some());
    let rest = locs.directive_locations().expect("rest of the list");
    assert!(rest.pipe_token().is_some());
    let second = rest.directive_location().expect("second location");
    assert!(second.executable_directive_location().is_some());
    let third = rest.directive_locations().expect("tail").directive_location().unwrap();
    assert!(third.type_system_directive_location().is_some());
}

#[test]
fn implements_and_union_lists_nest() {
    let tree = parse("type X implements A & B { f: Int } union U = A | B");
    assert!(tree.errors().is_empty(), "{:?}", tree.errors());
    let defs = tree.document().definitions();
    assert_eq!(defs.len(), 2);
    let obj = match &defs[0] {
        Definition::TypeSystemDefinition(TypeSystemDefinition::TypeDefinition(
            TypeDefinition::ObjectTypeDefinition(o),
        )) => o,
        other => panic!("expected an object type, got {:?}", other),
    };
    let impls = obj.implements_interfaces().expect("implements");
    assert!(impls.implements_token().is_some());
    assert_eq!(
        impls.named_type().unwrap().name().unwrap().ident_token().unwrap().text().as_slice(),
        b"A".as_slice()
    );
    let tail = impls.implements_interfaces().expect("nested tail");
    assert!(tail.amp_token().is_some());
    assert_eq!(
        tail.named_type().unwrap().name().unwrap().ident_token().unwrap().text().as_slice(),
        b"B".as_slice()
    );

    let u = match &defs[1] {
        Definition::TypeSystemDefinition(TypeSystemDefinition::TypeDefinition(
            TypeDefinition::UnionTypeDefinition(u),
        )) => u,
        other => panic!("expected a union type, got {:?}", other),
    };
    let members = u.union_member_types().expect("members");
    assert!(members.eq_token().is_some());
    let tail = members.union_member_types().expect("nested tail");
    assert!(tail.pipe_token().is_some());
    assert_eq!(
        tail.named_type().unwrap().name().unwrap().ident_token().unwrap().text().as_slice(),
        b"B".as_slice()
    );
}

#[test]
fn enum_and_input_definitions() {
    let tree = parse("enum E { \"doc\" A @d B } input In { f: Int = 3 @d }");
    assert!(tree.errors().is_empty(), "{:?}", tree.errors());
    let defs = tree.document().definitions();
    assert_eq!(defs.len(), 2);
    let e = match &defs[0] {
        Definition::TypeSystemDefinition(TypeSystemDefinition::TypeDefinition(
            TypeDefinition::EnumTypeDefinition(e),
        )) => e,
        other => panic!("expected an enum type, got {:?}", other),
    };
    let values = e.enum_values_definition().unwrap().enum_value_definitions();
    assert_eq!(values.len(), 2);
    assert!(values[0].description().is_some());
    assert!(values[0].directives().is_some());
    assert!(values[1].description().is_none());

    let input_ty = match &defs[1] {
        Definition::TypeSystemDefinition(TypeSystemDefinition::TypeDefinition(
            TypeDefinition::InputObjectTypeDefinition(i),
        )) => i,
        other => panic!("expected an input object type, got {:?}", other),
    };
    let fields = input_ty.input_fields_definition().unwrap().input_value_definitions();
    assert_eq!(fields.len(), 1);
    assert!(fields[0].default_value().is_some());
    assert!(fields[0].directives().is_some());
}

#[test]
fn every_extension_form() {
    let input = "extend schema @d extend scalar S @d extend type T { f: Int } \
                 extend interface I { f: Int } extend union U = A extend enum E { A } \
                 extend input In { f: Int }";
    let tree = parse(input);
    assert!(tree.errors().is_empty(), "{:?}", tree.errors());
    let defs = tree.document().definitions();
    assert_eq!(defs.len(), 7);
    assert!(matches!(
        defs[0],
        Definition::TypeSystemExtension(TypeSystemExtension::SchemaExtension(_))
    ));
    let expected = [
        |d: &Definition| matches!(d, Definition::TypeSystemExtension(TypeSystemExtension::TypeExtension(TypeExtension::ScalarTypeExtension(_)))),
        |d: &Definition| matches!(d, Definition::TypeSystemExtension(TypeSystemExtension::TypeExtension(TypeExtension::ObjectTypeExtension(_)))),
        |d: &Definition| matches!(d, Definition::TypeSystemExtension(TypeSystemExtension::TypeExtension(TypeExtension::InterfaceTypeExtension(_)))),
        |d: &Definition| matches!(d, Definition::TypeSystemExtension(TypeSystemExtension::TypeExtension(TypeExtension::UnionTypeExtension(_)))),
        |d: &Definition| matches!(d, Definition::TypeSystemExtension(TypeSystemExtension::TypeExtension(TypeExtension::EnumTypeExtension(_)))),
        |d: &Definition| matches!(d, Definition::TypeSystemExtension(TypeSystemExtension::TypeExtension(TypeExtension::InputObjectTypeExtension(_)))),
    ];
    for (i, check) in expected.iter().enumerate() {
        assert!(check(&defs[i + 1]), "definition {} has unexpected form", i + 1);
    }
    assert_eq!(tree.text(), input.as_bytes().to_vec());
}

#[test]
fn missing_colon_is_reported_without_consuming() {
    let tree = parse("{ f(x 1) }");
    assert!(!tree.errors().is_empty());
    assert_eq!(tree.text(), "{ f(x 1) }".as_bytes().to_vec());
}

#[test]
fn unclosed_selection_set_still_closes_node() {
    let tree = parse("{ f ");
    assert!(!tree.errors().is_empty());
    assert_eq!(tree.text(), "{ f ".as_bytes().to_vec());
    let defs = tree.document().definitions();
    assert_eq!(defs.len(), 1);
}

#[test]
fn unknown_top_level_construct_is_one_error() {
    let tree = parse("{ a } ) )");
    assert_eq!(tree.errors().len(), 1);
    assert_eq!(tree.text(), "{ a } ) )".as_bytes().to_vec());
}

#[test]
fn trailing_whitespace_is_no_error() {
    let tree = parse("{ a }  \n# trailing comment");
    assert!(tree.errors().is_empty(), "{:?}", tree.errors());
    assert_eq!(tree.text(), "{ a }  \n# trailing comment".as_bytes().to_vec());
}

#[test]
fn recovery_keeps_text_on_broken_definitions() {
    // Each input is malformed in one construct; the parse must report at
    // least one error and still cover the input byte for byte.
    let inputs = [
        "query ($: Int) { f }",
        "fragment",
        "fragment on T { a }",
        "union U = | A",
        "directive @d on WRONG",
        "type { f: Int }",
        "scalar @d",
        "schema { strange }",
        "{ f(a: [1 ) }",
        "extend mystery",
    ];
    for input in inputs {
        let tree = parse(input);
        assert!(!tree.errors().is_empty(), "no error for {:?}", input);
        assert_eq!(tree.text(), input.as_bytes().to_vec(), "text lost for {:?}", input);
    }
}

#[test]
fn interface_definition_fields() {
    let tree = parse("interface I @d { \"doc\" f(a: Int): String }");
    assert!(tree.errors().is_empty(), "{:?}", tree.errors());
    let i = match only_def(&tree) {
        Definition::TypeSystemDefinition(TypeSystemDefinition::TypeDefinition(
            TypeDefinition::InterfaceTypeDefinition(i),
        )) => i,
        other => panic!("expected an interface type, got {:?}", other),
    };
    assert!(i.interface_token().is_some());
    assert!(i.directives().is_some());
    let fields = i.fields_definition().unwrap().field_definitions();
    assert_eq!(fields.len(), 1);
    assert!(fields[0].description().is_some());
    assert!(fields[0].arguments_definition().is_some());
    assert!(fields[0].colon_token().is_some());
}

#[test]
fn commas_between_clauses_are_insignificant() {
    // Commas are insignificant separators: one before an optional clause
    // must not flip the grammar decision.
    let inputs = [
        "fragment F, on T { a }",
        "query q, ($x: Int), @d, { f }",
        "{ f, (a: 1), @d, { b } }",
        "type X, implements A, & B, @d, { f: Int }",
        "union U, = A, | B",
        "enum E, { A, B }",
        "directive @d, (a: Int), on FIELD",
        "schema, @d, { query: Q }",
        "... wrong",
    ];
    for input in &inputs[..inputs.len() - 1] {
        let tree = parse(input);
        assert!(tree.errors().is_empty(), "errors {:?} for {:?}", tree.errors(), input);
        assert_eq!(tree.text(), input.as_bytes().to_vec(), "text of {:?}", input);
    }
    // Still an error where the grammar truly demands a token.
    let tree = parse(inputs[inputs.len() - 1]);
    assert!(!tree.errors().is_empty());
}

#[test]
fn empty_input_is_an_empty_document() {
    let tree = parse("");
    assert!(tree.errors().is_empty());
    assert_eq!(tree.text(), Vec::<u8>::new());
    assert_eq!(tree.document().definitions().len(), 0);
}
