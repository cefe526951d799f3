//! End-to-end scenarios: whole inputs parsed and inspected through the
//! typed views.

use apollo_parser::ast::nodes::{
    Definition, ExecutableDefinition, Selection, Type, TypeDefinition, TypeSystemDefinition,
};
use apollo_parser::ast::AstNode;
use apollo_parser::{Parser, SyntaxKind, SyntaxTree};

fn parse(input: &str) -> SyntaxTree {
    Parser::new(input).parse()
}

#[test]
fn smoke_directive_definition_with_errors() {
    let input = "\"Description\"directive @example(isTreat: Boolean, treatKind: String)";
    let parser = Parser::new(input);

    println!("{:?}", parser.parse());
}

#[test]
fn anonymous_query() {
    let input = "{ field }";
    let tree = parse(input);
    assert!(tree.errors().is_empty());
    assert_eq!(tree.text(), input.as_bytes().to_vec());

    let doc = tree.document();
    assert_eq!(doc.syntax().kind(), SyntaxKind::DOCUMENT);
    let defs = doc.definitions();
    assert_eq!(defs.len(), 1);
    let op = match &defs[0] {
        Definition::ExecutableDefinition(ExecutableDefinition::OperationDefinition(op)) => op,
        other => panic!("expected an operation definition, got {:?}", other),
    };
    let sel_set = op.selection_set().expect("selection set");
    let sels = sel_set.selections();
    assert_eq!(sels.len(), 1);
    let field = match &sels[0] {
        Selection::Field(f) => f,
        other => panic!("expected a field, got {:?}", other),
    };
    let name = field.name().expect("field name");
    let ident = name.ident_token().expect("ident token");
    assert_eq!(ident.text().as_slice(), b"field".as_slice());
    assert_eq!(ident.offset(), 2);
}

#[test]
fn fragment_definition() {
    let input = "fragment F on T { a }";
    let tree = parse(input);
    assert!(tree.errors().is_empty());
    assert_eq!(tree.text(), input.as_bytes().to_vec());

    let defs = tree.document().definitions();
    assert_eq!(defs.len(), 1);
    let frag = match &defs[0] {
        Definition::ExecutableDefinition(ExecutableDefinition::FragmentDefinition(f)) => f,
        other => panic!("expected a fragment definition, got {:?}", other),
    };
    let fname = frag.fragment_name().expect("fragment name");
    let ident = fname.name().expect("name").ident_token().expect("ident");
    assert_eq!(ident.text().as_slice(), b"F".as_slice());

    let cond = frag.type_condition().expect("type condition");
    assert!(cond.on_token().is_some());
    let t = cond.named_type().expect("named type");
    let tname = t.name().expect("name").ident_token().expect("ident");
    assert_eq!(tname.text().as_slice(), b"T".as_slice());

    let sels = frag.selection_set().expect("selection set").selections();
    assert_eq!(sels.len(), 1);
    match &sels[0] {
        Selection::Field(f) => {
            let ident = f.name().expect("name").ident_token().expect("ident");
            assert_eq!(ident.text().as_slice(), b"a".as_slice());
        }
        other => panic!("expected a field, got {:?}", other),
    }
}

#[test]
fn nested_non_null_list_type() {
    let input = "type X { f: [Int!]! }";
    let tree = parse(input);
    assert!(tree.errors().is_empty());
    assert_eq!(tree.text(), input.as_bytes().to_vec());

    let defs = tree.document().definitions();
    assert_eq!(defs.len(), 1);
    let obj = match &defs[0] {
        Definition::TypeSystemDefinition(TypeSystemDefinition::TypeDefinition(
            TypeDefinition::ObjectTypeDefinition(o),
        )) => o,
        other => panic!("expected an object type definition, got {:?}", other),
    };
    let fields = obj.fields_definition().expect("fields").field_definitions();
    assert_eq!(fields.len(), 1);
    let f = &fields[0];
    let fname = f.name().expect("name").ident_token().expect("ident");
    assert_eq!(fname.text().as_slice(), b"f".as_slice());

    // NonNullType wrapping ListType wrapping NonNullType wrapping NamedType.
    let outer = match f.ty().expect("type") {
        Type::NonNullType(nn) => nn,
        other => panic!("expected a non-null type, got {:?}", other),
    };
    assert!(outer.excl_token().is_some());
    let list = outer.list_type().expect("list type");
    assert!(list.l_brack_token().is_some());
    assert!(list.r_brack_token().is_some());
    let inner = match list.ty().expect("inner type") {
        Type::NonNullType(nn) => nn,
        other => panic!("expected an inner non-null type, got {:?}", other),
    };
    let named = inner.named_type().expect("named type");
    let nname = named.name().expect("name").ident_token().expect("ident");
    assert_eq!(nname.text().as_slice(), b"Int".as_slice());
}

#[test]
fn error_recovery_inside_arguments() {
    let input = "{ f(x: , y: 1) }";
    let tree = parse(input);
    assert_eq!(tree.errors().len(), 1);
    let err = &tree.errors()[0];
    assert_eq!(err.offset, 7);
    assert_eq!(err.length, 0);
    assert_eq!(tree.text(), input.as_bytes().to_vec());

    let defs = tree.document().definitions();
    assert_eq!(defs.len(), 1);
    let op = match &defs[0] {
        Definition::ExecutableDefinition(ExecutableDefinition::OperationDefinition(op)) => op,
        other => panic!("expected an operation definition, got {:?}", other),
    };
    let sels = op.selection_set().expect("selection set").selections();
    let field = match &sels[0] {
        Selection::Field(f) => f,
        other => panic!("expected a field, got {:?}", other),
    };
    let args = field.arguments().expect("arguments").arguments();
    assert_eq!(args.len(), 2);
    assert!(args[0].value().is_none());
    assert!(args[1].value().is_some());
    let first = args[0].name().expect("name").ident_token().expect("ident");
    assert_eq!(first.text().as_slice(), b"x".as_slice());
    let second = args[1].name().expect("name").ident_token().expect("ident");
    assert_eq!(second.text().as_slice(), b"y".as_slice());
}

#[test]
fn block_string_description_preserved() {
    let input = "\"\"\"hello\nworld\"\"\" scalar S";
    let tree = parse(input);
    assert!(tree.errors().is_empty());
    assert_eq!(tree.text(), input.as_bytes().to_vec());

    let defs = tree.document().definitions();
    assert_eq!(defs.len(), 1);
    let scalar = match &defs[0] {
        Definition::TypeSystemDefinition(TypeSystemDefinition::TypeDefinition(
            TypeDefinition::ScalarTypeDefinition(s),
        )) => s,
        other => panic!("expected a scalar type definition, got {:?}", other),
    };
    let desc = scalar.description().expect("description");
    let sv = desc.string_value().expect("string value");
    let tok = sv.string_value_token().expect("token");
    assert_eq!(tok.text().as_slice(), b"\"\"\"hello\nworld\"\"\"".as_slice());
    assert_eq!(tok.offset(), 0);
}

#[test]
fn unterminated_string_keeps_full_input() {
    let input = "{ f(x: \"oops ) }";
    let tree = parse(input);
    assert!(!tree.errors().is_empty());
    assert_eq!(tree.text(), input.as_bytes().to_vec());
}
