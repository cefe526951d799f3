//! Checks of the library-wide guarantees on concrete inputs:
//! losslessness, tree well-formedness, error locality, determinism, and
//! typed-view casting.

use apollo_parser::ast::nodes::{Document, Name, OperationDefinition, Selection, Value};
use apollo_parser::ast::AstNode;
use apollo_parser::{Parser, SyntaxKind, SyntaxNode, SyntaxTree};

fn parse(input: &str) -> SyntaxTree {
    Parser::new(input).parse()
}

const SAMPLES: [&str; 12] = [
    "",
    "{ field }",
    "query Q($v: Int = 3) @dir(a: true) { x(b: [1, 2.5, \"s\", null, FOO, {k: $v}]) }",
    "type X implements A & B @d { f(arg: Int = 0): [Int!]! }",
    "interface I { f: Int } union U = A | B enum E { A B } input In { f: Int }",
    "schema { query: Q mutation: M } extend schema @d",
    "directive @lim(n: Int) on FIELD | QUERY | INPUT_FIELD_DEFINITION",
    "# comment\nfragment F on T { ...G ... on U { a } ...@d { b } }",
    "{ f(x: , y: 1) }",
    "type ??? !!!",
    "{ f } trailing garbage $$$",
    "1.5e+3 \"str\" ...",
];

#[test]
fn losslessness_on_samples() {
    for input in SAMPLES {
        let tree = parse(input);
        assert_eq!(
            tree.text(),
            input.as_bytes().to_vec(),
            "re-rendered text differs for input: {:?}",
            input
        );
    }
}

fn check_kinds(node: &SyntaxNode) {
    if node.is_node() {
        assert!(node.kind().is_nonterminal(), "internal node kind {:?}", node.kind());
        for child in node.children() {
            check_kinds(&child);
        }
    } else {
        assert!(node.kind().is_terminal(), "terminal kind {:?}", node.kind());
    }
}

#[test]
fn well_formed_tree_on_samples() {
    for input in SAMPLES {
        let tree = parse(input);
        let doc = tree.document();
        assert_eq!(doc.syntax().kind(), SyntaxKind::DOCUMENT);
        assert!(doc.syntax().is_node());
        check_kinds(doc.syntax());
    }
}

#[test]
fn error_locality_on_samples() {
    for input in SAMPLES {
        let tree = parse(input);
        for err in tree.errors() {
            let end = err.offset as usize + err.length as usize;
            assert!(
                end <= input.len(),
                "error {:?} exceeds input length {} for {:?}",
                err,
                input.len(),
                input
            );
        }
    }
}

#[test]
fn repeated_parses_are_identical() {
    for input in SAMPLES {
        let first = parse(input);
        let second = parse(input);
        assert_eq!(first, second, "parses differ for input: {:?}", input);
        assert_eq!(first.errors(), second.errors());
    }
}

#[test]
fn cast_accepts_exactly_the_matching_kind() {
    let tree = parse("{ field } fragment F on T { a }");
    let doc = tree.document();
    for child in doc.syntax().children() {
        let kind = child.kind();
        assert_eq!(
            OperationDefinition::can_cast(kind),
            kind == SyntaxKind::OPERATION_DEFINITION
        );
        let casted = OperationDefinition::cast(child);
        assert_eq!(casted.is_some(), kind == SyntaxKind::OPERATION_DEFINITION);
        if let Some(op) = casted {
            assert_eq!(op.syntax().kind(), SyntaxKind::OPERATION_DEFINITION);
        }
    }
}

#[test]
fn sum_cast_accepts_any_variant_kind() {
    let tree = parse("{ a ...F ... on T { b } }");
    let doc = tree.document();
    let defs = doc.definitions();
    assert_eq!(defs.len(), 1);
    let op = match &defs[0] {
        apollo_parser::ast::nodes::Definition::ExecutableDefinition(
            apollo_parser::ast::nodes::ExecutableDefinition::OperationDefinition(op),
        ) => op,
        other => panic!("expected an operation, got {:?}", other),
    };
    let sel_set = op.selection_set().expect("selection set");
    for child in sel_set.syntax().children() {
        let kind = child.kind();
        let expected = kind == SyntaxKind::FIELD || kind == SyntaxKind::FRAGMENT_SPREAD
            || kind == SyntaxKind::INLINE_FRAGMENT;
        assert_eq!(Selection::can_cast(kind), expected);
        assert_eq!(Selection::cast(child).is_some(), expected);
    }
    // A document node fits no selection or value view.
    assert!(!Selection::can_cast(SyntaxKind::DOCUMENT));
    assert!(!Value::can_cast(SyntaxKind::DOCUMENT));
    assert!(Document::can_cast(SyntaxKind::DOCUMENT));
    assert!(!Name::can_cast(SyntaxKind::DOCUMENT));
}

#[test]
fn rendered_definitions_reproduce_input() {
    let input = "{ a } fragment F on T { b }";
    let tree = parse(input);
    let doc = tree.document();
    let mut rendered: Vec<u8> = Vec::new();
    for def in doc.definitions() {
        rendered.extend_from_slice(&apollo_parser::ast::node_text(&def));
    }
    assert_eq!(rendered, input.as_bytes().to_vec());
}

#[test]
fn lexical_errors_precede_syntactic_errors() {
    // The stray semicolon is a lexical error; the argument it displaces is
    // a syntactic one.  Lexing completes before parsing, so the lexical
    // error comes first.
    let tree = parse("{ f(; }");
    assert!(tree.errors().len() >= 2, "{:?}", tree.errors());
    assert_eq!(tree.errors()[0].message, "unexpected character");
    assert_eq!(tree.errors()[0].offset, 4);
}

#[test]
fn children_of_kind_selects_matching_children() {
    let tree = parse("{ a } { b } fragment F on T { c }");
    let doc = tree.document();
    let ops = doc.syntax().children_of_kind(SyntaxKind::OPERATION_DEFINITION);
    assert_eq!(ops.len(), 2);
    for op in &ops {
        assert_eq!(op.kind(), SyntaxKind::OPERATION_DEFINITION);
    }
    let frags = doc.syntax().children_of_kind(SyntaxKind::FRAGMENT_DEFINITION);
    assert_eq!(frags.len(), 1);
    assert_eq!(
        doc.syntax().children_of_kind(SyntaxKind::SCHEMA_DEFINITION).len(),
        0
    );
}

#[test]
fn token_stream_reproduces_input() {
    for input in SAMPLES {
        let tree = parse(input);
        let doc = tree.document();
        let toks = doc.syntax().tokens();
        let mut joined: Vec<u8> = Vec::new();
        for t in &toks {
            assert_eq!(t.offset(), joined.len(), "offset drift in {:?}", input);
            joined.extend_from_slice(t.text());
        }
        assert_eq!(joined, input.as_bytes().to_vec(), "token stream of {:?}", input);
    }
}

#[test]
fn offsets_follow_prefix_text() {
    let input = "{ aa bb }";
    let tree = parse(input);
    let doc = tree.document();
    assert_eq!(doc.syntax().offset(), 0);
    // Walk to the two fields and check their absolute offsets.
    let defs = doc.definitions();
    let op = match &defs[0] {
        apollo_parser::ast::nodes::Definition::ExecutableDefinition(
            apollo_parser::ast::nodes::ExecutableDefinition::OperationDefinition(op),
        ) => op,
        other => panic!("expected an operation, got {:?}", other),
    };
    let sels = op.selection_set().expect("selection set").selections();
    assert_eq!(sels.len(), 2);
    let offs: Vec<usize> = sels
        .iter()
        .map(|s| match s {
            Selection::Field(f) => f.name().unwrap().ident_token().unwrap().offset(),
            other => panic!("expected a field, got {:?}", other),
        })
        .collect();
    assert_eq!(offs, vec![2, 5]);
}
