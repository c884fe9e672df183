//! End-to-end tests: a parse tree goes through the builder and the
//! generator in one run, as the compiler drives them.

use amber::error::{location_to_span, Location, Span};
use amber::{build_ast, generate_program, ParseNode, Rule};

fn node(rule: Rule, text: &str, children: Vec<ParseNode>) -> ParseNode {
    ParseNode { rule, text: text.to_string(), children }
}

fn leaf(rule: Rule, text: &str) -> ParseNode {
    node(rule, text, vec![])
}

fn expr_node(items: Vec<ParseNode>) -> ParseNode {
    node(
        Rule::Expr,
        "",
        vec![node(Rule::TernaryExpr, "", vec![node(Rule::MathExpr, "", items)])],
    )
}

fn statement_of(s: ParseNode) -> ParseNode {
    node(Rule::Statement, "", vec![s])
}

#[test]
fn test_tree_to_c_binding_in_main() {
    // fn main() { const x: i32 = 42; }
    let decl = node(
        Rule::Declaration,
        "const x: i32 = 42;",
        vec![
            leaf(Rule::Keyword, "const"),
            leaf(Rule::Ident, "x"),
            node(Rule::TypeDef, "i32", vec![leaf(Rule::BuiltinType, "i32")]),
            expr_node(vec![leaf(Rule::IntLit, "42")]),
        ],
    );
    let main_fn = node(
        Rule::FunctionDef,
        "",
        vec![
            leaf(Rule::Ident, "main"),
            node(Rule::ParameterList, "", vec![]),
            node(Rule::FunctionBody, "", vec![node(Rule::BlockRule, "", vec![decl])]),
        ],
    );
    let root = node(
        Rule::Program,
        "",
        vec![statement_of(main_fn), leaf(Rule::Eoi, "")],
    );

    let program = build_ast(&root).expect("a conformant tree must build");
    let output = generate_program(&program).expect("generation must succeed");
    assert!(output.contains("void main(void) {"));
    assert!(output.contains("    const int32_t x = 42;"));
    assert!(output.starts_with("#include <stdint.h>\n#include <stdbool.h>\n\n"));
}

#[test]
fn test_tree_to_c_while_loop() {
    // while counter < limit { counter = counter + 1; }
    let assign = node(
        Rule::Assignment,
        "counter = counter + 1;",
        vec![
            leaf(Rule::Ident, "counter"),
            expr_node(vec![
                leaf(Rule::Ident, "counter"),
                leaf(Rule::AddOp, "+"),
                leaf(Rule::IntLit, "1"),
            ]),
        ],
    );
    let while_node = node(
        Rule::WhileStmt,
        "",
        vec![
            expr_node(vec![
                leaf(Rule::Ident, "counter"),
                leaf(Rule::LtOp, "<"),
                leaf(Rule::Ident, "limit"),
            ]),
            node(Rule::BlockRule, "", vec![assign]),
        ],
    );
    let main_fn = node(
        Rule::FunctionDef,
        "",
        vec![
            leaf(Rule::Ident, "main"),
            node(Rule::ParameterList, "", vec![]),
            node(Rule::FunctionBody, "", vec![node(Rule::BlockRule, "", vec![while_node])]),
        ],
    );
    let root = node(
        Rule::Program,
        "",
        vec![statement_of(main_fn), leaf(Rule::Eoi, "")],
    );

    let program = build_ast(&root).expect("a conformant tree must build");
    let output = generate_program(&program).expect("generation must succeed");
    assert!(output.contains("    while ((counter < limit)) {"));
    assert!(output.contains("        counter = (counter + 1);"));
}

#[test]
fn test_location_to_span() {
    assert_eq!(location_to_span(&Location::Pos(7)), Span { offset: 7, len: 0 });
    assert_eq!(location_to_span(&Location::Range(3, 9)), Span { offset: 3, len: 6 });
    assert_eq!(location_to_span(&Location::Range(9, 3)), Span { offset: 9, len: 0 });
}
