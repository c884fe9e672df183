//! Tests for the AST builder, driven by hand-built parse trees shaped as
//! the grammar produces them.

use amber::{
    build_ast, BinaryOp, Expression, Literal, Modifier, NumericLiteral, Param, ParseNode, Rule,
    Statement, Type,
};

fn node(rule: Rule, text: &str, children: Vec<ParseNode>) -> ParseNode {
    ParseNode { rule, text: text.to_string(), children }
}

fn leaf(rule: Rule, text: &str) -> ParseNode {
    node(rule, text, vec![])
}

/// Wraps math items as a full expression node, the way the grammar nests
/// `expr -> ternary_expr -> math_expr`.
fn expr_node(items: Vec<ParseNode>) -> ParseNode {
    node(
        Rule::Expr,
        "",
        vec![node(Rule::TernaryExpr, "", vec![node(Rule::MathExpr, "", items)])],
    )
}

fn program_of(statements: Vec<ParseNode>) -> ParseNode {
    let mut children: Vec<ParseNode> = statements
        .into_iter()
        .map(|s| node(Rule::Statement, "", vec![s]))
        .collect();
    children.push(leaf(Rule::Eoi, ""));
    node(Rule::Program, "", children)
}

fn builtin_type(name: &str) -> ParseNode {
    node(Rule::TypeDef, name, vec![leaf(Rule::BuiltinType, name)])
}

#[test]
fn test_expression_precedence() {
    // const a = 1 + 2 * 3;
    let decl = node(
        Rule::Declaration,
        "const a = 1 + 2 * 3;",
        vec![
            leaf(Rule::Keyword, "const"),
            leaf(Rule::Ident, "a"),
            expr_node(vec![
                leaf(Rule::IntLit, "1"),
                leaf(Rule::AddOp, "+"),
                leaf(Rule::IntLit, "2"),
                leaf(Rule::MulOp, "*"),
                leaf(Rule::IntLit, "3"),
            ]),
        ],
    );
    let program = build_ast(&program_of(vec![decl])).unwrap();

    if let Statement::Binding(binding) = &program.statements[0] {
        if let Some(expr) = &binding.value {
            if let Expression::BinaryExpr { left, op, right } = expr {
                assert_eq!(*op, BinaryOp::Add);

                if let Expression::Literal(Literal::Numeric(num)) = &**left {
                    assert!(num.is_integer());
                    assert_eq!(*num, NumericLiteral::Integer(1));
                } else {
                    panic!("Left should be 1");
                }

                if let Expression::BinaryExpr { left: _r_left, op: r_op, right: _r_right } =
                    &**right
                {
                    assert_eq!(*r_op, BinaryOp::Mul);
                } else {
                    panic!("Right side should be multiplication");
                }
            } else {
                panic!("Top level should be addition");
            }
        }
    } else {
        panic!("Expected binding");
    }
}

#[test]
fn test_parenthesis() {
    // const a = (1 + 2) * 3;
    let grouped = node(
        Rule::Expr,
        "(1 + 2)",
        vec![node(
            Rule::TernaryExpr,
            "",
            vec![node(
                Rule::MathExpr,
                "",
                vec![leaf(Rule::IntLit, "1"), leaf(Rule::AddOp, "+"), leaf(Rule::IntLit, "2")],
            )],
        )],
    );
    let decl = node(
        Rule::Declaration,
        "const a = (1 + 2) * 3;",
        vec![
            leaf(Rule::Keyword, "const"),
            leaf(Rule::Ident, "a"),
            expr_node(vec![grouped, leaf(Rule::MulOp, "*"), leaf(Rule::IntLit, "3")]),
        ],
    );
    let program = build_ast(&program_of(vec![decl])).unwrap();

    if let Statement::Binding(binding) = &program.statements[0] {
        if let Some(Expression::BinaryExpr { left, op, right }) = &binding.value {
            assert_eq!(*op, BinaryOp::Mul);
            if let Expression::BinaryExpr { op: inner_op, .. } = &**left {
                assert_eq!(*inner_op, BinaryOp::Add);
            } else {
                panic!("Left side should be the grouped addition");
            }
            assert_eq!(**right, Expression::Literal(Literal::Numeric(NumericLiteral::Integer(3))));
        } else {
            panic!("Top level should be multiplication");
        }
    } else {
        panic!("Expected binding");
    }
}

#[test]
fn test_parenthesized_group_renders_grouped() {
    // (1 + 2) * 3 parses to Mul(Add(1, 2), 3) and renders ((1 + 2) * 3).
    let grouped = node(
        Rule::Expr,
        "(1 + 2)",
        vec![node(
            Rule::TernaryExpr,
            "",
            vec![node(
                Rule::MathExpr,
                "",
                vec![leaf(Rule::IntLit, "1"), leaf(Rule::AddOp, "+"), leaf(Rule::IntLit, "2")],
            )],
        )],
    );
    let expr = expr_node(vec![grouped, leaf(Rule::MulOp, "*"), leaf(Rule::IntLit, "3")]);
    let built = amber::expr_parser::parse_expr(&expr).unwrap();
    assert_eq!(amber::expression::render_expr(&built), "((1 + 2) * 3)");
}

#[test]
fn test_bool_literal() {
    // const flag: bool = true;
    let decl = node(
        Rule::Declaration,
        "const flag: bool = true;",
        vec![
            leaf(Rule::Keyword, "const"),
            leaf(Rule::Ident, "flag"),
            builtin_type("bool"),
            expr_node(vec![leaf(Rule::BoolLit, "true")]),
        ],
    );
    let program = build_ast(&program_of(vec![decl])).unwrap();

    if let Statement::Binding(binding) = &program.statements[0] {
        assert_eq!(binding.name, "flag");
        if let Some(Expression::Literal(Literal::Bool(b))) = &binding.value {
            assert!(*b);
        } else {
            panic!("Expected bool literal");
        }
    } else {
        panic!("Expected binding");
    }
}

#[test]
fn test_bool_literal_false() {
    // const active = false;
    let decl = node(
        Rule::Declaration,
        "const active = false;",
        vec![
            leaf(Rule::Keyword, "const"),
            leaf(Rule::Ident, "active"),
            expr_node(vec![leaf(Rule::BoolLit, "false")]),
        ],
    );
    let program = build_ast(&program_of(vec![decl])).unwrap();

    if let Statement::Binding(binding) = &program.statements[0] {
        if let Some(Expression::Literal(Literal::Bool(b))) = &binding.value {
            assert!(!*b);
        } else {
            panic!("Expected bool literal false");
        }
    } else {
        panic!("Expected binding");
    }
}

#[test]
fn test_char_literal() {
    // const character = 'a';
    let decl = node(
        Rule::Declaration,
        "const character = 'a';",
        vec![
            leaf(Rule::Keyword, "const"),
            leaf(Rule::Ident, "character"),
            expr_node(vec![leaf(Rule::CharLit, "'a'")]),
        ],
    );
    let program = build_ast(&program_of(vec![decl])).unwrap();

    if let Statement::Binding(binding) = &program.statements[0] {
        if let Some(Expression::Literal(Literal::Char(c))) = &binding.value {
            assert_eq!(*c, 'a');
        } else {
            panic!("Expected char literal 'a'");
        }
    } else {
        panic!("Expected binding");
    }
}

#[test]
fn test_ast_generation() {
    // comptime const baud = 9600;
    let decl = node(
        Rule::Declaration,
        "comptime const baud = 9600;",
        vec![
            leaf(Rule::ModifierRule, "comptime"),
            leaf(Rule::Keyword, "const"),
            leaf(Rule::Ident, "baud"),
            expr_node(vec![leaf(Rule::IntLit, "9600")]),
        ],
    );
    let program = build_ast(&program_of(vec![decl])).unwrap();

    if let Statement::Binding(binding) = &program.statements[0] {
        assert_eq!(binding.modifier, Some(Modifier::Comptime));
        assert!(!binding.is_mutable);
        assert_eq!(binding.name, "baud");

        if let Some(Expression::Literal(val)) = &binding.value {
            assert_eq!(val.to_text(), "9600");
        } else {
            panic!("Expected integer value");
        }
    } else {
        panic!("Expected binding");
    }
}

#[test]
fn test_runtime_var_declaration() {
    // runtime var counter: u8 = 0;
    let decl = node(
        Rule::Declaration,
        "runtime var counter: u8 = 0;",
        vec![
            leaf(Rule::ModifierRule, "runtime"),
            leaf(Rule::Keyword, "var"),
            leaf(Rule::Ident, "counter"),
            builtin_type("u8"),
            expr_node(vec![leaf(Rule::IntLit, "0")]),
        ],
    );
    let program = build_ast(&program_of(vec![decl])).unwrap();

    if let Statement::Binding(binding) = &program.statements[0] {
        assert_eq!(binding.modifier, Some(Modifier::Runtime));
        assert!(binding.is_mutable);
        assert_eq!(binding.name, "counter");
        assert_eq!(binding.ty, Some(Type::U8));
    } else {
        panic!("Expected binding");
    }
}

#[test]
fn test_struct_definition() {
    let struct_node = node(
        Rule::StructDefRule,
        "",
        vec![
            leaf(Rule::Ident, "Point"),
            node(
                Rule::StructFields,
                "",
                vec![
                    node(
                        Rule::StructFieldRule,
                        "",
                        vec![leaf(Rule::Ident, "x"), builtin_type("i32")],
                    ),
                    node(
                        Rule::StructFieldRule,
                        "",
                        vec![leaf(Rule::Ident, "y"), builtin_type("i32")],
                    ),
                ],
            ),
        ],
    );
    let program = build_ast(&program_of(vec![struct_node])).unwrap();
    match &program.statements[0] {
        Statement::Struct(def) => {
            assert_eq!(def.name, "Point");
            assert_eq!(def.fields.len(), 2);
            assert_eq!(def.fields[0].name, "x");
            assert_eq!(def.fields[1].name, "y");
        },
        _ => panic!("Expected struct definition"),
    }
}

fn typed_param(name: &str, ty: &str) -> ParseNode {
    node(
        Rule::ParamRule,
        "",
        vec![node(
            Rule::ParamTyped,
            "",
            vec![leaf(Rule::Ident, name), builtin_type(ty)],
        )],
    )
}

#[test]
fn test_function_definition() {
    // fn add(a: i32, b: i32) -> i32 { return a + b; }
    let add_fn = node(
        Rule::FunctionDef,
        "",
        vec![
            leaf(Rule::Ident, "add"),
            node(Rule::ParameterList, "", vec![typed_param("a", "i32"), typed_param("b", "i32")]),
            node(Rule::ReturnType, "", vec![builtin_type("i32")]),
            node(
                Rule::FunctionBody,
                "",
                vec![node(
                    Rule::BlockRule,
                    "",
                    vec![node(
                        Rule::ReturnStmt,
                        "",
                        vec![expr_node(vec![
                            leaf(Rule::Ident, "a"),
                            leaf(Rule::AddOp, "+"),
                            leaf(Rule::Ident, "b"),
                        ])],
                    )],
                )],
            ),
        ],
    );
    // extern fn HAL_Delay(ms: u32);
    let extern_fn = node(
        Rule::FunctionDef,
        "",
        vec![
            leaf(Rule::ExternModifier, "extern"),
            leaf(Rule::Ident, "HAL_Delay"),
            node(Rule::ParameterList, "", vec![typed_param("ms", "u32")]),
        ],
    );

    let program = build_ast(&program_of(vec![add_fn, extern_fn])).unwrap();
    assert_eq!(program.statements.len(), 2);

    match &program.statements[0] {
        Statement::Function(func) => {
            assert_eq!(func.name, "add");
            assert!(!func.is_extern);
            assert_eq!(func.params.len(), 2);
            assert_eq!(func.return_type, Some(Type::I32));
            assert!(func
                .body
                .as_ref()
                .is_some_and(|body| matches!(body.statements[0], Statement::Return(_))));
        },
        _ => panic!("Expected function definition"),
    }

    match &program.statements[1] {
        Statement::Function(func) => {
            assert!(func.is_extern);
            assert!(func.body.is_none());
            assert_eq!(func.params.len(), 1);
        },
        _ => panic!("Expected externally supplied function definition"),
    }
}

#[test]
fn test_impl_block() {
    let new_fn = node(
        Rule::FunctionDef,
        "",
        vec![
            leaf(Rule::Ident, "new"),
            node(Rule::ParameterList, "", vec![typed_param("x", "i32"), typed_param("y", "i32")]),
            node(Rule::ReturnType, "", vec![builtin_type("i32")]),
            node(
                Rule::FunctionBody,
                "",
                vec![node(
                    Rule::BlockRule,
                    "",
                    vec![node(
                        Rule::ReturnStmt,
                        "",
                        vec![expr_node(vec![
                            leaf(Rule::Ident, "x"),
                            leaf(Rule::AddOp, "+"),
                            leaf(Rule::Ident, "y"),
                        ])],
                    )],
                )],
            ),
        ],
    );
    let translate_fn = node(
        Rule::FunctionDef,
        "",
        vec![
            leaf(Rule::Ident, "translate"),
            node(
                Rule::ParameterList,
                "",
                vec![
                    node(Rule::ParamRule, "", vec![leaf(Rule::ParamSelf, "self")]),
                    typed_param("dx", "i32"),
                ],
            ),
            node(
                Rule::FunctionBody,
                "",
                vec![node(Rule::BlockRule, "", vec![node(Rule::ReturnStmt, "", vec![])])],
            ),
        ],
    );
    let impl_node = node(
        Rule::ImplBlockRule,
        "",
        vec![leaf(Rule::Ident, "Point"), new_fn, translate_fn],
    );

    let program = build_ast(&program_of(vec![impl_node])).unwrap();
    match &program.statements[0] {
        Statement::Impl(block) => {
            assert_eq!(block.target, "Point");
            assert_eq!(block.methods.len(), 2);

            let first = &block.methods[0];
            assert_eq!(first.name, "new");
            assert_eq!(first.return_type, Some(Type::I32));

            let second = &block.methods[1];
            assert_eq!(second.name, "translate");
            assert!(matches!(second.params.first(), Some(Param::SelfParam)));
        },
        _ => panic!("Expected impl block"),
    }
}

#[test]
fn test_while_loop_parsing() {
    // fn test() { while true { } }
    let while_node = node(
        Rule::WhileStmt,
        "",
        vec![expr_node(vec![leaf(Rule::BoolLit, "true")]), node(Rule::BlockRule, "", vec![])],
    );
    let f = node(
        Rule::FunctionDef,
        "",
        vec![
            leaf(Rule::Ident, "test"),
            node(Rule::ParameterList, "", vec![]),
            node(Rule::FunctionBody, "", vec![node(Rule::BlockRule, "", vec![while_node])]),
        ],
    );
    let result = build_ast(&program_of(vec![f]));
    assert!(result.is_some());
}

#[test]
fn test_parse_pointer_types() {
    let ptr = node(
        Rule::PtrType,
        "*mut u32",
        vec![leaf(Rule::KwMut, "mut"), leaf(Rule::BuiltinType, "u32")],
    );
    let ty = amber::utils::parse_type(&ptr).unwrap();
    assert_eq!(ty, Type::Pointer { is_mut: true, inner: Box::from(Type::U32) });
}

#[test]
fn test_parse_builtin_types() {
    let ty = amber::utils::parse_type(&leaf(Rule::BuiltinType, "u32")).unwrap();
    assert_eq!(ty, Type::U32);
}

#[test]
fn test_float_literals_through_builder() {
    let decl = node(
        Rule::Declaration,
        "const r = 3.14f;",
        vec![
            leaf(Rule::Keyword, "const"),
            leaf(Rule::Ident, "r"),
            expr_node(vec![leaf(Rule::FloatLit, "3.14f")]),
        ],
    );
    let program = build_ast(&program_of(vec![decl])).unwrap();
    if let Statement::Binding(binding) = &program.statements[0] {
        if let Some(Expression::Literal(Literal::Numeric(n))) = &binding.value {
            assert_eq!(n.inferred_type(), "f32");
            assert_eq!(n.to_text(), "3.14f");
        } else {
            panic!("Expected float literal");
        }
    } else {
        panic!("Expected binding");
    }
}

#[test]
fn test_malformed_tree_is_rejected() {
    // A bool literal whose lexeme is neither true nor false cannot come
    // from the grammar; the builder reports it by returning nothing.
    let decl = node(
        Rule::Declaration,
        "",
        vec![leaf(Rule::Ident, "a"), expr_node(vec![leaf(Rule::BoolLit, "maybe")])],
    );
    assert!(build_ast(&program_of(vec![decl])).is_none());
}

#[test]
fn test_int_literal_overflow_is_rejected() {
    let decl = node(
        Rule::Declaration,
        "",
        vec![
            leaf(Rule::Ident, "big"),
            expr_node(vec![leaf(Rule::IntLit, "99999999999999999999999999")]),
        ],
    );
    assert!(build_ast(&program_of(vec![decl])).is_none());
}

#[test]
fn test_ternary_and_prefix_parsing() {
    // const v = a < b ? -a : b;
    let cond_items = vec![leaf(Rule::Ident, "a"), leaf(Rule::LtOp, "<"), leaf(Rule::Ident, "b")];
    let neg_a = node(
        Rule::MathExpr,
        "",
        vec![node(
            Rule::Unary,
            "-a",
            vec![leaf(Rule::PrefixMinus, "-"), leaf(Rule::Ident, "a")],
        )],
    );
    let ternary = node(
        Rule::Expr,
        "",
        vec![node(
            Rule::TernaryExpr,
            "",
            vec![
                node(Rule::MathExpr, "", cond_items),
                leaf(Rule::Question, "?"),
                neg_a,
                leaf(Rule::Colon, ":"),
                node(Rule::MathExpr, "", vec![leaf(Rule::Ident, "b")]),
            ],
        )],
    );
    let decl = node(
        Rule::Declaration,
        "",
        vec![leaf(Rule::Keyword, "const"), leaf(Rule::Ident, "v"), ternary],
    );
    let program = build_ast(&program_of(vec![decl])).unwrap();
    if let Statement::Binding(binding) = &program.statements[0] {
        let built = binding.value.as_ref().unwrap();
        assert_eq!(amber::expression::render_expr(built), "((a < b) ? (-a) : b)");
    } else {
        panic!("Expected binding");
    }
}

#[test]
fn test_index_postfix_parsing() {
    // buf[2]
    let indexed = node(
        Rule::Unary,
        "buf[2]",
        vec![
            leaf(Rule::Ident, "buf"),
            node(Rule::IndexOp, "[2]", vec![expr_node(vec![leaf(Rule::IntLit, "2")])]),
        ],
    );
    let e = expr_node(vec![indexed]);
    let built = amber::expr_parser::parse_expr(&e).unwrap();
    assert_eq!(amber::expression::render_expr(&built), "(buf[2])");
}

#[test]
fn test_left_associative_chain() {
    // 10 - 4 - 3 parses as ((10 - 4) - 3).
    let e = expr_node(vec![
        leaf(Rule::IntLit, "10"),
        leaf(Rule::SubOp, "-"),
        leaf(Rule::IntLit, "4"),
        leaf(Rule::SubOp, "-"),
        leaf(Rule::IntLit, "3"),
    ]);
    let built = amber::expr_parser::parse_expr(&e).unwrap();
    assert_eq!(amber::expression::render_expr(&built), "((10 - 4) - 3)");
}

#[test]
fn test_logical_tiers_bind_loosest() {
    // a || b && c parses as (a || (b && c)).
    let e = expr_node(vec![
        leaf(Rule::Ident, "a"),
        leaf(Rule::OrOp, "||"),
        leaf(Rule::Ident, "b"),
        leaf(Rule::AndOp, "&&"),
        leaf(Rule::Ident, "c"),
    ]);
    let built = amber::expr_parser::parse_expr(&e).unwrap();
    assert_eq!(amber::expression::render_expr(&built), "(a || (b && c))");
}
