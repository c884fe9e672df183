//! Tests for the code generator: whole programs, per-construct lines,
//! and every structural error.

use amber::{
    generate_program, BinaryOp, Block, CodegenError, Expression, Function, ImplBlock, Literal,
    Modifier, NumericLiteral, Param, Postfix, Prefix, Program, Statement, StructDef, StructField,
    Type, UnaryOp, VariableBinding, WhileLoop,
};

fn return_block(expr: Expression) -> Block {
    Block { statements: vec![Statement::Return(Some(expr))] }
}

fn int_lit(i: i64) -> Expression {
    Expression::Literal(Literal::Numeric(NumericLiteral::Integer(i)))
}

fn ident(name: &str) -> Expression {
    Expression::Identifier(name.to_string())
}

fn binary(left: Expression, op: BinaryOp, right: Expression) -> Expression {
    Expression::BinaryExpr { left: Box::new(left), op, right: Box::new(right) }
}

#[test]
fn generates_structs_functions_and_impls() {
    let program = Program {
        statements: vec![
            Statement::Struct(StructDef {
                name: "Point".to_string(),
                fields: vec![
                    StructField { name: "x".to_string(), ty: Type::I32 },
                    StructField { name: "y".to_string(), ty: Type::I32 },
                ],
            }),
            Statement::Function(Function {
                name: "add".to_string(),
                params: vec![
                    Param::Typed { name: "a".to_string(), ty: Type::I32 },
                    Param::Typed { name: "b".to_string(), ty: Type::I32 },
                ],
                return_type: Some(Type::I32),
                is_extern: false,
                body: Some(return_block(binary(ident("a"), BinaryOp::Add, ident("b")))),
            }),
            Statement::Function(Function {
                name: "HAL_Delay".to_string(),
                params: vec![Param::Typed { name: "ms".to_string(), ty: Type::U32 }],
                return_type: None,
                is_extern: true,
                body: None,
            }),
            Statement::Impl(ImplBlock {
                target: "Point".to_string(),
                methods: vec![
                    Function {
                        name: "sum".to_string(),
                        params: vec![
                            Param::SelfParam,
                            Param::Typed { name: "x".to_string(), ty: Type::I32 },
                            Param::Typed { name: "y".to_string(), ty: Type::I32 },
                        ],
                        return_type: Some(Type::I32),
                        is_extern: false,
                        body: Some(return_block(binary(ident("x"), BinaryOp::Add, ident("y")))),
                    },
                    Function {
                        name: "reset".to_string(),
                        params: vec![Param::SelfParam],
                        return_type: None,
                        is_extern: false,
                        body: Some(Block { statements: vec![Statement::Return(None)] }),
                    },
                ],
            }),
            Statement::Binding(VariableBinding {
                modifier: Some(Modifier::Comptime),
                is_mutable: false,
                name: "BAUD".to_string(),
                ty: Some(Type::I32),
                value: Some(int_lit(9600)),
            }),
        ],
    };

    let output = generate_program(&program).unwrap();

    let expected = "#include <stdint.h>\n#include <stdbool.h>\n\ntypedef struct {\n    int32_t x;\n    int32_t y;\n} Point;\n\nint32_t add(int32_t a, int32_t b) {\n    return (a + b);\n}\n\nextern void HAL_Delay(uint32_t ms);\n\nint32_t Point_sum(Point* self, int32_t x, int32_t y) {\n    return (x + y);\n}\n\nvoid Point_reset(Point* self) {\n    return;\n}\n\nconst int32_t BAUD = 9600;\n\n";

    assert_eq!(output, expected);
}

#[test]
fn test_binding_line_const_explicit_type() {
    let program = Program {
        statements: vec![Statement::Binding(VariableBinding {
            modifier: None,
            is_mutable: false,
            name: "x".to_string(),
            ty: Some(Type::I32),
            value: Some(int_lit(42)),
        })],
    };
    let output = generate_program(&program).unwrap();
    assert!(output.contains("const int32_t x = 42;"));
}

#[test]
fn test_binding_line_mutable_and_comptime() {
    let program = Program {
        statements: vec![
            Statement::Binding(VariableBinding {
                modifier: None,
                is_mutable: true,
                name: "y".to_string(),
                ty: Some(Type::I32),
                value: Some(int_lit(10)),
            }),
            Statement::Binding(VariableBinding {
                modifier: Some(Modifier::Comptime),
                is_mutable: true,
                name: "z".to_string(),
                ty: Some(Type::I32),
                value: Some(int_lit(42)),
            }),
        ],
    };
    let output = generate_program(&program).unwrap();
    assert!(output.contains("int32_t y = 10;"));
    assert!(output.contains("const int32_t z = 42;"));
}

#[test]
fn test_binding_without_initializer() {
    let program = Program {
        statements: vec![Statement::Binding(VariableBinding {
            modifier: None,
            is_mutable: true,
            name: "p".to_string(),
            ty: Some(Type::Pointer { inner: Box::new(Type::U8), is_mut: true }),
            value: None,
        })],
    };
    let output = generate_program(&program).unwrap();
    assert!(output.contains("uint8_t* p;"));
}

#[test]
fn test_missing_type_error() {
    let program = Program {
        statements: vec![Statement::Binding(VariableBinding {
            modifier: None,
            is_mutable: false,
            name: "a".to_string(),
            ty: None,
            value: Some(int_lit(1)),
        })],
    };
    let err = generate_program(&program).unwrap_err();
    assert_eq!(err, CodegenError::MissingType { name: "a".to_string() });
    assert_eq!(err.message(), "let binding 'a' requires an explicit type");
}

#[test]
fn test_extern_function_with_body_error() {
    let program = Program {
        statements: vec![Statement::Function(Function {
            name: "evil".to_string(),
            params: vec![],
            return_type: None,
            is_extern: true,
            body: Some(Block { statements: vec![] }),
        })],
    };
    let err = generate_program(&program).unwrap_err();
    assert_eq!(err, CodegenError::ExternFunctionWithBody { name: "evil".to_string() });
}

#[test]
fn test_missing_function_body_error() {
    let program = Program {
        statements: vec![Statement::Function(Function {
            name: "ghost".to_string(),
            params: vec![],
            return_type: None,
            is_extern: false,
            body: None,
        })],
    };
    let err = generate_program(&program).unwrap_err();
    assert_eq!(err, CodegenError::MissingFunctionBody { name: "ghost".to_string() });
}

#[test]
fn test_self_param_outside_impl_error() {
    let program = Program {
        statements: vec![Statement::Function(Function {
            name: "loose".to_string(),
            params: vec![Param::SelfParam],
            return_type: None,
            is_extern: false,
            body: Some(Block { statements: vec![] }),
        })],
    };
    let err = generate_program(&program).unwrap_err();
    assert_eq!(err, CodegenError::SelfParamOutsideImpl { name: "loose".to_string() });
}

#[test]
fn test_multiple_self_params_error() {
    let program = Program {
        statements: vec![Statement::Impl(ImplBlock {
            target: "Point".to_string(),
            methods: vec![Function {
                name: "twice".to_string(),
                params: vec![Param::SelfParam, Param::SelfParam],
                return_type: None,
                is_extern: false,
                body: Some(Block { statements: vec![] }),
            }],
        })],
    };
    let err = generate_program(&program).unwrap_err();
    assert_eq!(err, CodegenError::MultipleSelfParams { name: "twice".to_string() });
}

#[test]
fn test_extern_impl_method_error() {
    let program = Program {
        statements: vec![Statement::Impl(ImplBlock {
            target: "Point".to_string(),
            methods: vec![Function {
                name: "far".to_string(),
                params: vec![Param::SelfParam],
                return_type: None,
                is_extern: true,
                body: None,
            }],
        })],
    };
    let err = generate_program(&program).unwrap_err();
    assert_eq!(
        err,
        CodegenError::ExternImplMethod { target: "Point".to_string(), name: "far".to_string() }
    );
    assert_eq!(err.message(), "impl method 'Point::far' cannot be declared extern");
}

#[test]
fn test_expression_rendering_parenthesizes() {
    // 1 + 2 * 3 renders with every application parenthesized.
    let expr = binary(int_lit(1), BinaryOp::Add, binary(int_lit(2), BinaryOp::Mul, int_lit(3)));
    assert_eq!(amber::expression::render_expr(&expr), "(1 + (2 * 3))");

    let grouped = binary(binary(int_lit(1), BinaryOp::Add, int_lit(2)), BinaryOp::Mul, int_lit(3));
    assert_eq!(amber::expression::render_expr(&grouped), "((1 + 2) * 3)");
}

#[test]
fn test_unary_and_index_rendering() {
    let neg = Expression::UnaryExpr {
        op: UnaryOp::PrefixOp(Prefix::Neg),
        expr: Box::new(ident("x")),
    };
    assert_eq!(amber::expression::render_expr(&neg), "(-x)");

    let indexed = Expression::UnaryExpr {
        op: UnaryOp::PostfixOp(Postfix::Index { index: Box::new(int_lit(2)) }),
        expr: Box::new(ident("buf")),
    };
    assert_eq!(amber::expression::render_expr(&indexed), "(buf[2])");
}

#[test]
fn test_ternary_rendering() {
    let t = Expression::TernaryExpr {
        condition: Box::new(binary(ident("a"), BinaryOp::Lt, ident("b"))),
        then_expr: Box::new(int_lit(1)),
        else_expr: Box::new(int_lit(0)),
    };
    assert_eq!(amber::expression::render_expr(&t), "((a < b) ? 1 : 0)");
}

#[test]
fn test_literal_rendering() {
    assert_eq!(amber::expression::render_expr(&int_lit(-7)), "-7");
    assert_eq!(
        amber::expression::render_expr(&Expression::Literal(Literal::Numeric(
            NumericLiteral::Float("3.14".to_string())
        ))),
        "3.14f"
    );
    assert_eq!(
        amber::expression::render_expr(&Expression::Literal(Literal::Numeric(
            NumericLiteral::Double("2.5".to_string())
        ))),
        "2.5"
    );
    assert_eq!(
        amber::expression::render_expr(&Expression::Literal(Literal::Bool(false))),
        "false"
    );
    assert_eq!(amber::expression::render_expr(&Expression::Literal(Literal::Char('q'))), "q");
}

#[test]
fn test_while_loop_rendering_and_indentation() {
    let body = Block {
        statements: vec![Statement::Assignment {
            target: ident("counter"),
            value: binary(ident("counter"), BinaryOp::Add, int_lit(1)),
        }],
    };
    let program = Program {
        statements: vec![Statement::Function(Function {
            name: "main".to_string(),
            params: vec![],
            return_type: None,
            is_extern: false,
            body: Some(Block {
                statements: vec![Statement::WhileLoop(WhileLoop {
                    condition: binary(ident("counter"), BinaryOp::Lt, ident("limit")),
                    block: body,
                })],
            }),
        })],
    };
    let output = generate_program(&program).unwrap();
    assert!(output.contains("    while ((counter < limit)) {"));
    assert!(output.contains("        counter = (counter + 1);"));
    assert!(output.contains("void main(void)"));
}

#[test]
fn test_if_else_rendering() {
    let program = Program {
        statements: vec![Statement::Function(Function {
            name: "main".to_string(),
            params: vec![],
            return_type: None,
            is_extern: false,
            body: Some(Block {
                statements: vec![Statement::IfElse(amber::IfElse {
                    condition: binary(ident("counter"), BinaryOp::Gt, int_lit(0)),
                    then_block: Block { statements: vec![Statement::Return(None)] },
                    else_block: Some(Block {
                        statements: vec![Statement::ExprStatement(ident("idle"))],
                    }),
                })],
            }),
        })],
    };
    let output = generate_program(&program).unwrap();
    assert!(output.contains("    if ((counter > 0)) {"));
    assert!(output.contains("        return;"));
    assert!(output.contains("    } else {"));
    assert!(output.contains("        idle;"));
}

#[test]
fn test_pointer_type_chains() {
    let program = Program {
        statements: vec![Statement::Binding(VariableBinding {
            modifier: None,
            is_mutable: true,
            name: "pp".to_string(),
            ty: Some(Type::Pointer {
                inner: Box::new(Type::Pointer { inner: Box::new(Type::U8), is_mut: false }),
                is_mut: true,
            }),
            value: None,
        })],
    };
    let output = generate_program(&program).unwrap();
    assert!(output.contains("uint8_t** pp;"));
}

#[test]
fn test_named_type_renders_verbatim() {
    let program = Program {
        statements: vec![Statement::Binding(VariableBinding {
            modifier: None,
            is_mutable: true,
            name: "origin".to_string(),
            ty: Some(Type::Named("Point".to_string())),
            value: None,
        })],
    };
    let output = generate_program(&program).unwrap();
    assert!(output.contains("Point origin;"));
}

#[test]
fn test_empty_parameter_list_renders_void() {
    let program = Program {
        statements: vec![Statement::Function(Function {
            name: "print_hello".to_string(),
            params: vec![],
            return_type: None,
            is_extern: false,
            body: Some(Block { statements: vec![] }),
        })],
    };
    let output = generate_program(&program).unwrap();
    assert!(output.contains("void print_hello(void) {"));
}

#[test]
fn test_generation_is_deterministic() {
    let make = || Program {
        statements: vec![
            Statement::Binding(VariableBinding {
                modifier: Some(Modifier::Runtime),
                is_mutable: true,
                name: "counter".to_string(),
                ty: Some(Type::U8),
                value: Some(int_lit(0)),
            }),
            Statement::ExprStatement(binary(ident("a"), BinaryOp::Shl, int_lit(2))),
        ],
    };
    let first = generate_program(&make()).unwrap();
    let second = generate_program(&make()).unwrap();
    assert_eq!(first.as_bytes(), second.as_bytes());
}

#[test]
fn test_empty_program_is_header_only() {
    let program = Program { statements: vec![] };
    let output = generate_program(&program).unwrap();
    assert_eq!(output, "#include <stdint.h>\n#include <stdbool.h>\n\n");
}

#[test]
fn test_all_binary_operators_render() {
    let cases: Vec<(BinaryOp, &str)> = vec![
        (BinaryOp::Add, "+"),
        (BinaryOp::Sub, "-"),
        (BinaryOp::Mul, "*"),
        (BinaryOp::Div, "/"),
        (BinaryOp::Mod, "%"),
        (BinaryOp::Eq, "=="),
        (BinaryOp::Ne, "!="),
        (BinaryOp::Lt, "<"),
        (BinaryOp::Le, "<="),
        (BinaryOp::Gt, ">"),
        (BinaryOp::Ge, ">="),
        (BinaryOp::BitAnd, "&"),
        (BinaryOp::BitOr, "|"),
        (BinaryOp::BitXor, "^"),
        (BinaryOp::Shl, "<<"),
        (BinaryOp::Shr, ">>"),
        (BinaryOp::And, "&&"),
        (BinaryOp::Or, "||"),
    ];
    for (op, text) in cases {
        assert_eq!(amber::expression::render_binary_op(&op), text);
    }
}
