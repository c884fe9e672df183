//! Tests for the finer-grained public pieces: the line buffer, the type
//! table, the qualifier, and the signature helpers.

use amber::ctypes::{binding_qualifier, builtin_type_to_c, type_to_c};
use amber::declarations::{emit_struct, format_params, function_signature};
use amber::expression::{render_literal, render_numeric_literal, render_unary_op};
use amber::statements::{render_expr_statement_line, render_let_binding_line};
use amber::{
    CodeBuffer, Expression, Function, Literal, Modifier, NumericLiteral, Param, Postfix,
    StructDef, StructField, Type, UnaryOp,
};

#[test]
fn test_code_buffer_lines_and_finish() {
    let mut buffer = CodeBuffer::default();
    buffer.push_line("int x;");
    buffer.push_indented_line(2, "int y;");
    let text = buffer.finish();
    assert_eq!(text, "#include <stdint.h>\n#include <stdbool.h>\n\nint x;\n        int y;\n");
}

#[test]
fn test_code_buffer_empty_finish() {
    let buffer = CodeBuffer::default();
    assert_eq!(buffer.finish(), "#include <stdint.h>\n#include <stdbool.h>\n\n");
}

#[test]
fn test_binding_qualifier_forms() {
    assert_eq!(binding_qualifier(&None, false), "const ");
    assert_eq!(binding_qualifier(&None, true), "");
    assert_eq!(binding_qualifier(&Some(Modifier::Comptime), true), "const ");
    assert_eq!(binding_qualifier(&Some(Modifier::Runtime), true), "");
}

#[test]
fn test_builtin_type_table() {
    let cases: Vec<(Type, &str)> = vec![
        (Type::U8, "uint8_t"),
        (Type::I8, "int8_t"),
        (Type::U16, "uint16_t"),
        (Type::I16, "int16_t"),
        (Type::U32, "uint32_t"),
        (Type::I32, "int32_t"),
        (Type::U64, "uint64_t"),
        (Type::I64, "int64_t"),
        (Type::F32, "float"),
        (Type::F64, "double"),
        (Type::Bool, "bool"),
        (Type::Char, "char"),
        (Type::Void, "void"),
    ];
    for (ty, expected) in cases {
        assert_eq!(builtin_type_to_c(&ty), expected);
    }
}

#[test]
fn test_type_to_c_pointer_and_named() {
    let ptr = Type::Pointer { inner: Box::new(Type::I64), is_mut: false };
    assert_eq!(type_to_c(&ptr), "int64_t*");
    assert_eq!(type_to_c(&Type::Named("Sensor".to_string())), "Sensor");
}

#[test]
fn test_render_unary_op_forms() {
    let operand = Expression::Identifier("v".to_string());
    let prefix = UnaryOp::PrefixOp(amber::Prefix::BitNot);
    assert_eq!(render_unary_op(&prefix, &operand), "~v");

    let index = UnaryOp::PostfixOp(Postfix::Index {
        index: Box::new(Expression::Literal(Literal::Numeric(NumericLiteral::Integer(0)))),
    });
    assert_eq!(render_unary_op(&index, &operand), "v[0]");
}

#[test]
fn test_render_literal_forms() {
    assert_eq!(render_literal(&Literal::Bool(true)), "true");
    assert_eq!(render_literal(&Literal::Char('z')), "z");
    assert_eq!(
        render_numeric_literal(&NumericLiteral::Integer(-9223372036854775808)),
        "-9223372036854775808"
    );
    assert_eq!(render_numeric_literal(&NumericLiteral::Float("1.5".to_string())), "1.5f");
    assert_eq!(render_numeric_literal(&NumericLiteral::Float("1.5f".to_string())), "1.5f");
    assert_eq!(render_numeric_literal(&NumericLiteral::Double("1.25".to_string())), "1.25");
}

#[test]
fn test_format_params_and_signature() {
    let params = vec![
        Param::SelfParam,
        Param::Typed { name: "amount".to_string(), ty: Type::I32 },
    ];
    let name = "grow".to_string();
    let rendered = format_params(&params, Some("Circle"), &name).unwrap();
    assert_eq!(rendered, "Circle* self, int32_t amount");

    let f = Function {
        name,
        params,
        return_type: Some(Type::Bool),
        body: None,
        is_extern: false,
    };
    let sig = function_signature(&f, Some("Circle")).unwrap();
    assert_eq!(sig, "bool Circle_grow(Circle* self, int32_t amount)");
}

#[test]
fn test_format_params_empty_is_void() {
    let name = "tick".to_string();
    assert_eq!(format_params(&vec![], None, &name).unwrap(), "void");
}

#[test]
fn test_emit_struct_lines() {
    let mut buffer = CodeBuffer::default();
    let def = StructDef {
        name: "Pair".to_string(),
        fields: vec![
            StructField { name: "a".to_string(), ty: Type::U8 },
            StructField { name: "b".to_string(), ty: Type::U8 },
        ],
    };
    emit_struct(&mut buffer, &def).unwrap();
    let text = buffer.finish();
    assert!(text.contains("typedef struct {\n    uint8_t a;\n    uint8_t b;\n} Pair;\n"));
}

#[test]
fn test_render_let_binding_line_direct() {
    let line = render_let_binding_line(
        &Some(Modifier::Comptime),
        false,
        &"BAUD".to_string(),
        &Some(Type::I32),
        &Some(Expression::Literal(Literal::Numeric(NumericLiteral::Integer(9600)))),
    )
    .unwrap();
    assert_eq!(line, "const int32_t BAUD = 9600;");

    let missing = render_let_binding_line(
        &None,
        false,
        &"a".to_string(),
        &None,
        &None,
    );
    assert!(missing.is_err());
}

#[test]
fn test_render_expr_statement_line_direct() {
    let line = render_expr_statement_line(&Expression::Identifier("go".to_string()));
    assert_eq!(line, "go;");
}
