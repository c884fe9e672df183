//! Tests for the literal and type helpers of the AST.

use amber::builtin;
use amber::{Literal, NumericLiteral, Type};

#[test]
fn test_literal_numeric() {
    let lit = Literal::Numeric(NumericLiteral::Integer(42));
    assert!(lit.is_numeric());
    assert!(!lit.is_bool());
    assert_eq!(lit.inferred_type(), "i64");
}

#[test]
fn test_literal_bool() {
    let lit_true = Literal::Bool(true);
    let lit_false = Literal::Bool(false);

    assert!(!lit_true.is_numeric());
    assert!(lit_true.is_bool());
    assert_eq!(lit_true.inferred_type(), "bool");
    assert_eq!(lit_false.to_text(), "false");
}

#[test]
fn test_literal_display() {
    let int_lit = Literal::Numeric(NumericLiteral::Integer(42));
    let bool_lit = Literal::Bool(true);

    assert_eq!(int_lit.to_text(), "42");
    assert_eq!(bool_lit.to_text(), "true");
}

#[test]
fn test_numeric_literal_display() {
    assert_eq!(NumericLiteral::Integer(42).to_text(), "42");
    assert_eq!(NumericLiteral::Float(String::from("3.14")).to_text(), "3.14f");
    assert_eq!(NumericLiteral::Double(String::from("2.71828")).to_text(), "2.71828d");
}

#[test]
fn test_numeric_literal_kinds() {
    let int_lit = NumericLiteral::Integer(42);
    assert!(int_lit.is_integer());
    assert_eq!(int_lit.inferred_type(), "i64");

    let float_lit = NumericLiteral::Float(String::from("3.14"));
    assert!(!float_lit.is_integer());
    assert_eq!(float_lit.inferred_type(), "f32");

    let double_lit = NumericLiteral::Double(String::from("2.71828"));
    assert_eq!(double_lit.inferred_type(), "f64");
}

#[test]
fn test_char_literal_text() {
    let lit = Literal::Char('a');
    assert_eq!(lit.inferred_type(), "char");
    assert_eq!(lit.to_text(), "a");
}

#[test]
fn test_type_numeric_and_floating() {
    assert!(Type::I32.is_numeric());
    assert!(Type::F32.is_numeric());
    assert!(Type::F64.is_floating());
    assert!(!Type::I64.is_floating());
    assert!(!Type::Bool.is_numeric());
    assert!(!Type::Named(String::from("Point")).is_numeric());
}

#[test]
fn test_builtin_type_numeric_and_floating() {
    assert!(builtin::Type::U8.is_numeric());
    assert!(builtin::Type::F32.is_floating());
    assert!(!builtin::Type::Bool.is_numeric());
    assert!(!builtin::Type::Custom(String::from("Point")).is_floating());
}
