//! Building types from the parse tree.
//!
//! A closed keyword set maps to the builtin types; any other identifier
//! becomes a named type.  A pointer node wraps the recursively built
//! pointee, mutable exactly when the mutability keyword child is present.

use crate::ast::Type;
use crate::tree::{text_is, ParseNode, Rule};
use vstd::prelude::*;

verus! {

/// The type a lexeme names: one of the builtin keywords, or a named type
/// carrying the lexeme itself.
pub open spec fn spec_type_of_text(s: String) -> Type {
    if s@ == "u8"@ {
        Type::U8
    } else if s@ == "u16"@ {
        Type::U16
    } else if s@ == "u32"@ {
        Type::U32
    } else if s@ == "u64"@ {
        Type::U64
    } else if s@ == "i8"@ {
        Type::I8
    } else if s@ == "i16"@ {
        Type::I16
    } else if s@ == "i32"@ {
        Type::I32
    } else if s@ == "i64"@ {
        Type::I64
    } else if s@ == "bool"@ {
        Type::Bool
    } else if s@ == "char"@ {
        Type::Char
    } else if s@ == "void"@ {
        Type::Void
    } else {
        Type::Named(s)
    }
}

/// The type a node builds to, or nothing for a malformed node.  A
/// `TypeDef` delegates to its first child; a pointer node takes its
/// non-keyword child as the pointee, mutable exactly when the mutability
/// keyword stands first; a builtin-type or identifier leaf maps through
/// the keyword table.
pub open spec fn spec_parse_type(n: ParseNode) -> Option<Type>
    decreases n,
{
    match n.rule {
        Rule::TypeDef => {
            if n.children@.len() >= 1 {
                spec_parse_type(n.children@[0])
            } else {
                None
            }
        },
        Rule::PtrType => {
            if n.children@.len() >= 1 && n.children@[0].rule == Rule::KwMut {
                if n.children@.len() >= 2 {
                    match spec_parse_type(n.children@[1]) {
                        Some(inner) => Some(
                            Type::Pointer { inner: Box::new(inner), is_mut: true },
                        ),
                        None => None,
                    }
                } else {
                    None
                }
            } else if n.children@.len() >= 1 {
                match spec_parse_type(n.children@[0]) {
                    Some(inner) => Some(Type::Pointer { inner: Box::new(inner), is_mut: false }),
                    None => None,
                }
            } else {
                None
            }
        },
        Rule::BuiltinType => Some(spec_type_of_text(n.text)),
        Rule::Ident => Some(Type::Named(n.text)),
        _ => None,
    }
}

/// Maps a type lexeme through the builtin keyword table.
fn type_of_text(s: &String) -> (r: Type)
    ensures
        r == spec_type_of_text(*s),
{
    if text_is(s, "u8") {
        Type::U8
    } else if text_is(s, "u16") {
        Type::U16
    } else if text_is(s, "u32") {
        Type::U32
    } else if text_is(s, "u64") {
        Type::U64
    } else if text_is(s, "i8") {
        Type::I8
    } else if text_is(s, "i16") {
        Type::I16
    } else if text_is(s, "i32") {
        Type::I32
    } else if text_is(s, "i64") {
        Type::I64
    } else if text_is(s, "bool") {
        Type::Bool
    } else if text_is(s, "char") {
        Type::Char
    } else if text_is(s, "void") {
        Type::Void
    } else {
        Type::Named(s.clone())
    }
}

/// Builds a type from a grammar node, or nothing for a malformed node.
pub fn parse_type(node: &ParseNode) -> (r: Option<Type>)
    ensures
        r == spec_parse_type(*node),
    decreases *node,
{
    match node.rule {
        Rule::TypeDef => {
            if node.children.len() >= 1 {
                parse_type(&node.children[0])
            } else {
                None
            }
        },
        Rule::PtrType => {
            if node.children.len() >= 1 && node.children[0].rule == Rule::KwMut {
                if node.children.len() >= 2 {
                    match parse_type(&node.children[1]) {
                        Some(inner) => Some(
                            Type::Pointer { inner: Box::new(inner), is_mut: true },
                        ),
                        None => None,
                    }
                } else {
                    None
                }
            } else if node.children.len() >= 1 {
                match parse_type(&node.children[0]) {
                    Some(inner) => Some(Type::Pointer { inner: Box::new(inner), is_mut: false }),
                    None => None,
                }
            } else {
                None
            }
        },
        Rule::BuiltinType => Some(type_of_text(&node.text)),
        Rule::Ident => Some(Type::Named(node.text.clone())),
        _ => None,
    }
}

} // verus!
