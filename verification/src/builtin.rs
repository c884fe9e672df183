//! A flat type vocabulary: the fixed-width builtins plus a custom (named)
//! tag, without pointers or arrays, for callers that deal in builtin type
//! tags alone.

use vstd::prelude::*;

verus! {

/// A builtin type tag, or a custom named type.
#[derive(Debug, Clone, PartialEq)]
pub enum Type {
    U8,
    U16,
    U32,
    U64,
    I8,
    I16,
    I32,
    I64,
    F32,
    F64,
    Bool,
    Char,
    Custom(String),
}

/// Which tags count as numeric.
pub open spec fn spec_builtin_is_numeric(t: Type) -> bool {
    match t {
        Type::U8
        | Type::U16
        | Type::U32
        | Type::U64
        | Type::I8
        | Type::I16
        | Type::I32
        | Type::I64
        | Type::F32
        | Type::F64 => true,
        _ => false,
    }
}

impl Type {
    /// True exactly for the fixed-width integer and floating-point tags.
    pub fn is_numeric(&self) -> (r: bool)
        ensures
            r == spec_builtin_is_numeric(*self),
    {
        match self {
            Type::U8
            | Type::U16
            | Type::U32
            | Type::U64
            | Type::I8
            | Type::I16
            | Type::I32
            | Type::I64
            | Type::F32
            | Type::F64 => true,
            _ => false,
        }
    }

    /// True exactly for the two floating-point tags.
    pub fn is_floating(&self) -> (r: bool)
        ensures
            r == (self is F32 || self is F64),
    {
        match self {
            Type::F32 | Type::F64 => true,
            _ => false,
        }
    }
}

} // verus!
