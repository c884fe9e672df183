//! Type-name translation and the binding qualifier.
//!
//! Builtin types map to the fixed-width C type names, named types render
//! verbatim (assumed already declared), and pointers append one `*` per
//! level.  Array types have no C rendering yet: they are an unresolved
//! extension point of the data model, and every entry point below keeps
//! them out through [`spec_c_renderable`].

use crate::ast::{Modifier, Type};
use vstd::prelude::*;
use vstd::string::StringExecFns;

verus! {

/// True when a type has a defined C rendering: anything except an array
/// (at any pointer depth).
pub open spec fn spec_c_renderable(t: Type) -> bool
    decreases t,
{
    match t {
        Type::Array { .. } => false,
        Type::Pointer { inner, .. } => spec_c_renderable(*inner),
        _ => true,
    }
}

/// The C name of a builtin type.
pub open spec fn spec_builtin_c(t: Type) -> Seq<char> {
    match t {
        Type::U8 => "uint8_t"@,
        Type::I8 => "int8_t"@,
        Type::U16 => "uint16_t"@,
        Type::I16 => "int16_t"@,
        Type::U32 => "uint32_t"@,
        Type::I32 => "int32_t"@,
        Type::U64 => "uint64_t"@,
        Type::I64 => "int64_t"@,
        Type::F32 => "float"@,
        Type::F64 => "double"@,
        Type::Bool => "bool"@,
        Type::Char => "char"@,
        Type::Void => "void"@,
        _ => Seq::empty(),
    }
}

/// The C rendering of a type: builtins through the table above, named
/// types verbatim, pointers as the pointee followed by `*`.
pub open spec fn spec_type_c(t: Type) -> Seq<char>
    decreases t,
{
    match t {
        Type::Named(name) => name@,
        Type::Pointer { inner, .. } => spec_type_c(*inner) + "*"@,
        _ => spec_builtin_c(t),
    }
}

/// The qualifier in front of a binding line: `const ` exactly when the
/// binding is immutable or carries the compile-time modifier.
pub open spec fn spec_binding_qualifier(modifier: Option<Modifier>, is_mutable: bool) -> Seq<
    char,
> {
    if !is_mutable || modifier == Some(Modifier::Comptime) {
        "const "@
    } else {
        ""@
    }
}

/// Renders the qualifier in front of a binding line.
pub fn binding_qualifier(modifier: &Option<Modifier>, is_mutable: bool) -> (r: String)
    ensures
        r@ == spec_binding_qualifier(*modifier, is_mutable),
{
    let is_comptime = match modifier {
        Some(Modifier::Comptime) => true,
        _ => false,
    };
    if !is_mutable || is_comptime {
        String::from_str("const ")
    } else {
        String::from_str("")
    }
}

/// Renders a builtin type's C name.  Named, pointer, and array types are
/// not builtin and are excluded by the precondition.
pub fn builtin_type_to_c(ty: &Type) -> (r: String)
    requires
        !(ty is Named),
        !(ty is Pointer),
        !(ty is Array),
    ensures
        r@ == spec_builtin_c(*ty),
{
    match ty {
        Type::U8 => String::from_str("uint8_t"),
        Type::I8 => String::from_str("int8_t"),
        Type::U16 => String::from_str("uint16_t"),
        Type::I16 => String::from_str("int16_t"),
        Type::U32 => String::from_str("uint32_t"),
        Type::I32 => String::from_str("int32_t"),
        Type::U64 => String::from_str("uint64_t"),
        Type::I64 => String::from_str("int64_t"),
        Type::F32 => String::from_str("float"),
        Type::F64 => String::from_str("double"),
        Type::Bool => String::from_str("bool"),
        Type::Char => String::from_str("char"),
        Type::Void => String::from_str("void"),
        Type::Named(_) => String::new(),
        Type::Pointer { .. } => String::new(),
        Type::Array { .. } => String::new(),
    }
}

/// Renders any C-renderable type.
pub fn type_to_c(ty: &Type) -> (r: String)
    requires
        spec_c_renderable(*ty),
    ensures
        r@ == spec_type_c(*ty),
    decreases *ty,
{
    match ty {
        Type::Named(name) => name.clone(),
        Type::Pointer { inner, is_mut: _ } => {
            let inner_type = type_to_c(inner);
            inner_type.concat("*")
        },
        _ => builtin_type_to_c(ty),
    }
}

} // verus!
