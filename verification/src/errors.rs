//! Structural errors raised by the code generator.
//!
//! Every user-triggerable failure of generation is one of these variants,
//! carrying the symbolic context (a binding, function, or method name, and
//! for impl methods also the target type name) needed to build a precise
//! message.  Generation is fail-fast: the first error aborts the whole run.

use vstd::prelude::*;
use vstd::string::StringExecFns;

verus! {

/// The closed set of code-generation errors.
#[derive(Debug, PartialEq, Eq)]
pub enum CodegenError {
    /// A binding reached the generator without a declared type.
    MissingType { name: String },
    /// A non-external function reached the generator without a body.
    MissingFunctionBody { name: String },
    /// A function marked as externally supplied also carries a body.
    ExternFunctionWithBody { name: String },
    /// A self parameter appeared where no enclosing impl target is known.
    SelfParamOutsideImpl { name: String },
    /// A parameter list contains more than one self parameter.
    MultipleSelfParams { name: String },
    /// An impl method is marked as externally supplied.
    ExternImplMethod { target: String, name: String },
}

impl CodegenError {
    /// A human-readable description of the error.
    pub fn message(&self) -> (r: String)
        ensures
            r@ == spec_error_message(*self),
    {
        match self {
            CodegenError::MissingType { name } => {
                let mut m = String::from_str("let binding '");
                m.append(name.as_str());
                m.append("' requires an explicit type");
                m
            },
            CodegenError::MissingFunctionBody { name } => {
                let mut m = String::from_str("function '");
                m.append(name.as_str());
                m.append("' is missing a body");
                m
            },
            CodegenError::ExternFunctionWithBody { name } => {
                let mut m = String::from_str("extern function '");
                m.append(name.as_str());
                m.append("' cannot have a body");
                m
            },
            CodegenError::SelfParamOutsideImpl { name } => {
                let mut m = String::from_str(
                    "`self` parameter is only allowed inside impl blocks (function '",
                );
                m.append(name.as_str());
                m.append("')");
                m
            },
            CodegenError::MultipleSelfParams { name } => {
                let mut m = String::from_str("function '");
                m.append(name.as_str());
                m.append("' contains multiple `self` parameters");
                m
            },
            CodegenError::ExternImplMethod { target, name } => {
                let mut m = String::from_str("impl method '");
                m.append(target.as_str());
                m.append("::");
                m.append(name.as_str());
                m.append("' cannot be declared extern");
                m
            },
        }
    }
}

/// The text produced by [`CodegenError::message`].
pub open spec fn spec_error_message(e: CodegenError) -> Seq<char> {
    match e {
        CodegenError::MissingType { name } => {
            "let binding '"@ + name@ + "' requires an explicit type"@
        },
        CodegenError::MissingFunctionBody { name } => {
            "function '"@ + name@ + "' is missing a body"@
        },
        CodegenError::ExternFunctionWithBody { name } => {
            "extern function '"@ + name@ + "' cannot have a body"@
        },
        CodegenError::SelfParamOutsideImpl { name } => {
            "`self` parameter is only allowed inside impl blocks (function '"@ + name@ + "')"@
        },
        CodegenError::MultipleSelfParams { name } => {
            "function '"@ + name@ + "' contains multiple `self` parameters"@
        },
        CodegenError::ExternImplMethod { target, name } => {
            "impl method '"@ + target@ + "::"@ + name@ + "' cannot be declared extern"@
        },
    }
}

} // verus!
