//! A verified source-to-source compiler core for a small systems language.
//!
//! The crate has two halves.  The builder walks a grammar-labelled parse
//! tree ([`tree::ParseNode`]) and produces a structured [`ast::Program`],
//! resolving operator precedence by precedence climbing.  The generator
//! walks a program and renders C source text, enforcing the structural
//! rules (bindings need declared types, externally supplied functions have
//! no bodies, self parameters only inside impl blocks) and translating type
//! names.  Both transforms are pure: their output is pinned, byte for byte,
//! by spec functions over the input tree.

pub mod ast;
pub mod buffer;
pub mod builder;
pub mod builtin;
pub mod ctypes;
pub mod decl_parser;
pub mod declarations;
pub mod error;
pub mod errors;
pub mod expr_parser;
pub mod expression;
pub mod laws;
pub mod statements;
pub mod stmt_parser;
pub mod tree;
pub mod utils;

pub use ast::{
    BinaryOp, Block, Expression, Function, IfElse, ImplBlock, Literal, Modifier,
    NumericLiteral, Param, Postfix, Prefix, Program, Statement, StructDef, StructField,
    Type, UnaryOp, VariableBinding, WhileLoop,
};
pub use buffer::CodeBuffer;
pub use builder::build_ast;
pub use errors::CodegenError;
pub use statements::generate_program;
pub use tree::{ParseNode, Rule};
