//! The abstract syntax tree shared by the builder and the code generator.
//!
//! Every node is an immutable value: a program owns its statements, a
//! statement owns its expressions and blocks, and so on down to the leaves.
//! The tree is built bottom-up once and only read afterwards.

use vstd::prelude::*;

verus! {

/// A fixed-width builtin type, a named (user-declared) type, a pointer, or an
/// array.  Arrays are carried by the data model but have no C rendering yet;
/// the generator's callers keep them out (see `crate::ctypes`).
#[derive(Debug, PartialEq)]
pub enum Type {
    U8,
    U16,
    U32,
    U64,
    I8,
    I16,
    I32,
    I64,
    F32,
    F64,
    Bool,
    Char,
    Void,
    Named(String),
    Pointer { inner: Box<Type>, is_mut: bool },
    Array { inner: Box<Type>, len: usize },
}

/// Which types count as numeric.
pub open spec fn spec_is_numeric(t: Type) -> bool {
    match t {
        Type::U8
        | Type::U16
        | Type::U32
        | Type::U64
        | Type::I8
        | Type::I16
        | Type::I32
        | Type::I64
        | Type::F32
        | Type::F64 => true,
        _ => false,
    }
}

/// Which types count as floating point.
pub open spec fn spec_is_floating(t: Type) -> bool {
    match t {
        Type::F32 | Type::F64 => true,
        _ => false,
    }
}

impl Type {
    /// True exactly for the fixed-width integer and floating-point types.
    pub fn is_numeric(&self) -> (r: bool)
        ensures
            r == spec_is_numeric(*self),
    {
        match self {
            Type::U8
            | Type::U16
            | Type::U32
            | Type::U64
            | Type::I8
            | Type::I16
            | Type::I32
            | Type::I64
            | Type::F32
            | Type::F64 => true,
            _ => false,
        }
    }

    /// True exactly for the two floating-point types.
    pub fn is_floating(&self) -> (r: bool)
        ensures
            r == spec_is_floating(*self),
    {
        match self {
            Type::F32 | Type::F64 => true,
            _ => false,
        }
    }
}

/// A numeric literal.  Floating-point lexemes are carried as their decimal
/// text, with or without the trailing `f` marker; rendering normalizes the
/// marker, and no floating-point value is ever computed here.
#[derive(Debug, Clone, PartialEq)]
pub enum NumericLiteral {
    Integer(i64),
    Float(String),
    Double(String),
}

/// A literal value: numeric, boolean, or a single character.
#[derive(Debug, Clone, PartialEq)]
pub enum Literal {
    Numeric(NumericLiteral),
    Bool(bool),
    Char(char),
}

/// The name of the type a numeric literal is inferred to have.
pub open spec fn spec_numeric_inferred_type(n: NumericLiteral) -> Seq<char> {
    match n {
        NumericLiteral::Integer(_) => "i64"@,
        NumericLiteral::Float(_) => "f32"@,
        NumericLiteral::Double(_) => "f64"@,
    }
}

impl NumericLiteral {
    /// True exactly for integer literals.
    pub fn is_integer(&self) -> (r: bool)
        ensures
            r == (self is Integer),
    {
        match self {
            NumericLiteral::Integer(_) => true,
            _ => false,
        }
    }

    /// The inferred source-language type of this literal.
    pub fn inferred_type(&self) -> (r: &'static str)
        ensures
            r@ == spec_numeric_inferred_type(*self),
    {
        match self {
            NumericLiteral::Integer(_) => "i64",
            NumericLiteral::Float(_) => "f32",
            NumericLiteral::Double(_) => "f64",
        }
    }
}

/// The name of the type a literal is inferred to have.
pub open spec fn spec_literal_inferred_type(l: Literal) -> Seq<char> {
    match l {
        Literal::Numeric(n) => spec_numeric_inferred_type(n),
        Literal::Bool(_) => "bool"@,
        Literal::Char(_) => "char"@,
    }
}

impl Literal {
    /// The inferred source-language type of this literal.
    pub fn inferred_type(&self) -> (r: &'static str)
        ensures
            r@ == spec_literal_inferred_type(*self),
    {
        match self {
            Literal::Numeric(n) => n.inferred_type(),
            Literal::Bool(_) => "bool",
            Literal::Char(_) => "char",
        }
    }

    /// True exactly for numeric literals.
    pub fn is_numeric(&self) -> (r: bool)
        ensures
            r == (self is Numeric),
    {
        match self {
            Literal::Numeric(_) => true,
            _ => false,
        }
    }

    /// True exactly for boolean literals.
    pub fn is_bool(&self) -> (r: bool)
        ensures
            r == (self is Bool),
    {
        match self {
            Literal::Bool(_) => true,
            _ => false,
        }
    }
}

/// The seventeen binary operators, spanning arithmetic, comparison, bitwise,
/// shift, and logical forms (together with `Mod`, eighteen tags).
#[derive(Debug, Clone, PartialEq)]
pub enum BinaryOp {
    Add,
    Sub,
    Mul,
    Div,
    Mod,
    Eq,
    Ne,
    Lt,
    Le,
    Gt,
    Ge,
    BitAnd,
    BitOr,
    BitXor,
    Shl,
    Shr,
    And,
    Or,
}

/// A prefix operator.
#[derive(Debug, Clone, PartialEq)]
pub enum Prefix {
    Neg,
    Pos,
    Not,
    BitNot,
    PreInc,
    PreDec,
    Deref,
}

/// A postfix operator: indexing with a bracketed expression.
#[derive(Debug, PartialEq)]
pub enum Postfix {
    Index { index: Box<Expression> },
}

/// A unary operator, either prefix or postfix.
#[derive(Debug, PartialEq)]
pub enum UnaryOp {
    PrefixOp(Prefix),
    PostfixOp(Postfix),
}

/// An expression tree.  Exclusively owned by its parent node and acyclic.
#[derive(Debug, PartialEq)]
pub enum Expression {
    Literal(Literal),
    Identifier(String),
    UnaryExpr { op: UnaryOp, expr: Box<Expression> },
    BinaryExpr { left: Box<Expression>, op: BinaryOp, right: Box<Expression> },
    TernaryExpr {
        condition: Box<Expression>,
        then_expr: Box<Expression>,
        else_expr: Box<Expression>,
    },
}

/// The compile-time/runtime modifier tag on a binding.
#[derive(Debug, Clone, PartialEq)]
pub enum Modifier {
    Comptime,
    Runtime,
}

/// A variable binding.  The declared type is optional at parse time; the
/// generator requires it and reports `MissingType` when it is absent.
#[derive(Debug, PartialEq)]
pub struct VariableBinding {
    pub modifier: Option<Modifier>,
    pub is_mutable: bool,
    pub name: String,
    pub ty: Option<Type>,
    pub value: Option<Expression>,
}

/// An if/else statement with an optional else arm.
#[derive(Debug, PartialEq)]
pub struct IfElse {
    pub condition: Expression,
    pub then_block: Block,
    pub else_block: Option<Block>,
}

/// A while loop.
#[derive(Debug, PartialEq)]
pub struct WhileLoop {
    pub condition: Expression,
    pub block: Block,
}

/// A struct field: a name together with its declared type.
#[derive(Debug, PartialEq)]
pub struct StructField {
    pub name: String,
    pub ty: Type,
}

/// A struct definition: a name and its ordered fields.
#[derive(Debug, PartialEq)]
pub struct StructDef {
    pub name: String,
    pub fields: Vec<StructField>,
}

/// A function parameter: the distinguished self parameter, or a named,
/// typed parameter.
#[derive(Debug, PartialEq)]
pub enum Param {
    SelfParam,
    Typed { name: String, ty: Type },
}

/// A function definition or declaration.  A declaration marked as externally
/// supplied must have no body; a definition must have one.  The generator
/// enforces both.
#[derive(Debug, PartialEq)]
pub struct Function {
    pub name: String,
    pub params: Vec<Param>,
    pub return_type: Option<Type>,
    pub body: Option<Block>,
    pub is_extern: bool,
}

/// An impl block: a target type name and its methods.
#[derive(Debug, PartialEq)]
pub struct ImplBlock {
    pub target: String,
    pub methods: Vec<Function>,
}

/// A statement, either at the top level of a program or inside a block.
/// Definitions (struct, function, impl) are legal only at the top level;
/// assignment, return, and control flow only inside blocks.
#[derive(Debug, PartialEq)]
pub enum Statement {
    Binding(VariableBinding),
    ExprStatement(Expression),
    Struct(StructDef),
    Function(Function),
    Impl(ImplBlock),
    Assignment { target: Expression, value: Expression },
    Return(Option<Expression>),
    IfElse(IfElse),
    WhileLoop(WhileLoop),
}

/// An ordered sequence of statements inside a function body or control-flow
/// arm.
#[derive(Debug, PartialEq)]
pub struct Block {
    pub statements: Vec<Statement>,
}

/// A whole program: the ordered top-level statements.
#[derive(Debug, PartialEq)]
pub struct Program {
    pub statements: Vec<Statement>,
}


/// The mathematical view of a struct definition, with its fields as a
/// sequence.
#[verifier::ext_equal]
pub struct StructDefView {
    pub name: String,
    pub fields: Seq<StructField>,
}

/// The mathematical view of a function, with parameters as a sequence and
/// the body as a sequence of statement views.
#[verifier::ext_equal]
pub struct FunctionView {
    pub name: String,
    pub params: Seq<Param>,
    pub return_type: Option<Type>,
    pub body: Option<Seq<StatementView>>,
    pub is_extern: bool,
}

/// The mathematical view of an impl block.
#[verifier::ext_equal]
pub struct ImplBlockView {
    pub target: String,
    pub methods: Seq<FunctionView>,
}

/// The mathematical view of a statement: identical in shape to
/// [`Statement`], with every block flattened to a sequence of views.
#[verifier::ext_equal]
pub enum StatementView {
    Binding(VariableBinding),
    ExprStatement(Expression),
    Struct(StructDefView),
    Function(FunctionView),
    Impl(ImplBlockView),
    Assignment { target: Expression, value: Expression },
    Return(Option<Expression>),
    IfElse {
        condition: Expression,
        then_block: Seq<StatementView>,
        else_block: Option<Seq<StatementView>>,
    },
    WhileLoop { condition: Expression, block: Seq<StatementView> },
}

/// The view of a struct definition.
pub open spec fn struct_def_view(def: StructDef) -> StructDefView {
    StructDefView { name: def.name, fields: def.fields@ }
}

/// The view of a statement.
pub open spec fn stmt_view(s: Statement) -> StatementView
    decreases s,
{
    match s {
        Statement::Binding(lb) => StatementView::Binding(lb),
        Statement::ExprStatement(e) => StatementView::ExprStatement(e),
        Statement::Struct(def) => StatementView::Struct(struct_def_view(def)),
        Statement::Function(f) => StatementView::Function(function_view(f)),
        Statement::Impl(ib) => StatementView::Impl(impl_block_view(ib)),
        Statement::Assignment { target, value } => StatementView::Assignment { target, value },
        Statement::Return(e) => StatementView::Return(e),
        Statement::IfElse(ie) => StatementView::IfElse {
            condition: ie.condition,
            then_block: stmts_view(ie.then_block.statements@),
            else_block: match ie.else_block {
                Some(eb) => Some(stmts_view(eb.statements@)),
                None => None,
            },
        },
        Statement::WhileLoop(w) => StatementView::WhileLoop {
            condition: w.condition,
            block: stmts_view(w.block.statements@),
        },
    }
}

/// The views of a sequence of statements, in order.
pub open spec fn stmts_view(ss: Seq<Statement>) -> Seq<StatementView>
    decreases ss,
{
    if ss.len() == 0 {
        Seq::empty()
    } else {
        stmts_view(ss.drop_last()).push(stmt_view(ss.last()))
    }
}

/// The view of a function.
pub open spec fn function_view(f: Function) -> FunctionView
    decreases f,
{
    FunctionView {
        name: f.name,
        params: f.params@,
        return_type: f.return_type,
        body: match f.body {
            Some(b) => Some(stmts_view(b.statements@)),
            None => None,
        },
        is_extern: f.is_extern,
    }
}

/// The views of a sequence of functions, in order.
pub open spec fn funs_view(fs: Seq<Function>) -> Seq<FunctionView>
    decreases fs,
{
    if fs.len() == 0 {
        Seq::empty()
    } else {
        funs_view(fs.drop_last()).push(function_view(fs.last()))
    }
}

/// The view of an impl block.
pub open spec fn impl_block_view(ib: ImplBlock) -> ImplBlockView
    decreases ib,
{
    ImplBlockView { target: ib.target, methods: funs_view(ib.methods@) }
}

/// The view of an optional block.
pub open spec fn opt_block_view(b: Option<Block>) -> Option<Seq<StatementView>> {
    match b {
        Some(b) => Some(block_view(b)),
        None => None,
    }
}

/// The view of a block.
pub open spec fn block_view(b: Block) -> Seq<StatementView> {
    stmts_view(b.statements@)
}

/// The view of a program.
pub open spec fn program_view(p: Program) -> Seq<StatementView> {
    stmts_view(p.statements@)
}

/// The sequence of views grows one view per pushed statement.
pub proof fn lemma_stmts_view_push(ss: Seq<Statement>, s: Statement)
    ensures
        stmts_view(ss.push(s)) == stmts_view(ss).push(stmt_view(s)),
{
    assert(ss.push(s).drop_last() =~= ss);
    assert(ss.push(s).last() == s);
}

/// The sequence of views grows one view per pushed function.
pub proof fn lemma_funs_view_push(fs: Seq<Function>, f: Function)
    ensures
        funs_view(fs.push(f)) == funs_view(fs).push(function_view(f)),
{
    assert(fs.push(f).drop_last() =~= fs);
    assert(fs.push(f).last() == f);
}


/// A statement sequence and its views have the same length.
pub proof fn lemma_stmts_view_len(ss: Seq<Statement>)
    ensures
        stmts_view(ss).len() == ss.len(),
    decreases ss,
{
    if ss.len() > 0 {
        lemma_stmts_view_len(ss.drop_last());
    }
}

/// The views of a statement sequence are its statements' views, in place.
pub proof fn lemma_stmts_view_index(ss: Seq<Statement>, i: int)
    requires
        0 <= i < ss.len(),
    ensures
        stmts_view(ss).len() == ss.len(),
        stmts_view(ss)[i] == stmt_view(ss[i]),
    decreases ss,
{
    lemma_stmts_view_len(ss);
    if i < ss.len() - 1 {
        lemma_stmts_view_index(ss.drop_last(), i);
    } else {
        lemma_stmts_view_len(ss.drop_last());
    }
}

/// A function sequence and its views have the same length.
pub proof fn lemma_funs_view_len(fs: Seq<Function>)
    ensures
        funs_view(fs).len() == fs.len(),
    decreases fs,
{
    if fs.len() > 0 {
        lemma_funs_view_len(fs.drop_last());
    }
}

/// The views of a function sequence are its functions' views, in place.
pub proof fn lemma_funs_view_index(fs: Seq<Function>, i: int)
    requires
        0 <= i < fs.len(),
    ensures
        funs_view(fs).len() == fs.len(),
        funs_view(fs)[i] == function_view(fs[i]),
    decreases fs,
{
    lemma_funs_view_len(fs);
    if i < fs.len() - 1 {
        lemma_funs_view_index(fs.drop_last(), i);
    } else {
        lemma_funs_view_len(fs.drop_last());
    }
}

} // verus!


