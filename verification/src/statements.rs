//! Rendering of statements, blocks, and whole programs.
//!
//! Top-level statements (bindings, expression statements, structs,
//! functions, impl blocks) each render followed by a blank separator line.
//! Block statements render one indentation level per nesting depth.  A
//! definition inside a block, or control flow at the top level, is outside
//! the AST contract and excluded by precondition.

use crate::ast::{Block, Expression, Modifier, Program, Statement, Type, VariableBinding};
use crate::buffer::{spec_finish, spec_indent, CodeBuffer};
use crate::ctypes::{binding_qualifier, spec_binding_qualifier, spec_c_renderable, spec_type_c, type_to_c};
use crate::declarations::{
    emit_impl, emit_struct, spec_emit_function, spec_fn_depth_ok, spec_fn_wf, spec_impl_methods,
    spec_struct_lines, spec_struct_wf,
};
use crate::errors::CodegenError;
use crate::expression::{render_expr, spec_render_expr};
use vstd::prelude::*;
use vstd::string::StringExecFns;

verus! {

/// The larger of two naturals.
pub open spec fn max2(a: nat, b: nat) -> nat {
    if a >= b {
        a
    } else {
        b
    }
}

/// The rendered binding line, or `MissingType` when no type is declared:
/// `{qualifier}{ctype} {name}[ = {expr}];`.
pub open spec fn spec_binding_parts(
    modifier: Option<Modifier>,
    is_mutable: bool,
    name: String,
    ty: Option<Type>,
    value: Option<Expression>,
) -> Result<Seq<char>, CodegenError> {
    match ty {
        None => Err(CodegenError::MissingType { name }),
        Some(t) => {
            let head = spec_binding_qualifier(modifier, is_mutable) + spec_type_c(t) + " "@
                + name@;
            let init = match value {
                Some(e) => " = "@ + spec_render_expr(e),
                None => Seq::empty(),
            };
            Ok(head + init + ";"@)
        },
    }
}

/// The rendered binding line for a whole binding value.
pub open spec fn spec_binding_line(lb: VariableBinding) -> Result<Seq<char>, CodegenError> {
    spec_binding_parts(lb.modifier, lb.is_mutable, lb.name, lb.ty, lb.value)
}

/// The rendered expression-statement line: the expression followed by `;`.
pub open spec fn spec_expr_stmt_line(e: Expression) -> Seq<char> {
    spec_render_expr(e) + ";"@
}

/// A binding's declared type, when present, has a C rendering.
pub open spec fn spec_binding_renderable(lb: VariableBinding) -> bool {
    match lb.ty {
        Some(t) => spec_c_renderable(t),
        None => true,
    }
}

/// Statement legality and renderability inside a block: bindings,
/// expression statements, assignments, returns, and control flow, with all
/// nested blocks well-formed in turn.  Definitions are not block
/// statements.
pub open spec fn spec_block_stmt_wf(s: Statement) -> bool
    decreases s,
{
    match s {
        Statement::Binding(lb) => spec_binding_renderable(lb),
        Statement::ExprStatement(_) => true,
        Statement::Assignment { .. } => true,
        Statement::Return(_) => true,
        Statement::IfElse(ie) => spec_block_stmts_wf(ie.then_block.statements@) && match ie
            .else_block {
            Some(eb) => spec_block_stmts_wf(eb.statements@),
            None => true,
        },
        Statement::WhileLoop(w) => spec_block_stmts_wf(w.block.statements@),
        _ => false,
    }
}

/// Every statement of the sequence is well-formed for a block.
pub open spec fn spec_block_stmts_wf(ss: Seq<Statement>) -> bool
    decreases ss,
{
    ss.len() == 0 || (spec_block_stmt_wf(ss[0]) && spec_block_stmts_wf(ss.drop_first()))
}

/// Every statement of the block is well-formed for a block.
pub open spec fn spec_block_wf(b: Block) -> bool {
    spec_block_stmts_wf(b.statements@)
}

/// The nesting depth a statement adds below its own line.
pub open spec fn spec_stmt_depth(s: Statement) -> nat
    decreases s,
{
    match s {
        Statement::IfElse(ie) => 1 + max2(
            spec_stmts_depth(ie.then_block.statements@),
            match ie.else_block {
                Some(eb) => spec_stmts_depth(eb.statements@),
                None => 0,
            },
        ),
        Statement::WhileLoop(w) => 1 + spec_stmts_depth(w.block.statements@),
        _ => 0,
    }
}

/// The largest nesting depth over a sequence of statements.
pub open spec fn spec_stmts_depth(ss: Seq<Statement>) -> nat
    decreases ss,
{
    if ss.len() == 0 {
        0
    } else {
        max2(spec_stmt_depth(ss[0]), spec_stmts_depth(ss.drop_first()))
    }
}

/// The largest nesting depth of a block.
pub open spec fn spec_block_depth(b: Block) -> nat {
    spec_stmts_depth(b.statements@)
}

/// A well-formed statement sequence is well-formed at each index.
pub proof fn lemma_block_stmts_wf_index(ss: Seq<Statement>, i: int)
    requires
        spec_block_stmts_wf(ss),
        0 <= i < ss.len(),
    ensures
        spec_block_stmt_wf(ss[i]),
    decreases ss.len(),
{
    if i > 0 {
        lemma_block_stmts_wf_index(ss.drop_first(), i - 1);
        assert(ss.drop_first()[i - 1] == ss[i]);
    }
}

/// Each statement's depth is bounded by the sequence depth.
pub proof fn lemma_stmts_depth_bound(ss: Seq<Statement>, i: int)
    requires
        0 <= i < ss.len(),
    ensures
        spec_stmt_depth(ss[i]) <= spec_stmts_depth(ss),
    decreases ss.len(),
{
    if i > 0 {
        lemma_stmts_depth_bound(ss.drop_first(), i - 1);
        assert(ss.drop_first()[i - 1] == ss[i]);
    }
}

/// The lines of one statement inside a block, at the given indentation.
/// Definitions inside a block are outside the AST contract.
pub open spec fn spec_block_stmt_lines(s: Statement, indent: nat) -> Result<
    Seq<Seq<char>>,
    CodegenError,
>
    decreases s,
{
    match s {
        Statement::Binding(lb) => match spec_binding_line(lb) {
            Err(e) => Err(e),
            Ok(line) => Ok(seq![spec_indent(indent) + line]),
        },
        Statement::ExprStatement(e) => Ok(seq![spec_indent(indent) + spec_expr_stmt_line(e)]),
        Statement::Assignment { target, value } => Ok(
            seq![
                spec_indent(indent) + spec_render_expr(target) + " = "@ + spec_render_expr(value)
                    + ";"@,
            ],
        ),
        Statement::Return(value) => match value {
            Some(e) => Ok(seq![spec_indent(indent) + "return "@ + spec_render_expr(e) + ";"@]),
            None => Ok(seq![spec_indent(indent) + "return;"@]),
        },
        Statement::IfElse(ie) => {
            let cond = spec_render_expr(ie.condition);
            match spec_block_lines(ie.then_block.statements@, indent + 1) {
                Err(e) => Err(e),
                Ok(then_lines) => {
                    let head = seq![spec_indent(indent) + "if ("@ + cond + ") {"@];
                    let close = seq![spec_indent(indent) + "}"@];
                    match ie.else_block {
                        None => Ok(head + then_lines + close),
                        Some(eb) => match spec_block_lines(eb.statements@, indent + 1) {
                            Err(e) => Err(e),
                            Ok(else_lines) => Ok(
                                head + then_lines + seq![spec_indent(indent) + "} else {"@]
                                    + else_lines + close,
                            ),
                        },
                    }
                },
            }
        },
        Statement::WhileLoop(w) => {
            let cond = spec_render_expr(w.condition);
            match spec_block_lines(w.block.statements@, indent + 1) {
                Err(e) => Err(e),
                Ok(body_lines) => Ok(
                    seq![spec_indent(indent) + "while ("@ + cond + ") {"@] + body_lines
                        + seq![spec_indent(indent) + "}"@],
                ),
            }
        },
        _ => arbitrary(),
    }
}

/// The lines of a statement sequence inside a block, in order, stopping
/// at the first error.
pub open spec fn spec_block_lines(ss: Seq<Statement>, indent: nat) -> Result<
    Seq<Seq<char>>,
    CodegenError,
>
    decreases ss,
{
    if ss.len() == 0 {
        Ok(Seq::empty())
    } else {
        match spec_block_stmt_lines(ss[0], indent) {
            Err(e) => Err(e),
            Ok(first) => match spec_block_lines(ss.drop_first(), indent) {
                Err(e) => Err(e),
                Ok(rest) => Ok(first + rest),
            },
        }
    }
}

/// Statement legality and renderability at the top level of a program:
/// bindings, expression statements, and definitions.  Control flow,
/// assignment, and return are not top-level statements.
pub open spec fn spec_top_stmt_wf(s: Statement) -> bool {
    match s {
        Statement::Binding(lb) => spec_binding_renderable(lb),
        Statement::ExprStatement(_) => true,
        Statement::Struct(def) => spec_struct_wf(def),
        Statement::Function(f) => spec_fn_wf(f) && spec_fn_depth_ok(f),
        Statement::Impl(ib) => forall|i: int|
            0 <= i < ib.methods@.len() ==> spec_fn_wf(#[trigger] ib.methods@[i])
                && spec_fn_depth_ok(ib.methods@[i]),
        _ => false,
    }
}

/// The lines of one top-level statement, including its trailing blank
/// separator line.
pub open spec fn spec_top_stmt_lines(s: Statement) -> Result<Seq<Seq<char>>, CodegenError> {
    match s {
        Statement::Binding(lb) => match spec_binding_line(lb) {
            Err(e) => Err(e),
            Ok(line) => Ok(seq![line, ""@]),
        },
        Statement::ExprStatement(e) => Ok(seq![spec_expr_stmt_line(e), ""@]),
        Statement::Struct(def) => Ok(spec_struct_lines(def)),
        Statement::Function(f) => spec_emit_function(f, None),
        Statement::Impl(ib) => spec_impl_methods(ib.target, ib.methods@),
        _ => arbitrary(),
    }
}

/// The lines of a whole program, in source order, stopping at the first
/// error.
pub open spec fn spec_program_lines(ss: Seq<Statement>) -> Result<Seq<Seq<char>>, CodegenError>
    decreases ss,
{
    if ss.len() == 0 {
        Ok(Seq::empty())
    } else {
        match spec_top_stmt_lines(ss[0]) {
            Err(e) => Err(e),
            Ok(first) => match spec_program_lines(ss.drop_first()) {
                Err(e) => Err(e),
                Ok(rest) => Ok(first + rest),
            },
        }
    }
}

/// Every top-level statement of the program is well-formed.
pub open spec fn spec_program_wf(p: Program) -> bool {
    forall|i: int| 0 <= i < p.statements@.len() ==> spec_top_stmt_wf(#[trigger] p.statements@[i])
}

/// The complete generated text for a program, or its first structural
/// error.
pub open spec fn spec_generate_program(p: Program) -> Result<Seq<char>, CodegenError> {
    match spec_program_lines(p.statements@) {
        Err(e) => Err(e),
        Ok(lines) => Ok(spec_finish(lines)),
    }
}

/// The relation between a program and an output of [`generate_program`]:
/// the text is exactly the specified rendering, or the result is exactly
/// the specified first error.
pub open spec fn generates(p: Program, r: Result<String, CodegenError>) -> bool {
    match (spec_generate_program(p), r) {
        (Ok(text), Ok(s)) => s@ == text,
        (Err(e), Err(actual)) => actual == e,
        _ => false,
    }
}

/// Renders one binding line, or reports the missing declared type.
pub fn render_let_binding_line(
    modifier: &Option<Modifier>,
    is_mutable: bool,
    name: &String,
    ty: &Option<Type>,
    value: &Option<Expression>,
) -> (r: Result<String, CodegenError>)
    requires
        match ty {
            Some(t) => spec_c_renderable(*t),
            None => true,
        },
    ensures
        match spec_binding_parts(*modifier, is_mutable, *name, *ty, *value) {
            Ok(text) => r matches Ok(s) && s@ == text,
            Err(e) => r == Err::<String, CodegenError>(e),
        },
{
    let t = match ty {
        None => {
            return Err(CodegenError::MissingType { name: name.clone() });
        },
        Some(t) => t,
    };
    let mut line = binding_qualifier(modifier, is_mutable);
    let ctype = type_to_c(t);
    line.append(ctype.as_str());
    line.append(" ");
    line.append(name.as_str());
    match value {
        Some(e) => {
            line.append(" = ");
            let rendered = render_expr(e);
            line.append(rendered.as_str());
        },
        None => {},
    }
    line.append(";");
    Ok(line)
}

/// Emits one top-level binding followed by a blank separator line.
pub fn emit_let_binding(
    buffer: &mut CodeBuffer,
    modifier: &Option<Modifier>,
    is_mutable: bool,
    name: &String,
    ty: &Option<Type>,
    value: &Option<Expression>,
) -> (r: Result<(), CodegenError>)
    requires
        match ty {
            Some(t) => spec_c_renderable(*t),
            None => true,
        },
    ensures
        match spec_binding_parts(*modifier, is_mutable, *name, *ty, *value) {
            Ok(line) => r is Ok && final(buffer)@ == old(buffer)@ + seq![line, ""@],
            Err(e) => r == Err::<(), CodegenError>(e),
        },
{
    let line = match render_let_binding_line(modifier, is_mutable, name, ty, value) {
        Ok(l) => l,
        Err(e) => {
            return Err(e);
        },
    };
    buffer.push_line(line.as_str());
    buffer.push_line("");
    proof {
        assert(buffer@ =~~= old(buffer)@ + seq![
            spec_binding_parts(*modifier, is_mutable, *name, *ty, *value)->Ok_0,
            ""@,
        ]);
    }
    Ok(())
}

/// Renders one expression-statement line.
pub fn render_expr_statement_line(expr: &Expression) -> (r: String)
    ensures
        r@ == spec_expr_stmt_line(*expr),
{
    let mut line = render_expr(expr);
    line.append(";");
    line
}

/// Emits one top-level expression statement followed by a blank separator
/// line.
pub fn emit_expr_statement(buffer: &mut CodeBuffer, expr: &Expression) -> (r: Result<
    (),
    CodegenError,
>)
    ensures
        r is Ok,
        final(buffer)@ == old(buffer)@ + seq![spec_expr_stmt_line(*expr), ""@],
{
    let line = render_expr_statement_line(expr);
    buffer.push_line(line.as_str());
    buffer.push_line("");
    proof {
        assert(buffer@ =~~= old(buffer)@ + seq![spec_expr_stmt_line(*expr), ""@]);
    }
    Ok(())
}

/// Emits one statement inside a block at the given indentation.
pub fn emit_block_statement(buffer: &mut CodeBuffer, statement: &Statement, indent: usize) -> (r:
    Result<(), CodegenError>)
    requires
        spec_block_stmt_wf(*statement),
        indent + spec_stmt_depth(*statement) <= usize::MAX,
    ensures
        match spec_block_stmt_lines(*statement, indent as nat) {
            Ok(lines) => r is Ok && final(buffer)@ == old(buffer)@ + lines,
            Err(e) => r == Err::<(), CodegenError>(e),
        },
    decreases *statement,
{
    match statement {
        Statement::Binding(lb) => {
            let line = match render_let_binding_line(
                &lb.modifier,
                lb.is_mutable,
                &lb.name,
                &lb.ty,
                &lb.value,
            ) {
                Ok(l) => l,
                Err(e) => {
                    return Err(e);
                },
            };
            buffer.push_indented_line(indent, line.as_str());
            proof {
                assert(buffer@ =~~= old(buffer)@ + spec_block_stmt_lines(
                    *statement,
                    indent as nat,
                )->Ok_0);
            }
            Ok(())
        },
        Statement::ExprStatement(expr) => {
            let line = render_expr_statement_line(expr);
            buffer.push_indented_line(indent, line.as_str());
            proof {
                assert(buffer@ =~~= old(buffer)@ + spec_block_stmt_lines(
                    *statement,
                    indent as nat,
                )->Ok_0);
            }
            Ok(())
        },
        Statement::Assignment { target, value } => {
            let mut line = render_expr(target);
            line.append(" = ");
            let rendered = render_expr(value);
            line.append(rendered.as_str());
            line.append(";");
            buffer.push_indented_line(indent, line.as_str());
            proof {
                assert(buffer@ =~~= old(buffer)@ + spec_block_stmt_lines(
                    *statement,
                    indent as nat,
                )->Ok_0);
            }
            Ok(())
        },
        Statement::Return(value) => {
            match value {
                Some(e) => {
                    let mut line = String::from_str("return ");
                    let rendered = render_expr(e);
                    line.append(rendered.as_str());
                    line.append(";");
                    buffer.push_indented_line(indent, line.as_str());
                },
                None => {
                    buffer.push_indented_line(indent, "return;");
                },
            }
            proof {
                assert(buffer@ =~~= old(buffer)@ + spec_block_stmt_lines(
                    *statement,
                    indent as nat,
                )->Ok_0);
            }
            Ok(())
        },
        Statement::IfElse(if_stmt) => {
            let cond_str = render_expr(&if_stmt.condition);
            let mut head = String::from_str("if (");
            head.append(cond_str.as_str());
            head.append(") {");
            buffer.push_indented_line(indent, head.as_str());
            match emit_block(buffer, &if_stmt.then_block, indent + 1) {
                Ok(()) => {},
                Err(e) => {
                    return Err(e);
                },
            }
            match &if_stmt.else_block {
                Some(else_block) => {
                    buffer.push_indented_line(indent, "} else {");
                    match emit_block(buffer, else_block, indent + 1) {
                        Ok(()) => {},
                        Err(e) => {
                            return Err(e);
                        },
                    }
                },
                None => {},
            }
            buffer.push_indented_line(indent, "}");
            proof {
                assert(buffer@ =~~= old(buffer)@ + spec_block_stmt_lines(
                    *statement,
                    indent as nat,
                )->Ok_0);
            }
            Ok(())
        },
        Statement::WhileLoop(while_stmt) => {
            let cond_str = render_expr(&while_stmt.condition);
            let mut head = String::from_str("while (");
            head.append(cond_str.as_str());
            head.append(") {");
            buffer.push_indented_line(indent, head.as_str());
            match emit_block(buffer, &while_stmt.block, indent + 1) {
                Ok(()) => {},
                Err(e) => {
                    return Err(e);
                },
            }
            buffer.push_indented_line(indent, "}");
            proof {
                assert(buffer@ =~~= old(buffer)@ + spec_block_stmt_lines(
                    *statement,
                    indent as nat,
                )->Ok_0);
            }
            Ok(())
        },
        _ => {
            proof {
                assert(false);
            }
            Ok(())
        },
    }
}

/// Emits every statement of a block in order at the given indentation.
pub fn emit_block(buffer: &mut CodeBuffer, block: &Block, indent: usize) -> (r: Result<
    (),
    CodegenError,
>)
    requires
        spec_block_wf(*block),
        indent + spec_block_depth(*block) <= usize::MAX,
    ensures
        match spec_block_lines(block.statements@, indent as nat) {
            Ok(lines) => r is Ok && final(buffer)@ == old(buffer)@ + lines,
            Err(e) => r == Err::<(), CodegenError>(e),
        },
    decreases *block,
{
    let n = block.statements.len();
    let mut i: usize = 0;
    let ghost mut done: Seq<Seq<char>> = Seq::empty();
    proof {
        assert(block.statements@.skip(0) =~= block.statements@);
        if spec_block_lines(block.statements@, indent as nat) is Ok {
            assert(Seq::<Seq<char>>::empty() + spec_block_lines(
                block.statements@,
                indent as nat,
            )->Ok_0 =~= spec_block_lines(block.statements@, indent as nat)->Ok_0);
        }
    }
    while i < n
        invariant
            i <= n,
            n == block.statements@.len(),
            spec_block_wf(*block),
            indent + spec_block_depth(*block) <= usize::MAX,
            buffer@ == old(buffer)@ + done,
            spec_block_lines(block.statements@, indent as nat) == (
            match spec_block_lines(block.statements@.skip(i as int), indent as nat) {
                Ok(rest) => Ok::<Seq<Seq<char>>, CodegenError>(done + rest),
                Err(e) => Err(e),
            }),
        decreases n - i,
    {
        proof {
            assert(block.statements@.skip(i as int).drop_first() =~= block.statements@.skip(
                i as int + 1,
            ));
            assert(block.statements@.skip(i as int)[0] == block.statements@[i as int]);
            lemma_block_stmts_wf_index(block.statements@, i as int);
            lemma_stmts_depth_bound(block.statements@, i as int);
        }
        let statement = &block.statements[i];
        let ghost before = done;
        match emit_block_statement(buffer, statement, indent) {
            Ok(()) => {},
            Err(e) => {
                return Err(e);
            },
        }
        proof {
            let lines = spec_block_stmt_lines(block.statements@[i as int], indent as nat)->Ok_0;
            done = before + lines;
            assert(buffer@ =~~= old(buffer)@ + done);
            match spec_block_lines(block.statements@.skip(i as int + 1), indent as nat) {
                Ok(rest) => {
                    assert(before + (lines + rest) =~= done + rest);
                },
                Err(_) => {},
            }
        }
        i = i + 1;
    }
    proof {
        assert(block.statements@.skip(n as int) =~= Seq::<Statement>::empty());
        assert(done + Seq::<Seq<char>>::empty() =~= done);
    }
    Ok(())
}

/// Emits one top-level statement.
pub fn emit_statement(buffer: &mut CodeBuffer, statement: &Statement) -> (r: Result<
    (),
    CodegenError,
>)
    requires
        spec_top_stmt_wf(*statement),
    ensures
        match spec_top_stmt_lines(*statement) {
            Ok(lines) => r is Ok && final(buffer)@ == old(buffer)@ + lines,
            Err(e) => r == Err::<(), CodegenError>(e),
        },
{
    match statement {
        Statement::Binding(lb) => emit_let_binding(
            buffer,
            &lb.modifier,
            lb.is_mutable,
            &lb.name,
            &lb.ty,
            &lb.value,
        ),
        Statement::ExprStatement(expr) => emit_expr_statement(buffer, expr),
        Statement::Struct(def) => emit_struct(buffer, def),
        Statement::Function(func) => crate::declarations::emit_function(buffer, func, None),
        Statement::Impl(block) => emit_impl(buffer, block),
        _ => {
            proof {
                assert(false);
            }
            Ok(())
        },
    }
}

/// Emits every top-level statement of a program in order.
pub fn emit_program(buffer: &mut CodeBuffer, program: &Program) -> (r: Result<(), CodegenError>)
    requires
        spec_program_wf(*program),
    ensures
        match spec_program_lines(program.statements@) {
            Ok(lines) => r is Ok && final(buffer)@ == old(buffer)@ + lines,
            Err(e) => r == Err::<(), CodegenError>(e),
        },
{
    let n = program.statements.len();
    let mut i: usize = 0;
    let ghost mut done: Seq<Seq<char>> = Seq::empty();
    proof {
        assert(program.statements@.skip(0) =~= program.statements@);
        if spec_program_lines(program.statements@) is Ok {
            assert(Seq::<Seq<char>>::empty() + spec_program_lines(
                program.statements@,
            )->Ok_0 =~= spec_program_lines(program.statements@)->Ok_0);
        }
    }
    while i < n
        invariant
            i <= n,
            n == program.statements@.len(),
            spec_program_wf(*program),
            buffer@ == old(buffer)@ + done,
            spec_program_lines(program.statements@) == (
            match spec_program_lines(program.statements@.skip(i as int)) {
                Ok(rest) => Ok::<Seq<Seq<char>>, CodegenError>(done + rest),
                Err(e) => Err(e),
            }),
        decreases n - i,
    {
        proof {
            assert(program.statements@.skip(i as int).drop_first() =~= program.statements@.skip(
                i as int + 1,
            ));
            assert(program.statements@.skip(i as int)[0] == program.statements@[i as int]);
        }
        let statement = &program.statements[i];
        let ghost before = done;
        match emit_statement(buffer, statement) {
            Ok(()) => {},
            Err(e) => {
                return Err(e);
            },
        }
        proof {
            let lines = spec_top_stmt_lines(program.statements@[i as int])->Ok_0;
            done = before + lines;
            assert(buffer@ =~~= old(buffer)@ + done);
            match spec_program_lines(program.statements@.skip(i as int + 1)) {
                Ok(rest) => {
                    assert(before + (lines + rest) =~= done + rest);
                },
                Err(_) => {},
            }
        }
        i = i + 1;
    }
    proof {
        assert(program.statements@.skip(n as int) =~= Seq::<Statement>::empty());
        assert(done + Seq::<Seq<char>>::empty() =~= done);
    }
    Ok(())
}

/// Generates the complete C text for a program, or the first structural
/// error.  The output is a pure function of the program: identical input
/// always yields byte-identical text.
pub fn generate_program(program: &Program) -> (r: Result<String, CodegenError>)
    requires
        spec_program_wf(*program),
    ensures
        generates(*program, r),
{
    let mut buffer = CodeBuffer::default();
    match emit_program(&mut buffer, program) {
        Ok(()) => {
            proof {
                assert(buffer@ =~= spec_program_lines(program.statements@)->Ok_0);
            }
            Ok(buffer.finish())
        },
        Err(e) => Err(e),
    }
}

/// Generation is deterministic: any two results that the generator may
/// return for the same program agree exactly, both on success (byte for
/// byte) and on the error reported.
pub proof fn lemma_generation_deterministic(
    p: Program,
    r1: Result<String, CodegenError>,
    r2: Result<String, CodegenError>,
)
    requires
        generates(p, r1),
        generates(p, r2),
    ensures
        r1 is Ok <==> r2 is Ok,
        r1 matches Ok(a) ==> (r2 matches Ok(b) && a@ == b@),
        r1 matches Err(a) ==> (r2 matches Err(b) && a == b),
{
}

} // verus!
