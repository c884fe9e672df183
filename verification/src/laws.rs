//! The library's cross-cutting guarantees, stated and proved once.
//!
//! Each public proof function here pins one behaviour of the generator
//! for every input it speaks of; the generator's own contracts carry
//! these guarantees to the executable code.

use crate::ast::{
    function_view, funs_view, lemma_funs_view_index, lemma_funs_view_len, lemma_stmts_view_index,
    lemma_stmts_view_len, program_view, stmt_view, stmts_view, Expression, Function, Param,
    Program, Statement, VariableBinding, WhileLoop,
};
use crate::buffer::spec_indent;
use crate::ctypes::{spec_binding_qualifier, spec_type_c};
use crate::declarations::{
    spec_emit_function, spec_format_params, spec_function_signature, spec_join_comma,
    spec_params_fold,
};
use crate::errors::CodegenError;
use crate::expression::{spec_render_binary_op, spec_render_expr, spec_render_literal};
use crate::statements::{
    spec_binding_line, spec_block_lines, spec_block_stmt_lines, spec_generate_program,
    spec_program_lines, spec_top_stmt_lines,
};
use vstd::prelude::*;

verus! {

/// Every binding with a declared type and a literal initializer renders
/// as `{qualifier}{ctype} {name} = {value};`, where the qualifier is
/// `const ` exactly when the binding is immutable or compile-time.
pub proof fn lemma_binding_line_form(lb: VariableBinding)
    requires
        lb.ty is Some,
        lb.value matches Some(Expression::Literal(_)),
    ensures
        spec_binding_line(lb) == Ok::<_, CodegenError>(
            spec_binding_qualifier(lb.modifier, lb.is_mutable) + spec_type_c(lb.ty->Some_0) + " "@
                + lb.name@ + " = "@ + spec_render_literal(lb.value->Some_0->Literal_0) + ";"@,
        ),
{
    let expected = spec_binding_qualifier(lb.modifier, lb.is_mutable) + spec_type_c(lb.ty->Some_0)
        + " "@ + lb.name@ + " = "@ + spec_render_literal(lb.value->Some_0->Literal_0) + ";"@;
    assert(spec_binding_line(lb)->Ok_0 =~= expected);
}

/// Every binary application renders fully parenthesized: an opening
/// parenthesis, the left operand, the operator between single spaces, the
/// right operand, and a closing parenthesis — whatever the operands are.
pub proof fn lemma_binary_fully_parenthesized(left: Expression, op: crate::ast::BinaryOp, right: Expression)
    ensures
        spec_render_expr(
            Expression::BinaryExpr { left: Box::new(left), op, right: Box::new(right) },
        ) == "("@ + spec_render_expr(left) + " "@ + spec_render_binary_op(op) + " "@
            + spec_render_expr(right) + ")"@,
        spec_render_expr(
            Expression::BinaryExpr { left: Box::new(left), op, right: Box::new(right) },
        ).first() == '(',
        spec_render_expr(
            Expression::BinaryExpr { left: Box::new(left), op, right: Box::new(right) },
        ).last() == ')',
{
    reveal_strlit("(");
    reveal_strlit(")");
}

/// A parameter list without any self parameter always renders, and keeps
/// every part already collected as a prefix of the result.
proof fn lemma_params_fold_no_self(
    params: Seq<Param>,
    target: Option<Seq<char>>,
    fn_name: String,
    parts: Seq<Seq<char>>,
    self_seen: bool,
)
    requires
        forall|k: int| 0 <= k < params.len() ==> !(#[trigger] params[k] is SelfParam),
    ensures
        spec_params_fold(params, target, fn_name, parts, self_seen) matches Ok(ps)
            && parts.is_prefix_of(ps),
    decreases params.len(),
{
    if params.len() == 0 {
        assert(parts.is_prefix_of(parts)) by {
            assert(parts.take(parts.len() as int) =~= parts);
        }
    } else {
        match params[0] {
            Param::SelfParam => {
                assert(false);
            },
            Param::Typed { name, ty } => {
                let pushed = parts.push(spec_type_c(ty) + " "@ + name@);
                lemma_params_fold_no_self(params.drop_first(), target, fn_name, pushed, self_seen);
                let ps = spec_params_fold(
                    params.drop_first(),
                    target,
                    fn_name,
                    pushed,
                    self_seen,
                )->Ok_0;
                assert(pushed.take(parts.len() as int) =~= parts);
                assert(ps.take(parts.len() as int) =~= pushed.take(
                    pushed.len() as int,
                ).take(parts.len() as int)) by {
                    assert(pushed.is_prefix_of(ps));
                    assert(pushed.take(pushed.len() as int) =~= pushed);
                    assert(ps.take(pushed.len() as int) == pushed);
                    assert(ps.take(pushed.len() as int).take(parts.len() as int) =~= ps.take(
                        parts.len() as int,
                    ));
                }
                assert(parts.is_prefix_of(ps));
            },
        }
    }
}

/// The comma join of a non-empty part list begins with its first part.
proof fn lemma_join_comma_first(parts: Seq<Seq<char>>)
    requires
        parts.len() >= 1,
    ensures
        spec_join_comma(parts).len() >= parts[0].len(),
        spec_join_comma(parts).take(parts[0].len() as int) == parts[0],
    decreases parts.len(),
{
    if parts.len() == 1 {
        assert(spec_join_comma(parts).take(parts[0].len() as int) =~= parts[0]);
    } else {
        lemma_join_comma_first(parts.drop_last());
        assert(parts.drop_last()[0] == parts[0]);
        let head = spec_join_comma(parts.drop_last());
        let whole = head + ", "@ + parts.last();
        assert(whole.take(parts[0].len() as int) =~= head.take(parts[0].len() as int));
    }
}

/// An impl method whose first parameter is the self parameter (and whose
/// only one) renders its first formal parameter as `{Target}* self`, and
/// its call name is mangled to `{Target}_{method}`.
pub proof fn lemma_impl_method_self_param(f: Function, target: Seq<char>)
    requires
        f.params@.len() >= 1,
        f.params@[0] is SelfParam,
        forall|k: int| 1 <= k < f.params@.len() ==> !(#[trigger] f.params@[k] is SelfParam),
    ensures
        spec_format_params(f.params@, Some(target), f.name) matches Ok(ps) && ps.len() >= (target
            + "* self"@).len() && ps.take((target + "* self"@).len() as int) == target + "* self"@,
        spec_function_signature(f, Some(target)) == Ok::<_, CodegenError>(
            (match f.return_type {
                Some(t) => spec_type_c(t),
                None => "void"@,
            }) + " "@ + target + "_"@ + f.name@ + "("@ + spec_format_params(
                f.params@,
                Some(target),
                f.name,
            )->Ok_0 + ")"@,
        ),
{
    let first = target + "* self"@;
    let parts0 = Seq::<Seq<char>>::empty().push(first);
    assert(spec_params_fold(f.params@, Some(target), f.name, Seq::empty(), false)
        == spec_params_fold(f.params@.drop_first(), Some(target), f.name, parts0, true));
    assert(forall|k: int|
        0 <= k < f.params@.drop_first().len() ==> !(#[trigger] f.params@.drop_first()[k]
            is SelfParam));
    lemma_params_fold_no_self(f.params@.drop_first(), Some(target), f.name, parts0, true);
    let ps = spec_params_fold(f.params@.drop_first(), Some(target), f.name, parts0, true)->Ok_0;
    assert(ps.take(1) == parts0) by {
        assert(ps.take(parts0.len() as int) == parts0);
    }
    assert(ps.len() >= 1);
    assert(parts0[0] == first);
    assert(ps.take(1)[0] == ps[0]);
    assert(ps[0] == first);
    lemma_join_comma_first(ps);
    let ret = match f.return_type {
        Some(t) => spec_type_c(t),
        None => "void"@,
    };
    let joined = spec_format_params(f.params@, Some(target), f.name)->Ok_0;
    assert(spec_function_signature(f, Some(target))->Ok_0 =~= ret + " "@ + target + "_"@ + f.name@
        + "("@ + joined + ")"@);
}

/// A parameter list that still holds a self parameter, walked after one
/// self parameter was already seen, reports `MultipleSelfParams`.
proof fn lemma_fold_second_self(
    params: Seq<Param>,
    target: Seq<char>,
    fn_name: String,
    parts: Seq<Seq<char>>,
)
    requires
        exists|k: int| 0 <= k < params.len() && #[trigger] params[k] is SelfParam,
    ensures
        spec_params_fold(params, Some(target), fn_name, parts, true) == Err::<Seq<Seq<char>>, _>(
            CodegenError::MultipleSelfParams { name: fn_name },
        ),
    decreases params.len(),
{
    let k = choose|k: int| 0 <= k < params.len() && #[trigger] params[k] is SelfParam;
    match params[0] {
        Param::SelfParam => {
        },
        Param::Typed { name, ty } => {
            assert(k >= 1);
            assert(params.drop_first()[k - 1] is SelfParam);
            lemma_fold_second_self(
                params.drop_first(),
                target,
                fn_name,
                parts.push(spec_type_c(ty) + " "@ + name@),
            );
        },
    }
}

/// A method with two (or more) self parameters reports
/// `MultipleSelfParams` carrying the method's name.
pub proof fn lemma_multiple_self_params(f: Function, target: Seq<char>)
    requires
        exists|i: int, j: int|
            0 <= i < j < f.params@.len() && #[trigger] f.params@[i] is SelfParam
                && #[trigger] f.params@[j] is SelfParam,
    ensures
        spec_format_params(f.params@, Some(target), f.name) == Err::<Seq<char>, _>(
            CodegenError::MultipleSelfParams { name: f.name },
        ),
{
    lemma_fold_two_selfs(f.params@, target, f.name, Seq::empty());
}

/// The fold form of the statement above, over any starting state.
proof fn lemma_fold_two_selfs(
    params: Seq<Param>,
    target: Seq<char>,
    fn_name: String,
    parts: Seq<Seq<char>>,
)
    requires
        exists|i: int, j: int|
            0 <= i < j < params.len() && #[trigger] params[i] is SelfParam
                && #[trigger] params[j] is SelfParam,
    ensures
        spec_params_fold(params, Some(target), fn_name, parts, false) == Err::<Seq<Seq<char>>, _>(
            CodegenError::MultipleSelfParams { name: fn_name },
        ),
    decreases params.len(),
{
    let (i, j) = choose|i: int, j: int|
        0 <= i < j < params.len() && #[trigger] params[i] is SelfParam && #[trigger] params[j]
            is SelfParam;
    match params[0] {
        Param::SelfParam => {
            assert(params.drop_first()[j - 1] is SelfParam);
            lemma_fold_second_self(
                params.drop_first(),
                target,
                fn_name,
                parts.push(target + "* self"@),
            );
        },
        Param::Typed { name, ty } => {
            assert(params.drop_first()[i - 1] is SelfParam);
            assert(params.drop_first()[j - 1] is SelfParam);
            lemma_fold_two_selfs(
                params.drop_first(),
                target,
                fn_name,
                parts.push(spec_type_c(ty) + " "@ + name@),
            );
        },
    }
}

/// A function marked as externally supplied that also carries a body is
/// rejected with `ExternFunctionWithBody` carrying its name, and yields
/// no lines.
pub proof fn lemma_extern_function_with_body(f: Function)
    requires
        f.is_extern,
        f.body is Some,
        forall|k: int| 0 <= k < f.params@.len() ==> !(#[trigger] f.params@[k] is SelfParam),
    ensures
        spec_emit_function(f, None) == Err::<Seq<Seq<char>>, _>(
            CodegenError::ExternFunctionWithBody { name: f.name },
        ),
        crate::statements::spec_top_stmt_lines(Statement::Function(f)) == Err::<Seq<Seq<char>>, _>(
            CodegenError::ExternFunctionWithBody { name: f.name },
        ),
{
    lemma_params_fold_no_self(f.params@, None, f.name, Seq::empty(), false);
}

/// A while loop renders as `while ({cond}) {` at its own indentation,
/// its body one level deeper, and a closing brace back at its own
/// indentation.
pub proof fn lemma_while_loop_lines(w: WhileLoop, indent: nat)
    ensures
        spec_block_stmt_lines(Statement::WhileLoop(w), indent) == (match spec_block_lines(
            w.block.statements@,
            indent + 1,
        ) {
            Ok(body) => Ok::<_, CodegenError>(
                seq![spec_indent(indent) + "while ("@ + spec_render_expr(w.condition) + ") {"@]
                    + body + seq![spec_indent(indent) + "}"@],
            ),
            Err(e) => Err(e),
        }),
{
}


/// Statement sequences with equal views render to equal block lines.
proof fn lemma_stmts_lines_view_eq(ss1: Seq<Statement>, ss2: Seq<Statement>, indent: nat)
    requires
        stmts_view(ss1) == stmts_view(ss2),
    ensures
        spec_block_lines(ss1, indent) == spec_block_lines(ss2, indent),
    decreases ss1, 0int,
{
    lemma_stmts_view_len(ss1);
    lemma_stmts_view_len(ss2);
    if ss1.len() > 0 {
        lemma_stmts_view_index(ss1, 0);
        lemma_stmts_view_index(ss2, 0);
        lemma_stmt_lines_view_eq(ss1[0], ss2[0], indent);
        lemma_view_eq_drop_first(ss1, ss2);
        lemma_stmts_lines_view_eq(ss1.drop_first(), ss2.drop_first(), indent);
    }
}

/// Equal views survive dropping the first statement on both sides.
proof fn lemma_view_eq_drop_first(ss1: Seq<Statement>, ss2: Seq<Statement>)
    requires
        stmts_view(ss1) == stmts_view(ss2),
        ss1.len() > 0,
    ensures
        stmts_view(ss1.drop_first()) == stmts_view(ss2.drop_first()),
{
    lemma_stmts_view_len(ss1);
    lemma_stmts_view_len(ss2);
    lemma_stmts_view_len(ss1.drop_first());
    lemma_stmts_view_len(ss2.drop_first());
    assert forall|i: int|
        0 <= i < stmts_view(ss1.drop_first()).len() implies stmts_view(ss1.drop_first())[i]
        == stmts_view(ss2.drop_first())[i] by {
        lemma_stmts_view_index(ss1.drop_first(), i);
        lemma_stmts_view_index(ss2.drop_first(), i);
        assert(ss1.drop_first()[i] == ss1[i + 1]);
        assert(ss2.drop_first()[i] == ss2[i + 1]);
        lemma_stmts_view_index(ss1, i + 1);
        lemma_stmts_view_index(ss2, i + 1);
    }
    assert(stmts_view(ss1.drop_first()) =~= stmts_view(ss2.drop_first()));
}

/// Block statements with equal views render to equal lines.
proof fn lemma_stmt_lines_view_eq(s1: Statement, s2: Statement, indent: nat)
    requires
        stmt_view(s1) == stmt_view(s2),
    ensures
        spec_block_stmt_lines(s1, indent) == spec_block_stmt_lines(s2, indent),
    decreases s1, 1int,
{
    match s1 {
        Statement::IfElse(ie1) => {
            match s2 {
                Statement::IfElse(ie2) => {
                    lemma_stmts_lines_view_eq(
                        ie1.then_block.statements@,
                        ie2.then_block.statements@,
                        indent + 1,
                    );
                    match ie1.else_block {
                        Some(eb1) => {
                            match ie2.else_block {
                                Some(eb2) => {
                                    lemma_stmts_lines_view_eq(
                                        eb1.statements@,
                                        eb2.statements@,
                                        indent + 1,
                                    );
                                },
                                None => {
                                    assert(false);
                                },
                            }
                        },
                        None => {},
                    }
                },
                _ => {
                    assert(false);
                },
            }
        },
        Statement::WhileLoop(w1) => {
            match s2 {
                Statement::WhileLoop(w2) => {
                    lemma_stmts_lines_view_eq(
                        w1.block.statements@,
                        w2.block.statements@,
                        indent + 1,
                    );
                },
                _ => {
                    assert(false);
                },
            }
        },
        _ => {},
    }
}

/// Functions with equal views render to equal lines.
proof fn lemma_fun_lines_view_eq(f1: Function, f2: Function, target: Option<Seq<char>>)
    requires
        function_view(f1) == function_view(f2),
    ensures
        spec_emit_function(f1, target) == spec_emit_function(f2, target),
    decreases f1, 0int,
{
    match f1.body {
        Some(b1) => {
            match f2.body {
                Some(b2) => {
                    lemma_stmts_lines_view_eq(b1.statements@, b2.statements@, 1);
                },
                None => {
                    assert(false);
                },
            }
        },
        None => {},
    }
}

/// Method sequences with equal views render to equal lines.
proof fn lemma_methods_lines_view_eq(ms1: Seq<Function>, ms2: Seq<Function>, target: String)
    requires
        funs_view(ms1) == funs_view(ms2),
    ensures
        crate::declarations::spec_impl_methods(target, ms1)
            == crate::declarations::spec_impl_methods(target, ms2),
    decreases ms1, 0int,
{
    lemma_funs_view_len(ms1);
    lemma_funs_view_len(ms2);
    if ms1.len() > 0 {
        lemma_funs_view_index(ms1, 0);
        lemma_funs_view_index(ms2, 0);
        lemma_fun_lines_view_eq(ms1[0], ms2[0], Some(target@));
        lemma_funs_view_eq_drop_first(ms1, ms2);
        lemma_methods_lines_view_eq(ms1.drop_first(), ms2.drop_first(), target);
    }
}

/// Equal views survive dropping the first function on both sides.
proof fn lemma_funs_view_eq_drop_first(ms1: Seq<Function>, ms2: Seq<Function>)
    requires
        funs_view(ms1) == funs_view(ms2),
        ms1.len() > 0,
    ensures
        funs_view(ms1.drop_first()) == funs_view(ms2.drop_first()),
{
    lemma_funs_view_len(ms1);
    lemma_funs_view_len(ms2);
    lemma_funs_view_len(ms1.drop_first());
    lemma_funs_view_len(ms2.drop_first());
    assert forall|i: int|
        0 <= i < funs_view(ms1.drop_first()).len() implies funs_view(ms1.drop_first())[i]
        == funs_view(ms2.drop_first())[i] by {
        lemma_funs_view_index(ms1.drop_first(), i);
        lemma_funs_view_index(ms2.drop_first(), i);
        assert(ms1.drop_first()[i] == ms1[i + 1]);
        assert(ms2.drop_first()[i] == ms2[i + 1]);
        lemma_funs_view_index(ms1, i + 1);
        lemma_funs_view_index(ms2, i + 1);
    }
    assert(funs_view(ms1.drop_first()) =~= funs_view(ms2.drop_first()));
}

/// Top-level statements with equal views render to equal lines.
proof fn lemma_top_stmt_lines_view_eq(s1: Statement, s2: Statement)
    requires
        stmt_view(s1) == stmt_view(s2),
    ensures
        spec_top_stmt_lines(s1) == spec_top_stmt_lines(s2),
    decreases s1, 1int,
{
    match s1 {
        Statement::Function(f1) => {
            match s2 {
                Statement::Function(f2) => {
                    lemma_fun_lines_view_eq(f1, f2, None);
                },
                _ => {
                    assert(false);
                },
            }
        },
        Statement::Impl(ib1) => {
            match s2 {
                Statement::Impl(ib2) => {
                    lemma_methods_lines_view_eq(ib1.methods@, ib2.methods@, ib1.target);
                },
                _ => {
                    assert(false);
                },
            }
        },
        _ => {},
    }
}

/// Program statement sequences with equal views render to equal lines.
proof fn lemma_program_lines_view_eq(ss1: Seq<Statement>, ss2: Seq<Statement>)
    requires
        stmts_view(ss1) == stmts_view(ss2),
    ensures
        spec_program_lines(ss1) == spec_program_lines(ss2),
    decreases ss1, 0int,
{
    lemma_stmts_view_len(ss1);
    lemma_stmts_view_len(ss2);
    if ss1.len() > 0 {
        lemma_stmts_view_index(ss1, 0);
        lemma_stmts_view_index(ss2, 0);
        lemma_top_stmt_lines_view_eq(ss1[0], ss2[0]);
        lemma_view_eq_drop_first(ss1, ss2);
        lemma_program_lines_view_eq(ss1.drop_first(), ss2.drop_first());
    }
}

/// Generation depends on a program only through its mathematical view:
/// programs with equal views generate identical results.  Together with
/// the builder's contracts, which pin the view of every program they
/// build, the parse tree alone determines the generated text.
pub proof fn lemma_generation_depends_on_view(p1: Program, p2: Program)
    requires
        program_view(p1) == program_view(p2),
    ensures
        spec_generate_program(p1) == spec_generate_program(p2),
{
    lemma_program_lines_view_eq(p1.statements@, p2.statements@);
}

} // verus!

