//! Building a whole program from the parse tree.
//!
//! The root's statement children each dispatch, by the rule of their
//! single meaningful child, to the matching builder; other children (such
//! as the end-of-input marker) are skipped.

use crate::ast::{
    program_view, stmt_view, Program, Statement, StatementView,
};
use crate::decl_parser::{
    parse_function, parse_impl, parse_struct, spec_parse_function, spec_parse_impl,
    spec_parse_struct,
};
use crate::stmt_parser::{
    parse_assignment, parse_declaration, parse_expr_stmt, parse_if_stmt, parse_return,
    parse_while_stmt, spec_parse_assignment, spec_parse_declaration, spec_parse_expr_stmt,
    spec_parse_if, spec_parse_return, spec_parse_while,
};
use crate::tree::{ParseNode, Rule};
use vstd::prelude::*;

verus! {

/// The statement view a statement node builds to, dispatching over the
/// rule of its first child.
pub open spec fn spec_parse_statement(n: ParseNode) -> Option<StatementView> {
    let c = n.children@;
    if c.len() < 1 {
        None
    } else {
        let inner = c[0];
        match inner.rule {
            Rule::Declaration => match spec_parse_declaration(inner) {
                None => None,
                Some(s) => Some(stmt_view(s)),
            },
            Rule::ExprStmt => match spec_parse_expr_stmt(inner) {
                None => None,
                Some(s) => Some(stmt_view(s)),
            },
            Rule::Assignment => match spec_parse_assignment(inner) {
                None => None,
                Some(s) => Some(stmt_view(s)),
            },
            Rule::ReturnStmt => match spec_parse_return(inner) {
                None => None,
                Some(s) => Some(stmt_view(s)),
            },
            Rule::IfStmt => spec_parse_if(inner),
            Rule::WhileStmt => spec_parse_while(inner),
            Rule::StructDefRule => match spec_parse_struct(inner) {
                None => None,
                Some(sv) => Some(StatementView::Struct(sv)),
            },
            Rule::FunctionDef => match spec_parse_function(inner) {
                None => None,
                Some(fv) => Some(StatementView::Function(fv)),
            },
            Rule::ImplBlockRule => match spec_parse_impl(inner) {
                None => None,
                Some(iv) => Some(StatementView::Impl(iv)),
            },
            _ => None,
        }
    }
}

/// The program fold: each statement child of the root in order; other
/// children are skipped.
pub open spec fn spec_program_fold(c: Seq<ParseNode>, i: int, acc: Seq<StatementView>) -> Option<
    Seq<StatementView>,
>
    decreases c.len() - i,
{
    if i < 0 || i >= c.len() {
        Some(acc)
    } else if c[i].rule == Rule::Statement {
        match spec_parse_statement(c[i]) {
            None => None,
            Some(v) => spec_program_fold(c, i + 1, acc.push(v)),
        }
    } else {
        spec_program_fold(c, i + 1, acc)
    }
}

/// The program view a root node builds to.
pub open spec fn spec_build_ast(root: ParseNode) -> Option<Seq<StatementView>> {
    if root.rule == Rule::Program {
        spec_program_fold(root.children@, 0, Seq::empty())
    } else {
        None
    }
}

/// Builds one top-level statement from a statement node.
fn parse_statement(pair: &ParseNode) -> (r: Option<Statement>)
    ensures
        match r {
            Some(s) => spec_parse_statement(*pair) == Some(stmt_view(s)),
            None => spec_parse_statement(*pair) is None,
        },
{
    if pair.children.len() < 1 {
        return None;
    }
    let inner = &pair.children[0];
    match inner.rule {
        Rule::Declaration => parse_declaration(inner),
        Rule::ExprStmt => parse_expr_stmt(inner),
        Rule::Assignment => parse_assignment(inner),
        Rule::ReturnStmt => parse_return(inner),
        Rule::IfStmt => parse_if_stmt(inner),
        Rule::WhileStmt => parse_while_stmt(inner),
        Rule::StructDefRule => match parse_struct(inner) {
            None => None,
            Some(def) => Some(Statement::Struct(def)),
        },
        Rule::FunctionDef => match parse_function(inner) {
            None => None,
            Some(f) => Some(Statement::Function(f)),
        },
        Rule::ImplBlockRule => match parse_impl(inner) {
            None => None,
            Some(ib) => Some(Statement::Impl(ib)),
        },
        _ => None,
    }
}

/// Builds a whole program from the root of a conformant parse tree.  A
/// malformed tree, which a conformant grammar cannot produce, yields
/// nothing.
#[verifier::loop_isolation(false)]
pub fn build_ast(root: &ParseNode) -> (r: Option<Program>)
    ensures
        match r {
            Some(p) => spec_build_ast(*root) == Some(program_view(p)),
            None => spec_build_ast(*root) is None,
        },
{
    let is_program = match root.rule {
        Rule::Program => true,
        _ => false,
    };
    if !is_program {
        return None;
    }
    let c = &root.children;
    let n = c.len();
    let mut statements: Vec<Statement> = Vec::new();
    let mut i: usize = 0;
    proof {
        assert(crate::ast::stmts_view(statements@) =~= Seq::<StatementView>::empty());
    }
    while i < n
        invariant
            i <= n,
            spec_program_fold(c@, i as int, crate::ast::stmts_view(statements@))
                == spec_build_ast(*root),
        decreases n - i,
    {
        let is_statement = match c[i].rule {
            Rule::Statement => true,
            _ => false,
        };
        if is_statement {
            let s = match parse_statement(&c[i]) {
                None => {
                    return None;
                },
                Some(s) => s,
            };
            proof {
                crate::ast::lemma_stmts_view_push(statements@, s);
            }
            statements.push(s);
        }
        i = i + 1;
    }
    Some(Program { statements })
}

} // verus!
