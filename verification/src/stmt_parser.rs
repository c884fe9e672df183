//! Building statements and blocks from the parse tree.
//!
//! A declaration folds its children in order (modifier, keyword, name,
//! declared type, initializer); control-flow statements build their
//! condition and blocks from fixed child positions; a block builds each
//! child statement in order.  Every builder returns nothing exactly on
//! trees that a conformant grammar cannot produce.

use crate::ast::{
    stmt_view, stmts_view, Block, Expression, IfElse, Modifier, Statement, StatementView, Type,
    VariableBinding, WhileLoop,
};
use crate::expr_parser::{parse_expr, spec_parse_expr};
use crate::tree::{text_is, ParseNode, Rule};
use crate::utils::{parse_type, spec_parse_type};
use vstd::prelude::*;

verus! {

/// The modifier a lexeme names, if any.
pub open spec fn spec_modifier_of_text(t: Seq<char>) -> Option<Modifier> {
    if t == "comptime"@ {
        Some(Modifier::Comptime)
    } else if t == "runtime"@ {
        Some(Modifier::Runtime)
    } else {
        None
    }
}

/// The declaration fold: walks the children in order, keeping the last
/// modifier, mutability keyword, name, declared type, and initializer
/// seen.  A declaration without a name child, or with a child that fails
/// to build, yields nothing.
pub open spec fn spec_decl_fold(
    c: Seq<ParseNode>,
    i: int,
    modifier: Option<Modifier>,
    is_mutable: bool,
    name: Option<String>,
    ty: Option<Type>,
    value: Option<Expression>,
) -> Option<Statement>
    decreases c.len() - i,
{
    if i < 0 || i >= c.len() {
        match name {
            Some(nm) => Some(
                Statement::Binding(
                    VariableBinding { modifier, is_mutable, name: nm, ty, value },
                ),
            ),
            None => None,
        }
    } else {
        match c[i].rule {
            Rule::ModifierRule => spec_decl_fold(
                c,
                i + 1,
                spec_modifier_of_text(c[i].text@),
                is_mutable,
                name,
                ty,
                value,
            ),
            Rule::Keyword => spec_decl_fold(
                c,
                i + 1,
                modifier,
                c[i].text@ == "var"@,
                name,
                ty,
                value,
            ),
            Rule::Ident => spec_decl_fold(c, i + 1, modifier, is_mutable, Some(c[i].text), ty, value),
            Rule::TypeDef => match spec_parse_type(c[i]) {
                None => None,
                Some(t) => spec_decl_fold(c, i + 1, modifier, is_mutable, name, Some(t), value),
            },
            Rule::Expr => match spec_parse_expr(c[i]) {
                None => None,
                Some(e) => spec_decl_fold(c, i + 1, modifier, is_mutable, name, ty, Some(e)),
            },
            _ => spec_decl_fold(c, i + 1, modifier, is_mutable, name, ty, value),
        }
    }
}

/// The binding a declaration node builds to.
pub open spec fn spec_parse_declaration(n: ParseNode) -> Option<Statement> {
    spec_decl_fold(n.children@, 0, None, false, None, None, None)
}

/// The assignment a node builds to: an identifier target and a value
/// expression.
pub open spec fn spec_parse_assignment(n: ParseNode) -> Option<Statement> {
    let c = n.children@;
    if c.len() >= 2 && c[0].rule == Rule::Ident {
        match spec_parse_expr(c[1]) {
            None => None,
            Some(value) => Some(
                Statement::Assignment { target: Expression::Identifier(c[0].text), value },
            ),
        }
    } else {
        None
    }
}

/// The return statement a node builds to: bare, or with a value.
pub open spec fn spec_parse_return(n: ParseNode) -> Option<Statement> {
    let c = n.children@;
    if c.len() == 0 {
        Some(Statement::Return(None))
    } else {
        match spec_parse_expr(c[0]) {
            None => None,
            Some(e) => Some(Statement::Return(Some(e))),
        }
    }
}

/// The expression statement a node builds to.
pub open spec fn spec_parse_expr_stmt(n: ParseNode) -> Option<Statement> {
    let c = n.children@;
    if c.len() >= 1 {
        match spec_parse_expr(c[0]) {
            None => None,
            Some(e) => Some(Statement::ExprStatement(e)),
        }
    } else {
        None
    }
}

/// The if/else view a node builds to: a condition, a then block, and
/// optionally an else block or a nested else-if wrapped in a block of its
/// own.
pub open spec fn spec_parse_if(n: ParseNode) -> Option<StatementView>
    decreases n, 0int,
{
    let c = n.children@;
    if c.len() < 2 {
        None
    } else {
        match spec_parse_expr(c[0]) {
            None => None,
            Some(cond) => match spec_parse_block(c[1]) {
                None => None,
                Some(then_view) => {
                    if c.len() >= 3 {
                        if c[2].rule == Rule::BlockRule {
                            match spec_parse_block(c[2]) {
                                None => None,
                                Some(else_view) => Some(
                                    StatementView::IfElse {
                                        condition: cond,
                                        then_block: then_view,
                                        else_block: Some(else_view),
                                    },
                                ),
                            }
                        } else if c[2].rule == Rule::IfStmt {
                            match spec_parse_if(c[2]) {
                                None => None,
                                Some(else_if) => Some(
                                    StatementView::IfElse {
                                        condition: cond,
                                        then_block: then_view,
                                        else_block: Some(Seq::empty().push(else_if)),
                                    },
                                ),
                            }
                        } else {
                            None
                        }
                    } else {
                        Some(
                            StatementView::IfElse {
                                condition: cond,
                                then_block: then_view,
                                else_block: None,
                            },
                        )
                    }
                },
            },
        }
    }
}

/// The while-loop view a node builds to: a condition and a body block.
pub open spec fn spec_parse_while(n: ParseNode) -> Option<StatementView>
    decreases n, 0int,
{
    let c = n.children@;
    if c.len() < 2 {
        None
    } else {
        match spec_parse_expr(c[0]) {
            None => None,
            Some(cond) => match spec_parse_block(c[1]) {
                None => None,
                Some(body) => Some(StatementView::WhileLoop { condition: cond, block: body }),
            },
        }
    }
}

/// The statement view a block child builds to.  Definitions cannot occur
/// inside a block.
pub open spec fn spec_parse_block_statement(n: ParseNode) -> Option<StatementView>
    decreases n, 1int,
{
    match n.rule {
        Rule::Declaration => match spec_parse_declaration(n) {
            None => None,
            Some(s) => Some(stmt_view(s)),
        },
        Rule::Assignment => match spec_parse_assignment(n) {
            None => None,
            Some(s) => Some(stmt_view(s)),
        },
        Rule::ExprStmt => match spec_parse_expr_stmt(n) {
            None => None,
            Some(s) => Some(stmt_view(s)),
        },
        Rule::ReturnStmt => match spec_parse_return(n) {
            None => None,
            Some(s) => Some(stmt_view(s)),
        },
        Rule::IfStmt => spec_parse_if(n),
        Rule::WhileStmt => spec_parse_while(n),
        _ => None,
    }
}

/// The block fold: the views of each child statement in order.
pub open spec fn spec_block_fold(c: Seq<ParseNode>, i: int, acc: Seq<StatementView>) -> Option<
    Seq<StatementView>,
>
    decreases c, c.len() - i,
{
    if i < 0 || i >= c.len() {
        Some(acc)
    } else {
        match spec_parse_block_statement(c[i]) {
            None => None,
            Some(v) => spec_block_fold(c, i + 1, acc.push(v)),
        }
    }
}

/// The block view a block node builds to.
pub open spec fn spec_parse_block(n: ParseNode) -> Option<Seq<StatementView>>
    decreases n, 2int,
{
    spec_block_fold(n.children@, 0, Seq::empty())
}

/// Builds a declaration (a binding) from a grammar node.
#[verifier::loop_isolation(false)]
pub fn parse_declaration(pair: &ParseNode) -> (r: Option<Statement>)
    ensures
        r == spec_parse_declaration(*pair),
{
    let c = &pair.children;
    let n = c.len();
    let mut modifier: Option<Modifier> = None;
    let mut is_mutable = false;
    let mut name: Option<String> = None;
    let mut ty: Option<Type> = None;
    let mut value: Option<Expression> = None;
    let mut i: usize = 0;
    while i < n
        invariant
            i <= n,
            spec_decl_fold(c@, i as int, modifier, is_mutable, name, ty, value)
                == spec_parse_declaration(*pair),
        decreases n - i,
    {
        let part = &c[i];
        match part.rule {
            Rule::ModifierRule => {
                if text_is(&part.text, "comptime") {
                    modifier = Some(Modifier::Comptime);
                } else if text_is(&part.text, "runtime") {
                    modifier = Some(Modifier::Runtime);
                } else {
                    modifier = None;
                }
            },
            Rule::Keyword => {
                is_mutable = text_is(&part.text, "var");
            },
            Rule::Ident => {
                name = Some(part.text.clone());
            },
            Rule::TypeDef => {
                match parse_type(part) {
                    None => {
                        return None;
                    },
                    Some(t) => {
                        ty = Some(t);
                    },
                }
            },
            Rule::Expr => {
                match parse_expr(part) {
                    None => {
                        return None;
                    },
                    Some(e) => {
                        value = Some(e);
                    },
                }
            },
            _ => {},
        }
        i = i + 1;
    }
    let nm = match name {
        Some(nm) => nm,
        None => {
            return None;
        },
    };
    Some(Statement::Binding(VariableBinding { modifier, is_mutable, name: nm, ty, value }))
}

/// Builds an assignment statement from a grammar node.
pub fn parse_assignment(pair: &ParseNode) -> (r: Option<Statement>)
    ensures
        r == spec_parse_assignment(*pair),
{
    if pair.children.len() < 2 {
        return None;
    }
    let target_node = &pair.children[0];
    let is_ident = match target_node.rule {
        Rule::Ident => true,
        _ => false,
    };
    if !is_ident {
        return None;
    }
    let value = match parse_expr(&pair.children[1]) {
        None => {
            return None;
        },
        Some(v) => v,
    };
    Some(
        Statement::Assignment {
            target: Expression::Identifier(target_node.text.clone()),
            value,
        },
    )
}

/// Builds a return statement from a grammar node.
pub fn parse_return(pair: &ParseNode) -> (r: Option<Statement>)
    ensures
        r == spec_parse_return(*pair),
{
    if pair.children.len() == 0 {
        return Some(Statement::Return(None));
    }
    match parse_expr(&pair.children[0]) {
        None => None,
        Some(e) => Some(Statement::Return(Some(e))),
    }
}

/// Builds an expression statement from a grammar node.
pub fn parse_expr_stmt(pair: &ParseNode) -> (r: Option<Statement>)
    ensures
        r == spec_parse_expr_stmt(*pair),
{
    if pair.children.len() == 0 {
        return None;
    }
    match parse_expr(&pair.children[0]) {
        None => None,
        Some(e) => Some(Statement::ExprStatement(e)),
    }
}

/// Builds an if/else statement from a grammar node.  An `else if` arm is
/// wrapped in a block of its own.
pub fn parse_if_stmt(pair: &ParseNode) -> (r: Option<Statement>)
    ensures
        match r {
            Some(s) => spec_parse_if(*pair) == Some(stmt_view(s)) && s is IfElse,
            None => spec_parse_if(*pair) is None,
        },
    decreases *pair, 0int,
{
    if pair.children.len() < 2 {
        return None;
    }
    let condition = match parse_expr(&pair.children[0]) {
        None => {
            return None;
        },
        Some(e) => e,
    };
    let then_block = match parse_block(&pair.children[1]) {
        None => {
            return None;
        },
        Some(b) => b,
    };
    if pair.children.len() >= 3 {
        let else_part = &pair.children[2];
        match else_part.rule {
            Rule::BlockRule => {
                let eb = match parse_block(else_part) {
                    None => {
                        return None;
                    },
                    Some(b) => b,
                };
                let result = Statement::IfElse(
                    IfElse { condition, then_block, else_block: Some(eb) },
                );
                proof {
                    assert(stmt_view(result) =~~= spec_parse_if(*pair)->Some_0);
                }
                Some(result)
            },
            Rule::IfStmt => {
                let else_if = match parse_if_stmt(else_part) {
                    None => {
                        return None;
                    },
                    Some(s) => s,
                };
                let mut statements: Vec<Statement> = Vec::new();
                let ghost else_if_spec = else_if;
                statements.push(else_if);
                proof {
                    reveal_with_fuel(stmts_view, 2);
                    assert(statements@.drop_last() =~= Seq::<Statement>::empty());
                    assert(statements@.last() == else_if_spec);
                    assert(stmts_view(statements@) =~~= Seq::<StatementView>::empty().push(
                        stmt_view(else_if_spec),
                    ));
                }
                let result = Statement::IfElse(
                    IfElse {
                        condition,
                        then_block,
                        else_block: Some(Block { statements }),
                    },
                );
                proof {
                    assert(stmt_view(result) =~~= spec_parse_if(*pair)->Some_0);
                }
                Some(result)
            },
            _ => None,
        }
    } else {
        let result = Statement::IfElse(IfElse { condition, then_block, else_block: None });
        proof {
            assert(stmt_view(result) =~~= spec_parse_if(*pair)->Some_0);
        }
        Some(result)
    }
}

/// Builds a while loop from a grammar node.
pub fn parse_while_stmt(pair: &ParseNode) -> (r: Option<Statement>)
    ensures
        match r {
            Some(s) => spec_parse_while(*pair) == Some(stmt_view(s)) && s is WhileLoop,
            None => spec_parse_while(*pair) is None,
        },
    decreases *pair, 0int,
{
    if pair.children.len() < 2 {
        return None;
    }
    let condition = match parse_expr(&pair.children[0]) {
        None => {
            return None;
        },
        Some(e) => e,
    };
    let block = match parse_block(&pair.children[1]) {
        None => {
            return None;
        },
        Some(b) => b,
    };
    Some(Statement::WhileLoop(WhileLoop { condition, block }))
}

/// Builds one statement inside a block.
fn parse_block_statement(pair: &ParseNode) -> (r: Option<Statement>)
    ensures
        match r {
            Some(s) => spec_parse_block_statement(*pair) == Some(stmt_view(s)),
            None => spec_parse_block_statement(*pair) is None,
        },
    decreases *pair, 1int,
{
    match pair.rule {
        Rule::Declaration => parse_declaration(pair),
        Rule::Assignment => parse_assignment(pair),
        Rule::ExprStmt => parse_expr_stmt(pair),
        Rule::ReturnStmt => parse_return(pair),
        Rule::IfStmt => parse_if_stmt(pair),
        Rule::WhileStmt => parse_while_stmt(pair),
        _ => None,
    }
}

/// Builds a block: each child statement in order.
#[verifier::loop_isolation(false)]
pub fn parse_block(pair: &ParseNode) -> (r: Option<Block>)
    ensures
        match r {
            Some(b) => spec_parse_block(*pair) == Some(crate::ast::block_view(b)),
            None => spec_parse_block(*pair) is None,
        },
    decreases *pair, 2int,
{
    let c = &pair.children;
    let n = c.len();
    let mut statements: Vec<Statement> = Vec::new();
    let mut i: usize = 0;
    proof {
        assert(stmts_view(statements@) =~= Seq::<StatementView>::empty());
    }
    while i < n
        invariant
            i <= n,
            spec_block_fold(c@, i as int, stmts_view(statements@)) == spec_parse_block(*pair),
        decreases n - i,
    {
        let s = match parse_block_statement(&c[i]) {
            None => {
                return None;
            },
            Some(s) => s,
        };
        proof {
            crate::ast::lemma_stmts_view_push(statements@, s);
        }
        statements.push(s);
        i = i + 1;
    }
    Some(Block { statements })
}

} // verus!
