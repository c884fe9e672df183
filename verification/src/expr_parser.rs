//! Building expressions from the parse tree by precedence climbing.
//!
//! A math node's children alternate operand groups and binary-operator
//! nodes.  Climbing consults a fixed tier table, lowest to highest binding
//! power: logical or; logical and; bitwise or; bitwise xor; bitwise and;
//! the six comparisons; shifts; additive; multiplicative.  All binary
//! operators are left-associative.  Prefix operators and postfix indexing
//! live inside the operand group and bind tighter than any binary
//! operator.  Ternary conditionals are layered above: a non-ternary
//! condition, then optionally `?`, a full then-expression, `:`, and a full
//! else-expression, whose right recursion nests naturally to the right.
//!
//! Every builder returns nothing exactly on trees that a conformant
//! grammar cannot produce.

use crate::ast::{BinaryOp, Expression, Literal, NumericLiteral, Postfix, Prefix, UnaryOp};
use crate::tree::{
    int_lexeme_value, is_decimal_text, spec_int_value, spec_is_decimal_text, text_is, ParseNode,
    Rule,
};
use vstd::prelude::*;
use vstd::string::StringExecFns;
use vstd::string::StrSliceExecFns;

verus! {

/// The binary operator a rule label stands for.
pub open spec fn spec_binop_of_rule(r: Rule) -> Option<BinaryOp> {
    match r {
        Rule::AddOp => Some(BinaryOp::Add),
        Rule::SubOp => Some(BinaryOp::Sub),
        Rule::MulOp => Some(BinaryOp::Mul),
        Rule::DivOp => Some(BinaryOp::Div),
        Rule::ModOp => Some(BinaryOp::Mod),
        Rule::EqOp => Some(BinaryOp::Eq),
        Rule::NeOp => Some(BinaryOp::Ne),
        Rule::LtOp => Some(BinaryOp::Lt),
        Rule::LeOp => Some(BinaryOp::Le),
        Rule::GtOp => Some(BinaryOp::Gt),
        Rule::GeOp => Some(BinaryOp::Ge),
        Rule::BitwiseAnd => Some(BinaryOp::BitAnd),
        Rule::BitwiseOr => Some(BinaryOp::BitOr),
        Rule::BitwiseXor => Some(BinaryOp::BitXor),
        Rule::ShlOp => Some(BinaryOp::Shl),
        Rule::ShrOp => Some(BinaryOp::Shr),
        Rule::AndOp => Some(BinaryOp::And),
        Rule::OrOp => Some(BinaryOp::Or),
        _ => None,
    }
}

/// The binding tier of a binary operator, lowest to highest.
pub open spec fn spec_tier(op: BinaryOp) -> u32 {
    match op {
        BinaryOp::Or => 1,
        BinaryOp::And => 2,
        BinaryOp::BitOr => 3,
        BinaryOp::BitXor => 4,
        BinaryOp::BitAnd => 5,
        BinaryOp::Eq => 6,
        BinaryOp::Ne => 6,
        BinaryOp::Lt => 6,
        BinaryOp::Le => 6,
        BinaryOp::Gt => 6,
        BinaryOp::Ge => 6,
        BinaryOp::Shl => 7,
        BinaryOp::Shr => 7,
        BinaryOp::Add => 8,
        BinaryOp::Sub => 8,
        BinaryOp::Mul => 9,
        BinaryOp::Div => 9,
        BinaryOp::Mod => 9,
    }
}

/// True for the seven prefix-operator rule labels.
pub open spec fn spec_is_prefix_rule(r: Rule) -> bool {
    match r {
        Rule::PrefixMinus
        | Rule::PrefixPlus
        | Rule::PrefixNot
        | Rule::PrefixBitnot
        | Rule::PrefixPreinc
        | Rule::PrefixPredec
        | Rule::PrefixDeref => true,
        _ => false,
    }
}

/// The prefix operator a rule label stands for (negation for any other
/// label, which callers rule out).
pub open spec fn spec_prefix_of_rule(r: Rule) -> Prefix {
    match r {
        Rule::PrefixMinus => Prefix::Neg,
        Rule::PrefixPlus => Prefix::Pos,
        Rule::PrefixNot => Prefix::Not,
        Rule::PrefixBitnot => Prefix::BitNot,
        Rule::PrefixPreinc => Prefix::PreInc,
        Rule::PrefixPredec => Prefix::PreDec,
        Rule::PrefixDeref => Prefix::Deref,
        _ => Prefix::Neg,
    }
}

/// The unary operator a rule label stands for.
pub open spec fn spec_parse_unary_op(r: Rule) -> Option<UnaryOp> {
    if spec_is_prefix_rule(r) {
        Some(UnaryOp::PrefixOp(spec_prefix_of_rule(r)))
    } else {
        None
    }
}

/// The first index at or after `i` whose child is not a prefix-operator
/// node.
pub open spec fn spec_count_prefix(c: Seq<ParseNode>, i: int) -> int
    decreases c.len() - i,
{
    if 0 <= i < c.len() && spec_is_prefix_rule(c[i].rule) {
        spec_count_prefix(c, i + 1)
    } else {
        i
    }
}

/// The literal or identifier a leaf node builds to, the nested expression
/// a grouped node builds to, or the operand an operand group builds to.
pub open spec fn spec_parse_primary(n: ParseNode) -> Option<Expression>
    decreases n, 0int, 4int,
{
    match n.rule {
        Rule::Atom => {
            if n.children@.len() >= 1 {
                spec_parse_primary(n.children@[0])
            } else {
                None
            }
        },
        Rule::IntLit => match spec_int_value(n.text@) {
            Some(i) => Some(Expression::Literal(Literal::Numeric(NumericLiteral::Integer(i)))),
            None => None,
        },
        Rule::FloatLit => {
            let t = n.text@;
            if t.len() > 0 && t.last() == 'f' {
                if spec_is_decimal_text(t.drop_last()) {
                    Some(Expression::Literal(Literal::Numeric(NumericLiteral::Float(n.text))))
                } else {
                    None
                }
            } else if spec_is_decimal_text(t) {
                Some(Expression::Literal(Literal::Numeric(NumericLiteral::Double(n.text))))
            } else {
                None
            }
        },
        Rule::BoolLit => {
            if n.text@ == "true"@ {
                Some(Expression::Literal(Literal::Bool(true)))
            } else if n.text@ == "false"@ {
                Some(Expression::Literal(Literal::Bool(false)))
            } else {
                None
            }
        },
        Rule::CharLit => {
            let t = n.text@;
            if t.len() == 3 && t[0] == '\'' && t[2] == '\'' {
                Some(Expression::Literal(Literal::Char(t[1])))
            } else {
                None
            }
        },
        Rule::Ident => Some(Expression::Identifier(n.text)),
        Rule::Expr => {
            if n.children@.len() >= 1 {
                spec_parse_expr(n.children@[0])
            } else {
                None
            }
        },
        Rule::Unary => {
            let c = n.children@;
            let p = spec_count_prefix(c, 0);
            if p < 0 || p >= c.len() {
                None
            } else {
                match spec_parse_primary(c[p]) {
                    None => None,
                    Some(core) => match spec_fold_indexes(c, p + 1, core) {
                        None => None,
                        Some(e) => Some(spec_fold_prefixes(c, p, e)),
                    },
                }
            }
        },
        _ => None,
    }
}

/// Applies the postfix index nodes from `i` on, left to right, around the
/// accumulated operand.
pub open spec fn spec_fold_indexes(c: Seq<ParseNode>, i: int, acc: Expression) -> Option<
    Expression,
>
    decreases c, c.len() - i, 1int,
{
    if i < 0 || i >= c.len() {
        Some(acc)
    } else if c[i].rule == Rule::IndexOp && c[i].children@.len() >= 1 {
        match spec_parse_expr(c[i].children@[0]) {
            None => None,
            Some(ix) => spec_fold_indexes(
                c,
                i + 1,
                Expression::UnaryExpr {
                    op: UnaryOp::PostfixOp(Postfix::Index { index: Box::new(ix) }),
                    expr: Box::new(acc),
                },
            ),
        }
    } else {
        None
    }
}

/// Applies the prefix-operator nodes before index `j`, right to left,
/// around the accumulated operand.
pub open spec fn spec_fold_prefixes(c: Seq<ParseNode>, j: int, acc: Expression) -> Expression
    decreases j,
{
    if j <= 0 {
        acc
    } else {
        spec_fold_prefixes(
            c,
            j - 1,
            Expression::UnaryExpr {
                op: UnaryOp::PrefixOp(spec_prefix_of_rule(c[j - 1].rule)),
                expr: Box::new(acc),
            },
        )
    }
}

/// Precedence climbing from an operand position: the operand at `lo`,
/// then every following operator of at least the given tier, bound
/// left-associatively.  Yields the expression and the position after it.
pub open spec fn spec_parse_bin(items: Seq<ParseNode>, lo: int, min_tier: int) -> Option<
    (Expression, int),
>
    decreases items, items.len() - lo, 1int,
{
    if lo < 0 || lo >= items.len() {
        None
    } else {
        match spec_parse_primary(items[lo]) {
            None => None,
            Some(lhs) => spec_bin_loop(items, lhs, lo + 1, min_tier),
        }
    }
}

/// The climbing loop: while the next item is an operator of at least the
/// given tier, parse its right operand one tier higher and combine.
pub open spec fn spec_bin_loop(items: Seq<ParseNode>, lhs: Expression, i: int, min_tier: int)
    -> Option<(Expression, int)>
    decreases items, items.len() - i, 2int,
{
    if 0 <= i < items.len() {
        match spec_binop_of_rule(items[i].rule) {
            None => Some((lhs, i)),
            Some(op) => {
                if spec_tier(op) >= min_tier {
                    match spec_parse_bin(items, i + 1, spec_tier(op) + 1) {
                        None => None,
                        Some((rhs, j)) => {
                            if i < j <= items.len() {
                                spec_bin_loop(
                                    items,
                                    Expression::BinaryExpr {
                                        left: Box::new(lhs),
                                        op,
                                        right: Box::new(rhs),
                                    },
                                    j,
                                    min_tier,
                                )
                            } else {
                                None
                            }
                        },
                    }
                } else {
                    Some((lhs, i))
                }
            },
        }
    } else {
        Some((lhs, i))
    }
}

/// The expression a math node builds to: its children climbed from the
/// lowest tier, consuming every child.
pub open spec fn spec_parse_math(n: ParseNode) -> Option<Expression>
    decreases n, 0int, 2int,
{
    match spec_parse_bin(n.children@, 0, 0) {
        Some((e, j)) => {
            if j == n.children@.len() {
                Some(e)
            } else {
                None
            }
        },
        None => None,
    }
}

/// The expression a ternary node builds to: the climbed condition alone,
/// or, when a `?` follows, the condition, a full then-expression, and a
/// full else-expression (itself possibly another ternary).
pub open spec fn spec_parse_ternary(n: ParseNode) -> Option<Expression>
    decreases n, 0int, 3int,
{
    let c = n.children@;
    if c.len() < 1 {
        None
    } else {
        match spec_parse_math(c[0]) {
            None => None,
            Some(cond) => {
                if c.len() == 1 {
                    Some(cond)
                } else if c[1].rule != Rule::Question {
                    Some(cond)
                } else if c.len() >= 5 {
                    match spec_parse_expr(c[2]) {
                        None => None,
                        Some(then_e) => match spec_parse_expr(c[4]) {
                            None => None,
                            Some(else_e) => Some(
                                Expression::TernaryExpr {
                                    condition: Box::new(cond),
                                    then_expr: Box::new(then_e),
                                    else_expr: Box::new(else_e),
                                },
                            ),
                        },
                    }
                } else {
                    None
                }
            },
        }
    }
}

/// The expression any expression-shaped node builds to.
pub open spec fn spec_parse_expr(n: ParseNode) -> Option<Expression>
    decreases n, 0int, 5int,
{
    match n.rule {
        Rule::Expr => {
            if n.children@.len() >= 1 {
                spec_parse_expr(n.children@[0])
            } else {
                None
            }
        },
        Rule::TernaryExpr => spec_parse_ternary(n),
        _ => spec_parse_math(n),
    }
}

/// Maps an operator node to its binary operator.
pub fn parse_binary_op(op: &ParseNode) -> (r: Option<BinaryOp>)
    ensures
        r == spec_binop_of_rule(op.rule),
{
    match op.rule {
        Rule::AddOp => Some(BinaryOp::Add),
        Rule::SubOp => Some(BinaryOp::Sub),
        Rule::MulOp => Some(BinaryOp::Mul),
        Rule::DivOp => Some(BinaryOp::Div),
        Rule::ModOp => Some(BinaryOp::Mod),
        Rule::EqOp => Some(BinaryOp::Eq),
        Rule::NeOp => Some(BinaryOp::Ne),
        Rule::LtOp => Some(BinaryOp::Lt),
        Rule::LeOp => Some(BinaryOp::Le),
        Rule::GtOp => Some(BinaryOp::Gt),
        Rule::GeOp => Some(BinaryOp::Ge),
        Rule::BitwiseAnd => Some(BinaryOp::BitAnd),
        Rule::BitwiseOr => Some(BinaryOp::BitOr),
        Rule::BitwiseXor => Some(BinaryOp::BitXor),
        Rule::ShlOp => Some(BinaryOp::Shl),
        Rule::ShrOp => Some(BinaryOp::Shr),
        Rule::AndOp => Some(BinaryOp::And),
        Rule::OrOp => Some(BinaryOp::Or),
        _ => None,
    }
}

/// The binding tier of a binary operator.
pub fn binary_tier(op: &BinaryOp) -> (r: u32)
    ensures
        r == spec_tier(*op),
        1 <= r <= 9,
{
    match op {
        BinaryOp::Or => 1,
        BinaryOp::And => 2,
        BinaryOp::BitOr => 3,
        BinaryOp::BitXor => 4,
        BinaryOp::BitAnd => 5,
        BinaryOp::Eq => 6,
        BinaryOp::Ne => 6,
        BinaryOp::Lt => 6,
        BinaryOp::Le => 6,
        BinaryOp::Gt => 6,
        BinaryOp::Ge => 6,
        BinaryOp::Shl => 7,
        BinaryOp::Shr => 7,
        BinaryOp::Add => 8,
        BinaryOp::Sub => 8,
        BinaryOp::Mul => 9,
        BinaryOp::Div => 9,
        BinaryOp::Mod => 9,
    }
}

/// Maps a prefix-operator node to its unary operator.
pub fn parse_unary_op(op: &ParseNode) -> (r: Option<UnaryOp>)
    ensures
        r == spec_parse_unary_op(op.rule),
{
    match op.rule {
        Rule::PrefixMinus => Some(UnaryOp::PrefixOp(Prefix::Neg)),
        Rule::PrefixPlus => Some(UnaryOp::PrefixOp(Prefix::Pos)),
        Rule::PrefixNot => Some(UnaryOp::PrefixOp(Prefix::Not)),
        Rule::PrefixBitnot => Some(UnaryOp::PrefixOp(Prefix::BitNot)),
        Rule::PrefixPreinc => Some(UnaryOp::PrefixOp(Prefix::PreInc)),
        Rule::PrefixPredec => Some(UnaryOp::PrefixOp(Prefix::PreDec)),
        Rule::PrefixDeref => Some(UnaryOp::PrefixOp(Prefix::Deref)),
        _ => None,
    }
}

/// True when the node is a prefix-operator node.
fn is_prefix_node(n: &ParseNode) -> (r: bool)
    ensures
        r == spec_is_prefix_rule(n.rule),
{
    match n.rule {
        Rule::PrefixMinus
        | Rule::PrefixPlus
        | Rule::PrefixNot
        | Rule::PrefixBitnot
        | Rule::PrefixPreinc
        | Rule::PrefixPredec
        | Rule::PrefixDeref => true,
        _ => false,
    }
}

/// Builds a primary: a literal, an identifier, a grouped expression, or
/// an operand group of prefix operators, a core, and index suffixes.
pub fn parse_primary(primary: &ParseNode) -> (r: Option<Expression>)
    ensures
        r == spec_parse_primary(*primary),
    decreases *primary, 0int, 4int,
{
    match primary.rule {
        Rule::Atom => {
            if primary.children.len() >= 1 {
                parse_primary(&primary.children[0])
            } else {
                None
            }
        },
        Rule::IntLit => match int_lexeme_value(&primary.text) {
            Some(i) => Some(Expression::Literal(Literal::Numeric(NumericLiteral::Integer(i)))),
            None => None,
        },
        Rule::FloatLit => {
            let text = primary.text.as_str();
            let n = text.unicode_len();
            if n > 0 && text.get_char(n - 1) == 'f' {
                let body = text.substring_char(0, n - 1);
                proof {
                    assert(body@ =~= primary.text@.drop_last());
                }
                if is_decimal_text(body) {
                    Some(
                        Expression::Literal(
                            Literal::Numeric(NumericLiteral::Float(primary.text.clone())),
                        ),
                    )
                } else {
                    None
                }
            } else if is_decimal_text(text) {
                Some(
                    Expression::Literal(
                        Literal::Numeric(NumericLiteral::Double(primary.text.clone())),
                    ),
                )
            } else {
                None
            }
        },
        Rule::BoolLit => {
            if text_is(&primary.text, "true") {
                Some(Expression::Literal(Literal::Bool(true)))
            } else if text_is(&primary.text, "false") {
                Some(Expression::Literal(Literal::Bool(false)))
            } else {
                None
            }
        },
        Rule::CharLit => {
            let text = primary.text.as_str();
            let n = text.unicode_len();
            if n == 3 && text.get_char(0) == '\'' && text.get_char(2) == '\'' {
                Some(Expression::Literal(Literal::Char(text.get_char(1))))
            } else {
                None
            }
        },
        Rule::Ident => Some(Expression::Identifier(primary.text.clone())),
        Rule::Expr => {
            if primary.children.len() >= 1 {
                parse_expr(&primary.children[0])
            } else {
                None
            }
        },
        Rule::Unary => parse_unary_chain(primary),
        _ => None,
    }
}

/// Builds an operand group: prefix operators, a core primary, and postfix
/// index suffixes.
#[verifier::loop_isolation(false)]
fn parse_unary_chain(n: &ParseNode) -> (r: Option<Expression>)
    requires
        n.rule == Rule::Unary,
    ensures
        r == spec_parse_primary(*n),
    decreases *n, 0int, 3int,
{
    let c = &n.children;
    let len = c.len();
    let mut p: usize = 0;
    while p < len && is_prefix_node(&c[p])
        invariant
            p <= len,
            len == c@.len(),
            forall|k: int| 0 <= k < p ==> spec_is_prefix_rule(#[trigger] c@[k].rule),
            spec_count_prefix(c@, 0) == spec_count_prefix(c@, p as int),
        decreases len - p,
    {
        p = p + 1;
    }
    proof {
        assert(spec_count_prefix(c@, p as int) == p as int);
    }
    if p >= len {
        return None;
    }
    let core0 = match parse_primary(&c[p]) {
        Some(e) => e,
        None => {
            return None;
        },
    };
    let ghost core0_spec = core0;
    let mut core = core0;
    let mut i: usize = p + 1;
    while i < len
        invariant
            p + 1 <= i <= len,
            len == c@.len(),
            spec_fold_indexes(c@, i as int, core) == spec_fold_indexes(
                c@,
                p as int + 1,
                core0_spec,
            ),
        decreases len - i,
    {
        if !(matches_index_rule(&c[i]) && c[i].children.len() >= 1) {
            return None;
        }
        proof {
            assert(decreases_to!(*n => n.children));
            assert(decreases_to!(n.children => n.children@));
            vstd::seq::axiom_seq_index_decreases(n.children@, i as int);
            assert(decreases_to!(n.children@[i as int] => n.children@[i as int].children));
            assert(decreases_to!(n.children@[i as int].children => n.children@[i as int].children@));
            vstd::seq::axiom_seq_index_decreases(n.children@[i as int].children@, 0);
        }
        let ix = match parse_expr(&c[i].children[0]) {
            Some(e) => e,
            None => {
                return None;
            },
        };
        core = Expression::UnaryExpr {
            op: UnaryOp::PostfixOp(Postfix::Index { index: Box::new(ix) }),
            expr: Box::new(core),
        };
        i = i + 1;
    }
    let ghost after_indexes = core;
    let mut j: usize = p;
    while j > 0
        invariant
            j <= p,
            p <= len,
            len == c@.len(),
            forall|k: int| 0 <= k < p ==> spec_is_prefix_rule(#[trigger] c@[k].rule),
            spec_fold_prefixes(c@, j as int, core) == spec_fold_prefixes(
                c@,
                p as int,
                after_indexes,
            ),
        decreases j,
    {
        let op = match parse_unary_op(&c[j - 1]) {
            Some(op) => op,
            None => {
                proof {
                    assert(false);
                }
                return None;
            },
        };
        core = Expression::UnaryExpr { op, expr: Box::new(core) };
        j = j - 1;
    }
    Some(core)
}

/// True when the node is an index-suffix node.
fn matches_index_rule(n: &ParseNode) -> (r: bool)
    ensures
        r == (n.rule == Rule::IndexOp),
{
    match n.rule {
        Rule::IndexOp => true,
        _ => false,
    }
}

/// Precedence climbing over a math node's children from an operand
/// position: yields the expression starting there and the index after it.
fn parse_math_items(items: &Vec<ParseNode>, lo: usize, min_tier: u32) -> (r: Option<
    (Expression, usize),
>)
    ensures
        match r {
            None => spec_parse_bin(items@, lo as int, min_tier as int) is None,
            Some((e, j)) => spec_parse_bin(items@, lo as int, min_tier as int) == Some(
                (e, j as int),
            ) && lo < j <= items@.len(),
        },
    decreases items@, items@.len() - lo, 1int,
{
    if lo >= items.len() {
        return None;
    }
    let lhs = match parse_primary(&items[lo]) {
        Some(e) => e,
        None => {
            return None;
        },
    };
    parse_bin_loop(items, lhs, lo + 1, min_tier)
}

/// The climbing loop: combines following operators of at least the given
/// tier into the left operand, left-associatively.
fn parse_bin_loop(items: &Vec<ParseNode>, lhs: Expression, i: usize, min_tier: u32) -> (r: Option<
    (Expression, usize),
>)
    requires
        i <= items@.len(),
    ensures
        match r {
            None => spec_bin_loop(items@, lhs, i as int, min_tier as int) is None,
            Some((e, j)) => spec_bin_loop(items@, lhs, i as int, min_tier as int) == Some(
                (e, j as int),
            ) && i <= j <= items@.len(),
        },
    decreases items@, items@.len() - i, 2int,
{
    if i >= items.len() {
        return Some((lhs, i));
    }
    let op = match parse_binary_op(&items[i]) {
        Some(op) => op,
        None => {
            return Some((lhs, i));
        },
    };
    let t = binary_tier(&op);
    if t < min_tier {
        return Some((lhs, i));
    }
    match parse_math_items(items, i + 1, t + 1) {
        None => None,
        Some((rhs, j)) => {
            let combined = Expression::BinaryExpr {
                left: Box::new(lhs),
                op,
                right: Box::new(rhs),
            };
            parse_bin_loop(items, combined, j, min_tier)
        },
    }
}

/// Builds the expression of a math node: its children climbed from the
/// lowest tier, consuming every child.
pub fn parse_math_expr(pair: &ParseNode) -> (r: Option<Expression>)
    ensures
        r == spec_parse_math(*pair),
    decreases *pair, 0int, 2int,
{
    match parse_math_items(&pair.children, 0, 0) {
        Some((e, j)) => {
            if j == pair.children.len() {
                Some(e)
            } else {
                None
            }
        },
        None => None,
    }
}

/// Builds the expression of a ternary node.
fn parse_ternary(pair: &ParseNode) -> (r: Option<Expression>)
    ensures
        r == spec_parse_ternary(*pair),
    decreases *pair, 0int, 3int,
{
    if pair.children.len() < 1 {
        return None;
    }
    let cond = match parse_math_expr(&pair.children[0]) {
        Some(e) => e,
        None => {
            return None;
        },
    };
    if pair.children.len() == 1 {
        return Some(cond);
    }
    if !matches_question_rule(&pair.children[1]) {
        return Some(cond);
    }
    if pair.children.len() < 5 {
        return None;
    }
    let then_e = match parse_expr(&pair.children[2]) {
        Some(e) => e,
        None => {
            return None;
        },
    };
    let else_e = match parse_expr(&pair.children[4]) {
        Some(e) => e,
        None => {
            return None;
        },
    };
    Some(
        Expression::TernaryExpr {
            condition: Box::new(cond),
            then_expr: Box::new(then_e),
            else_expr: Box::new(else_e),
        },
    )
}

/// True when the node is the `?` marker of a ternary.
fn matches_question_rule(n: &ParseNode) -> (r: bool)
    ensures
        r == (n.rule == Rule::Question),
{
    match n.rule {
        Rule::Question => true,
        _ => false,
    }
}

/// Builds an expression from any expression-shaped node.
pub fn parse_expr(pair: &ParseNode) -> (r: Option<Expression>)
    ensures
        r == spec_parse_expr(*pair),
    decreases *pair, 0int, 5int,
{
    match pair.rule {
        Rule::Expr => {
            if pair.children.len() >= 1 {
                parse_expr(&pair.children[0])
            } else {
                None
            }
        },
        Rule::TernaryExpr => parse_ternary(pair),
        _ => parse_math_expr(pair),
    }
}

} // verus!
