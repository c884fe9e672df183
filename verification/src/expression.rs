//! Rendering of expressions as C text.
//!
//! Every binary, unary, and ternary application is wrapped in parentheses
//! unconditionally, so the emitted C evaluates with exactly the grouping of
//! the tree regardless of C's native precedence table.  Literals render in
//! canonical form: integers in decimal, 32-bit float lexemes with a
//! trailing `f`, double lexemes plain, booleans as `true`/`false`, and
//! characters as the single character.

use crate::ast::{BinaryOp, Expression, Literal, NumericLiteral, Postfix, Prefix, UnaryOp};
use vstd::prelude::*;
use vstd::string::StrSliceExecFns;
use vstd::string::StringExecFns;

verus! {

/// The decimal digit character for a value below ten.
pub open spec fn spec_digit(d: nat) -> char {
    if d == 0 {
        '0'
    } else if d == 1 {
        '1'
    } else if d == 2 {
        '2'
    } else if d == 3 {
        '3'
    } else if d == 4 {
        '4'
    } else if d == 5 {
        '5'
    } else if d == 6 {
        '6'
    } else if d == 7 {
        '7'
    } else if d == 8 {
        '8'
    } else {
        '9'
    }
}

/// The decimal rendering of a non-negative integer, most significant digit
/// first, with no leading zeros (a single `0` for zero).
pub open spec fn spec_udec(n: nat) -> Seq<char>
    decreases n,
{
    if n < 10 {
        seq![spec_digit(n)]
    } else {
        spec_udec(n / 10) + seq![spec_digit(n % 10)]
    }
}

/// The decimal rendering of a signed integer: a leading `-` for negative
/// values, then the magnitude in decimal.
pub open spec fn spec_idec(i: int) -> Seq<char> {
    if i < 0 {
        "-"@ + spec_udec((-i) as nat)
    } else {
        spec_udec(i as nat)
    }
}

/// A float lexeme without its optional trailing `f` marker.
pub open spec fn spec_float_body(s: Seq<char>) -> Seq<char> {
    if s.len() > 0 && s.last() == 'f' {
        s.drop_last()
    } else {
        s
    }
}

/// The rendered form of a numeric literal: integers in decimal, float
/// lexemes with exactly one trailing `f`, double lexemes verbatim.
pub open spec fn spec_render_numeric(n: NumericLiteral) -> Seq<char> {
    match n {
        NumericLiteral::Integer(i) => spec_idec(i as int),
        NumericLiteral::Float(t) => spec_float_body(t@) + "f"@,
        NumericLiteral::Double(t) => t@,
    }
}

/// The rendered form of a literal.
pub open spec fn spec_render_literal(l: Literal) -> Seq<char> {
    match l {
        Literal::Numeric(n) => spec_render_numeric(n),
        Literal::Bool(b) => if b {
            "true"@
        } else {
            "false"@
        },
        Literal::Char(c) => seq![c],
    }
}

/// The C spelling of a binary operator.
pub open spec fn spec_render_binary_op(op: BinaryOp) -> Seq<char> {
    match op {
        BinaryOp::Add => "+"@,
        BinaryOp::Sub => "-"@,
        BinaryOp::Mul => "*"@,
        BinaryOp::Div => "/"@,
        BinaryOp::Mod => "%"@,
        BinaryOp::Eq => "=="@,
        BinaryOp::Ne => "!="@,
        BinaryOp::Lt => "<"@,
        BinaryOp::Le => "<="@,
        BinaryOp::Gt => ">"@,
        BinaryOp::Ge => ">="@,
        BinaryOp::BitAnd => "&"@,
        BinaryOp::BitOr => "|"@,
        BinaryOp::BitXor => "^"@,
        BinaryOp::Shl => "<<"@,
        BinaryOp::Shr => ">>"@,
        BinaryOp::And => "&&"@,
        BinaryOp::Or => "||"@,
    }
}

/// The C spelling of a prefix operator.
pub open spec fn spec_render_prefix(p: Prefix) -> Seq<char> {
    match p {
        Prefix::Neg => "-"@,
        Prefix::Pos => "+"@,
        Prefix::Not => "!"@,
        Prefix::BitNot => "~"@,
        Prefix::PreInc => "++"@,
        Prefix::PreDec => "--"@,
        Prefix::Deref => "*"@,
    }
}

/// The full rendering of an expression.  Every operator application is
/// parenthesized; literals and identifiers render bare.
pub open spec fn spec_render_expr(e: Expression) -> Seq<char>
    decreases e,
{
    match e {
        Expression::Literal(l) => spec_render_literal(l),
        Expression::Identifier(name) => name@,
        Expression::UnaryExpr { op, expr } => {
            let body = match op {
                UnaryOp::PrefixOp(p) => spec_render_prefix(p) + spec_render_expr(*expr),
                UnaryOp::PostfixOp(Postfix::Index { index }) => {
                    spec_render_expr(*expr) + "["@ + spec_render_expr(*index) + "]"@
                },
            };
            "("@ + body + ")"@
        },
        Expression::BinaryExpr { left, op, right } => {
            "("@ + spec_render_expr(*left) + " "@ + spec_render_binary_op(op) + " "@
                + spec_render_expr(*right) + ")"@
        },
        Expression::TernaryExpr { condition, then_expr, else_expr } => {
            "("@ + spec_render_expr(*condition) + " ? "@ + spec_render_expr(*then_expr) + " : "@
                + spec_render_expr(*else_expr) + ")"@
        },
    }
}

/// The body of a unary application before the enclosing parentheses: the
/// operator glued to its rendered operand.
pub open spec fn spec_render_unary(op: UnaryOp, e: Expression) -> Seq<char> {
    match op {
        UnaryOp::PrefixOp(p) => spec_render_prefix(p) + spec_render_expr(e),
        UnaryOp::PostfixOp(Postfix::Index { index }) => {
            spec_render_expr(e) + "["@ + spec_render_expr(*index) + "]"@
        },
    }
}

/// The one-character string for a digit value.
fn digit_str(d: u64) -> (r: &'static str)
    requires
        d < 10,
    ensures
        r@ == seq![spec_digit(d as nat)],
{
    if d == 0 {
        proof {
            reveal_strlit("0");
        }
        "0"
    } else if d == 1 {
        proof {
            reveal_strlit("1");
        }
        "1"
    } else if d == 2 {
        proof {
            reveal_strlit("2");
        }
        "2"
    } else if d == 3 {
        proof {
            reveal_strlit("3");
        }
        "3"
    } else if d == 4 {
        proof {
            reveal_strlit("4");
        }
        "4"
    } else if d == 5 {
        proof {
            reveal_strlit("5");
        }
        "5"
    } else if d == 6 {
        proof {
            reveal_strlit("6");
        }
        "6"
    } else if d == 7 {
        proof {
            reveal_strlit("7");
        }
        "7"
    } else if d == 8 {
        proof {
            reveal_strlit("8");
        }
        "8"
    } else {
        proof {
            reveal_strlit("9");
        }
        "9"
    }
}

/// Renders a non-negative integer in decimal.
fn u64_to_dec(n: u64) -> (r: String)
    ensures
        r@ == spec_udec(n as nat),
    decreases n,
{
    if n < 10 {
        String::from_str(digit_str(n))
    } else {
        let mut s = u64_to_dec(n / 10);
        s.append(digit_str(n % 10));
        s
    }
}

/// Renders a signed integer in decimal.
fn i64_to_dec(i: i64) -> (r: String)
    ensures
        r@ == spec_idec(i as int),
{
    if i >= 0 {
        u64_to_dec(i as u64)
    } else {
        let mag: u64 = (-(i + 1)) as u64 + 1;
        proof {
            assert(mag as int == -(i as int));
        }
        let mut s = String::from_str("-");
        let digits = u64_to_dec(mag);
        s.append(digits.as_str());
        s
    }
}

/// Relies on `String::push`: appends exactly the given character.
#[verifier::external_body]
fn push_char(s: &mut String, c: char)
    ensures
        final(s)@ == old(s)@ + seq![c],
{
    s.push(c);
}

/// Renders a numeric literal.
pub fn render_numeric_literal(lit: &NumericLiteral) -> (r: String)
    ensures
        r@ == spec_render_numeric(*lit),
{
    match lit {
        NumericLiteral::Integer(i) => i64_to_dec(*i),
        NumericLiteral::Float(t) => float_with_suffix(t),
        NumericLiteral::Double(t) => t.clone(),
    }
}

/// Renders a float lexeme with exactly one trailing `f` marker.
fn float_with_suffix(t: &String) -> (r: String)
    ensures
        r@ == spec_float_body(t@) + "f"@,
{
    let s = t.as_str();
    let n = s.unicode_len();
    if n > 0 && s.get_char(n - 1) == 'f' {
        proof {
            reveal_strlit("f");
            assert(t@.drop_last() + "f"@ =~= t@);
        }
        t.clone()
    } else {
        t.clone().concat("f")
    }
}

/// Renders a literal.
pub fn render_literal(lit: &Literal) -> (r: String)
    ensures
        r@ == spec_render_literal(*lit),
{
    match lit {
        Literal::Numeric(n) => render_numeric_literal(n),
        Literal::Bool(b) => {
            if *b {
                String::from_str("true")
            } else {
                String::from_str("false")
            }
        },
        Literal::Char(c) => {
            let mut s = String::new();
            push_char(&mut s, *c);
            proof {
                assert(s@ =~= seq![*c]);
            }
            s
        },
    }
}

/// Renders a binary operator.
pub fn render_binary_op(op: &BinaryOp) -> (r: &'static str)
    ensures
        r@ == spec_render_binary_op(*op),
{
    match op {
        BinaryOp::Add => "+",
        BinaryOp::Sub => "-",
        BinaryOp::Mul => "*",
        BinaryOp::Div => "/",
        BinaryOp::Mod => "%",
        BinaryOp::Eq => "==",
        BinaryOp::Ne => "!=",
        BinaryOp::Lt => "<",
        BinaryOp::Le => "<=",
        BinaryOp::Gt => ">",
        BinaryOp::Ge => ">=",
        BinaryOp::BitAnd => "&",
        BinaryOp::BitOr => "|",
        BinaryOp::BitXor => "^",
        BinaryOp::Shl => "<<",
        BinaryOp::Shr => ">>",
        BinaryOp::And => "&&",
        BinaryOp::Or => "||",
    }
}

/// Renders a prefix operator.
fn render_prefix(p: &Prefix) -> (r: &'static str)
    ensures
        r@ == spec_render_prefix(*p),
{
    match p {
        Prefix::Neg => "-",
        Prefix::Pos => "+",
        Prefix::Not => "!",
        Prefix::BitNot => "~",
        Prefix::PreInc => "++",
        Prefix::PreDec => "--",
        Prefix::Deref => "*",
    }
}

/// Renders a full expression, parenthesizing every operator application.
pub fn render_expr(expr: &Expression) -> (r: String)
    ensures
        r@ == spec_render_expr(*expr),
    decreases *expr,
{
    match expr {
        Expression::Literal(lit) => render_literal(lit),
        Expression::Identifier(ident) => ident.clone(),
        Expression::UnaryExpr { op, expr: inner } => {
            let mut s = String::from_str("(");
            match op {
                UnaryOp::PrefixOp(p) => {
                    s.append(render_prefix(p));
                    let operand = render_expr(inner);
                    s.append(operand.as_str());
                },
                UnaryOp::PostfixOp(Postfix::Index { index }) => {
                    let operand = render_expr(inner);
                    s.append(operand.as_str());
                    s.append("[");
                    let idx = render_expr(index);
                    s.append(idx.as_str());
                    s.append("]");
                },
            }
            s.append(")");
            s
        },
        Expression::BinaryExpr { left, op, right } => {
            let mut s = String::from_str("(");
            let l = render_expr(left);
            s.append(l.as_str());
            s.append(" ");
            s.append(render_binary_op(op));
            s.append(" ");
            let r = render_expr(right);
            s.append(r.as_str());
            s.append(")");
            s
        },
        Expression::TernaryExpr { condition, then_expr, else_expr } => {
            let mut s = String::from_str("(");
            let c = render_expr(condition);
            s.append(c.as_str());
            s.append(" ? ");
            let t = render_expr(then_expr);
            s.append(t.as_str());
            s.append(" : ");
            let e = render_expr(else_expr);
            s.append(e.as_str());
            s.append(")");
            s
        },
    }
}

/// Renders the body of a unary application: the operator glued to its
/// rendered operand, without the enclosing parentheses.
pub fn render_unary_op(op: &UnaryOp, expression: &Expression) -> (r: String)
    ensures
        r@ == spec_render_unary(*op, *expression),
{
    match op {
        UnaryOp::PrefixOp(p) => {
            let mut s = String::from_str(render_prefix(p));
            let operand = render_expr(expression);
            s.append(operand.as_str());
            s
        },
        UnaryOp::PostfixOp(Postfix::Index { index }) => {
            let mut s = render_expr(expression);
            s.append("[");
            let idx = render_expr(index);
            s.append(idx.as_str());
            s.append("]");
            s
        },
    }
}

impl NumericLiteral {
    /// The display text of this literal: integers in decimal, float
    /// lexemes with a trailing `f`, double lexemes with a trailing `d`.
    pub fn to_text(&self) -> (r: String)
        ensures
            r@ == spec_numeric_text(*self),
    {
        match self {
            NumericLiteral::Integer(i) => i64_to_dec(*i),
            NumericLiteral::Float(t) => float_with_suffix(t),
            NumericLiteral::Double(t) => t.clone().concat("d"),
        }
    }
}

/// The display text of a numeric literal (the double form carries a `d`
/// suffix, unlike the C rendering).
pub open spec fn spec_numeric_text(n: NumericLiteral) -> Seq<char> {
    match n {
        NumericLiteral::Integer(i) => spec_idec(i as int),
        NumericLiteral::Float(t) => spec_float_body(t@) + "f"@,
        NumericLiteral::Double(t) => t@ + "d"@,
    }
}

impl Literal {
    /// The display text of this literal.
    pub fn to_text(&self) -> (r: String)
        ensures
            r@ == spec_literal_text(*self),
    {
        match self {
            Literal::Numeric(n) => n.to_text(),
            Literal::Bool(b) => {
                if *b {
                    String::from_str("true")
                } else {
                    String::from_str("false")
                }
            },
            Literal::Char(c) => {
                let mut s = String::new();
                push_char(&mut s, *c);
                proof {
                    assert(s@ =~= seq![*c]);
                }
                s
            },
        }
    }
}

/// The display text of a literal.
pub open spec fn spec_literal_text(l: Literal) -> Seq<char> {
    match l {
        Literal::Numeric(n) => spec_numeric_text(n),
        Literal::Bool(b) => if b {
            "true"@
        } else {
            "false"@
        },
        Literal::Char(c) => seq![c],
    }
}

} // verus!
