//! The grammar-labelled parse tree the builder consumes.
//!
//! An upstream producer turns source text into this tree (or a located
//! syntax error) before the builder runs.  Each node carries the grammar
//! rule it matched, the matched text, and its child nodes in order.  The
//! builder's contracts are stated over this tree alone.

use vstd::prelude::*;
use vstd::string::StringExecFns;

verus! {

/// The closed set of grammar rule labels.
#[derive(Debug, Clone, Copy, PartialEq, Eq, Structural)]
pub enum Rule {
    Program,
    Statement,
    Declaration,
    ExprStmt,
    Assignment,
    ReturnStmt,
    IfStmt,
    WhileStmt,
    StructDefRule,
    FunctionDef,
    ImplBlockRule,
    BlockRule,
    ModifierRule,
    Keyword,
    Ident,
    TypeDef,
    Expr,
    TernaryExpr,
    MathExpr,
    Unary,
    Atom,
    IntLit,
    FloatLit,
    BoolLit,
    CharLit,
    Question,
    Colon,
    AddOp,
    SubOp,
    MulOp,
    DivOp,
    ModOp,
    EqOp,
    NeOp,
    LtOp,
    LeOp,
    GtOp,
    GeOp,
    BitwiseAnd,
    BitwiseOr,
    BitwiseXor,
    ShlOp,
    ShrOp,
    AndOp,
    OrOp,
    PrefixMinus,
    PrefixPlus,
    PrefixNot,
    PrefixBitnot,
    PrefixPreinc,
    PrefixPredec,
    PrefixDeref,
    IndexOp,
    StructFields,
    StructFieldRule,
    ExternModifier,
    ParameterList,
    ParamRule,
    ParamSelf,
    ParamTyped,
    ReturnType,
    FunctionBody,
    PtrType,
    BuiltinType,
    KwMut,
    Eoi,
}

/// One node of the parse tree: the rule it matched, the matched text, and
/// its children in order.
#[derive(Debug, PartialEq)]
pub struct ParseNode {
    pub rule: Rule,
    pub text: String,
    pub children: Vec<ParseNode>,
}

/// True for the ten decimal digit characters.
pub open spec fn is_digit_char(c: char) -> bool {
    c == '0' || c == '1' || c == '2' || c == '3' || c == '4' || c == '5' || c == '6' || c == '7'
        || c == '8' || c == '9'
}

/// The numeric value of a digit character (zero for any other character).
pub open spec fn digit_char_val(c: char) -> nat {
    if c == '0' {
        0
    } else if c == '1' {
        1
    } else if c == '2' {
        2
    } else if c == '3' {
        3
    } else if c == '4' {
        4
    } else if c == '5' {
        5
    } else if c == '6' {
        6
    } else if c == '7' {
        7
    } else if c == '8' {
        8
    } else if c == '9' {
        9
    } else {
        0
    }
}

/// A non-empty run of decimal digits.
pub open spec fn is_digits(s: Seq<char>) -> bool {
    s.len() > 0 && forall|i: int| 0 <= i < s.len() ==> is_digit_char(#[trigger] s[i])
}

/// The value of a digit string read in decimal.
pub open spec fn spec_dec_val(s: Seq<char>) -> nat
    decreases s.len(),
{
    if s.len() == 0 {
        0
    } else {
        spec_dec_val(s.drop_last()) * 10 + digit_char_val(s.last())
    }
}

/// The integer literal value of a lexeme: its decimal reading, when the
/// lexeme is all digits and the value fits a signed 64-bit integer.
pub open spec fn spec_int_value(s: Seq<char>) -> Option<i64> {
    if is_digits(s) && spec_dec_val(s) <= i64::MAX {
        Some(spec_dec_val(s) as i64)
    } else {
        None
    }
}

/// A decimal number lexeme: digits with at most one interior point.
pub open spec fn spec_is_decimal_text(s: Seq<char>) -> bool {
    &&& s.len() > 0
    &&& forall|i: int| 0 <= i < s.len() ==> (is_digit_char(#[trigger] s[i]) || s[i] == '.')
    &&& forall|i: int, j: int|
        0 <= i < j < s.len() && #[trigger] s[i] == '.' ==> #[trigger] s[j] != '.' 
    &&& s[0] != '.'
    &&& s[s.len() - 1] != '.'
}

/// A longer digit string reads to at least the value of any prefix.
pub proof fn lemma_dec_val_prefix(s: Seq<char>, i: int)
    requires
        0 <= i <= s.len(),
    ensures
        spec_dec_val(s.take(i)) <= spec_dec_val(s),
    decreases s.len(),
{
    if i < s.len() {
        lemma_dec_val_prefix(s.drop_last(), i);
        assert(s.drop_last().take(i) =~= s.take(i));
    } else {
        assert(s.take(i) =~= s);
    }
}

/// Compares a string's text with a literal.
pub fn text_is(s: &String, lit: &str) -> (r: bool)
    ensures
        r == (s@ == lit@),
{
    let other = String::from_str(lit);
    s.eq(&other)
}

/// The numeric value of a digit character, or nothing for any other
/// character.
fn digit_val(c: char) -> (r: Option<u64>)
    ensures
        match r {
            Some(d) => is_digit_char(c) && d == digit_char_val(c),
            None => !is_digit_char(c),
        },
{
    match c {
        '0' => Some(0),
        '1' => Some(1),
        '2' => Some(2),
        '3' => Some(3),
        '4' => Some(4),
        '5' => Some(5),
        '6' => Some(6),
        '7' => Some(7),
        '8' => Some(8),
        '9' => Some(9),
        _ => None,
    }
}

/// Reads an integer literal lexeme in decimal, when it is well-formed and
/// its value fits a signed 64-bit integer.
pub fn int_lexeme_value(s: &String) -> (r: Option<i64>)
    ensures
        r == spec_int_value(s@),
{
    let text = s.as_str();
    let n = text.unicode_len();
    if n == 0 {
        return None;
    }
    let mut acc: u128 = 0;
    let mut i: usize = 0;
    while i < n
        invariant
            i <= n,
            n == text@.len(),
            text@ == s@,
            acc == spec_dec_val(s@.take(i as int)),
            acc <= i64::MAX,
            forall|k: int| 0 <= k < i ==> is_digit_char(#[trigger] s@[k]),
        decreases n - i,
    {
        let c = text.get_char(i);
        let d = match digit_val(c) {
            Some(d) => d,
            None => {
                return None;
            },
        };
        let next: u128 = acc * 10 + d as u128;
        proof {
            assert(s@.take(i as int + 1).drop_last() =~= s@.take(i as int));
            assert(s@.take(i as int + 1).last() == s@[i as int]);
        }
        if next > i64::MAX as u128 {
            proof {
                lemma_dec_val_prefix(s@, i as int + 1);
            }
            return None;
        }
        acc = next;
        i = i + 1;
    }
    proof {
        assert(s@.take(n as int) =~= s@);
    }
    Some(acc as i64)
}

/// Checks that a lexeme is a decimal number: digits with at most one
/// interior point.
pub fn is_decimal_text(text: &str) -> (r: bool)
    ensures
        r == spec_is_decimal_text(text@),
{
    let n = text.unicode_len();
    if n == 0 {
        return false;
    }
    let mut dot_seen = false;
    let mut i: usize = 0;
    while i < n
        invariant
            i <= n,
            n == text@.len(),
            forall|k: int| 0 <= k < i ==> (is_digit_char(#[trigger] text@[k]) || text@[k] == '.'),
            dot_seen <==> exists|k: int| 0 <= k < i && #[trigger] text@[k] == '.',
            i > 0 ==> text@[0] != '.',
            forall|k1: int, k2: int|
                0 <= k1 < k2 < i && #[trigger] text@[k1] == '.' ==> #[trigger] text@[k2] != '.',
        decreases n - i,
    {
        let c = text.get_char(i);
        match digit_val(c) {
            Some(_) => {},
            None => {
                if c == '.' {
                    if dot_seen {
                        proof {
                            let prev = choose|k: int| 0 <= k < i && #[trigger] text@[k] == '.';
                            assert(text@[prev] == '.' && text@[i as int] == '.');
                        }
                        return false;
                    }
                    if i == 0 {
                        return false;
                    }
                    dot_seen = true;
                } else {
                    return false;
                }
            },
        }
        i = i + 1;
    }
    let last = text.get_char(n - 1);
    if last == '.' {
        return false;
    }
    true
}

} // verus!
