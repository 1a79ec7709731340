//! Laws of the rendering, proved over the text model.
use vstd::prelude::*;
use crate::ast::{Expr, Statement, TokenType};
use crate::decimal::{digits_value, is_digit, lemma_nat_text, nat_text, int_text};
use crate::render::{args_text, expr_text, stmt_text};

verus! {

/// An integer literal renders as the decimal text of its value: a `-` first
/// exactly when the value is negative, then decimal digits that read back as
/// its magnitude, with no leading zero unless the value is zero.
pub proof fn lemma_integer_literal_text(n: i32)
    ensures
        expr_text(Expr::IntegerLiteral(n)) == int_text(n as int),
        expr_text(Expr::IntegerLiteral(n))[0] == '-' <==> n < 0,
        n < 0 ==> ({
            let digits = expr_text(Expr::IntegerLiteral(n)).drop_first();
            &&& digits.len() >= 1
            &&& forall|i: int| 0 <= i < digits.len() ==> is_digit(#[trigger] digits[i])
            &&& digits_value(digits) == -n
            &&& digits[0] != '0'
        }),
        n >= 0 ==> ({
            let digits = expr_text(Expr::IntegerLiteral(n));
            &&& digits.len() >= 1
            &&& forall|i: int| 0 <= i < digits.len() ==> is_digit(#[trigger] digits[i])
            &&& digits_value(digits) == n
            &&& (digits[0] == '0' <==> n == 0)
        }),
{
    let t = expr_text(Expr::IntegerLiteral(n));
    if n < 0 {
        let m = (-n) as nat;
        lemma_nat_text(m);
        assert(t.drop_first() =~= nat_text(m));
    } else {
        lemma_nat_text(n as nat);
        assert(is_digit(t[0]));
    }
}

/// A boolean literal renders as `true` or `false`, after its value.
pub proof fn lemma_bool_text(b: bool)
    ensures
        expr_text(Expr::Bool(b)) == (if b {
            "true"@
        } else {
            "false"@
        }),
        expr_text(Expr::Bool(b)) == "true"@ <==> b,
{
    reveal_strlit("true");
    reveal_strlit("false");
    assert("true"@.len() != "false"@.len());
}

/// A unary expression renders as its operator and its operand's rendering,
/// in parentheses, with no space; wrapping it again wraps the text again.
pub proof fn lemma_prefix_text(op: String, e: Expr)
    ensures
        expr_text(Expr::Prefix(op, Box::new(e))) == "("@ + op@ + expr_text(e) + ")"@,
        expr_text(Expr::Prefix(op, Box::new(Expr::Prefix(op, Box::new(e))))) == "("@ + op@ + "("@
            + op@ + expr_text(e) + ")"@ + ")"@,
{
    let inner = Expr::Prefix(op, Box::new(e));
    assert(expr_text(inner) == "("@ + op@ + expr_text(e) + ")"@);
    assert(expr_text(Expr::Prefix(op, Box::new(inner))) =~= "("@ + op@ + "("@ + op@ + expr_text(e)
        + ")"@ + ")"@);
}

/// A binary expression renders as its operands' renderings round the
/// operator, spaced, in parentheses.
pub proof fn lemma_infix_text(op: TokenType, left: Expr, right: Expr)
    ensures
        expr_text(Expr::Infix(op, Box::new(left), Box::new(right))) == "("@ + expr_text(left)
            + " "@ + op.spec_text() + " "@ + expr_text(right) + ")"@,
{
}

/// The rendering of every unary or binary expression, at any depth, opens
/// with `(` and closes with `)`.
pub proof fn lemma_operators_parenthesised(e: Expr)
    requires
        e is Prefix || e is Infix,
    ensures
        expr_text(e).len() >= 2,
        expr_text(e)[0] == '(',
        expr_text(e).last() == ')',
{
    reveal_strlit("(");
    reveal_strlit(")");
}

/// A call without arguments renders as its callee's rendering and `()`.
pub proof fn lemma_call_without_arguments(callee: Expr, arguments: Vec<Box<Expr>>)
    requires
        arguments@.len() == 0,
    ensures
        expr_text(Expr::CallExpression { function: Box::new(callee), arguments }) == expr_text(
            callee,
        ) + "()"@,
{
    reveal_strlit("(");
    reveal_strlit(")");
    reveal_strlit("()");
    assert(args_text(arguments@) =~= Seq::<char>::empty());
    assert("("@ + ")"@ =~= "()"@);
    assert(expr_text(Expr::CallExpression { function: Box::new(callee), arguments })
        =~= expr_text(callee) + "()"@);
}

/// A call with three arguments renders as its callee's rendering, then the
/// arguments' renderings in order, separated by `, ` with none trailing, in
/// parentheses.
pub proof fn lemma_call_three_arguments(
    callee: Expr,
    a: Expr,
    b: Expr,
    c: Expr,
    arguments: Vec<Box<Expr>>,
)
    requires
        arguments@ == seq![Box::new(a), Box::new(b), Box::new(c)],
    ensures
        expr_text(Expr::CallExpression { function: Box::new(callee), arguments }) == expr_text(
            callee,
        ) + "("@ + expr_text(a) + ", "@ + expr_text(b) + ", "@ + expr_text(c) + ")"@,
{
    let s = arguments@;
    assert(s.subrange(0, 2).subrange(0, 1) =~= seq![Box::new(a)]);
    assert(s.subrange(0, 2) =~= seq![Box::new(a), Box::new(b)]);
    assert(args_text(seq![Box::new(a)]) == expr_text(a));
    assert(args_text(s.subrange(0, 2)) == expr_text(a) + ", "@ + expr_text(b));
    assert(args_text(s) == expr_text(a) + ", "@ + expr_text(b) + ", "@ + expr_text(c));
    assert(expr_text(Expr::CallExpression { function: Box::new(callee), arguments })
        =~= expr_text(callee) + "("@ + expr_text(a) + ", "@ + expr_text(b) + ", "@ + expr_text(c)
        + ")"@);
}

/// A conditional renders as `if`, its condition and its consequence; an
/// alternative, where there is one, adds ` else ` and the alternative.
pub proof fn lemma_if_text(cond: Expr, conseq: Statement, alt: Statement)
    ensures
        expr_text(Expr::If(Box::new(cond), Box::new(conseq), None)) == "if "@ + expr_text(cond)
            + " "@ + stmt_text(conseq),
        expr_text(Expr::If(Box::new(cond), Box::new(conseq), Some(Box::new(alt)))) == expr_text(
            Expr::If(Box::new(cond), Box::new(conseq), None),
        ) + " else "@ + stmt_text(alt),
{
}

} // verus!
