//! Rendering of the tree as text.
//!
//! Unary and binary expressions are always parenthesised, whatever their
//! nesting, so the text never depends on operator precedence. Blocks and
//! parameter lists, which their owners normally render, are shown in a
//! structural listing (`[Return(IntegerLiteral(1))]`).
use vstd::prelude::*;
use crate::ast::{Expr, Identifier, Program, Statement, TokenType};
use crate::decimal::{int_text, integer_text};

verus! {

/// The quoted form of a text, its special characters escaped, as the
/// standard library's debug formatting of `str` writes it.
pub uninterp spec fn debug_quoted(s: Seq<char>) -> Seq<char>;

/// Relies on the standard library's `Debug` for `str` (through `format!` with
/// `{:?}`): the text in double quotes, escaped; the result depends on the
/// characters of the text alone.
#[verifier::external_body]
fn quoted(s: &str) -> (r: String)
    ensures
        r@ == debug_quoted(s@),
{
    format!("{:?}", s)
}

/// `true` or `false`.
pub open spec fn bool_text(b: bool) -> Seq<char> {
    if b {
        "true"@
    } else {
        "false"@
    }
}

// ---- canonical text ----
/// The text of an expression.
pub open spec fn expr_text(e: Expr) -> Seq<char>
    decreases e,
{
    match e {
        Expr::Bool(b) => bool_text(b),
        Expr::Identifier(id) => id.value@,
        Expr::IntegerLiteral(n) => int_text(n as int),
        Expr::Prefix(op, operand) => "("@ + op@ + expr_text(*operand) + ")"@,
        Expr::Infix(op, left, right) => "("@ + expr_text(*left) + " "@ + op.spec_text() + " "@
            + expr_text(*right) + ")"@,
        Expr::If(cond, conseq, alt) => match alt {
            Some(alt) => "if "@ + expr_text(*cond) + " "@ + stmt_text(*conseq) + " else "@
                + stmt_text(*alt),
            None => "if "@ + expr_text(*cond) + " "@ + stmt_text(*conseq),
        },
        Expr::FunctionLiteral(params, body) => "fn ("@ + idents_listing(params@) + ") "@
            + stmt_text(*body),
        Expr::CallExpression { function, arguments } => expr_text(*function) + "("@ + args_text(
            arguments@,
        ) + ")"@,
        Expr::Empty => "none"@,
    }
}

/// The texts of the arguments, in order, separated by `, `.
pub open spec fn args_text(args: Seq<Box<Expr>>) -> Seq<char>
    decreases args,
{
    if args.len() == 0 {
        Seq::empty()
    } else if args.len() == 1 {
        expr_text(*args[0])
    } else {
        args_text(args.subrange(0, args.len() - 1)) + ", "@ + expr_text(*args[args.len() - 1])
    }
}

/// The text of a statement.
pub open spec fn stmt_text(s: Statement) -> Seq<char>
    decreases s,
{
    match s {
        Statement::Let(id, value) => "let "@ + id.value@ + " = "@ + expr_text(value),
        Statement::Return(value) => "(return "@ + expr_text(value) + ")"@,
        Statement::Block(body) => stmts_listing(body@),
        Statement::Expr(value) => expr_text(value),
        Statement::Empty => "None"@,
    }
}

/// The text of a sequence of statements: their texts one after the other,
/// with nothing between them.
pub open spec fn stmts_text(stmts: Seq<Statement>) -> Seq<char>
    decreases stmts.len(),
{
    if stmts.len() == 0 {
        Seq::empty()
    } else {
        stmts_text(stmts.drop_last()) + stmt_text(stmts.last())
    }
}

/// The text of a program.
pub open spec fn program_text(p: Program) -> Seq<char> {
    stmts_text(p.statements@)
}

// ---- structural listing ----
/// `Identifier { value: "x" }`.
pub open spec fn ident_listing(id: Identifier) -> Seq<char> {
    "Identifier { value: "@ + debug_quoted(id.value@) + " }"@
}

/// The listings of identifiers, separated by `, `.
pub open spec fn idents_joined(ids: Seq<Identifier>) -> Seq<char>
    decreases ids.len(),
{
    if ids.len() == 0 {
        Seq::empty()
    } else if ids.len() == 1 {
        ident_listing(ids[0])
    } else {
        idents_joined(ids.drop_last()) + ", "@ + ident_listing(ids.last())
    }
}

/// `[` and `]` round the listings of identifiers.
pub open spec fn idents_listing(ids: Seq<Identifier>) -> Seq<char> {
    "["@ + idents_joined(ids) + "]"@
}

/// The listing of an expression: each variant by its name, with its fields.
pub open spec fn expr_listing(e: Expr) -> Seq<char>
    decreases e,
{
    match e {
        Expr::Bool(b) => "Bool("@ + bool_text(b) + ")"@,
        Expr::Identifier(id) => "Identifier("@ + ident_listing(id) + ")"@,
        Expr::IntegerLiteral(n) => "IntegerLiteral("@ + int_text(n as int) + ")"@,
        Expr::Prefix(op, operand) => "Prefix("@ + debug_quoted(op@) + ", "@ + expr_listing(
            *operand,
        ) + ")"@,
        Expr::Infix(op, left, right) => "Infix("@ + op.spec_name() + ", "@ + expr_listing(*left)
            + ", "@ + expr_listing(*right) + ")"@,
        Expr::If(cond, conseq, alt) => "If("@ + expr_listing(*cond) + ", "@ + stmt_listing(*conseq)
            + ", "@ + match alt {
            Some(alt) => "Some("@ + stmt_listing(*alt) + ")"@,
            None => "None"@,
        } + ")"@,
        Expr::FunctionLiteral(params, body) => "FunctionLiteral("@ + idents_listing(params@)
            + ", "@ + stmt_listing(*body) + ")"@,
        Expr::CallExpression { function, arguments } => "CallExpression { function: "@
            + expr_listing(*function) + ", arguments: ["@ + exprs_joined(arguments@) + "] }"@,
        Expr::Empty => "None"@,
    }
}

/// The listings of expressions, separated by `, `.
pub open spec fn exprs_joined(es: Seq<Box<Expr>>) -> Seq<char>
    decreases es,
{
    if es.len() == 0 {
        Seq::empty()
    } else if es.len() == 1 {
        expr_listing(*es[0])
    } else {
        exprs_joined(es.subrange(0, es.len() - 1)) + ", "@ + expr_listing(*es[es.len() - 1])
    }
}

/// The listing of a statement: each variant by its name, with its fields.
pub open spec fn stmt_listing(s: Statement) -> Seq<char>
    decreases s,
{
    match s {
        Statement::Let(id, value) => "Let("@ + ident_listing(id) + ", "@ + expr_listing(value)
            + ")"@,
        Statement::Return(value) => "Return("@ + expr_listing(value) + ")"@,
        Statement::Block(body) => "Block(["@ + stmts_joined(body@) + "])"@,
        Statement::Expr(value) => "Expr("@ + expr_listing(value) + ")"@,
        Statement::Empty => "None"@,
    }
}

/// The listings of statements, separated by `, `.
pub open spec fn stmts_joined(ss: Seq<Box<Statement>>) -> Seq<char>
    decreases ss,
{
    if ss.len() == 0 {
        Seq::empty()
    } else if ss.len() == 1 {
        stmt_listing(*ss[0])
    } else {
        stmts_joined(ss.subrange(0, ss.len() - 1)) + ", "@ + stmt_listing(*ss[ss.len() - 1])
    }
}

/// `[` and `]` round the listings of statements.
pub open spec fn stmts_listing(ss: Seq<Box<Statement>>) -> Seq<char> {
    "["@ + stmts_joined(ss) + "]"@
}

// ---- rendering ----
fn bool_string(b: bool) -> (r: String)
    ensures
        r@ == bool_text(b),
{
    if b {
        String::from_str("true")
    } else {
        String::from_str("false")
    }
}

/// Renders an expression: literals as written, names verbatim, unary and
/// binary expressions in parentheses, calls with their arguments separated
/// by `, `.
pub fn expression_to_string(expression: &Expr) -> (r: String)
    ensures
        r@ == expr_text(*expression),
    decreases expression,
{
    match expression {
        Expr::Bool(b) => bool_string(*b),
        Expr::Identifier(id) => id.value.clone(),
        Expr::IntegerLiteral(n) => integer_text(*n),
        Expr::Prefix(op, operand) => {
            let mut r = String::from_str("(");
            r.append(op.as_str());
            r.append(expression_to_string(operand).as_str());
            r.append(")");
            r
        },
        Expr::Infix(op, left, right) => {
            let mut r = String::from_str("(");
            r.append(expression_to_string(left).as_str());
            r.append(" ");
            r.append(op.text());
            r.append(" ");
            r.append(expression_to_string(right).as_str());
            r.append(")");
            r
        },
        Expr::If(cond, conseq, alt) => {
            let mut r = String::from_str("if ");
            r.append(expression_to_string(cond).as_str());
            r.append(" ");
            r.append(statement_to_string(conseq).as_str());
            match alt {
                Some(alt) => {
                    r.append(" else ");
                    r.append(statement_to_string(alt).as_str());
                },
                None => {},
            }
            r
        },
        Expr::FunctionLiteral(params, body) => {
            let mut r = String::from_str("fn (");
            r.append(idents_listing_string(params).as_str());
            r.append(") ");
            r.append(statement_to_string(body).as_str());
            r
        },
        Expr::CallExpression { function, arguments } => {
            let mut r = expression_to_string(function);
            r.append("(");
            r.append(args_string(arguments).as_str());
            r.append(")");
            r
        },
        Expr::Empty => String::from_str("none"),
    }
}

fn args_string(args: &Vec<Box<Expr>>) -> (r: String)
    ensures
        r@ == args_text(args@),
    decreases args,
{
    let mut r = String::new();
    let mut i: usize = 0;
    while i < args.len()
        invariant
            i <= args.len(),
            r@ == args_text(args@.subrange(0, i as int)),
        decreases args.len() - i,
    {
        let ghost before = args@.subrange(0, i as int);
        if i > 0 {
            r.append(", ");
        }
        r.append(expression_to_string(&args[i]).as_str());
        proof {
            let upto = args@.subrange(0, i + 1);
            assert(upto.subrange(0, i as int) =~= before);
            assert(r@ =~= args_text(upto));
        }
        i = i + 1;
    }
    assert(args@.subrange(0, args.len() as int) =~= args@);
    r
}

/// Renders a statement: `let x = v`, `(return v)`, a bare expression, a
/// block as a structural listing of its statements, the empty statement as
/// `None`.
pub fn statement_to_string(statement: &Statement) -> (r: String)
    ensures
        r@ == stmt_text(*statement),
    decreases statement,
{
    match statement {
        Statement::Let(id, value) => {
            let mut r = String::from_str("let ");
            r.append(id.value.as_str());
            r.append(" = ");
            r.append(expression_to_string(value).as_str());
            r
        },
        Statement::Return(value) => {
            let mut r = String::from_str("(return ");
            r.append(expression_to_string(value).as_str());
            r.append(")");
            r
        },
        Statement::Block(body) => stmts_listing_string(body),
        Statement::Expr(value) => expression_to_string(value),
        Statement::Empty => String::from_str("None"),
    }
}

/// Renders a program: the renderings of its statements in order, with no
/// separator between them.
pub fn program_to_string(program: &Program) -> (r: String)
    ensures
        r@ == program_text(*program),
{
    let stmts = &program.statements;
    let mut r = String::new();
    let mut i: usize = 0;
    while i < stmts.len()
        invariant
            i <= stmts.len(),
            r@ == stmts_text(stmts@.subrange(0, i as int)),
        decreases stmts.len() - i,
    {
        let ghost before = stmts@.subrange(0, i as int);
        r.append(statement_to_string(&stmts[i]).as_str());
        proof {
            let upto = stmts@.subrange(0, i + 1);
            assert(upto.drop_last() =~= before);
            assert(r@ =~= stmts_text(upto));
        }
        i = i + 1;
    }
    assert(stmts@.subrange(0, stmts.len() as int) =~= stmts@);
    r
}

// ---- structural listing ----
fn ident_listing_string(id: &Identifier) -> (r: String)
    ensures
        r@ == ident_listing(*id),
{
    let mut r = String::from_str("Identifier { value: ");
    r.append(quoted(id.value.as_str()).as_str());
    r.append(" }");
    r
}

fn idents_listing_string(ids: &Vec<Identifier>) -> (r: String)
    ensures
        r@ == idents_listing(ids@),
{
    let mut r = String::new();
    let mut i: usize = 0;
    while i < ids.len()
        invariant
            i <= ids.len(),
            r@ == idents_joined(ids@.subrange(0, i as int)),
        decreases ids.len() - i,
    {
        let ghost before = ids@.subrange(0, i as int);
        if i > 0 {
            r.append(", ");
        }
        r.append(ident_listing_string(&ids[i]).as_str());
        proof {
            let upto = ids@.subrange(0, i + 1);
            assert(upto.drop_last() =~= before);
            assert(r@ =~= idents_joined(upto));
        }
        i = i + 1;
    }
    assert(ids@.subrange(0, ids.len() as int) =~= ids@);
    let mut out = String::from_str("[");
    out.append(r.as_str());
    out.append("]");
    out
}

fn expr_listing_string(e: &Expr) -> (r: String)
    ensures
        r@ == expr_listing(*e),
    decreases e,
{
    match e {
        Expr::Bool(b) => {
            let mut r = String::from_str("Bool(");
            r.append(bool_string(*b).as_str());
            r.append(")");
            r
        },
        Expr::Identifier(id) => {
            let mut r = String::from_str("Identifier(");
            r.append(ident_listing_string(id).as_str());
            r.append(")");
            r
        },
        Expr::IntegerLiteral(n) => {
            let mut r = String::from_str("IntegerLiteral(");
            r.append(integer_text(*n).as_str());
            r.append(")");
            r
        },
        Expr::Prefix(op, operand) => {
            let mut r = String::from_str("Prefix(");
            r.append(quoted(op.as_str()).as_str());
            r.append(", ");
            r.append(expr_listing_string(operand).as_str());
            r.append(")");
            r
        },
        Expr::Infix(op, left, right) => {
            let mut r = String::from_str("Infix(");
            r.append(op.name());
            r.append(", ");
            r.append(expr_listing_string(left).as_str());
            r.append(", ");
            r.append(expr_listing_string(right).as_str());
            r.append(")");
            r
        },
        Expr::If(cond, conseq, alt) => {
            let mut r = String::from_str("If(");
            r.append(expr_listing_string(cond).as_str());
            r.append(", ");
            r.append(stmt_listing_string(conseq).as_str());
            r.append(", ");
            match alt {
                Some(alt) => {
                    r.append("Some(");
                    r.append(stmt_listing_string(alt).as_str());
                    r.append(")");
                },
                None => {
                    r.append("None");
                },
            }
            r.append(")");
            r
        },
        Expr::FunctionLiteral(params, body) => {
            let mut r = String::from_str("FunctionLiteral(");
            r.append(idents_listing_string(params).as_str());
            r.append(", ");
            r.append(stmt_listing_string(body).as_str());
            r.append(")");
            r
        },
        Expr::CallExpression { function, arguments } => {
            let mut r = String::from_str("CallExpression { function: ");
            r.append(expr_listing_string(function).as_str());
            r.append(", arguments: [");
            r.append(exprs_joined_string(arguments).as_str());
            r.append("] }");
            r
        },
        Expr::Empty => String::from_str("None"),
    }
}

fn exprs_joined_string(es: &Vec<Box<Expr>>) -> (r: String)
    ensures
        r@ == exprs_joined(es@),
    decreases es,
{
    let mut r = String::new();
    let mut i: usize = 0;
    while i < es.len()
        invariant
            i <= es.len(),
            r@ == exprs_joined(es@.subrange(0, i as int)),
        decreases es.len() - i,
    {
        let ghost before = es@.subrange(0, i as int);
        if i > 0 {
            r.append(", ");
        }
        r.append(expr_listing_string(&es[i]).as_str());
        proof {
            let upto = es@.subrange(0, i + 1);
            assert(upto.subrange(0, i as int) =~= before);
            assert(r@ =~= exprs_joined(upto));
        }
        i = i + 1;
    }
    assert(es@.subrange(0, es.len() as int) =~= es@);
    r
}

fn stmt_listing_string(s: &Statement) -> (r: String)
    ensures
        r@ == stmt_listing(*s),
    decreases s,
{
    match s {
        Statement::Let(id, value) => {
            let mut r = String::from_str("Let(");
            r.append(ident_listing_string(id).as_str());
            r.append(", ");
            r.append(expr_listing_string(value).as_str());
            r.append(")");
            r
        },
        Statement::Return(value) => {
            let mut r = String::from_str("Return(");
            r.append(expr_listing_string(value).as_str());
            r.append(")");
            r
        },
        Statement::Block(body) => {
            let mut r = String::from_str("Block([");
            r.append(stmts_joined_string(body).as_str());
            r.append("])");
            r
        },
        Statement::Expr(value) => {
            let mut r = String::from_str("Expr(");
            r.append(expr_listing_string(value).as_str());
            r.append(")");
            r
        },
        Statement::Empty => String::from_str("None"),
    }
}

fn stmts_joined_string(ss: &Vec<Box<Statement>>) -> (r: String)
    ensures
        r@ == stmts_joined(ss@),
    decreases ss,
{
    let mut r = String::new();
    let mut i: usize = 0;
    while i < ss.len()
        invariant
            i <= ss.len(),
            r@ == stmts_joined(ss@.subrange(0, i as int)),
        decreases ss.len() - i,
    {
        let ghost before = ss@.subrange(0, i as int);
        if i > 0 {
            r.append(", ");
        }
        r.append(stmt_listing_string(&ss[i]).as_str());
        proof {
            let upto = ss@.subrange(0, i + 1);
            assert(upto.subrange(0, i as int) =~= before);
            assert(r@ =~= stmts_joined(upto));
        }
        i = i + 1;
    }
    assert(ss@.subrange(0, ss.len() as int) =~= ss@);
    r
}

fn stmts_listing_string(ss: &Vec<Box<Statement>>) -> (r: String)
    ensures
        r@ == stmts_listing(ss@),
{
    let mut r = String::from_str("[");
    r.append(stmts_joined_string(ss).as_str());
    r.append("]");
    r
}

} // verus!
