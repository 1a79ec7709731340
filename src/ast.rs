//! The tree: a program is a sequence of statements, statements and
//! expressions are closed sets of variants, each node owning its children.
use vstd::prelude::*;

verus! {

/// A name, held verbatim.
#[derive(Debug)]
pub struct Identifier {
    pub value: String,
}

/// The token kinds that can stand as the operator of a binary expression.
#[derive(Debug, Clone, Copy, PartialEq, Eq, Structural)]
pub enum TokenType {
    Plus,
    Minus,
    Asterisk,
    Slash,
    Lt,
    Gt,
    Eq,
    NotEq,
}

impl TokenType {
    /// The operator as it is written in source text.
    pub open spec fn spec_text(self) -> Seq<char> {
        match self {
            TokenType::Plus => "+"@,
            TokenType::Minus => "-"@,
            TokenType::Asterisk => "*"@,
            TokenType::Slash => "/"@,
            TokenType::Lt => "<"@,
            TokenType::Gt => ">"@,
            TokenType::Eq => "=="@,
            TokenType::NotEq => "!="@,
        }
    }

    /// The name of the token kind.
    pub open spec fn spec_name(self) -> Seq<char> {
        match self {
            TokenType::Plus => "Plus"@,
            TokenType::Minus => "Minus"@,
            TokenType::Asterisk => "Asterisk"@,
            TokenType::Slash => "Slash"@,
            TokenType::Lt => "Lt"@,
            TokenType::Gt => "Gt"@,
            TokenType::Eq => "Eq"@,
            TokenType::NotEq => "NotEq"@,
        }
    }

    /// The operator as it is written in source text.
    pub fn text(&self) -> (r: &'static str)
        ensures
            r@ == self.spec_text(),
    {
        match self {
            TokenType::Plus => "+",
            TokenType::Minus => "-",
            TokenType::Asterisk => "*",
            TokenType::Slash => "/",
            TokenType::Lt => "<",
            TokenType::Gt => ">",
            TokenType::Eq => "==",
            TokenType::NotEq => "!=",
        }
    }

    /// The name of the token kind.
    pub fn name(&self) -> (r: &'static str)
        ensures
            r@ == self.spec_name(),
    {
        match self {
            TokenType::Plus => "Plus",
            TokenType::Minus => "Minus",
            TokenType::Asterisk => "Asterisk",
            TokenType::Slash => "Slash",
            TokenType::Lt => "Lt",
            TokenType::Gt => "Gt",
            TokenType::Eq => "Eq",
            TokenType::NotEq => "NotEq",
        }
    }
}

/// A statement.
#[derive(Debug)]
pub enum Statement {
    /// `let <name> = <value>`.
    Let(Identifier, Expr),
    /// `return <value>`.
    Return(Expr),
    /// A nested sequence of statements.
    Block(Vec<Box<Statement>>),
    /// An expression used as a statement.
    Expr(Expr),
    /// An explicit empty statement: a filled slot with no content.
    Empty,
}

/// An expression.
#[derive(Debug)]
pub enum Expr {
    Bool(bool),
    Identifier(Identifier),
    IntegerLiteral(i32),
    /// A unary operator, given as text, applied to its operand.
    Prefix(String, Box<Expr>),
    /// A binary operator applied to a left and a right operand.
    Infix(TokenType, Box<Expr>, Box<Expr>),
    /// Condition, consequence and optional alternative; the two branches are
    /// blocks by convention.
    If(Box<Expr>, Box<Statement>, Option<Box<Statement>>),
    /// Parameters and body; the body is a block by convention.
    FunctionLiteral(Vec<Identifier>, Box<Statement>),
    /// A callee (a name or a function literal) applied to arguments, in order.
    CallExpression { function: Box<Expr>, arguments: Vec<Box<Expr>> },
    /// An explicit absent expression, distinct from every literal.
    Empty,
}

/// A whole program: its top-level statements in source order.
#[derive(Debug)]
pub struct Program {
    pub statements: Vec<Statement>,
}

} // verus!
