use syntax_tree::{
    expression_to_string, program_to_string, statement_to_string, Expr, Identifier, Program,
    Statement, TokenType,
};

fn ident(name: &str) -> Identifier {
    Identifier { value: name.to_string() }
}

fn name(n: &str) -> Expr {
    Expr::Identifier(ident(n))
}

fn lit(n: i32) -> Box<Expr> {
    Box::new(Expr::IntegerLiteral(n))
}

fn block(stmts: Vec<Statement>) -> Statement {
    Statement::Block(stmts.into_iter().map(Box::new).collect())
}

#[test]
fn integer_literals_render_in_decimal() {
    assert_eq!(expression_to_string(&Expr::IntegerLiteral(0)), "0");
    assert_eq!(expression_to_string(&Expr::IntegerLiteral(7)), "7");
    assert_eq!(expression_to_string(&Expr::IntegerLiteral(100)), "100");
    assert_eq!(expression_to_string(&Expr::IntegerLiteral(-42)), "-42");
    assert_eq!(expression_to_string(&Expr::IntegerLiteral(i32::MAX)), "2147483647");
    assert_eq!(expression_to_string(&Expr::IntegerLiteral(i32::MIN)), "-2147483648");
}

#[test]
fn integer_literals_match_std_formatting() {
    for n in [-1000, -10, -9, -1, 1, 9, 10, 99, 12345, 1_000_000] {
        assert_eq!(expression_to_string(&Expr::IntegerLiteral(n)), n.to_string());
    }
}

#[test]
fn booleans_render_as_words() {
    assert_eq!(expression_to_string(&Expr::Bool(true)), "true");
    assert_eq!(expression_to_string(&Expr::Bool(false)), "false");
}

#[test]
fn identifiers_render_verbatim() {
    assert_eq!(expression_to_string(&name("foo_bar")), "foo_bar");
}

#[test]
fn prefix_is_parenthesised_without_space() {
    let e = Expr::Prefix("-".to_string(), lit(5));
    assert_eq!(expression_to_string(&e), "(-5)");
}

#[test]
fn prefix_wrapped_twice() {
    let e = Expr::Prefix(
        "!".to_string(),
        Box::new(Expr::Prefix("!".to_string(), Box::new(name("x")))),
    );
    assert_eq!(expression_to_string(&e), "(!(!x))");
}

#[test]
fn infix_is_fully_parenthesised() {
    let e = Expr::Infix(
        TokenType::Plus,
        lit(1),
        Box::new(Expr::Infix(TokenType::Asterisk, lit(2), lit(3))),
    );
    assert_eq!(expression_to_string(&e), "(1 + (2 * 3))");
    let left = Expr::Infix(
        TokenType::Minus,
        Box::new(Expr::Infix(TokenType::Minus, lit(1), lit(2))),
        lit(3),
    );
    assert_eq!(expression_to_string(&left), "((1 - 2) - 3)");
}

#[test]
fn infix_operator_texts() {
    let cases = [
        (TokenType::Plus, "(a + b)"),
        (TokenType::Minus, "(a - b)"),
        (TokenType::Asterisk, "(a * b)"),
        (TokenType::Slash, "(a / b)"),
        (TokenType::Lt, "(a < b)"),
        (TokenType::Gt, "(a > b)"),
        (TokenType::Eq, "(a == b)"),
        (TokenType::NotEq, "(a != b)"),
    ];
    for (op, expected) in cases {
        let e = Expr::Infix(op, Box::new(name("a")), Box::new(name("b")));
        assert_eq!(expression_to_string(&e), expected);
    }
}

#[test]
fn call_without_arguments() {
    let e = Expr::CallExpression { function: Box::new(name("add")), arguments: vec![] };
    assert_eq!(expression_to_string(&e), "add()");
}

#[test]
fn call_with_one_argument() {
    let e = Expr::CallExpression { function: Box::new(name("neg")), arguments: vec![lit(1)] };
    assert_eq!(expression_to_string(&e), "neg(1)");
}

#[test]
fn call_with_three_arguments() {
    let e = Expr::CallExpression {
        function: Box::new(name("add")),
        arguments: vec![
            lit(1),
            Box::new(name("x")),
            Box::new(Expr::Infix(TokenType::Plus, lit(2), lit(3))),
        ],
    };
    assert_eq!(expression_to_string(&e), "add(1, x, (2 + 3))");
}

#[test]
fn call_of_function_literal() {
    let f = Expr::FunctionLiteral(vec![ident("x")], Box::new(block(vec![])));
    let e = Expr::CallExpression { function: Box::new(f), arguments: vec![lit(4)] };
    assert_eq!(expression_to_string(&e), r#"fn ([Identifier { value: "x" }]) [](4)"#);
}

#[test]
fn empty_program_renders_empty() {
    let p = Program { statements: vec![] };
    assert_eq!(program_to_string(&p), "");
}

#[test]
fn program_statements_are_not_separated() {
    let p = Program {
        statements: vec![
            Statement::Let(ident("x"), Expr::IntegerLiteral(5)),
            Statement::Return(name("x")),
        ],
    };
    assert_eq!(program_to_string(&p), "let x = 5(return x)");
}

#[test]
fn statement_forms() {
    assert_eq!(statement_to_string(&Statement::Let(ident("y"), Expr::Bool(true))), "let y = true");
    assert_eq!(statement_to_string(&Statement::Return(Expr::IntegerLiteral(-3))), "(return -3)");
    assert_eq!(statement_to_string(&Statement::Expr(name("z"))), "z");
    assert_eq!(statement_to_string(&Statement::Empty), "None");
}

#[test]
fn empty_expression_renders_lowercase() {
    assert_eq!(expression_to_string(&Expr::Empty), "none");
    assert_eq!(statement_to_string(&Statement::Expr(Expr::Empty)), "none");
}

#[test]
fn if_without_alternative() {
    let e = Expr::If(
        Box::new(Expr::Bool(true)),
        Box::new(block(vec![Statement::Return(Expr::IntegerLiteral(1))])),
        None,
    );
    assert_eq!(expression_to_string(&e), "if true [Return(IntegerLiteral(1))]");
}

#[test]
fn if_with_alternative() {
    let e = Expr::If(
        Box::new(Expr::Infix(TokenType::Lt, Box::new(name("a")), Box::new(name("b")))),
        Box::new(block(vec![Statement::Return(Expr::IntegerLiteral(1))])),
        Some(Box::new(block(vec![Statement::Return(Expr::IntegerLiteral(2))]))),
    );
    assert_eq!(
        expression_to_string(&e),
        "if (a < b) [Return(IntegerLiteral(1))] else [Return(IntegerLiteral(2))]"
    );
}

#[test]
fn function_literal_lists_parameters() {
    let e = Expr::FunctionLiteral(
        vec![ident("x"), ident("y")],
        Box::new(block(vec![Statement::Return(name("x"))])),
    );
    assert_eq!(
        expression_to_string(&e),
        r#"fn ([Identifier { value: "x" }, Identifier { value: "y" }]) [Return(Identifier(Identifier { value: "x" }))]"#
    );
}

#[test]
fn function_literal_without_parameters() {
    let e = Expr::FunctionLiteral(vec![], Box::new(block(vec![])));
    assert_eq!(expression_to_string(&e), "fn ([]) []");
}

#[test]
fn block_listing_of_every_variant() {
    let inner_if = Expr::If(
        Box::new(Expr::Bool(false)),
        Box::new(block(vec![Statement::Empty])),
        Some(Box::new(block(vec![]))),
    );
    let call = Expr::CallExpression {
        function: Box::new(name("f")),
        arguments: vec![Box::new(Expr::Empty), Box::new(Expr::Prefix("-".to_string(), lit(1)))],
    };
    let s = block(vec![
        Statement::Let(ident("a"), Expr::Infix(TokenType::NotEq, lit(1), lit(2))),
        Statement::Expr(inner_if),
        block(vec![Statement::Expr(call)]),
        Statement::Expr(Expr::If(Box::new(Expr::Bool(true)), Box::new(block(vec![])), None)),
    ]);
    let expected = [
        r#"[Let(Identifier { value: "a" }, Infix(NotEq, IntegerLiteral(1), IntegerLiteral(2))), "#,
        r#"Expr(If(Bool(false), Block([None]), Some(Block([])))), "#,
        r#"Block([Expr(CallExpression { function: Identifier(Identifier { value: "f" }), "#,
        r#"arguments: [None, Prefix("-", IntegerLiteral(1))] })]), "#,
        r#"Expr(If(Bool(true), Block([]), None))]"#,
    ]
    .concat();
    assert_eq!(statement_to_string(&s), expected);
}

#[test]
fn listing_escapes_quotes() {
    let s = block(vec![Statement::Expr(Expr::Prefix("\"".to_string(), Box::new(name("a\nb"))))]);
    assert_eq!(
        statement_to_string(&s),
        r#"[Expr(Prefix("\"", Identifier(Identifier { value: "a\nb" })))]"#
    );
}

#[test]
fn function_literal_in_listing() {
    let s = block(vec![Statement::Expr(Expr::FunctionLiteral(
        vec![ident("n")],
        Box::new(block(vec![Statement::Return(Expr::IntegerLiteral(-8))])),
    ))]);
    assert_eq!(
        statement_to_string(&s),
        r#"[Expr(FunctionLiteral([Identifier { value: "n" }], Block([Return(IntegerLiteral(-8))])))]"#
    );
}

#[test]
fn operator_token_names_and_texts() {
    assert_eq!(TokenType::Slash.text(), "/");
    assert_eq!(TokenType::Slash.name(), "Slash");
    assert_eq!(TokenType::Eq.text(), "==");
    assert_eq!(TokenType::Gt.name(), "Gt");
}
