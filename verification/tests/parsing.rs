use glang::ast::{BinaryOp, Expr, Literal, Stmt};
use glang::parser::{parse, ErrorKind, Pos, Token, TokenData};

fn tok(data: TokenData) -> Token {
    Token { data, pos: Pos { line: 2, column: 5 } }
}

fn toks(data: Vec<TokenData>) -> Vec<Token> {
    data.into_iter().map(tok).collect()
}

fn num(x: f64) -> TokenData {
    TokenData::Number(x.to_bits())
}

#[test]
fn empty_input_parses_to_an_empty_program() {
    let program = parse(vec![]).expect("empty input should parse");
    assert!(program.is_empty());
}

#[test]
fn precedence_shapes_the_tree() {
    // 1 + 2 * 3; parses as Add(1, Multiply(2, 3))
    let program = parse(toks(vec![
        num(1.0),
        TokenData::Plus,
        num(2.0),
        TokenData::Star,
        num(3.0),
        TokenData::Semicolon,
    ]))
    .expect("should parse");
    assert_eq!(program.len(), 1);
    match &program[0] {
        Stmt::Expr(Expr::Binary(add)) => {
            assert!(add.op == BinaryOp::Add);
            assert!(matches!(add.lhs, Expr::Literal(Literal::Number(_))));
            match &add.rhs {
                Expr::Binary(mul) => assert!(mul.op == BinaryOp::Multiply),
                _ => panic!("the right operand should be the product"),
            }
        },
        _ => panic!("expected one binary expression statement"),
    }
}

#[test]
fn subtraction_folds_to_the_left() {
    // 10 - 2 - 3; parses as Subtract(Subtract(10, 2), 3)
    let program = parse(toks(vec![
        num(10.0),
        TokenData::Minus,
        num(2.0),
        TokenData::Minus,
        num(3.0),
        TokenData::Semicolon,
    ]))
    .expect("should parse");
    match &program[0] {
        Stmt::Expr(Expr::Binary(outer)) => {
            assert!(outer.op == BinaryOp::Subtract);
            match &outer.lhs {
                Expr::Binary(inner) => {
                    assert!(inner.op == BinaryOp::Subtract);
                    assert!(matches!(inner.rhs, Expr::Literal(Literal::Number(_))));
                },
                _ => panic!("the left operand should be the inner subtraction"),
            }
            assert!(matches!(outer.rhs, Expr::Literal(Literal::Number(_))));
        },
        _ => panic!("expected one binary expression statement"),
    }
}

#[test]
fn missing_semicolon_is_an_expected_token_error() {
    let err = parse(toks(vec![TokenData::True])).expect_err("should fail");
    assert!(matches!(err.kind, ErrorKind::ExpectedToken(TokenData::Semicolon)));
    assert!(err.pos.is_none());
}

#[test]
fn let_without_a_name_is_an_expected_identifier_error() {
    let err = parse(toks(vec![TokenData::Let, TokenData::Equals])).expect_err("should fail");
    assert!(matches!(err.kind, ErrorKind::ExpectedIdentifier));
    assert!(err.pos == Some(Pos { line: 2, column: 5 }));
}

#[test]
fn a_bare_operator_is_an_expected_primary_error() {
    let err = parse(toks(vec![TokenData::Star])).expect_err("should fail");
    assert!(matches!(err.kind, ErrorKind::ExpectedPrimary));
    assert!(err.pos == Some(Pos { line: 2, column: 5 }));
}

#[test]
fn a_function_binding_keeps_its_parameters() {
    // let f a b = a;
    let program = parse(toks(vec![
        TokenData::Let,
        TokenData::Identifier("f".to_string()),
        TokenData::Identifier("a".to_string()),
        TokenData::Identifier("b".to_string()),
        TokenData::Equals,
        TokenData::Identifier("a".to_string()),
        TokenData::Semicolon,
    ]))
    .expect("should parse");
    match &program[0] {
        Stmt::Let(binding) => {
            assert_eq!(binding.pattern.0.name, "f");
            let params = binding.arguments.as_ref().expect("a function has parameters");
            assert_eq!(params.len(), 2);
            assert_eq!(params[0].0.name, "a");
            assert_eq!(params[1].0.name, "b");
        },
        _ => panic!("expected a let statement"),
    }
}

#[test]
fn else_if_nests_to_the_right() {
    // if true { 1 } else if false { 2 } else { 3 };
    let program = parse(toks(vec![
        TokenData::If,
        TokenData::True,
        TokenData::OpenBrace,
        num(1.0),
        TokenData::CloseBrace,
        TokenData::Else,
        TokenData::If,
        TokenData::False,
        TokenData::OpenBrace,
        num(2.0),
        TokenData::CloseBrace,
        TokenData::Else,
        TokenData::OpenBrace,
        num(3.0),
        TokenData::CloseBrace,
        TokenData::Semicolon,
    ]))
    .expect("should parse");
    match &program[0] {
        Stmt::Expr(Expr::If(outer)) => match &outer.else_block {
            Some(glang::ast::ElseBlock::ElseIf(inner)) => {
                assert!(matches!(
                    inner.else_block,
                    Some(glang::ast::ElseBlock::Else(_))
                ));
            },
            _ => panic!("the else should hold a nested if"),
        },
        _ => panic!("expected an if expression statement"),
    }
}

#[test]
fn a_call_is_greedy_up_to_a_closing_token() {
    // f 1 2; the argument list is itself parsed greedily, so the one
    // argument of f is the call of 1 on 2; parsing stops at the semicolon
    let program = parse(toks(vec![
        TokenData::Identifier("f".to_string()),
        num(1.0),
        num(2.0),
        TokenData::Semicolon,
    ]))
    .expect("should parse");
    match &program[0] {
        Stmt::Expr(Expr::Call(call)) => {
            assert!(matches!(*call.target, Expr::Identifier(_)));
            assert_eq!(call.arguments.len(), 1);
            match &call.arguments[0] {
                Expr::Call(inner) => {
                    assert!(matches!(*inner.target, Expr::Literal(Literal::Number(_))));
                    assert_eq!(inner.arguments.len(), 1);
                },
                _ => panic!("the argument should be the nested call"),
            }
        },
        _ => panic!("expected a call statement"),
    }
}

#[test]
fn identifier_helpers_keep_their_name() {
    let id = glang::ast::Identifier::new("answer".to_string());
    assert_eq!(id.name, "answer");
    assert!(id.stack_index.is_none());
    let resolved = id.resolve(3);
    assert_eq!(resolved.name, "answer");
    assert_eq!(resolved.stack_index, Some(3));
}
