use glang::ast::{Binding, Call, Expr, Identifier, Literal, Pattern, Program, Stmt};
use glang::env::Environment;
use glang::interperter::{interpert, DiagnosticType, Error, ErrorKind, Func, NativeFunc, Value};
use glang::parser::{parse, Pos, Token, TokenData};

const FUEL: u64 = 10_000;

fn tok(data: TokenData) -> Token {
    Token { data, pos: Pos { line: 1, column: 1 } }
}

fn toks(data: Vec<TokenData>) -> Vec<Token> {
    data.into_iter().map(tok).collect()
}

fn num(x: f64) -> TokenData {
    TokenData::Number(x.to_bits())
}

fn ident(s: &str) -> TokenData {
    TokenData::Identifier(s.to_string())
}

struct NoNatives;

impl NativeFunc for NoNatives {
    fn call(&mut self, _id: u64, _arguments: Vec<Value>) -> Result<Value, Error> {
        Err(Error::new(ErrorKind::IOError))
    }
}

struct CountingNative {
    calls: usize,
}

impl NativeFunc for CountingNative {
    fn call(&mut self, _id: u64, _arguments: Vec<Value>) -> Result<Value, Error> {
        self.calls += 1;
        Ok(Value::Nil)
    }
}

fn run(data: Vec<TokenData>) -> (Result<Value, Error>, Environment) {
    let program = parse(toks(data)).expect("program should parse");
    let mut env = Environment::new();
    let mut natives = NoNatives;
    let r = interpert(program, &mut env, &mut natives, FUEL);
    (r, env)
}

fn lookup(env: &Environment, name: &str) -> Value {
    env.get(&Identifier::new(name.to_string())).expect("name should be bound")
}

#[test]
fn precedence_multiplication_binds_tighter() {
    // let x = 1 + 2 * 3;
    let (r, env) = run(vec![
        TokenData::Let,
        ident("x"),
        TokenData::Equals,
        num(1.0),
        TokenData::Plus,
        num(2.0),
        TokenData::Star,
        num(3.0),
        TokenData::Semicolon,
    ]);
    assert!(matches!(r, Ok(Value::Nil)));
    assert!(lookup(&env, "x") == Value::Num(7.0f64.to_bits()));
}

#[test]
fn precedence_inside_block() {
    // let x = { 1 + 2 * 3 };
    let (_, env) = run(vec![
        TokenData::Let,
        ident("x"),
        TokenData::Equals,
        TokenData::OpenBrace,
        num(1.0),
        TokenData::Plus,
        num(2.0),
        TokenData::Star,
        num(3.0),
        TokenData::CloseBrace,
        TokenData::Semicolon,
    ]);
    assert!(lookup(&env, "x") == Value::Num(7.0f64.to_bits()));
}

#[test]
fn subtraction_is_left_associative() {
    // let x = 10 - 2 - 3;
    let (_, env) = run(vec![
        TokenData::Let,
        ident("x"),
        TokenData::Equals,
        num(10.0),
        TokenData::Minus,
        num(2.0),
        TokenData::Minus,
        num(3.0),
        TokenData::Semicolon,
    ]);
    assert!(lookup(&env, "x") == Value::Num(5.0f64.to_bits()));
}

#[test]
fn add_string_and_number() {
    // let a = "x" + 1; let b = 1 + "x";
    let (_, env) = run(vec![
        TokenData::Let,
        ident("a"),
        TokenData::Equals,
        TokenData::Str("x".to_string()),
        TokenData::Plus,
        num(1.0),
        TokenData::Semicolon,
        TokenData::Let,
        ident("b"),
        TokenData::Equals,
        num(1.0),
        TokenData::Plus,
        TokenData::Str("x".to_string()),
        TokenData::Semicolon,
    ]);
    assert!(lookup(&env, "a") == Value::Str("x1".to_string()));
    assert!(lookup(&env, "b") == Value::Str("1x".to_string()));
}

#[test]
fn add_number_and_bool_is_a_type_error() {
    // 1 + true;
    let (r, _) = run(vec![
        num(1.0),
        TokenData::Plus,
        TokenData::True,
        TokenData::Semicolon,
    ]);
    let err = r.expect_err("adding a bool should fail");
    assert!(matches!(
        err.kind,
        ErrorKind::TypeError { expected: DiagnosticType::Num, actual: DiagnosticType::Bool }
    ));
}

#[test]
fn string_concatenation() {
    let (_, env) = run(vec![
        TokenData::Let,
        ident("s"),
        TokenData::Equals,
        TokenData::Str("ab".to_string()),
        TokenData::Plus,
        TokenData::Str("cd".to_string()),
        TokenData::Semicolon,
    ]);
    assert!(lookup(&env, "s") == Value::Str("abcd".to_string()));
}

fn native_call_expr(name: &str) -> Expr {
    Expr::Call(Call {
        target: Box::new(Expr::Identifier(Identifier::new(name.to_string()))),
        arguments: vec![],
    })
}

fn short_circuit_program(lhs: bool, and: bool) -> Program {
    let op = if and { glang::ast::BinaryOp::And } else { glang::ast::BinaryOp::Or };
    vec![Stmt::Expr(Expr::Binary(Box::new(glang::ast::BinaryExpr {
        lhs: Expr::Literal(Literal::Bool(lhs)),
        op,
        rhs: native_call_expr("sideEffect"),
    })))]
}

#[test]
fn false_and_never_calls_the_native() {
    let mut env = Environment::new();
    env.define(
        Identifier::new("sideEffect".to_string()),
        Value::Func(Func::Native(0)),
    );
    let mut natives = CountingNative { calls: 0 };
    let r = interpert(short_circuit_program(false, true), &mut env, &mut natives, FUEL);
    assert!(r.is_ok());
    assert_eq!(natives.calls, 0);
}

#[test]
fn true_or_never_calls_the_native() {
    let mut env = Environment::new();
    env.define(
        Identifier::new("sideEffect".to_string()),
        Value::Func(Func::Native(0)),
    );
    let mut natives = CountingNative { calls: 0 };
    let r = interpert(short_circuit_program(true, false), &mut env, &mut natives, FUEL);
    assert!(r.is_ok());
    assert_eq!(natives.calls, 0);
}

#[test]
fn true_and_calls_the_native_once() {
    let mut env = Environment::new();
    env.define(
        Identifier::new("sideEffect".to_string()),
        Value::Func(Func::Native(0)),
    );
    let mut natives = CountingNative { calls: 0 };
    let r = interpert(short_circuit_program(true, true), &mut env, &mut natives, FUEL);
    assert!(r.is_ok());
    assert_eq!(natives.calls, 1);
}

#[test]
fn if_false_takes_the_else_branch() {
    // let x = if false { 1 } else { 2 };
    let (_, env) = run(vec![
        TokenData::Let,
        ident("x"),
        TokenData::Equals,
        TokenData::If,
        TokenData::False,
        TokenData::OpenBrace,
        num(1.0),
        TokenData::CloseBrace,
        TokenData::Else,
        TokenData::OpenBrace,
        num(2.0),
        TokenData::CloseBrace,
        TokenData::Semicolon,
    ]);
    assert!(lookup(&env, "x") == Value::Num(2.0f64.to_bits()));
}

#[test]
fn zero_is_truthy() {
    // let x = if 0 { 1 } else { 2 };
    let (_, env) = run(vec![
        TokenData::Let,
        ident("x"),
        TokenData::Equals,
        TokenData::If,
        num(0.0),
        TokenData::OpenBrace,
        num(1.0),
        TokenData::CloseBrace,
        TokenData::Else,
        TokenData::OpenBrace,
        num(2.0),
        TokenData::CloseBrace,
        TokenData::Semicolon,
    ]);
    assert!(lookup(&env, "x") == Value::Num(1.0f64.to_bits()));
}

#[test]
fn function_definition_and_call_round_trip() {
    // let f x = x + 1; let y = f 41;
    let (_, env) = run(vec![
        TokenData::Let,
        ident("f"),
        ident("x"),
        TokenData::Equals,
        ident("x"),
        TokenData::Plus,
        num(1.0),
        TokenData::Semicolon,
        TokenData::Let,
        ident("y"),
        TokenData::Equals,
        ident("f"),
        num(41.0),
        TokenData::Semicolon,
    ]);
    assert!(lookup(&env, "y") == Value::Num(42.0f64.to_bits()));
}

#[test]
fn block_bindings_leak_into_the_flat_environment() {
    // { let a = 1; 0 }; let b = a;
    let (_, env) = run(vec![
        TokenData::OpenBrace,
        TokenData::Let,
        ident("a"),
        TokenData::Equals,
        num(1.0),
        TokenData::Semicolon,
        num(0.0),
        TokenData::CloseBrace,
        TokenData::Semicolon,
        TokenData::Let,
        ident("b"),
        TokenData::Equals,
        ident("a"),
        TokenData::Semicolon,
    ]);
    assert!(lookup(&env, "a") == Value::Num(1.0f64.to_bits()));
    assert!(lookup(&env, "b") == Value::Num(1.0f64.to_bits()));
}

#[test]
fn parameter_bindings_leak_after_the_call() {
    // let f p = p; f 7;
    let (_, env) = run(vec![
        TokenData::Let,
        ident("f"),
        ident("p"),
        TokenData::Equals,
        ident("p"),
        TokenData::Semicolon,
        ident("f"),
        num(7.0),
        TokenData::Semicolon,
    ]);
    assert!(lookup(&env, "p") == Value::Num(7.0f64.to_bits()));
}

#[test]
fn rebinding_overwrites() {
    // let x = 1; let x = 2;
    let (_, env) = run(vec![
        TokenData::Let,
        ident("x"),
        TokenData::Equals,
        num(1.0),
        TokenData::Semicolon,
        TokenData::Let,
        ident("x"),
        TokenData::Equals,
        num(2.0),
        TokenData::Semicolon,
    ]);
    assert!(lookup(&env, "x") == Value::Num(2.0f64.to_bits()));
}

#[test]
fn values_of_different_variants_are_never_equal() {
    // let e = 1 == "1";
    let (_, env) = run(vec![
        TokenData::Let,
        ident("e"),
        TokenData::Equals,
        num(1.0),
        TokenData::EqualsEquals,
        TokenData::Str("1".to_string()),
        TokenData::Semicolon,
    ]);
    assert!(lookup(&env, "e") == Value::Bool(false));
    assert!(Value::Num(1.0f64.to_bits()) != Value::Str("1".to_string()));
}

#[test]
fn functions_are_never_equal() {
    // let f x = x; let e = f == f;
    let (_, env) = run(vec![
        TokenData::Let,
        ident("f"),
        ident("x"),
        TokenData::Equals,
        ident("x"),
        TokenData::Semicolon,
        TokenData::Let,
        ident("e"),
        TokenData::Equals,
        ident("f"),
        TokenData::EqualsEquals,
        ident("f"),
        TokenData::Semicolon,
    ]);
    assert!(lookup(&env, "e") == Value::Bool(false));
}

#[test]
fn undefined_identifier_is_a_runtime_error() {
    let (r, _) = run(vec![ident("y"), TokenData::Semicolon]);
    let err = r.expect_err("an unbound name should fail");
    assert!(matches!(err.kind, ErrorKind::UndefinedIdentifier { .. }));
}

#[test]
fn calling_a_number_is_a_type_error() {
    // let f = 1; f 2;
    let (r, _) = run(vec![
        TokenData::Let,
        ident("f"),
        TokenData::Equals,
        num(1.0),
        TokenData::Semicolon,
        ident("f"),
        num(2.0),
        TokenData::Semicolon,
    ]);
    let err = r.expect_err("calling a number should fail");
    assert!(matches!(
        err.kind,
        ErrorKind::TypeError { expected: DiagnosticType::Func, actual: DiagnosticType::Num }
    ));
}

#[test]
fn relational_operators_compare_numbers() {
    let (_, env) = run(vec![
        TokenData::Let,
        ident("a"),
        TokenData::Equals,
        num(1.0),
        TokenData::Less,
        num(2.0),
        TokenData::Semicolon,
        TokenData::Let,
        ident("b"),
        TokenData::Equals,
        num(2.0),
        TokenData::GreaterEquals,
        num(3.0),
        TokenData::Semicolon,
    ]);
    assert!(lookup(&env, "a") == Value::Bool(true));
    assert!(lookup(&env, "b") == Value::Bool(false));
}

#[test]
fn relational_operator_on_string_is_a_type_error() {
    let (r, _) = run(vec![
        TokenData::Str("a".to_string()),
        TokenData::Less,
        num(1.0),
        TokenData::Semicolon,
    ]);
    let err = r.expect_err("comparing a string should fail");
    assert!(matches!(
        err.kind,
        ErrorKind::TypeError { expected: DiagnosticType::Num, actual: DiagnosticType::Str }
    ));
}

#[test]
fn division_by_zero_is_infinity_not_an_error() {
    // let x = 1 / 0; let y = 0 / 0;
    let (_, env) = run(vec![
        TokenData::Let,
        ident("x"),
        TokenData::Equals,
        num(1.0),
        TokenData::Slash,
        num(0.0),
        TokenData::Semicolon,
        TokenData::Let,
        ident("y"),
        TokenData::Equals,
        num(0.0),
        TokenData::Slash,
        num(0.0),
        TokenData::Semicolon,
    ]);
    assert!(lookup(&env, "x") == Value::Num(f64::INFINITY.to_bits()));
    match lookup(&env, "y") {
        Value::Num(bits) => assert!(f64::from_bits(bits).is_nan()),
        _ => panic!("expected a number"),
    }
}

#[test]
fn nan_is_not_equal_to_itself() {
    // let x = 0 / 0 == 0 / 0;
    let (_, env) = run(vec![
        TokenData::Let,
        ident("x"),
        TokenData::Equals,
        num(0.0),
        TokenData::Slash,
        num(0.0),
        TokenData::EqualsEquals,
        num(0.0),
        TokenData::Slash,
        num(0.0),
        TokenData::Semicolon,
    ]);
    assert!(lookup(&env, "x") == Value::Bool(false));
}

#[test]
fn unary_not_and_negate() {
    // let a = !0; let b = -3;
    let (_, env) = run(vec![
        TokenData::Let,
        ident("a"),
        TokenData::Equals,
        TokenData::Bang,
        num(0.0),
        TokenData::Semicolon,
        TokenData::Let,
        ident("b"),
        TokenData::Equals,
        TokenData::Minus,
        num(3.0),
        TokenData::Semicolon,
    ]);
    assert!(lookup(&env, "a") == Value::Bool(false));
    assert!(lookup(&env, "b") == Value::Num((-3.0f64).to_bits()));
}

#[test]
fn negating_a_string_is_a_type_error() {
    let (r, _) = run(vec![
        TokenData::Minus,
        TokenData::Str("s".to_string()),
        TokenData::Semicolon,
    ]);
    let err = r.expect_err("negating a string should fail");
    assert!(matches!(
        err.kind,
        ErrorKind::TypeError { expected: DiagnosticType::Num, actual: DiagnosticType::Str }
    ));
}

#[test]
fn unbounded_recursion_hits_the_recursion_limit() {
    // let f x = f x; f 1;
    let program = parse(toks(vec![
        TokenData::Let,
        ident("f"),
        ident("x"),
        TokenData::Equals,
        ident("f"),
        ident("x"),
        TokenData::Semicolon,
        ident("f"),
        num(1.0),
        TokenData::Semicolon,
    ]))
    .expect("program should parse");
    let mut env = Environment::new();
    let mut natives = NoNatives;
    let r = interpert(program, &mut env, &mut natives, 100);
    let err = r.expect_err("unbounded recursion should exhaust the budget");
    assert!(matches!(err.kind, ErrorKind::RecursionLimit));
}

#[test]
fn extra_arguments_are_ignored() {
    // let f x = 0; then a direct call of f with two arguments: the extra
    // one is silently dropped and only the first is bound
    let define = vec![
        TokenData::Let,
        ident("f"),
        ident("x"),
        TokenData::Equals,
        num(0.0),
        TokenData::Semicolon,
    ];
    let mut program = parse(toks(define)).expect("program should parse");
    program.push(Stmt::Expr(Expr::Call(Call {
        target: Box::new(Expr::Identifier(Identifier::new("f".to_string()))),
        arguments: vec![
            Expr::Literal(Literal::Number(1.0f64.to_bits())),
            Expr::Literal(Literal::Number(2.0f64.to_bits())),
        ],
    })));
    let mut env = Environment::new();
    let mut natives = NoNatives;
    let r = interpert(program, &mut env, &mut natives, FUEL);
    assert!(r.is_ok());
    assert!(lookup(&env, "x") == Value::Num(1.0f64.to_bits()));
}

#[test]
fn native_function_results_flow_back() {
    struct FortyTwo;
    impl NativeFunc for FortyTwo {
        fn call(&mut self, _id: u64, arguments: Vec<Value>) -> Result<Value, Error> {
            assert_eq!(arguments.len(), 1);
            Ok(Value::Num(42.0f64.to_bits()))
        }
    }
    let program = vec![Stmt::Let(Binding {
        pattern: Pattern(Identifier::new("x".to_string())),
        arguments: None,
        value: Expr::Call(Call {
            target: Box::new(Expr::Identifier(Identifier::new("n".to_string()))),
            arguments: vec![Expr::Literal(Literal::Number(7.0f64.to_bits()))],
        }),
    })];
    let mut env = Environment::new();
    env.define(Identifier::new("n".to_string()), Value::Func(Func::Native(3)));
    let mut natives = FortyTwo;
    let r = interpert(program, &mut env, &mut natives, FUEL);
    assert!(r.is_ok());
    assert!(lookup(&env, "x") == Value::Num(42.0f64.to_bits()));
}

#[test]
fn a_native_error_propagates() {
    // a call of a native that fails: the error comes back unchanged
    let program = vec![Stmt::Expr(Expr::Call(Call {
        target: Box::new(Expr::Identifier(Identifier::new("n".to_string()))),
        arguments: vec![],
    }))];
    let mut env = Environment::new();
    env.define(Identifier::new("n".to_string()), Value::Func(Func::Native(9)));
    let mut natives = NoNatives;
    let r = interpert(program, &mut env, &mut natives, FUEL);
    let err = r.expect_err("the native's failure should propagate");
    assert!(matches!(err.kind, ErrorKind::IOError));
}
