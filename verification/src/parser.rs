//! The parser: recursive descent with one token of lookahead and no
//! backtracking, from a lexed token stream to a program.
//!
//! The grammar, lowest to highest precedence: logical-or, logical-and, one
//! tier for equality and relational operators, additive, multiplicative,
//! unary (right-recursive), call, primary. Every binary tier folds to the
//! left. A call is a primary followed greedily by argument expressions; the
//! argument list has no terminator and stops at the first token that cannot
//! begin an argument.
//!
//! The meaning of parsing is the specification parser (`parse_program_s` and
//! friends); the executable parser is proved to agree with it, token for
//! token, error for error.
use vstd::prelude::*;

use crate::ast::{
    expr_v, exprs_v, patterns_v, stmt_v, stmts_v, BinaryExpr, BinaryOp, Binding, BindingV, Block,
    BlockV, Call, ElseBlock, ElseV, Expr, ExprV, Identifier, IfExpr, IfExprV, Literal, LiteralV,
    Pattern, Program, Stmt, StmtV, UnaryExpr, UnaryOp,
};

verus! {

/// A source position, as the lexer reports it.
#[derive(Clone, Copy, Debug, PartialEq, Eq, Structural)]
pub struct Pos {
    pub line: usize,
    pub column: usize,
}

#[derive(Debug)]
pub enum TokenData {
    Let,
    If,
    Else,
    True,
    False,
    /// The IEEE-754 double-precision bit pattern of the numeric literal.
    Number(u64),
    Str(String),
    Identifier(String),
    Equals,
    EqualsEquals,
    BangEquals,
    Less,
    LessEquals,
    Greater,
    GreaterEquals,
    Plus,
    Minus,
    Star,
    Slash,
    Bang,
    OpenBrace,
    CloseBrace,
    Semicolon,
    And,
    Or,
}

#[derive(Debug)]
pub struct Token {
    pub data: TokenData,
    pub pos: Pos,
}

#[derive(Debug)]
pub struct Error {
    pub pos: Option<Pos>,
    pub kind: ErrorKind,
}

#[derive(Debug)]
pub enum ErrorKind {
    /// A specific token was wanted and something else stood there.
    ExpectedToken(TokenData),
    ExpectedIdentifier,
    ExpectedPrimary,
    /// Declared by the error taxonomy; the unary rule currently falls back
    /// to call parsing instead of raising it.
    ExpectedUnary,
}

pub type Parse<T> = Result<T, Error>;

/// Equality of token payloads, with strings compared by content.
pub open spec fn td_eq(a: TokenData, b: TokenData) -> bool {
    match (a, b) {
        (TokenData::Number(x), TokenData::Number(y)) => x == y,
        (TokenData::Str(x), TokenData::Str(y)) => x@ == y@,
        (TokenData::Identifier(x), TokenData::Identifier(y)) => x@ == y@,
        (TokenData::Let, TokenData::Let) => true,
        (TokenData::If, TokenData::If) => true,
        (TokenData::Else, TokenData::Else) => true,
        (TokenData::True, TokenData::True) => true,
        (TokenData::False, TokenData::False) => true,
        (TokenData::Equals, TokenData::Equals) => true,
        (TokenData::EqualsEquals, TokenData::EqualsEquals) => true,
        (TokenData::BangEquals, TokenData::BangEquals) => true,
        (TokenData::Less, TokenData::Less) => true,
        (TokenData::LessEquals, TokenData::LessEquals) => true,
        (TokenData::Greater, TokenData::Greater) => true,
        (TokenData::GreaterEquals, TokenData::GreaterEquals) => true,
        (TokenData::Plus, TokenData::Plus) => true,
        (TokenData::Minus, TokenData::Minus) => true,
        (TokenData::Star, TokenData::Star) => true,
        (TokenData::Slash, TokenData::Slash) => true,
        (TokenData::Bang, TokenData::Bang) => true,
        (TokenData::OpenBrace, TokenData::OpenBrace) => true,
        (TokenData::CloseBrace, TokenData::CloseBrace) => true,
        (TokenData::Semicolon, TokenData::Semicolon) => true,
        (TokenData::And, TokenData::And) => true,
        (TokenData::Or, TokenData::Or) => true,
        _ => false,
    }
}

/// Equality of token payloads, executed.
pub fn token_data_eq(a: &TokenData, b: &TokenData) -> (r: bool)
    ensures
        r == td_eq(*a, *b),
{
    match (a, b) {
        (TokenData::Number(x), TokenData::Number(y)) => *x == *y,
        (TokenData::Str(x), TokenData::Str(y)) => x.eq(y),
        (TokenData::Identifier(x), TokenData::Identifier(y)) => x.eq(y),
        (TokenData::Let, TokenData::Let) => true,
        (TokenData::If, TokenData::If) => true,
        (TokenData::Else, TokenData::Else) => true,
        (TokenData::True, TokenData::True) => true,
        (TokenData::False, TokenData::False) => true,
        (TokenData::Equals, TokenData::Equals) => true,
        (TokenData::EqualsEquals, TokenData::EqualsEquals) => true,
        (TokenData::BangEquals, TokenData::BangEquals) => true,
        (TokenData::Less, TokenData::Less) => true,
        (TokenData::LessEquals, TokenData::LessEquals) => true,
        (TokenData::Greater, TokenData::Greater) => true,
        (TokenData::GreaterEquals, TokenData::GreaterEquals) => true,
        (TokenData::Plus, TokenData::Plus) => true,
        (TokenData::Minus, TokenData::Minus) => true,
        (TokenData::Star, TokenData::Star) => true,
        (TokenData::Slash, TokenData::Slash) => true,
        (TokenData::Bang, TokenData::Bang) => true,
        (TokenData::OpenBrace, TokenData::OpenBrace) => true,
        (TokenData::CloseBrace, TokenData::CloseBrace) => true,
        (TokenData::Semicolon, TokenData::Semicolon) => true,
        (TokenData::And, TokenData::And) => true,
        (TokenData::Or, TokenData::Or) => true,
        _ => false,
    }
}

// ------------------------------------------------------------------
// The specification parser.
//
// Each function takes the remaining tokens and yields the parsed view and
// the tokens after it, or the first error. A successful sub-parse always
// consumes at least one token; where the termination measure cannot see
// that, a guard marked "never taken" keeps the recursion well-founded, and
// the executable parser's contracts show the guard never fires.
// ------------------------------------------------------------------

pub enum PRes<A> {
    Done(A, Seq<Token>),
    Fail(Error),
}

/// The error branch of a guard that a consuming sub-parse makes
/// unreachable.
pub open spec fn never_error() -> PRes<ExprV> {
    PRes::Fail(Error { pos: None, kind: ErrorKind::ExpectedPrimary })
}

pub open spec fn peek_pos(toks: Seq<Token>) -> Option<Pos> {
    if toks.len() > 0 {
        Some(toks[0].pos)
    } else {
        None
    }
}

pub open spec fn rest_of(toks: Seq<Token>) -> Seq<Token> {
    toks.subrange(1, toks.len() as int)
}

/// Whether the next token may begin a call argument: a terminal, `!`, or
/// `if`. Braces and binary tokens do not, so blocks and operator chains
/// around a call parse as expected.
pub open spec fn starts_argument_data(d: TokenData) -> bool {
    match d {
        TokenData::True => true,
        TokenData::False => true,
        TokenData::Number(_) => true,
        TokenData::Str(_) => true,
        TokenData::Identifier(_) => true,
        TokenData::Bang => true,
        TokenData::If => true,
        _ => false,
    }
}

pub open spec fn starts_argument(toks: Seq<Token>) -> bool {
    toks.len() > 0 && starts_argument_data(toks[0].data)
}

pub open spec fn expect_s(toks: Seq<Token>, want: TokenData) -> PRes<()> {
    if toks.len() > 0 && td_eq(toks[0].data, want) {
        PRes::Done((), rest_of(toks))
    } else {
        PRes::Fail(Error { pos: peek_pos(toks), kind: ErrorKind::ExpectedToken(want) })
    }
}

pub open spec fn parse_identifier_s(toks: Seq<Token>) -> PRes<Seq<char>> {
    if toks.len() == 0 {
        PRes::Fail(Error { pos: None, kind: ErrorKind::ExpectedIdentifier })
    } else {
        match toks[0].data {
            TokenData::Identifier(name) => PRes::Done(name@, rest_of(toks)),
            _ => PRes::Fail(Error { pos: Some(toks[0].pos), kind: ErrorKind::ExpectedIdentifier }),
        }
    }
}

/// Zero or more parameter patterns: identifiers up to the next non-identifier.
pub open spec fn parse_params_s(toks: Seq<Token>) -> (Seq<Seq<char>>, Seq<Token>)
    decreases toks.len(),
{
    if toks.len() > 0 && (toks[0].data matches TokenData::Identifier(_)) {
        let name = match toks[0].data {
            TokenData::Identifier(n) => n@,
            _ => Seq::empty(),
        };
        let (names, rest) = parse_params_s(rest_of(toks));
        (seq![name] + names, rest)
    } else {
        (Seq::empty(), toks)
    }
}

pub open spec fn parse_program_s(toks: Seq<Token>) -> PRes<Seq<StmtV>>
    decreases toks.len(), 12int,
{
    if toks.len() == 0 {
        PRes::Done(Seq::empty(), toks)
    } else {
        match parse_stmt_s(toks) {
            PRes::Done(s, rest) => if rest.len() < toks.len() {
                match parse_program_s(rest) {
                    PRes::Done(ss, rest2) => PRes::Done(seq![s] + ss, rest2),
                    PRes::Fail(e) => PRes::Fail(e),
                }
            } else {
                // never taken: a statement consumes at least one token
                PRes::Fail(Error { pos: None, kind: ErrorKind::ExpectedPrimary })
            },
            PRes::Fail(e) => PRes::Fail(e),
        }
    }
}

pub open spec fn parse_stmt_s(toks: Seq<Token>) -> PRes<StmtV>
    decreases toks.len(), 10int,
{
    if toks.len() > 0 && td_eq(toks[0].data, TokenData::Let) {
        match parse_binding_s(rest_of(toks)) {
            PRes::Done(b, rest) => match expect_s(rest, TokenData::Semicolon) {
                PRes::Done(_, rest2) => PRes::Done(StmtV::Let(b), rest2),
                PRes::Fail(e) => PRes::Fail(e),
            },
            PRes::Fail(e) => PRes::Fail(e),
        }
    } else {
        match parse_expr_s(toks) {
            PRes::Done(e, rest) => match expect_s(rest, TokenData::Semicolon) {
                PRes::Done(_, rest2) => PRes::Done(StmtV::Expr(e), rest2),
                PRes::Fail(e2) => PRes::Fail(e2),
            },
            PRes::Fail(e) => PRes::Fail(e),
        }
    }
}

/// A binding: a target pattern, parameter patterns when the binding defines
/// a function, `=`, and the value or body expression.
pub open spec fn parse_binding_s(toks: Seq<Token>) -> PRes<BindingV>
    decreases toks.len(), 10int,
{
    match parse_identifier_s(toks) {
        PRes::Done(name, rest) => {
            let (params, rest1) = parse_params_s(rest);
            match expect_s(rest1, TokenData::Equals) {
                PRes::Done(_, rest2) => if rest2.len() < toks.len() {
                    match parse_expr_s(rest2) {
                        PRes::Done(v, rest3) => PRes::Done(
                            BindingV {
                                pattern: name,
                                params: if params.len() > 0 {
                                    Some(params)
                                } else {
                                    None
                                },
                                value: v,
                            },
                            rest3,
                        ),
                        PRes::Fail(e) => PRes::Fail(e),
                    }
                } else {
                    // never taken: the identifier and `=` consume tokens
                    PRes::Fail(Error { pos: None, kind: ErrorKind::ExpectedPrimary })
                },
                PRes::Fail(e) => PRes::Fail(e),
            }
        },
        PRes::Fail(e) => PRes::Fail(e),
    }
}

pub open spec fn parse_expr_s(toks: Seq<Token>) -> PRes<ExprV>
    decreases toks.len(), 8int,
{
    parse_logic_or_s(toks)
}

pub open spec fn binary_op_of(d: TokenData, tier: int) -> Option<BinaryOp> {
    if tier == 7 {
        match d {
            TokenData::Or => Some(BinaryOp::Or),
            _ => None,
        }
    } else if tier == 6 {
        match d {
            TokenData::And => Some(BinaryOp::And),
            _ => None,
        }
    } else if tier == 5 {
        match d {
            TokenData::EqualsEquals => Some(BinaryOp::Eq),
            TokenData::BangEquals => Some(BinaryOp::NotEq),
            TokenData::Less => Some(BinaryOp::Less),
            TokenData::LessEquals => Some(BinaryOp::LessEq),
            TokenData::Greater => Some(BinaryOp::Greater),
            TokenData::GreaterEquals => Some(BinaryOp::GreaterEq),
            _ => None,
        }
    } else if tier == 4 {
        match d {
            TokenData::Minus => Some(BinaryOp::Subtract),
            TokenData::Plus => Some(BinaryOp::Add),
            _ => None,
        }
    } else {
        match d {
            TokenData::Slash => Some(BinaryOp::Divide),
            TokenData::Star => Some(BinaryOp::Multiply),
            _ => None,
        }
    }
}

pub open spec fn parse_logic_or_s(toks: Seq<Token>) -> PRes<ExprV>
    decreases toks.len(), 7int,
{
    match parse_logic_and_s(toks) {
        PRes::Done(lhs, rest) => if rest.len() < toks.len() {
            parse_tail_s(7, lhs, rest)
        } else {
            never_error()
        },
        PRes::Fail(e) => PRes::Fail(e),
    }
}

pub open spec fn parse_logic_and_s(toks: Seq<Token>) -> PRes<ExprV>
    decreases toks.len(), 6int,
{
    match parse_equality_s(toks) {
        PRes::Done(lhs, rest) => if rest.len() < toks.len() {
            parse_tail_s(6, lhs, rest)
        } else {
            never_error()
        },
        PRes::Fail(e) => PRes::Fail(e),
    }
}

pub open spec fn parse_equality_s(toks: Seq<Token>) -> PRes<ExprV>
    decreases toks.len(), 5int,
{
    match parse_term_s(toks) {
        PRes::Done(lhs, rest) => if rest.len() < toks.len() {
            parse_tail_s(5, lhs, rest)
        } else {
            never_error()
        },
        PRes::Fail(e) => PRes::Fail(e),
    }
}

pub open spec fn parse_term_s(toks: Seq<Token>) -> PRes<ExprV>
    decreases toks.len(), 4int,
{
    match parse_factor_s(toks) {
        PRes::Done(lhs, rest) => if rest.len() < toks.len() {
            parse_tail_s(4, lhs, rest)
        } else {
            never_error()
        },
        PRes::Fail(e) => PRes::Fail(e),
    }
}

pub open spec fn parse_factor_s(toks: Seq<Token>) -> PRes<ExprV>
    decreases toks.len(), 3int,
{
    match parse_unary_s(toks) {
        PRes::Done(lhs, rest) => if rest.len() < toks.len() {
            parse_tail_s(3, lhs, rest)
        } else {
            never_error()
        },
        PRes::Fail(e) => PRes::Fail(e),
    }
}

/// The left-associative fold shared by every binary tier: while the next
/// token is one of the tier's operators, parse the next-higher tier and
/// fold `lhs = Binary(lhs, op, rhs)`.
pub open spec fn parse_tail_s(tier: int, lhs: ExprV, toks: Seq<Token>) -> PRes<ExprV>
    decreases toks.len(), 9int,
{
    if toks.len() > 0 && binary_op_of(toks[0].data, tier) is Some {
        let op = match binary_op_of(toks[0].data, tier) {
            Some(op) => op,
            None => BinaryOp::Or,
        };
        match parse_operand_s(tier, rest_of(toks)) {
            PRes::Done(rhs, rest) => if rest.len() < toks.len() {
                parse_tail_s(tier, ExprV::Binary(op, Box::new(lhs), Box::new(rhs)), rest)
            } else {
                never_error()
            },
            PRes::Fail(e) => PRes::Fail(e),
        }
    } else {
        PRes::Done(lhs, toks)
    }
}

/// The next-higher tier's operand parser, by tier number.
pub open spec fn parse_operand_s(tier: int, toks: Seq<Token>) -> PRes<ExprV>
    decreases toks.len(), 8int,
{
    if tier == 7 {
        parse_logic_and_s(toks)
    } else if tier == 6 {
        parse_equality_s(toks)
    } else if tier == 5 {
        parse_term_s(toks)
    } else if tier == 4 {
        parse_factor_s(toks)
    } else {
        parse_unary_s(toks)
    }
}

pub open spec fn parse_unary_s(toks: Seq<Token>) -> PRes<ExprV>
    decreases toks.len(), 2int,
{
    if toks.len() > 0 && td_eq(toks[0].data, TokenData::Bang) {
        match parse_unary_s(rest_of(toks)) {
            PRes::Done(rhs, rest) => PRes::Done(
                ExprV::Unary(UnaryOp::Not, Box::new(rhs)),
                rest,
            ),
            PRes::Fail(e) => PRes::Fail(e),
        }
    } else if toks.len() > 0 && td_eq(toks[0].data, TokenData::Minus) {
        match parse_unary_s(rest_of(toks)) {
            PRes::Done(rhs, rest) => PRes::Done(
                ExprV::Unary(UnaryOp::Negate, Box::new(rhs)),
                rest,
            ),
            PRes::Fail(e) => PRes::Fail(e),
        }
    } else {
        parse_call_s(toks)
    }
}

pub open spec fn parse_call_s(toks: Seq<Token>) -> PRes<ExprV>
    decreases toks.len(), 1int,
{
    match parse_primary_s(toks) {
        PRes::Done(target, rest) => if rest.len() < toks.len() {
            match parse_args_s(rest) {
                PRes::Done(args, rest2) => if args.len() == 0 {
                    PRes::Done(target, rest2)
                } else {
                    PRes::Done(ExprV::Call(Box::new(target), args), rest2)
                },
                PRes::Fail(e) => PRes::Fail(e),
            }
        } else {
            never_error()
        },
        PRes::Fail(e) => PRes::Fail(e),
    }
}

/// The greedy argument list of a call: argument expressions up to the first
/// token that cannot begin one.
pub open spec fn parse_args_s(toks: Seq<Token>) -> PRes<Seq<ExprV>>
    decreases toks.len(), 9int,
{
    if starts_argument(toks) {
        match parse_expr_s(toks) {
            PRes::Done(e, rest) => if rest.len() < toks.len() {
                match parse_args_s(rest) {
                    PRes::Done(es, rest2) => PRes::Done(seq![e] + es, rest2),
                    PRes::Fail(e2) => PRes::Fail(e2),
                }
            } else {
                // never taken: an expression consumes at least one token
                PRes::Fail(Error { pos: None, kind: ErrorKind::ExpectedPrimary })
            },
            PRes::Fail(e) => PRes::Fail(e),
        }
    } else {
        PRes::Done(Seq::empty(), toks)
    }
}

pub open spec fn parse_primary_s(toks: Seq<Token>) -> PRes<ExprV>
    decreases toks.len(), 0int,
{
    if toks.len() == 0 {
        PRes::Fail(Error { pos: None, kind: ErrorKind::ExpectedPrimary })
    } else {
        match toks[0].data {
            TokenData::OpenBrace => match parse_block_items_s(rest_of(toks)) {
                PRes::Done(b, rest) => PRes::Done(ExprV::Block(b), rest),
                PRes::Fail(e) => PRes::Fail(e),
            },
            TokenData::If => match parse_if_s(rest_of(toks)) {
                PRes::Done(i, rest) => PRes::Done(ExprV::If(Box::new(i)), rest),
                PRes::Fail(e) => PRes::Fail(e),
            },
            TokenData::True => PRes::Done(ExprV::Literal(LiteralV::Bool(true)), rest_of(toks)),
            TokenData::False => PRes::Done(ExprV::Literal(LiteralV::Bool(false)), rest_of(toks)),
            TokenData::Number(n) => PRes::Done(ExprV::Literal(LiteralV::Num(n)), rest_of(toks)),
            TokenData::Str(s) => PRes::Done(ExprV::Literal(LiteralV::Str(s@)), rest_of(toks)),
            TokenData::Identifier(n) => PRes::Done(ExprV::Identifier(n@), rest_of(toks)),
            _ => PRes::Fail(Error { pos: Some(toks[0].pos), kind: ErrorKind::ExpectedPrimary }),
        }
    }
}

/// The inside of a block, after its `{`: statements, an optional trailing
/// result expression, and the closing `}`.
pub open spec fn parse_block_items_s(toks: Seq<Token>) -> PRes<BlockV>
    decreases toks.len(), 11int,
{
    if toks.len() == 0 {
        PRes::Fail(
            Error { pos: None, kind: ErrorKind::ExpectedToken(TokenData::CloseBrace) },
        )
    } else if td_eq(toks[0].data, TokenData::CloseBrace) {
        PRes::Done(BlockV { stmts: Seq::empty(), tail: None }, rest_of(toks))
    } else if td_eq(toks[0].data, TokenData::Let) {
        match parse_stmt_s(toks) {
            PRes::Done(s, rest) => if rest.len() < toks.len() {
                match parse_block_items_s(rest) {
                    PRes::Done(b, rest2) => PRes::Done(
                        BlockV { stmts: seq![s] + b.stmts, tail: b.tail },
                        rest2,
                    ),
                    PRes::Fail(e) => PRes::Fail(e),
                }
            } else {
                // never taken: a statement consumes at least one token
                PRes::Fail(Error { pos: None, kind: ErrorKind::ExpectedPrimary })
            },
            PRes::Fail(e) => PRes::Fail(e),
        }
    } else {
        match parse_expr_s(toks) {
            PRes::Done(e, rest) => if rest.len() > 0 && td_eq(
                rest[0].data,
                TokenData::Semicolon,
            ) {
                if rest.len() < toks.len() {
                    match parse_block_items_s(rest_of(rest)) {
                        PRes::Done(b, rest2) => PRes::Done(
                            BlockV { stmts: seq![StmtV::Expr(e)] + b.stmts, tail: b.tail },
                            rest2,
                        ),
                        PRes::Fail(e2) => PRes::Fail(e2),
                    }
                } else {
                    // never taken: an expression consumes at least one token
                    PRes::Fail(Error { pos: None, kind: ErrorKind::ExpectedPrimary })
                }
            } else {
                match expect_s(rest, TokenData::CloseBrace) {
                    PRes::Done(_, rest2) => PRes::Done(
                        BlockV { stmts: Seq::empty(), tail: Some(Box::new(e)) },
                        rest2,
                    ),
                    PRes::Fail(e2) => PRes::Fail(e2),
                }
            },
            PRes::Fail(e) => PRes::Fail(e),
        }
    }
}

/// An `if`, after its keyword: condition, then-block, and an optional
/// `else` that is either a block or a nested `if`.
pub open spec fn parse_if_s(toks: Seq<Token>) -> PRes<IfExprV>
    decreases toks.len(), 9int,
{
    match parse_expr_s(toks) {
        PRes::Done(cond, rest) => match expect_s(rest, TokenData::OpenBrace) {
            PRes::Done(_, rest1) => if rest1.len() < toks.len() {
                match parse_block_items_s(rest1) {
                    PRes::Done(then_b, rest2) => if rest2.len() < toks.len() && rest2.len() > 0
                        && td_eq(rest2[0].data, TokenData::Else) {
                        let rest3 = rest_of(rest2);
                        if rest3.len() > 0 && td_eq(rest3[0].data, TokenData::If) {
                            match parse_if_s(rest_of(rest3)) {
                                PRes::Done(n, rest4) => PRes::Done(
                                    IfExprV {
                                        condition: cond,
                                        then_block: then_b,
                                        else_block: Some(ElseV::ElseIf(Box::new(n))),
                                    },
                                    rest4,
                                ),
                                PRes::Fail(e) => PRes::Fail(e),
                            }
                        } else {
                            match expect_s(rest3, TokenData::OpenBrace) {
                                PRes::Done(_, rest4) => match parse_block_items_s(rest4) {
                                    PRes::Done(eb, rest5) => PRes::Done(
                                        IfExprV {
                                            condition: cond,
                                            then_block: then_b,
                                            else_block: Some(ElseV::Else(eb)),
                                        },
                                        rest5,
                                    ),
                                    PRes::Fail(e) => PRes::Fail(e),
                                },
                                PRes::Fail(e) => PRes::Fail(e),
                            }
                        }
                    } else if rest2.len() > 0 && td_eq(rest2[0].data, TokenData::Else)
                        && rest2.len() >= toks.len() {
                        // never taken: the condition and blocks consume tokens
                        PRes::Fail(Error { pos: None, kind: ErrorKind::ExpectedPrimary })
                    } else {
                        PRes::Done(
                            IfExprV { condition: cond, then_block: then_b, else_block: None },
                            rest2,
                        )
                    },
                    PRes::Fail(e) => PRes::Fail(e),
                }
            } else {
                // never taken: the condition and `{` consume tokens
                PRes::Fail(Error { pos: None, kind: ErrorKind::ExpectedPrimary })
            },
            PRes::Fail(e) => PRes::Fail(e),
        },
        PRes::Fail(e) => PRes::Fail(e),
    }
}


// ------------------------------------------------------------------
// Agreement between the executable parser and the specification.
// ------------------------------------------------------------------

pub open spec fn pres_expr(s: PRes<ExprV>, r: Parse<Expr>, rest: Seq<Token>) -> bool {
    match s {
        PRes::Done(v, srest) => match r {
            Result::Ok(x) => expr_v(x) == v && rest == srest,
            Result::Err(_) => false,
        },
        PRes::Fail(e) => match r {
            Result::Ok(_) => false,
            Result::Err(e2) => e2 == e,
        },
    }
}

pub open spec fn pres_stmt(s: PRes<StmtV>, r: Parse<Stmt>, rest: Seq<Token>) -> bool {
    match s {
        PRes::Done(v, srest) => match r {
            Result::Ok(x) => stmt_v(x) == v && rest == srest,
            Result::Err(_) => false,
        },
        PRes::Fail(e) => match r {
            Result::Ok(_) => false,
            Result::Err(e2) => e2 == e,
        },
    }
}

pub open spec fn pres_binding(s: PRes<BindingV>, r: Parse<Binding>, rest: Seq<Token>) -> bool {
    match s {
        PRes::Done(v, srest) => match r {
            Result::Ok(x) => crate::ast::binding_v(x) == v && rest == srest,
            Result::Err(_) => false,
        },
        PRes::Fail(e) => match r {
            Result::Ok(_) => false,
            Result::Err(e2) => e2 == e,
        },
    }
}

pub open spec fn pres_block(s: PRes<BlockV>, r: Parse<Block>, rest: Seq<Token>) -> bool {
    match s {
        PRes::Done(v, srest) => match r {
            Result::Ok(x) => crate::ast::block_v(x) == v && rest == srest,
            Result::Err(_) => false,
        },
        PRes::Fail(e) => match r {
            Result::Ok(_) => false,
            Result::Err(e2) => e2 == e,
        },
    }
}

pub open spec fn pres_if(s: PRes<IfExprV>, r: Parse<IfExpr>, rest: Seq<Token>) -> bool {
    match s {
        PRes::Done(v, srest) => match r {
            Result::Ok(x) => crate::ast::if_v(x) == v && rest == srest,
            Result::Err(_) => false,
        },
        PRes::Fail(e) => match r {
            Result::Ok(_) => false,
            Result::Err(e2) => e2 == e,
        },
    }
}

pub open spec fn pres_ident(s: PRes<Seq<char>>, r: Parse<Identifier>, rest: Seq<Token>) -> bool {
    match s {
        PRes::Done(v, srest) => match r {
            Result::Ok(x) => x.name@ == v && rest == srest,
            Result::Err(_) => false,
        },
        PRes::Fail(e) => match r {
            Result::Ok(_) => false,
            Result::Err(e2) => e2 == e,
        },
    }
}

pub open spec fn pres_unit(s: PRes<()>, r: Parse<()>, rest: Seq<Token>) -> bool {
    match s {
        PRes::Done(_, srest) => match r {
            Result::Ok(_) => rest == srest,
            Result::Err(_) => false,
        },
        PRes::Fail(e) => match r {
            Result::Ok(_) => false,
            Result::Err(e2) => e2 == e,
        },
    }
}

pub open spec fn pres_args(s: PRes<Seq<ExprV>>, r: Parse<Vec<Expr>>, rest: Seq<Token>) -> bool {
    match s {
        PRes::Done(v, srest) => match r {
            Result::Ok(x) => exprs_v(x@) == v && rest == srest,
            Result::Err(_) => false,
        },
        PRes::Fail(e) => match r {
            Result::Ok(_) => false,
            Result::Err(e2) => e2 == e,
        },
    }
}

pub open spec fn pres_program(s: PRes<Seq<StmtV>>, r: Parse<Program>, rest: Seq<Token>) -> bool {
    match s {
        PRes::Done(v, srest) => match r {
            Result::Ok(x) => stmts_v(x@) == v && rest == srest,
            Result::Err(_) => false,
        },
        PRes::Fail(e) => match r {
            Result::Ok(_) => false,
            Result::Err(e2) => e2 == e,
        },
    }
}

// ------------------------------------------------------------------
// The executable parser.
// ------------------------------------------------------------------

/// Parse a whole token stream into a program. The result — tree, error and
/// error position alike — is exactly that of the specification parser.
pub fn parse(tokens: Vec<Token>) -> (r: Parse<Program>)
    ensures
        match parse_program_s(tokens@) {
            PRes::Done(ss, _) => match r {
                Result::Ok(p) => stmts_v(p@) == ss,
                Result::Err(_) => false,
            },
            PRes::Fail(e) => match r {
                Result::Ok(_) => false,
                Result::Err(e2) => e2 == e,
            },
        },
{
    let mut parser = Parser::new(tokens);
    proof {
        assert(parser.rest() =~= parser.toks());
    }
    parser.parse_program()
}

struct Parser {
    tokens: Vec<Token>,
    pos: usize,
}

impl Parser {
    spec fn wf(&self) -> bool {
        self.pos <= self.tokens@.len()
    }

    spec fn toks(&self) -> Seq<Token> {
        self.tokens@
    }

    spec fn rest(&self) -> Seq<Token> {
        self.tokens@.subrange(self.pos as int, self.tokens@.len() as int)
    }

    spec fn remaining(&self) -> int {
        self.tokens@.len() - self.pos
    }

    fn new(tokens: Vec<Token>) -> (r: Self)
        ensures
            r.wf(),
            r.toks() == tokens@,
            r.pos == 0,
    {
        Parser { tokens, pos: 0 }
    }

    /// Whether the next token matches, without consuming it.
    fn check(&self, expected_type: &TokenData) -> (r: bool)
        requires
            self.wf(),
        ensures
            r == (self.rest().len() > 0 && td_eq(self.rest()[0].data, *expected_type)),
    {
        if self.pos < self.tokens.len() {
            token_data_eq(&self.tokens[self.pos].data, expected_type)
        } else {
            false
        }
    }

    /// Consume the next token when it matches.
    fn matches(&mut self, expected_type: &TokenData) -> (r: bool)
        requires
            old(self).wf(),
        ensures
            final(self).wf(),
            final(self).toks() == old(self).toks(),
            r == (old(self).rest().len() > 0 && td_eq(old(self).rest()[0].data, *expected_type)),
            r ==> final(self).pos == old(self).pos + 1 && final(self).rest() == rest_of(
                old(self).rest(),
            ),
            !r ==> *final(self) == *old(self),
    {
        if self.pos < self.tokens.len() && token_data_eq(&self.tokens[self.pos].data, expected_type) {
            self.pos = self.pos + 1;
            proof {
                assert(self.rest() =~= rest_of(old(self).rest()));
            }
            true
        } else {
            false
        }
    }

    /// Consume the next token or fail with the token that was wanted.
    fn expect(&mut self, expected_type: TokenData) -> (r: Parse<()>)
        requires
            old(self).wf(),
        ensures
            final(self).wf(),
            final(self).toks() == old(self).toks(),
            pres_unit(expect_s(old(self).rest(), expected_type), r, final(self).rest()),
            r is Ok ==> final(self).pos == old(self).pos + 1,
            r is Err ==> *final(self) == *old(self),
    {
        if self.pos < self.tokens.len() && token_data_eq(&self.tokens[self.pos].data, &expected_type) {
            self.pos = self.pos + 1;
            proof {
                assert(self.rest() =~= rest_of(old(self).rest()));
            }
            Result::Ok(())
        } else {
            let p = if self.pos < self.tokens.len() {
                Some(self.tokens[self.pos].pos)
            } else {
                None
            };
            Result::Err(Error { pos: p, kind: ErrorKind::ExpectedToken(expected_type) })
        }
    }

    fn parse_program(&mut self) -> (r: Parse<Program>)
        requires
            old(self).wf(),
        ensures
            final(self).wf(),
            final(self).toks() == old(self).toks(),
            pres_program(parse_program_s(old(self).rest()), r, final(self).rest()),
        decreases self.remaining(), 12int,
    {
        if self.pos >= self.tokens.len() {
            let empty: Vec<Stmt> = Vec::new();
            proof {
                assert(stmts_v(empty@) =~= Seq::<StmtV>::empty());
            }
            return Result::Ok(empty);
        }
        let s = match self.parse_stmt() {
            Result::Ok(s) => s,
            Result::Err(e) => {
                return Result::Err(e);
            },
        };
        let mut rest_prog = match self.parse_program() {
            Result::Ok(p) => p,
            Result::Err(e) => {
                return Result::Err(e);
            },
        };
        let ghost snapshot = rest_prog@;
        rest_prog.insert(0, s);
        proof {
            assert(stmts_v(rest_prog@) =~= seq![stmt_v(s)] + stmts_v(snapshot));
        }
        Result::Ok(rest_prog)
    }

    fn parse_stmt(&mut self) -> (r: Parse<Stmt>)
        requires
            old(self).wf(),
        ensures
            final(self).wf(),
            final(self).toks() == old(self).toks(),
            pres_stmt(parse_stmt_s(old(self).rest()), r, final(self).rest()),
            r is Ok ==> final(self).pos > old(self).pos,
        decreases self.remaining(), 10int,
    {
        if self.matches(&TokenData::Let) {
            let binding = match self.parse_binding() {
                Result::Ok(b) => b,
                Result::Err(e) => {
                    return Result::Err(e);
                },
            };
            match self.expect(TokenData::Semicolon) {
                Result::Ok(_) => {},
                Result::Err(e) => {
                    return Result::Err(e);
                },
            }
            Result::Ok(Stmt::Let(binding))
        } else {
            let expr = match self.parse_expr() {
                Result::Ok(e) => e,
                Result::Err(e) => {
                    return Result::Err(e);
                },
            };
            match self.expect(TokenData::Semicolon) {
                Result::Ok(_) => {},
                Result::Err(e) => {
                    return Result::Err(e);
                },
            }
            Result::Ok(Stmt::Expr(expr))
        }
    }

    fn parse_pattern(&mut self) -> (r: Parse<Pattern>)
        requires
            old(self).wf(),
        ensures
            final(self).wf(),
            final(self).toks() == old(self).toks(),
            match parse_identifier_s(old(self).rest()) {
                PRes::Done(n, srest) => match r {
                    Result::Ok(p) => crate::ast::pattern_v(p) == n && final(self).rest() == srest,
                    Result::Err(_) => false,
                },
                PRes::Fail(e) => match r {
                    Result::Ok(_) => false,
                    Result::Err(e2) => e2 == e,
                },
            },
            r is Ok ==> final(self).pos > old(self).pos,
    {
        match self.parse_identifier() {
            Result::Ok(identifier) => Result::Ok(Pattern(identifier)),
            Result::Err(e) => Result::Err(e),
        }
    }

    #[verifier::rlimit(100)]
    fn parse_binding(&mut self) -> (r: Parse<Binding>)
        requires
            old(self).wf(),
        ensures
            final(self).wf(),
            final(self).toks() == old(self).toks(),
            pres_binding(parse_binding_s(old(self).rest()), r, final(self).rest()),
            r is Ok ==> final(self).pos > old(self).pos,
        decreases self.remaining(), 10int,
    {
        let pattern = match self.parse_pattern() {
            Result::Ok(p) => p,
            Result::Err(e) => {
                return Result::Err(e);
            },
        };
        let params = self.parse_params();
        match self.expect(TokenData::Equals) {
            Result::Ok(_) => {},
            Result::Err(e) => {
                return Result::Err(e);
            },
        }
        let value = match self.parse_expr() {
            Result::Ok(v) => v,
            Result::Err(e) => {
                return Result::Err(e);
            },
        };
        let arguments = if params.len() > 0 {
            Some(params)
        } else {
            None
        };
        Result::Ok(Binding { pattern, arguments, value })
    }

    fn parse_identifier(&mut self) -> (r: Parse<Identifier>)
        requires
            old(self).wf(),
        ensures
            final(self).wf(),
            final(self).toks() == old(self).toks(),
            pres_ident(parse_identifier_s(old(self).rest()), r, final(self).rest()),
            r is Ok ==> final(self).pos > old(self).pos,
    {
        if self.pos >= self.tokens.len() {
            return Result::Err(Error { pos: None, kind: ErrorKind::ExpectedIdentifier });
        }
        match &self.tokens[self.pos].data {
            TokenData::Identifier(name) => {
                let name = name.clone();
                self.pos = self.pos + 1;
                proof {
                    assert(self.rest() =~= rest_of(old(self).rest()));
                }
                Result::Ok(Identifier { name, stack_index: None })
            },
            _ => {
                let p = self.tokens[self.pos].pos;
                Result::Err(Error { pos: Some(p), kind: ErrorKind::ExpectedIdentifier })
            },
        }
    }

    fn parse_params(&mut self) -> (r: Vec<Pattern>)
        requires
            old(self).wf(),
        ensures
            final(self).wf(),
            final(self).toks() == old(self).toks(),
            ({
                let (names, srest) = parse_params_s(old(self).rest());
                crate::ast::patterns_v(r@) == names && final(self).rest() == srest
            }),
            final(self).pos >= old(self).pos,
        decreases self.remaining(),
    {
        let is_ident = self.pos < self.tokens.len() && (matches!(
            &self.tokens[self.pos].data,
            TokenData::Identifier(_),
        ));
        if !is_ident {
            let empty: Vec<Pattern> = Vec::new();
            proof {
                assert(crate::ast::patterns_v(empty@) =~= Seq::<Seq<char>>::empty());
            }
            return empty;
        }
        let identifier = match self.parse_identifier() {
            Result::Ok(i) => i,
            Result::Err(_) => {
                proof {
                    assert(false);
                }
                Identifier { name: String::new(), stack_index: None }
            },
        };
        let mut rest_params = self.parse_params();
        let ghost snapshot = rest_params@;
        rest_params.insert(0, Pattern(identifier));
        proof {
            assert(crate::ast::patterns_v(rest_params@) =~= seq![identifier.name@]
                + crate::ast::patterns_v(snapshot));
        }
        rest_params
    }

    fn parse_expr(&mut self) -> (r: Parse<Expr>)
        requires
            old(self).wf(),
        ensures
            final(self).wf(),
            final(self).toks() == old(self).toks(),
            pres_expr(parse_expr_s(old(self).rest()), r, final(self).rest()),
            r is Ok ==> final(self).pos > old(self).pos,
        decreases self.remaining(), 8int,
    {
        self.parse_logic_or()
    }

    fn parse_logic_or(&mut self) -> (r: Parse<Expr>)
        requires
            old(self).wf(),
        ensures
            final(self).wf(),
            final(self).toks() == old(self).toks(),
            pres_expr(parse_logic_or_s(old(self).rest()), r, final(self).rest()),
            r is Ok ==> final(self).pos > old(self).pos,
        decreases self.remaining(), 7int,
    {
        let lhs = match self.parse_logic_and() {
            Result::Ok(e) => e,
            Result::Err(e) => {
                return Result::Err(e);
            },
        };
        self.parse_tail(7, lhs)
    }

    fn parse_logic_and(&mut self) -> (r: Parse<Expr>)
        requires
            old(self).wf(),
        ensures
            final(self).wf(),
            final(self).toks() == old(self).toks(),
            pres_expr(parse_logic_and_s(old(self).rest()), r, final(self).rest()),
            r is Ok ==> final(self).pos > old(self).pos,
        decreases self.remaining(), 6int,
    {
        let lhs = match self.parse_equality() {
            Result::Ok(e) => e,
            Result::Err(e) => {
                return Result::Err(e);
            },
        };
        self.parse_tail(6, lhs)
    }

    fn parse_equality(&mut self) -> (r: Parse<Expr>)
        requires
            old(self).wf(),
        ensures
            final(self).wf(),
            final(self).toks() == old(self).toks(),
            pres_expr(parse_equality_s(old(self).rest()), r, final(self).rest()),
            r is Ok ==> final(self).pos > old(self).pos,
        decreases self.remaining(), 5int,
    {
        let lhs = match self.parse_term() {
            Result::Ok(e) => e,
            Result::Err(e) => {
                return Result::Err(e);
            },
        };
        self.parse_tail(5, lhs)
    }

    fn parse_term(&mut self) -> (r: Parse<Expr>)
        requires
            old(self).wf(),
        ensures
            final(self).wf(),
            final(self).toks() == old(self).toks(),
            pres_expr(parse_term_s(old(self).rest()), r, final(self).rest()),
            r is Ok ==> final(self).pos > old(self).pos,
        decreases self.remaining(), 4int,
    {
        let lhs = match self.parse_factor() {
            Result::Ok(e) => e,
            Result::Err(e) => {
                return Result::Err(e);
            },
        };
        self.parse_tail(4, lhs)
    }

    fn parse_factor(&mut self) -> (r: Parse<Expr>)
        requires
            old(self).wf(),
        ensures
            final(self).wf(),
            final(self).toks() == old(self).toks(),
            pres_expr(parse_factor_s(old(self).rest()), r, final(self).rest()),
            r is Ok ==> final(self).pos > old(self).pos,
        decreases self.remaining(), 3int,
    {
        let lhs = match self.parse_unary() {
            Result::Ok(e) => e,
            Result::Err(e) => {
                return Result::Err(e);
            },
        };
        self.parse_tail(3, lhs)
    }

    /// The shared left-associative fold of a binary tier.
    fn parse_tail(&mut self, tier: usize, lhs: Expr) -> (r: Parse<Expr>)
        requires
            old(self).wf(),
            3 <= tier <= 7,
        ensures
            final(self).wf(),
            final(self).toks() == old(self).toks(),
            pres_expr(parse_tail_s(tier as int, expr_v(lhs), old(self).rest()), r, final(self).rest()),
            r is Ok ==> final(self).pos >= old(self).pos,
        decreases self.remaining(), 9int,
    {
        let op = if self.pos < self.tokens.len() {
            binary_op_token(&self.tokens[self.pos].data, tier)
        } else {
            None
        };
        match op {
            Some(op) => {
                self.pos = self.pos + 1;
                proof {
                    assert(self.rest() =~= rest_of(old(self).rest()));
                }
                let rhs = match self.parse_operand(tier) {
                    Result::Ok(e) => e,
                    Result::Err(e) => {
                        return Result::Err(e);
                    },
                };
                self.parse_tail(tier, Expr::Binary(Box::new(BinaryExpr { lhs, op, rhs })))
            },
            None => Result::Ok(lhs),
        }
    }

    /// The next-higher tier's operand parser, by tier number.
    fn parse_operand(&mut self, tier: usize) -> (r: Parse<Expr>)
        requires
            old(self).wf(),
            3 <= tier <= 7,
        ensures
            final(self).wf(),
            final(self).toks() == old(self).toks(),
            pres_expr(parse_operand_s(tier as int, old(self).rest()), r, final(self).rest()),
            r is Ok ==> final(self).pos > old(self).pos,
        decreases self.remaining(), 8int,
    {
        if tier == 7 {
            self.parse_logic_and()
        } else if tier == 6 {
            self.parse_equality()
        } else if tier == 5 {
            self.parse_term()
        } else if tier == 4 {
            self.parse_factor()
        } else {
            self.parse_unary()
        }
    }

    fn parse_unary(&mut self) -> (r: Parse<Expr>)
        requires
            old(self).wf(),
        ensures
            final(self).wf(),
            final(self).toks() == old(self).toks(),
            pres_expr(parse_unary_s(old(self).rest()), r, final(self).rest()),
            r is Ok ==> final(self).pos > old(self).pos,
        decreases self.remaining(), 2int,
    {
        if self.matches(&TokenData::Bang) {
            let rhs = match self.parse_unary() {
                Result::Ok(e) => e,
                Result::Err(e) => {
                    return Result::Err(e);
                },
            };
            Result::Ok(Expr::Unary(Box::new(UnaryExpr { op: UnaryOp::Not, rhs })))
        } else if self.matches(&TokenData::Minus) {
            let rhs = match self.parse_unary() {
                Result::Ok(e) => e,
                Result::Err(e) => {
                    return Result::Err(e);
                },
            };
            Result::Ok(Expr::Unary(Box::new(UnaryExpr { op: UnaryOp::Negate, rhs })))
        } else {
            self.parse_call()
        }
    }

    fn parse_call(&mut self) -> (r: Parse<Expr>)
        requires
            old(self).wf(),
        ensures
            final(self).wf(),
            final(self).toks() == old(self).toks(),
            pres_expr(parse_call_s(old(self).rest()), r, final(self).rest()),
            r is Ok ==> final(self).pos > old(self).pos,
        decreases self.remaining(), 1int,
    {
        let target = match self.parse_primary() {
            Result::Ok(e) => e,
            Result::Err(e) => {
                return Result::Err(e);
            },
        };
        let arguments = match self.parse_args() {
            Result::Ok(a) => a,
            Result::Err(e) => {
                return Result::Err(e);
            },
        };
        if arguments.len() == 0 {
            Result::Ok(target)
        } else {
            Result::Ok(Expr::Call(Call { target: Box::new(target), arguments }))
        }
    }

    /// The greedy argument list of a call.
    fn parse_args(&mut self) -> (r: Parse<Vec<Expr>>)
        requires
            old(self).wf(),
        ensures
            final(self).wf(),
            final(self).toks() == old(self).toks(),
            pres_args(parse_args_s(old(self).rest()), r, final(self).rest()),
            r is Ok ==> final(self).pos >= old(self).pos,
        decreases self.remaining(), 9int,
    {
        let can = self.pos < self.tokens.len() && starts_argument_token(
            &self.tokens[self.pos].data,
        );
        if !can {
            let empty: Vec<Expr> = Vec::new();
            proof {
                assert(exprs_v(empty@) =~= Seq::<ExprV>::empty());
            }
            return Result::Ok(empty);
        }
        let e = match self.parse_expr() {
            Result::Ok(e) => e,
            Result::Err(e) => {
                return Result::Err(e);
            },
        };
        let mut rest_args = match self.parse_args() {
            Result::Ok(a) => a,
            Result::Err(e) => {
                return Result::Err(e);
            },
        };
        let ghost snapshot = rest_args@;
        rest_args.insert(0, e);
        proof {
            assert(exprs_v(rest_args@) =~= seq![expr_v(e)] + exprs_v(snapshot));
        }
        Result::Ok(rest_args)
    }

    fn parse_primary(&mut self) -> (r: Parse<Expr>)
        requires
            old(self).wf(),
        ensures
            final(self).wf(),
            final(self).toks() == old(self).toks(),
            pres_expr(parse_primary_s(old(self).rest()), r, final(self).rest()),
            r is Ok ==> final(self).pos > old(self).pos,
        decreases self.remaining(), 0int,
    {
        if self.pos >= self.tokens.len() {
            return Result::Err(Error { pos: None, kind: ErrorKind::ExpectedPrimary });
        }
        match &self.tokens[self.pos].data {
            TokenData::OpenBrace => {
                self.pos = self.pos + 1;
                proof {
                    assert(self.rest() =~= rest_of(old(self).rest()));
                }
                match self.parse_block_items() {
                    Result::Ok(b) => Result::Ok(Expr::Block(b)),
                    Result::Err(e) => Result::Err(e),
                }
            },
            TokenData::If => {
                self.pos = self.pos + 1;
                proof {
                    assert(self.rest() =~= rest_of(old(self).rest()));
                }
                match self.parse_if_expr() {
                    Result::Ok(i) => Result::Ok(Expr::If(Box::new(i))),
                    Result::Err(e) => Result::Err(e),
                }
            },
            TokenData::True => {
                self.pos = self.pos + 1;
                proof {
                    assert(self.rest() =~= rest_of(old(self).rest()));
                }
                Result::Ok(Expr::Literal(Literal::Bool(true)))
            },
            TokenData::False => {
                self.pos = self.pos + 1;
                proof {
                    assert(self.rest() =~= rest_of(old(self).rest()));
                }
                Result::Ok(Expr::Literal(Literal::Bool(false)))
            },
            TokenData::Number(n) => {
                let n = *n;
                self.pos = self.pos + 1;
                proof {
                    assert(self.rest() =~= rest_of(old(self).rest()));
                }
                Result::Ok(Expr::Literal(Literal::Number(n)))
            },
            TokenData::Str(s) => {
                let s = s.clone();
                self.pos = self.pos + 1;
                proof {
                    assert(self.rest() =~= rest_of(old(self).rest()));
                }
                Result::Ok(Expr::Literal(Literal::Str(s)))
            },
            TokenData::Identifier(name) => {
                let name = name.clone();
                self.pos = self.pos + 1;
                proof {
                    assert(self.rest() =~= rest_of(old(self).rest()));
                }
                Result::Ok(Expr::Identifier(Identifier { name, stack_index: None }))
            },
            _ => {
                let p = self.tokens[self.pos].pos;
                Result::Err(Error { pos: Some(p), kind: ErrorKind::ExpectedPrimary })
            },
        }
    }

    /// The inside of a block, after its `{`.
    fn parse_block_items(&mut self) -> (r: Parse<Block>)
        requires
            old(self).wf(),
        ensures
            final(self).wf(),
            final(self).toks() == old(self).toks(),
            pres_block(parse_block_items_s(old(self).rest()), r, final(self).rest()),
            r is Ok ==> final(self).pos > old(self).pos,
        decreases self.remaining(), 11int,
    {
        if self.pos >= self.tokens.len() {
            return Result::Err(
                Error { pos: None, kind: ErrorKind::ExpectedToken(TokenData::CloseBrace) },
            );
        }
        if self.matches(&TokenData::CloseBrace) {
            let empty: Vec<Stmt> = Vec::new();
            proof {
                assert(stmts_v(empty@) =~= Seq::<StmtV>::empty());
            }
            return Result::Ok(Block(empty, None));
        }
        if self.check(&TokenData::Let) {
            let s = match self.parse_stmt() {
                Result::Ok(s) => s,
                Result::Err(e) => {
                    return Result::Err(e);
                },
            };
            let b = match self.parse_block_items() {
                Result::Ok(b) => b,
                Result::Err(e) => {
                    return Result::Err(e);
                },
            };
            let Block(mut stmts, tail) = b;
            let ghost snapshot = stmts@;
            stmts.insert(0, s);
            proof {
                assert(stmts_v(stmts@) =~= seq![stmt_v(s)] + stmts_v(snapshot));
            }
            Result::Ok(Block(stmts, tail))
        } else {
            let e = match self.parse_expr() {
                Result::Ok(e) => e,
                Result::Err(e) => {
                    return Result::Err(e);
                },
            };
            if self.matches(&TokenData::Semicolon) {
                let b = match self.parse_block_items() {
                    Result::Ok(b) => b,
                    Result::Err(e2) => {
                        return Result::Err(e2);
                    },
                };
                let Block(mut stmts, tail) = b;
                let ghost snapshot = stmts@;
                stmts.insert(0, Stmt::Expr(e));
                proof {
                    assert(stmts_v(stmts@) =~= seq![stmt_v(Stmt::Expr(e))] + stmts_v(snapshot));
                }
                Result::Ok(Block(stmts, tail))
            } else {
                match self.expect(TokenData::CloseBrace) {
                    Result::Ok(_) => {
                        let empty: Vec<Stmt> = Vec::new();
                        proof {
                            assert(stmts_v(empty@) =~= Seq::<StmtV>::empty());
                        }
                        Result::Ok(Block(empty, Some(Box::new(e))))
                    },
                    Result::Err(e2) => Result::Err(e2),
                }
            }
        }
    }

    /// An `if`, after its keyword.
    fn parse_if_expr(&mut self) -> (r: Parse<IfExpr>)
        requires
            old(self).wf(),
        ensures
            final(self).wf(),
            final(self).toks() == old(self).toks(),
            pres_if(parse_if_s(old(self).rest()), r, final(self).rest()),
            r is Ok ==> final(self).pos > old(self).pos,
        decreases self.remaining(), 9int,
    {
        let condition = match self.parse_expr() {
            Result::Ok(e) => e,
            Result::Err(e) => {
                return Result::Err(e);
            },
        };
        match self.expect(TokenData::OpenBrace) {
            Result::Ok(_) => {},
            Result::Err(e) => {
                return Result::Err(e);
            },
        }
        let then_block = match self.parse_block_items() {
            Result::Ok(b) => b,
            Result::Err(e) => {
                return Result::Err(e);
            },
        };
        let else_block = if self.matches(&TokenData::Else) {
            if self.matches(&TokenData::If) {
                let n = match self.parse_if_expr() {
                    Result::Ok(i) => i,
                    Result::Err(e) => {
                        return Result::Err(e);
                    },
                };
                Some(ElseBlock::ElseIf(Box::new(n)))
            } else {
                match self.expect(TokenData::OpenBrace) {
                    Result::Ok(_) => {},
                    Result::Err(e) => {
                        return Result::Err(e);
                    },
                }
                let b = match self.parse_block_items() {
                    Result::Ok(b) => b,
                    Result::Err(e) => {
                        return Result::Err(e);
                    },
                };
                Some(ElseBlock::Else(b))
            }
        } else {
            None
        };
        Result::Ok(IfExpr { condition, then_block, else_block })
    }
}

/// The binary operator a token denotes at the given precedence tier.
fn binary_op_token(d: &TokenData, tier: usize) -> (r: Option<BinaryOp>)
    requires
        3 <= tier <= 7,
    ensures
        r == binary_op_of(*d, tier as int),
{
    if tier == 7 {
        match d {
            TokenData::Or => Some(BinaryOp::Or),
            _ => None,
        }
    } else if tier == 6 {
        match d {
            TokenData::And => Some(BinaryOp::And),
            _ => None,
        }
    } else if tier == 5 {
        match d {
            TokenData::EqualsEquals => Some(BinaryOp::Eq),
            TokenData::BangEquals => Some(BinaryOp::NotEq),
            TokenData::Less => Some(BinaryOp::Less),
            TokenData::LessEquals => Some(BinaryOp::LessEq),
            TokenData::Greater => Some(BinaryOp::Greater),
            TokenData::GreaterEquals => Some(BinaryOp::GreaterEq),
            _ => None,
        }
    } else if tier == 4 {
        match d {
            TokenData::Minus => Some(BinaryOp::Subtract),
            TokenData::Plus => Some(BinaryOp::Add),
            _ => None,
        }
    } else {
        match d {
            TokenData::Slash => Some(BinaryOp::Divide),
            TokenData::Star => Some(BinaryOp::Multiply),
            _ => None,
        }
    }
}

/// Whether a token may begin a call argument, executed.
fn starts_argument_token(d: &TokenData) -> (r: bool)
    ensures
        r == starts_argument_data(*d),
{
    match d {
        TokenData::True => true,
        TokenData::False => true,
        TokenData::Number(_) => true,
        TokenData::Str(_) => true,
        TokenData::Identifier(_) => true,
        TokenData::Bang => true,
        TokenData::If => true,
        _ => false,
    }
}

} // verus!
