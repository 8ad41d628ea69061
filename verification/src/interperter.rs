//! The tree-walking evaluator: the runtime value system, the error taxonomy,
//! and a structural recursion over the syntax tree, threading one flat
//! mutable environment.
//!
//! The meaning of every construct is a specification-level big-step
//! evaluator (`eval_expr` and friends) over the tree views, bounded by a
//! recursion budget that only user-function calls consume. The executable
//! evaluator is proved to agree with it outcome for outcome; a call into a
//! native function is the one point the specification leaves open.
use vstd::prelude::*;

pub use crate::env;

use crate::ast::{
    binding_v, block_v, expr_v, exprs_v, if_v, lit_v, pattern_v, patterns_v, stmt_v, stmts_v,
    copy_patterns, BinaryExpr, Binding, BindingV, BinaryOp, Block, BlockV, Call, ElseBlock, ElseV, Expr, ExprV,
    IfExpr, IfExprV, Literal, LiteralV, Pattern, Program, Stmt, StmtV, UnaryOp,
};
use crate::env::Environment;
use crate::num::{
    add_bits, div_bits, eq_bits, exec_add_bits, exec_div_bits, exec_mul_bits, exec_num_str,
    exec_sub_bits, ieee_eq, ieee_le, ieee_lt, le_bits, lt_bits, mul_bits, neg_bits, negate_bits,
    num_str, str_concat, sub_bits,
};

verus! {

/// The mathematical model of the environment: names to value views.
pub type EnvV = Map<Seq<char>, ValueV>;

#[derive(Debug)]
pub enum Value {
    Bool(bool),
    /// The IEEE-754 double-precision bit pattern of the number.
    Num(u64),
    Str(String),
    Func(Func),
    List(Vec<Value>),
    Nil,
}

#[derive(Debug)]
pub enum Func {
    User(UserFunc),
    /// A handle into the host's native-function registry.
    Native(u64),
}

#[derive(Debug)]
pub struct UserFunc {
    pub arguments: Vec<Pattern>,
    pub body: Expr,
}

/// The host's native-function registry: the evaluator invokes a registered
/// callable by its handle with the evaluated argument list. Nothing is
/// assumed of the outcome: every contract in this crate holds whatever a
/// native call returns or does to the registry's own state.
pub trait NativeFunc {
    fn call(&mut self, id: u64, arguments: Vec<Value>) -> Result<Value, Error>;
}

// ------------------------------------------------------------------
// Views of runtime values.
// ------------------------------------------------------------------

pub enum ValueV {
    Bool(bool),
    Num(u64),
    Str(Seq<char>),
    Func(FuncV),
    List(Seq<ValueV>),
    Nil,
}

pub enum FuncV {
    User(UserFuncV),
    Native(u64),
}

pub struct UserFuncV {
    pub params: Seq<Seq<char>>,
    pub body: ExprV,
}

pub open spec fn val_v(v: Value) -> ValueV
    decreases v,
{
    match v {
        Value::Bool(b) => ValueV::Bool(b),
        Value::Num(n) => ValueV::Num(n),
        Value::Str(s) => ValueV::Str(s@),
        Value::Func(f) => ValueV::Func(func_v(f)),
        Value::List(l) => ValueV::List(vals_v(l@)),
        Value::Nil => ValueV::Nil,
    }
}

pub open spec fn vals_v(vs: Seq<Value>) -> Seq<ValueV>
    decreases vs,
{
    Seq::new(
        vs.len(),
        |i: int|
            if 0 <= i < vs.len() {
                val_v(vs[i])
            } else {
                // outside the sequence; never reached
                ValueV::Nil
            },
    )
}

pub open spec fn func_v(f: Func) -> FuncV
    decreases f,
{
    match f {
        Func::User(u) => FuncV::User(
            UserFuncV { params: patterns_v(u.arguments@), body: expr_v(u.body) },
        ),
        Func::Native(id) => FuncV::Native(id),
    }
}

/// The value a literal denotes.
pub open spec fn lit_value(l: LiteralV) -> ValueV {
    match l {
        LiteralV::Bool(b) => ValueV::Bool(b),
        LiteralV::Num(n) => ValueV::Num(n),
        LiteralV::Str(s) => ValueV::Str(s),
        LiteralV::Nil => ValueV::Nil,
    }
}

/// Truthiness: `false` and `Nil` are falsy; every other value is truthy.
pub open spec fn truthy_v(v: ValueV) -> bool {
    !(v == ValueV::Bool(false) || v == ValueV::Nil)
}

// ------------------------------------------------------------------
// Errors and diagnostics.
// ------------------------------------------------------------------

#[derive(Clone, Copy, Debug, PartialEq, Eq, Structural)]
pub enum DiagnosticType {
    Bool,
    Num,
    Str,
    Func,
    List,
    Nil,
}

/// The coarse type tag of a value, used in error reports.
pub open spec fn diag_v(v: ValueV) -> DiagnosticType {
    match v {
        ValueV::Bool(_) => DiagnosticType::Bool,
        ValueV::Num(_) => DiagnosticType::Num,
        ValueV::Str(_) => DiagnosticType::Str,
        ValueV::Func(_) => DiagnosticType::Func,
        ValueV::List(_) => DiagnosticType::List,
        ValueV::Nil => DiagnosticType::Nil,
    }
}

#[derive(Debug)]
pub struct Error {
    pub kind: ErrorKind,
}

impl Error {
    pub fn new(kind: ErrorKind) -> (r: Self)
        ensures
            r.kind == kind,
    {
        Self { kind }
    }
}

#[derive(Debug)]
pub enum ErrorKind {
    TypeError { expected: DiagnosticType, actual: DiagnosticType },
    /// Reserved for native functions that fail on the host's I/O.
    IOError,
    /// Declared by the design but not currently raised: argument lists are
    /// paired with parameters positionally and length mismatches tolerated.
    IncorrectArity { given: usize, correct: usize },
    UndefinedIdentifier { name: String },
    /// The evaluation exceeded its recursion budget.
    RecursionLimit,
}

/// The view of a runtime error.
pub enum ErrV {
    TypeError { expected: DiagnosticType, actual: DiagnosticType },
    IOError,
    IncorrectArity { given: int, correct: int },
    UndefinedIdentifier { name: Seq<char> },
    RecursionLimit,
}

pub open spec fn err_v(k: ErrorKind) -> ErrV {
    match k {
        ErrorKind::TypeError { expected, actual } => ErrV::TypeError { expected, actual },
        ErrorKind::IOError => ErrV::IOError,
        ErrorKind::IncorrectArity { given, correct } => ErrV::IncorrectArity {
            given: given as int,
            correct: correct as int,
        },
        ErrorKind::UndefinedIdentifier { name } => ErrV::UndefinedIdentifier { name: name@ },
        ErrorKind::RecursionLimit => ErrV::RecursionLimit,
    }
}

// ------------------------------------------------------------------
// Value equality: the language's `==`.
// ------------------------------------------------------------------

/// Language equality of two values. Values of different variants are never
/// equal; functions are never equal, even to themselves; numbers compare by
/// IEEE-754 equality; lists compare element-wise.
pub open spec fn val_eq(a: ValueV, b: ValueV) -> bool
    decreases a,
{
    match (a, b) {
        (ValueV::Bool(x), ValueV::Bool(y)) => x == y,
        (ValueV::Num(x), ValueV::Num(y)) => ieee_eq(x, y),
        (ValueV::Str(x), ValueV::Str(y)) => x == y,
        (ValueV::Func(_), ValueV::Func(_)) => false,
        (ValueV::List(x), ValueV::List(y)) => x.len() == y.len() && (forall|i: int|
            0 <= i < x.len() ==> val_eq(x[i], #[trigger] y[i])),
        (ValueV::Nil, ValueV::Nil) => true,
        _ => false,
    }
}

impl Value {
    pub fn diagnostic(&self) -> (d: DiagnosticType)
        ensures
            d == diag_v(val_v(*self)),
    {
        match self {
            Value::Bool(_) => DiagnosticType::Bool,
            Value::Num(_) => DiagnosticType::Num,
            Value::Str(_) => DiagnosticType::Str,
            Value::Func(_) => DiagnosticType::Func,
            Value::List(_) => DiagnosticType::List,
            Value::Nil => DiagnosticType::Nil,
        }
    }

    pub fn is_falsy(&self) -> (r: bool)
        ensures
            r == !truthy_v(val_v(*self)),
    {
        match self {
            Value::Bool(b) => !*b,
            Value::Nil => true,
            _ => false,
        }
    }

    pub fn is_truthy(&self) -> (r: bool)
        ensures
            r == truthy_v(val_v(*self)),
    {
        !self.is_falsy()
    }

    pub fn deep_copy(&self) -> (r: Self)
        ensures
            val_v(r) == val_v(*self),
        decreases *self,
    {
        match self {
            Value::Bool(b) => Value::Bool(*b),
            Value::Num(n) => Value::Num(*n),
            Value::Str(s) => Value::Str(s.clone()),
            Value::Func(f) => Value::Func(f.deep_copy()),
            Value::List(l) => Value::List(copy_values(l)),
            Value::Nil => Value::Nil,
        }
    }
}

impl Func {
    pub fn deep_copy(&self) -> (r: Self)
        ensures
            func_v(r) == func_v(*self),
        decreases *self,
    {
        match self {
            Func::User(u) => Func::User(
                UserFunc { arguments: copy_patterns(&u.arguments), body: u.body.deep_copy() },
            ),
            Func::Native(id) => Func::Native(*id),
        }
    }
}

pub fn copy_values(v: &Vec<Value>) -> (r: Vec<Value>)
    ensures
        vals_v(r@) == vals_v(v@),
    decreases v@,
{
    let mut out: Vec<Value> = Vec::new();
    let mut i: usize = 0;
    while i < v.len()
        invariant
            i <= v.len(),
            out@.len() == i,
            forall|j: int| 0 <= j < i ==> val_v(#[trigger] out@[j]) == val_v(v@[j]),
        decreases v@.len() - i,
    {
        proof {
            assert(decreases_to!(v@ => v@[i as int]));
        }
        out.push(v[i].deep_copy());
        i += 1;
    }
    proof {
        assert(vals_v(out@) =~= vals_v(v@));
    }
    out
}

/// Language equality, executed.
pub fn value_eq(a: &Value, b: &Value) -> (r: bool)
    ensures
        r == val_eq(val_v(*a), val_v(*b)),
    decreases *a,
{
    match (a, b) {
        (Value::Bool(x), Value::Bool(y)) => *x == *y,
        (Value::Num(x), Value::Num(y)) => eq_bits(*x, *y),
        (Value::Str(x), Value::Str(y)) => x.eq(y),
        (Value::Func(_), Value::Func(_)) => false,
        (Value::List(x), Value::List(y)) => {
            if x.len() != y.len() {
                return false;
            }
            let mut i: usize = 0;
            while i < x.len()
                invariant
                    i <= x.len(),
                    x@.len() == y@.len(),
                    a == Value::List(*x),
                    b == Value::List(*y),
                    forall|j: int|
                        0 <= j < i ==> val_eq(val_v(x@[j]), val_v(#[trigger] y@[j])),
                decreases x@.len() - i,
            {
                proof {
                    assert(decreases_to!(*a => x@[i as int]));
                }
                if !value_eq(&x[i], &y[i]) {
                    proof {
                        assert(vals_v(x@)[i as int] == val_v(x@[i as int]));
                        assert(vals_v(y@)[i as int] == val_v(y@[i as int]));
                    }
                    return false;
                }
                i += 1;
            }
            true
        },
        (Value::Nil, Value::Nil) => true,
        _ => false,
    }
}


/// The language's `==` on values, exposed as `PartialEq` like any host
/// value type: discriminant-distinct values compare unequal, functions are
/// never equal, numbers compare by IEEE-754 equality.
impl PartialEq for Value {
    fn eq(&self, other: &Self) -> (r: bool)
        ensures
            r == val_eq(val_v(*self), val_v(*other)),
    {
        value_eq(self, other)
    }
}

impl vstd::std_specs::cmp::PartialEqSpecImpl for Value {
    open spec fn obeys_eq_spec() -> bool {
        true
    }

    open spec fn eq_spec(&self, other: &Self) -> bool {
        val_eq(val_v(*self), val_v(*other))
    }
}

// ------------------------------------------------------------------
// The meaning of evaluation: a big-step specification over tree views.
// ------------------------------------------------------------------

/// The outcome of a specification-level evaluation step: a result and the
/// environment after it, an error and the environment after it, or the step
/// reached a native-function call, whose effect the specification leaves
/// open.
pub enum Out<A> {
    Done { a: A, env: EnvV },
    Fail { err: ErrV, env: EnvV },
    Native,
}

/// The evaluation ran to an answer without touching a native function.
pub open spec fn halted<A>(o: Out<A>) -> bool {
    !(o is Native)
}

pub open spec fn eval_expr(fuel: nat, e: ExprV, env: EnvV) -> Out<ValueV>
    decreases fuel, e, 0int,
{
    match e {
        ExprV::Literal(l) => Out::Done { a: lit_value(l), env },
        ExprV::Identifier(n) => if env.contains_key(n) {
            Out::Done { a: env[n], env }
        } else {
            Out::Fail { err: ErrV::UndefinedIdentifier { name: n }, env }
        },
        ExprV::Block(b) => eval_block(fuel, b, env),
        ExprV::If(i) => eval_if(fuel, *i, env),
        ExprV::Unary(op, rx) => match eval_expr(fuel, *rx, env) {
            Out::Done { a, env } => match op {
                UnaryOp::Not => Out::Done { a: ValueV::Bool(!truthy_v(a)), env },
                UnaryOp::Negate => match a {
                    ValueV::Num(n) => Out::Done { a: ValueV::Num(neg_bits(n)), env },
                    _ => Out::Fail {
                        err: ErrV::TypeError {
                            expected: DiagnosticType::Num,
                            actual: diag_v(a),
                        },
                        env,
                    },
                },
            },
            o => o,
        },
        ExprV::Binary(op, lx, rx) => match eval_expr(fuel, *lx, env) {
            Out::Done { a: lv, env: env1 } => eval_binary_rhs(fuel, op, lv, *rx, env1),
            o => o,
        },
        ExprV::Call(t, args) => match eval_expr(fuel, *t, env) {
            Out::Done { a: fv, env: env1 } => match fv {
                ValueV::Func(FuncV::User(uf)) => match eval_bind_args(
                    fuel,
                    uf.params,
                    args,
                    env1,
                ) {
                    Out::Done { env: env2, .. } => if fuel > 0 {
                        eval_expr((fuel - 1) as nat, uf.body, env2)
                    } else {
                        Out::Fail { err: ErrV::RecursionLimit, env: env2 }
                    },
                    Out::Fail { err, env: env2 } => Out::Fail { err, env: env2 },
                    Out::Native => Out::Native,
                },
                ValueV::Func(FuncV::Native(_)) => match eval_collect_args(fuel, args, env1) {
                    Out::Done { .. } => Out::Native,
                    Out::Fail { err, env: env2 } => Out::Fail { err, env: env2 },
                    Out::Native => Out::Native,
                },
                _ => Out::Fail {
                    err: ErrV::TypeError {
                        expected: DiagnosticType::Func,
                        actual: diag_v(fv),
                    },
                    env: env1,
                },
            },
            o => o,
        },
    }
}

/// The right-hand side of a binary operator, after the left side evaluated
/// to `lv`: `or`/`and` short-circuit on the left value alone; every other
/// operator evaluates the right side and combines.
pub open spec fn eval_binary_rhs(fuel: nat, op: BinaryOp, lv: ValueV, rx: ExprV, env: EnvV) -> Out<
    ValueV,
>
    decreases fuel, rx, 2int,
{
    match op {
        BinaryOp::Or => if truthy_v(lv) {
            Out::Done { a: lv, env }
        } else {
            eval_expr(fuel, rx, env)
        },
        BinaryOp::And => if !truthy_v(lv) {
            Out::Done { a: lv, env }
        } else {
            eval_expr(fuel, rx, env)
        },
        BinaryOp::Eq => match eval_expr(fuel, rx, env) {
            Out::Done { a: rv, env } => Out::Done { a: ValueV::Bool(val_eq(lv, rv)), env },
            o => o,
        },
        BinaryOp::NotEq => match eval_expr(fuel, rx, env) {
            Out::Done { a: rv, env } => Out::Done { a: ValueV::Bool(!val_eq(lv, rv)), env },
            o => o,
        },
        BinaryOp::Greater => eval_compare(fuel, lv, rx, env, true, false),
        BinaryOp::GreaterEq => eval_compare(fuel, lv, rx, env, true, true),
        BinaryOp::Less => eval_compare(fuel, lv, rx, env, false, false),
        BinaryOp::LessEq => eval_compare(fuel, lv, rx, env, false, true),
        BinaryOp::Subtract => eval_arith(fuel, lv, rx, env, BinaryOp::Subtract),
        BinaryOp::Divide => eval_arith(fuel, lv, rx, env, BinaryOp::Divide),
        BinaryOp::Multiply => eval_arith(fuel, lv, rx, env, BinaryOp::Multiply),
        BinaryOp::Add => match eval_expr(fuel, rx, env) {
            Out::Done { a: rv, env } => match (lv, rv) {
                (ValueV::Num(x), ValueV::Num(y)) => Out::Done {
                    a: ValueV::Num(add_bits(x, y)),
                    env,
                },
                (ValueV::Str(x), ValueV::Num(y)) => Out::Done {
                    a: ValueV::Str(x + num_str(y)),
                    env,
                },
                (ValueV::Num(x), ValueV::Str(y)) => Out::Done {
                    a: ValueV::Str(num_str(x) + y),
                    env,
                },
                (ValueV::Str(x), ValueV::Str(y)) => Out::Done { a: ValueV::Str(x + y), env },
                (ValueV::Num(_), other) => Out::Fail {
                    err: ErrV::TypeError {
                        expected: DiagnosticType::Num,
                        actual: diag_v(other),
                    },
                    env,
                },
                (ValueV::Str(_), other) => Out::Fail {
                    err: ErrV::TypeError {
                        expected: DiagnosticType::Num,
                        actual: diag_v(other),
                    },
                    env,
                },
                (other, _) => Out::Fail {
                    err: ErrV::TypeError {
                        expected: DiagnosticType::Num,
                        actual: diag_v(other),
                    },
                    env,
                },
            },
            o => o,
        },
    }
}

/// A relational operator: both sides must be numbers; the left side's type
/// is checked before the right side is evaluated. `swapped` mirrors the
/// comparison; `or_equal` makes it inclusive.
pub open spec fn eval_compare(
    fuel: nat,
    lv: ValueV,
    rx: ExprV,
    env: EnvV,
    swapped: bool,
    or_equal: bool,
) -> Out<ValueV>
    decreases fuel, rx, 1int,
{
    match lv {
        ValueV::Num(x) => match eval_expr(fuel, rx, env) {
            Out::Done { a: rv, env } => match rv {
                ValueV::Num(y) => Out::Done {
                    a: ValueV::Bool(
                        if swapped {
                            if or_equal {
                                ieee_le(y, x)
                            } else {
                                ieee_lt(y, x)
                            }
                        } else {
                            if or_equal {
                                ieee_le(x, y)
                            } else {
                                ieee_lt(x, y)
                            }
                        },
                    ),
                    env,
                },
                _ => Out::Fail {
                    err: ErrV::TypeError {
                        expected: DiagnosticType::Num,
                        actual: diag_v(rv),
                    },
                    env,
                },
            },
            o => o,
        },
        _ => Out::Fail {
            err: ErrV::TypeError { expected: DiagnosticType::Num, actual: diag_v(lv) },
            env,
        },
    }
}

/// A numeric operator other than `+`: both sides must be numbers; the left
/// side's type is checked before the right side is evaluated.
pub open spec fn eval_arith(fuel: nat, lv: ValueV, rx: ExprV, env: EnvV, op: BinaryOp) -> Out<
    ValueV,
>
    decreases fuel, rx, 1int,
{
    match lv {
        ValueV::Num(x) => match eval_expr(fuel, rx, env) {
            Out::Done { a: rv, env } => match rv {
                ValueV::Num(y) => Out::Done {
                    a: ValueV::Num(
                        match op {
                            BinaryOp::Subtract => sub_bits(x, y),
                            BinaryOp::Divide => div_bits(x, y),
                            _ => mul_bits(x, y),
                        },
                    ),
                    env,
                },
                _ => Out::Fail {
                    err: ErrV::TypeError {
                        expected: DiagnosticType::Num,
                        actual: diag_v(rv),
                    },
                    env,
                },
            },
            o => o,
        },
        _ => Out::Fail {
            err: ErrV::TypeError { expected: DiagnosticType::Num, actual: diag_v(lv) },
            env,
        },
    }
}

pub open spec fn eval_if(fuel: nat, i: IfExprV, env: EnvV) -> Out<ValueV>
    decreases fuel, i, 0int,
{
    match eval_expr(fuel, i.condition, env) {
        Out::Done { a: c, env: env1 } => if truthy_v(c) {
            eval_block(fuel, i.then_block, env1)
        } else {
            match i.else_block {
                Some(ElseV::Else(b)) => eval_block(fuel, b, env1),
                Some(ElseV::ElseIf(n)) => eval_if(fuel, *n, env1),
                None => Out::Done { a: ValueV::Nil, env: env1 },
            }
        },
        o => o,
    }
}

pub open spec fn eval_block(fuel: nat, b: BlockV, env: EnvV) -> Out<ValueV>
    decreases fuel, b, 0int,
{
    match eval_stmts(fuel, b.stmts, env) {
        Out::Done { env: env1, .. } => match b.tail {
            Some(t) => eval_expr(fuel, *t, env1),
            None => Out::Done { a: ValueV::Nil, env: env1 },
        },
        Out::Fail { err, env: env1 } => Out::Fail { err, env: env1 },
        Out::Native => Out::Native,
    }
}

pub open spec fn eval_stmts(fuel: nat, ss: Seq<StmtV>, env: EnvV) -> Out<()>
    decreases fuel, ss, 0int,
{
    if ss.len() == 0 {
        Out::Done { a: (), env }
    } else {
        match eval_stmt(fuel, ss[0], env) {
            Out::Done { env: env1, .. } => eval_stmts(fuel, ss.subrange(1, ss.len() as int), env1),
            Out::Fail { err, env: env1 } => Out::Fail { err, env: env1 },
            Out::Native => Out::Native,
        }
    }
}

pub open spec fn eval_stmt(fuel: nat, s: StmtV, env: EnvV) -> Out<()>
    decreases fuel, s, 0int,
{
    match s {
        StmtV::Let(b) => eval_binding(fuel, b, env),
        StmtV::Expr(e) => match eval_expr(fuel, e, env) {
            Out::Done { env: env1, .. } => Out::Done { a: (), env: env1 },
            Out::Fail { err, env: env1 } => Out::Fail { err, env: env1 },
            Out::Native => Out::Native,
        },
    }
}

/// A `let`: a function definition captures its parameters and body without
/// evaluating anything; a plain binding evaluates its value eagerly. Either
/// way the name is bound in the one flat environment.
pub open spec fn eval_binding(fuel: nat, b: BindingV, env: EnvV) -> Out<()>
    decreases fuel, b, 0int,
{
    match b.params {
        Some(ps) => Out::Done {
            a: (),
            env: env.insert(
                b.pattern,
                ValueV::Func(FuncV::User(UserFuncV { params: ps, body: b.value })),
            ),
        },
        None => match eval_expr(fuel, b.value, env) {
            Out::Done { a: v, env: env1 } => Out::Done { a: (), env: env1.insert(b.pattern, v) },
            Out::Fail { err, env: env1 } => Out::Fail { err, env: env1 },
            Out::Native => Out::Native,
        },
    }
}

/// Bind call arguments to parameters, positionally and one at a time, each
/// argument evaluated in the current environment. Extra arguments are
/// ignored; missing ones leave their parameters unbound.
pub open spec fn eval_bind_args(fuel: nat, ps: Seq<Seq<char>>, args: Seq<ExprV>, env: EnvV) -> Out<
    (),
>
    decreases fuel, args, 0int,
{
    if ps.len() == 0 || args.len() == 0 {
        Out::Done { a: (), env }
    } else {
        match eval_expr(fuel, args[0], env) {
            Out::Done { a: v, env: env1 } => eval_bind_args(
                fuel,
                ps.subrange(1, ps.len() as int),
                args.subrange(1, args.len() as int),
                env1.insert(ps[0], v),
            ),
            Out::Fail { err, env: env1 } => Out::Fail { err, env: env1 },
            Out::Native => Out::Native,
        }
    }
}

/// Evaluate a native call's arguments, left to right, into a list.
pub open spec fn eval_collect_args(fuel: nat, args: Seq<ExprV>, env: EnvV) -> Out<Seq<ValueV>>
    decreases fuel, args, 0int,
{
    if args.len() == 0 {
        Out::Done { a: Seq::empty(), env }
    } else {
        match eval_expr(fuel, args[0], env) {
            Out::Done { a: v, env: env1 } => match eval_collect_args(
                fuel,
                args.subrange(1, args.len() as int),
                env1,
            ) {
                Out::Done { a: vs, env: env2 } => Out::Done { a: seq![v] + vs, env: env2 },
                Out::Fail { err, env: env2 } => Out::Fail { err, env: env2 },
                Out::Native => Out::Native,
            },
            Out::Fail { err, env: env1 } => Out::Fail { err, env: env1 },
            Out::Native => Out::Native,
        }
    }
}

/// A program evaluates its statements in order; its own result is `Nil`.
pub open spec fn eval_program(fuel: nat, prog: Seq<StmtV>, env: EnvV) -> Out<ValueV> {
    match eval_stmts(fuel, prog, env) {
        Out::Done { env: env1, .. } => Out::Done { a: ValueV::Nil, env: env1 },
        Out::Fail { err, env: env1 } => Out::Fail { err, env: env1 },
        Out::Native => Out::Native,
    }
}

// ------------------------------------------------------------------
// Agreement between the executable evaluator and the specification.
// ------------------------------------------------------------------

pub open spec fn agrees_val(out: Out<ValueV>, r: Result<Value, Error>, env: EnvV) -> bool {
    match out {
        Out::Done { a, env: e2 } => match r {
            Result::Ok(v) => val_v(v) == a && env == e2,
            Result::Err(_) => false,
        },
        Out::Fail { err, env: e2 } => match r {
            Result::Ok(_) => false,
            Result::Err(er) => err_v(er.kind) == err && env == e2,
        },
        Out::Native => true,
    }
}

pub open spec fn agrees_unit(out: Out<()>, r: Result<(), Error>, env: EnvV) -> bool {
    match out {
        Out::Done { env: e2, .. } => match r {
            Result::Ok(_) => env == e2,
            Result::Err(_) => false,
        },
        Out::Fail { err, env: e2 } => match r {
            Result::Ok(_) => false,
            Result::Err(er) => err_v(er.kind) == err && env == e2,
        },
        Out::Native => true,
    }
}

pub open spec fn agrees_vals(out: Out<Seq<ValueV>>, r: Result<Vec<Value>, Error>, env: EnvV) -> bool {
    match out {
        Out::Done { a, env: e2 } => match r {
            Result::Ok(vs) => vals_v(vs@) == a && env == e2,
            Result::Err(_) => false,
        },
        Out::Fail { err, env: e2 } => match r {
            Result::Ok(_) => false,
            Result::Err(er) => err_v(er.kind) == err && env == e2,
        },
        Out::Native => true,
    }
}


// ------------------------------------------------------------------
// The executable evaluator.
// ------------------------------------------------------------------

/// Evaluate a whole program against the given environment and native
/// registry. The outcome and the final environment are exactly those of the
/// specification evaluator; whenever the specification halts without
/// reaching a native call, the registry is untouched.
pub fn interpert<N: NativeFunc>(
    program: Program,
    env: &mut Environment,
    natives: &mut N,
    fuel: u64,
) -> (r: Result<Value, Error>)
    ensures
        agrees_val(eval_program(fuel as nat, stmts_v(program@), old(env)@), r, final(env)@),
        halted(eval_program(fuel as nat, stmts_v(program@), old(env)@)) ==> *final(natives) == *old(
            natives,
        ),
{
    proof {
        assert(stmts_v(program@).subrange(0, stmts_v(program@).len() as int) =~= stmts_v(
            program@,
        ));
    }
    match ev_stmts(fuel, &program, 0, env, natives) {
        Result::Ok(_) => Result::Ok(Value::Nil),
        Result::Err(e) => Result::Err(e),
    }
}

#[verifier::rlimit(100)]
fn ev_stmts<N: NativeFunc>(
    fuel: u64,
    stmts: &Vec<Stmt>,
    i: usize,
    env: &mut Environment,
    natives: &mut N,
) -> (r: Result<(), Error>)
    requires
        i <= stmts@.len(),
    ensures
        agrees_unit(
            eval_stmts(
                fuel as nat,
                stmts_v(stmts@).subrange(i as int, stmts@.len() as int),
                old(env)@,
            ),
            r,
            final(env)@,
        ),
        halted(
            eval_stmts(
                fuel as nat,
                stmts_v(stmts@).subrange(i as int, stmts@.len() as int),
                old(env)@,
            ),
        ) ==> *final(natives) == *old(natives),
    decreases fuel, stmts@.subrange(i as int, stmts@.len() as int),
{
    if i >= stmts.len() {
        return Result::Ok(());
    }
    proof {
        assert(stmts_v(stmts@).subrange(i as int, stmts@.len() as int)[0] == stmt_v(
            stmts@[i as int],
        ));
        assert(decreases_to!(stmts@.subrange(i as int, stmts@.len() as int) => stmts@.subrange(
            i as int,
            stmts@.len() as int,
        )[0]));
    }
    match ev_stmt(fuel, &stmts[i], env, natives) {
        Result::Ok(_) => {},
        Result::Err(e) => {
            return Result::Err(e);
        },
    }
    proof {
        assert(stmts@.subrange(i as int, stmts@.len() as int).subrange(
            1,
            stmts@.subrange(i as int, stmts@.len() as int).len() as int,
        ) =~= stmts@.subrange(i + 1, stmts@.len() as int));
        assert(stmts_v(stmts@).subrange(i as int, stmts@.len() as int).subrange(
            1,
            stmts_v(stmts@).subrange(i as int, stmts@.len() as int).len() as int,
        ) =~= stmts_v(stmts@).subrange(i + 1, stmts@.len() as int));
    }
    ev_stmts(fuel, stmts, i + 1, env, natives)
}

#[verifier::rlimit(100)]
fn ev_stmt<N: NativeFunc>(fuel: u64, s: &Stmt, env: &mut Environment, natives: &mut N) -> (r:
    Result<(), Error>)
    ensures
        agrees_unit(eval_stmt(fuel as nat, stmt_v(*s), old(env)@), r, final(env)@),
        halted(eval_stmt(fuel as nat, stmt_v(*s), old(env)@)) ==> *final(natives) == *old(natives),
    decreases fuel, *s,
{
    match s {
        Stmt::Let(b) => ev_binding(fuel, b, env, natives),
        Stmt::Expr(e) => match ev_expr(fuel, e, env, natives) {
            Result::Ok(_) => Result::Ok(()),
            Result::Err(e2) => Result::Err(e2),
        },
    }
}

#[verifier::rlimit(100)]
fn ev_binding<N: NativeFunc>(fuel: u64, b: &Binding, env: &mut Environment, natives: &mut N) -> (r:
    Result<(), Error>)
    ensures
        agrees_unit(eval_binding(fuel as nat, binding_v(*b), old(env)@), r, final(env)@),
        halted(eval_binding(fuel as nat, binding_v(*b), old(env)@)) ==> *final(natives) == *old(natives),
    decreases fuel, *b,
{
    let identifier = b.pattern.0.deep_copy();
    let value = match &b.arguments {
        Some(arguments) => Value::Func(
            Func::User(UserFunc { arguments: copy_patterns(arguments), body: b.value.deep_copy() }),
        ),
        None => match ev_expr(fuel, &b.value, env, natives) {
            Result::Ok(v) => v,
            Result::Err(e2) => {
                return Result::Err(e2);
            },
        },
    };
    env.define(identifier, value);
    Result::Ok(())
}

#[verifier::rlimit(100)]
fn ev_block<N: NativeFunc>(fuel: u64, b: &Block, env: &mut Environment, natives: &mut N) -> (r:
    Result<Value, Error>)
    ensures
        agrees_val(eval_block(fuel as nat, block_v(*b), old(env)@), r, final(env)@),
        halted(eval_block(fuel as nat, block_v(*b), old(env)@)) ==> *final(natives) == *old(natives),
    decreases fuel, *b,
{
    proof {
        assert(stmts_v(b.0@).subrange(0, stmts_v(b.0@).len() as int) =~= stmts_v(b.0@));
        assert(decreases_to!(*b => b.0@));
        assert(b.0@.subrange(0, b.0@.len() as int) =~= b.0@);
        assert(b.0@.subrange(0, b.0@.len() as int) == b.0@);
    }
    match ev_stmts(fuel, &b.0, 0, env, natives) {
        Result::Ok(_) => {},
        Result::Err(e) => {
            return Result::Err(e);
        },
    }
    match &b.1 {
        Some(t) => ev_expr(fuel, t, env, natives),
        None => Result::Ok(Value::Nil),
    }
}

#[verifier::rlimit(100)]
fn ev_if<N: NativeFunc>(fuel: u64, i: &IfExpr, env: &mut Environment, natives: &mut N) -> (r:
    Result<Value, Error>)
    ensures
        agrees_val(eval_if(fuel as nat, if_v(*i), old(env)@), r, final(env)@),
        halted(eval_if(fuel as nat, if_v(*i), old(env)@)) ==> *final(natives) == *old(natives),
    decreases fuel, *i,
{
    let condition = match ev_expr(fuel, &i.condition, env, natives) {
        Result::Ok(v) => v,
        Result::Err(e2) => {
            return Result::Err(e2);
        },
    };
    if condition.is_truthy() {
        ev_block(fuel, &i.then_block, env, natives)
    } else {
        match &i.else_block {
            Some(ElseBlock::Else(else_block)) => ev_block(fuel, else_block, env, natives),
            Some(ElseBlock::ElseIf(if_expr)) => ev_if(fuel, if_expr, env, natives),
            None => Result::Ok(Value::Nil),
        }
    }
}

#[verifier::rlimit(100)]
fn ev_bind_args<N: NativeFunc>(
    fuel: u64,
    params: &Vec<Pattern>,
    args: &Vec<Expr>,
    i: usize,
    env: &mut Environment,
    natives: &mut N,
) -> (r: Result<(), Error>)
    requires
        i <= params@.len(),
        i <= args@.len(),
    ensures
        agrees_unit(
            eval_bind_args(
                fuel as nat,
                patterns_v(params@).subrange(i as int, params@.len() as int),
                exprs_v(args@).subrange(i as int, args@.len() as int),
                old(env)@,
            ),
            r,
            final(env)@,
        ),
        halted(
            eval_bind_args(
                fuel as nat,
                patterns_v(params@).subrange(i as int, params@.len() as int),
                exprs_v(args@).subrange(i as int, args@.len() as int),
                old(env)@,
            ),
        ) ==> *final(natives) == *old(natives),
    decreases fuel, args@.subrange(i as int, args@.len() as int),
{
    if i >= params.len() || i >= args.len() {
        return Result::Ok(());
    }
    proof {
        assert(exprs_v(args@).subrange(i as int, args@.len() as int)[0] == expr_v(
            args@[i as int],
        ));
        assert(patterns_v(params@).subrange(i as int, params@.len() as int)[0] == pattern_v(
            params@[i as int],
        ));
        assert(decreases_to!(args@.subrange(i as int, args@.len() as int) => args@.subrange(
            i as int,
            args@.len() as int,
        )[0]));
    }
    let identifier = params[i].0.deep_copy();
    let value = match ev_expr(fuel, &args[i], env, natives) {
        Result::Ok(v) => v,
        Result::Err(e2) => {
            return Result::Err(e2);
        },
    };
    env.define(identifier, value);
    proof {
        assert(args@.subrange(i as int, args@.len() as int).subrange(
            1,
            args@.subrange(i as int, args@.len() as int).len() as int,
        ) =~= args@.subrange(i + 1, args@.len() as int));
        assert(exprs_v(args@).subrange(i as int, args@.len() as int).subrange(
            1,
            exprs_v(args@).subrange(i as int, args@.len() as int).len() as int,
        ) =~= exprs_v(args@).subrange(i + 1, args@.len() as int));
        assert(patterns_v(params@).subrange(i as int, params@.len() as int).subrange(
            1,
            patterns_v(params@).subrange(i as int, params@.len() as int).len() as int,
        ) =~= patterns_v(params@).subrange(i + 1, params@.len() as int));
    }
    ev_bind_args(fuel, params, args, i + 1, env, natives)
}

#[verifier::rlimit(100)]
fn ev_collect_args<N: NativeFunc>(
    fuel: u64,
    args: &Vec<Expr>,
    i: usize,
    env: &mut Environment,
    natives: &mut N,
) -> (r: Result<Vec<Value>, Error>)
    requires
        i <= args@.len(),
    ensures
        agrees_vals(
            eval_collect_args(
                fuel as nat,
                exprs_v(args@).subrange(i as int, args@.len() as int),
                old(env)@,
            ),
            r,
            final(env)@,
        ),
        halted(
            eval_collect_args(
                fuel as nat,
                exprs_v(args@).subrange(i as int, args@.len() as int),
                old(env)@,
            ),
        ) ==> *final(natives) == *old(natives),
    decreases fuel, args@.subrange(i as int, args@.len() as int),
{
    if i >= args.len() {
        let empty: Vec<Value> = Vec::new();
        proof {
            assert(vals_v(empty@) =~= Seq::<ValueV>::empty());
        }
        return Result::Ok(empty);
    }
    proof {
        assert(exprs_v(args@).subrange(i as int, args@.len() as int)[0] == expr_v(
            args@[i as int],
        ));
        assert(decreases_to!(args@.subrange(i as int, args@.len() as int) => args@.subrange(
            i as int,
            args@.len() as int,
        )[0]));
    }
    let value = match ev_expr(fuel, &args[i], env, natives) {
        Result::Ok(v) => v,
        Result::Err(e2) => {
            return Result::Err(e2);
        },
    };
    proof {
        assert(args@.subrange(i as int, args@.len() as int).subrange(
            1,
            args@.subrange(i as int, args@.len() as int).len() as int,
        ) =~= args@.subrange(i + 1, args@.len() as int));
        assert(exprs_v(args@).subrange(i as int, args@.len() as int).subrange(
            1,
            exprs_v(args@).subrange(i as int, args@.len() as int).len() as int,
        ) =~= exprs_v(args@).subrange(i + 1, args@.len() as int));
    }
    let mut rest = match ev_collect_args(fuel, args, i + 1, env, natives) {
        Result::Ok(vs) => vs,
        Result::Err(e2) => {
            return Result::Err(e2);
        },
    };
    let ghost rest_snapshot = rest@;
    rest.insert(0, value);
    proof {
        assert(vals_v(rest@) =~= seq![val_v(value)] + vals_v(rest_snapshot));
    }
    Result::Ok(rest)
}

#[verifier::rlimit(100)]
fn ev_expr<N: NativeFunc>(fuel: u64, e: &Expr, env: &mut Environment, natives: &mut N) -> (r:
    Result<Value, Error>)
    ensures
        agrees_val(eval_expr(fuel as nat, expr_v(*e), old(env)@), r, final(env)@),
        halted(eval_expr(fuel as nat, expr_v(*e), old(env)@)) ==> *final(natives) == *old(natives),
    decreases fuel, *e,
{
    match e {
        Expr::Literal(l) => Result::Ok(
            match l {
                Literal::Bool(b) => Value::Bool(*b),
                Literal::Number(n) => Value::Num(*n),
                Literal::Str(s) => Value::Str(s.clone()),
                Literal::Nil => Value::Nil,
            },
        ),
        Expr::Identifier(identifier) => match env.get(identifier) {
            Some(v) => Result::Ok(v),
            None => Result::Err(
                Error::new(ErrorKind::UndefinedIdentifier { name: identifier.name.clone() }),
            ),
        },
        Expr::Block(block) => ev_block(fuel, block, env, natives),
        Expr::If(if_expr) => ev_if(fuel, if_expr, env, natives),
        Expr::Unary(unary) => {
            let rhs = match ev_expr(fuel, &unary.rhs, env, natives) {
                Result::Ok(v) => v,
                Result::Err(e2) => {
                    return Result::Err(e2);
                },
            };
            match unary.op {
                UnaryOp::Not => Result::Ok(Value::Bool(!rhs.is_truthy())),
                UnaryOp::Negate => match rhs {
                    Value::Num(n) => Result::Ok(Value::Num(negate_bits(n))),
                    other => Result::Err(
                        Error::new(
                            ErrorKind::TypeError {
                                expected: DiagnosticType::Num,
                                actual: other.diagnostic(),
                            },
                        ),
                    ),
                },
            }
        },
        Expr::Binary(binary) => ev_binary(fuel, binary, env, natives),
        Expr::Call(call) => {
            let target = match ev_expr(fuel, &call.target, env, natives) {
                Result::Ok(v) => v,
                Result::Err(e2) => {
                    return Result::Err(e2);
                },
            };
            match target {
                Value::Func(Func::User(func)) => {
                    proof {
                        assert(patterns_v(func.arguments@).subrange(
                            0,
                            patterns_v(func.arguments@).len() as int,
                        ) =~= patterns_v(func.arguments@));
                        assert(exprs_v(call.arguments@).subrange(
                            0,
                            exprs_v(call.arguments@).len() as int,
                        ) =~= exprs_v(call.arguments@));
                        assert(decreases_to!(*e => call.arguments@));
                        assert(call.arguments@.subrange(0, call.arguments@.len() as int)
                            =~= call.arguments@);
                        assert(call.arguments@.subrange(0, call.arguments@.len() as int)
                            == call.arguments@);
                    }
                    match ev_bind_args(fuel, &func.arguments, &call.arguments, 0, env, natives) {
                        Result::Ok(_) => {},
                        Result::Err(e2) => {
                            return Result::Err(e2);
                        },
                    }
                    if fuel == 0 {
                        Result::Err(Error::new(ErrorKind::RecursionLimit))
                    } else {
                        ev_expr(fuel - 1, &func.body, env, natives)
                    }
                },
                Value::Func(Func::Native(id)) => {
                    proof {
                        assert(exprs_v(call.arguments@).subrange(
                            0,
                            exprs_v(call.arguments@).len() as int,
                        ) =~= exprs_v(call.arguments@));
                        assert(decreases_to!(*e => call.arguments@));
                        assert(call.arguments@.subrange(0, call.arguments@.len() as int)
                            =~= call.arguments@);
                        assert(call.arguments@.subrange(0, call.arguments@.len() as int)
                            == call.arguments@);
                    }
                    let arguments = match ev_collect_args(fuel, &call.arguments, 0, env, natives) {
                        Result::Ok(vs) => vs,
                        Result::Err(e2) => {
                            return Result::Err(e2);
                        },
                    };
                    natives.call(id, arguments)
                },
                other => Result::Err(
                    Error::new(
                        ErrorKind::TypeError {
                            expected: DiagnosticType::Func,
                            actual: other.diagnostic(),
                        },
                    ),
                ),
            }
        },
    }
}

/// Binary operators. `or`/`and` short-circuit: the right-hand side is only
/// evaluated when the left value does not already decide the outcome.
#[verifier::rlimit(100)]
fn ev_binary<N: NativeFunc>(fuel: u64, binary: &BinaryExpr, env: &mut Environment, natives: &mut N)
    -> (r: Result<Value, Error>)
    ensures
        agrees_val(
            eval_expr(fuel as nat, expr_v(Expr::Binary(Box::new(*binary))), old(env)@),
            r,
            final(env)@,
        ),
        halted(eval_expr(fuel as nat, expr_v(Expr::Binary(Box::new(*binary))), old(env)@))
            ==> *final(natives) == *old(natives),
    decreases fuel, *binary, 1int,
{
    proof {
        assert(expr_v(Expr::Binary(Box::new(*binary))) == ExprV::Binary(
            binary.op,
            Box::new(expr_v(binary.lhs)),
            Box::new(expr_v(binary.rhs)),
        ));
    }
    let lhs = match ev_expr(fuel, &binary.lhs, env, natives) {
        Result::Ok(v) => v,
        Result::Err(e2) => {
            proof {
                let w = expr_v(Expr::Binary(Box::new(*binary)));
                let lout = eval_expr(fuel as nat, expr_v(binary.lhs), old(env)@);
                assert(eval_expr(fuel as nat, w, old(env)@) == (match lout {
                    Out::Done { a: lv, env: env1 } => eval_binary_rhs(
                        fuel as nat,
                        binary.op,
                        lv,
                        expr_v(binary.rhs),
                        env1,
                    ),
                    o => o,
                }));
            }
            return Result::Err(e2);
        },
    };
    proof {
        let w = expr_v(Expr::Binary(Box::new(*binary)));
        let lout = eval_expr(fuel as nat, expr_v(binary.lhs), old(env)@);
        assert(eval_expr(fuel as nat, w, old(env)@) == (match lout {
            Out::Done { a: lv, env: env1 } => eval_binary_rhs(
                fuel as nat,
                binary.op,
                lv,
                expr_v(binary.rhs),
                env1,
            ),
            o => o,
        }));
    }
    match binary.op {
        BinaryOp::Or => {
            if lhs.is_truthy() {
                Result::Ok(lhs)
            } else {
                ev_expr(fuel, &binary.rhs, env, natives)
            }
        },
        BinaryOp::And => {
            if lhs.is_falsy() {
                Result::Ok(lhs)
            } else {
                ev_expr(fuel, &binary.rhs, env, natives)
            }
        },
        BinaryOp::Eq => {
            let rhs = match ev_expr(fuel, &binary.rhs, env, natives) {
                Result::Ok(v) => v,
                Result::Err(e2) => {
                    return Result::Err(e2);
                },
            };
            Result::Ok(Value::Bool(value_eq(&lhs, &rhs)))
        },
        BinaryOp::NotEq => {
            let rhs = match ev_expr(fuel, &binary.rhs, env, natives) {
                Result::Ok(v) => v,
                Result::Err(e2) => {
                    return Result::Err(e2);
                },
            };
            Result::Ok(Value::Bool(!value_eq(&lhs, &rhs)))
        },
        BinaryOp::Greater => {
            let x = match as_num(lhs) {
                Result::Ok(n) => n,
                Result::Err(e2) => {
                    return Result::Err(e2);
                },
            };
            let y = match ev_expr(fuel, &binary.rhs, env, natives) {
                Result::Ok(v) => match as_num(v) {
                    Result::Ok(n) => n,
                    Result::Err(e2) => {
                        return Result::Err(e2);
                    },
                },
                Result::Err(e2) => {
                    return Result::Err(e2);
                },
            };
            Result::Ok(Value::Bool(lt_bits(y, x)))
        },
        BinaryOp::GreaterEq => {
            let x = match as_num(lhs) {
                Result::Ok(n) => n,
                Result::Err(e2) => {
                    return Result::Err(e2);
                },
            };
            let y = match ev_expr(fuel, &binary.rhs, env, natives) {
                Result::Ok(v) => match as_num(v) {
                    Result::Ok(n) => n,
                    Result::Err(e2) => {
                        return Result::Err(e2);
                    },
                },
                Result::Err(e2) => {
                    return Result::Err(e2);
                },
            };
            Result::Ok(Value::Bool(le_bits(y, x)))
        },
        BinaryOp::Less => {
            let x = match as_num(lhs) {
                Result::Ok(n) => n,
                Result::Err(e2) => {
                    return Result::Err(e2);
                },
            };
            let y = match ev_expr(fuel, &binary.rhs, env, natives) {
                Result::Ok(v) => match as_num(v) {
                    Result::Ok(n) => n,
                    Result::Err(e2) => {
                        return Result::Err(e2);
                    },
                },
                Result::Err(e2) => {
                    return Result::Err(e2);
                },
            };
            Result::Ok(Value::Bool(lt_bits(x, y)))
        },
        BinaryOp::LessEq => {
            let x = match as_num(lhs) {
                Result::Ok(n) => n,
                Result::Err(e2) => {
                    return Result::Err(e2);
                },
            };
            let y = match ev_expr(fuel, &binary.rhs, env, natives) {
                Result::Ok(v) => match as_num(v) {
                    Result::Ok(n) => n,
                    Result::Err(e2) => {
                        return Result::Err(e2);
                    },
                },
                Result::Err(e2) => {
                    return Result::Err(e2);
                },
            };
            Result::Ok(Value::Bool(le_bits(x, y)))
        },
        BinaryOp::Subtract => {
            let x = match as_num(lhs) {
                Result::Ok(n) => n,
                Result::Err(e2) => {
                    return Result::Err(e2);
                },
            };
            let y = match ev_expr(fuel, &binary.rhs, env, natives) {
                Result::Ok(v) => match as_num(v) {
                    Result::Ok(n) => n,
                    Result::Err(e2) => {
                        return Result::Err(e2);
                    },
                },
                Result::Err(e2) => {
                    return Result::Err(e2);
                },
            };
            Result::Ok(Value::Num(exec_sub_bits(x, y)))
        },
        BinaryOp::Divide => {
            let x = match as_num(lhs) {
                Result::Ok(n) => n,
                Result::Err(e2) => {
                    return Result::Err(e2);
                },
            };
            let y = match ev_expr(fuel, &binary.rhs, env, natives) {
                Result::Ok(v) => match as_num(v) {
                    Result::Ok(n) => n,
                    Result::Err(e2) => {
                        return Result::Err(e2);
                    },
                },
                Result::Err(e2) => {
                    return Result::Err(e2);
                },
            };
            Result::Ok(Value::Num(exec_div_bits(x, y)))
        },
        BinaryOp::Multiply => {
            let x = match as_num(lhs) {
                Result::Ok(n) => n,
                Result::Err(e2) => {
                    return Result::Err(e2);
                },
            };
            let y = match ev_expr(fuel, &binary.rhs, env, natives) {
                Result::Ok(v) => match as_num(v) {
                    Result::Ok(n) => n,
                    Result::Err(e2) => {
                        return Result::Err(e2);
                    },
                },
                Result::Err(e2) => {
                    return Result::Err(e2);
                },
            };
            Result::Ok(Value::Num(exec_mul_bits(x, y)))
        },
        BinaryOp::Add => {
            let rhs = match ev_expr(fuel, &binary.rhs, env, natives) {
                Result::Ok(v) => v,
                Result::Err(e2) => {
                    return Result::Err(e2);
                },
            };
            match (lhs, rhs) {
                (Value::Num(x), Value::Num(y)) => Result::Ok(Value::Num(exec_add_bits(x, y))),
                (Value::Str(x), Value::Num(y)) => Result::Ok(
                    Value::Str(str_concat(&x, &exec_num_str(y))),
                ),
                (Value::Num(x), Value::Str(y)) => Result::Ok(
                    Value::Str(str_concat(&exec_num_str(x), &y)),
                ),
                (Value::Str(x), Value::Str(y)) => Result::Ok(Value::Str(str_concat(&x, &y))),
                (Value::Num(_), other) => Result::Err(
                    Error::new(
                        ErrorKind::TypeError {
                            expected: DiagnosticType::Num,
                            actual: other.diagnostic(),
                        },
                    ),
                ),
                (Value::Str(_), other) => Result::Err(
                    Error::new(
                        ErrorKind::TypeError {
                            expected: DiagnosticType::Num,
                            actual: other.diagnostic(),
                        },
                    ),
                ),
                (other, _) => Result::Err(
                    Error::new(
                        ErrorKind::TypeError {
                            expected: DiagnosticType::Num,
                            actual: other.diagnostic(),
                        },
                    ),
                ),
            }
        },
    }
}

/// The numeric payload of a value, or the type error a numeric operator
/// raises on anything else.
fn as_num(v: Value) -> (r: Result<u64, Error>)
    ensures
        match val_v(v) {
            ValueV::Num(n) => r == Result::<u64, Error>::Ok(n),
            other => match r {
                Result::Ok(_) => false,
                Result::Err(er) => err_v(er.kind) == (ErrV::TypeError {
                    expected: DiagnosticType::Num,
                    actual: diag_v(val_v(v)),
                }),
            },
        },
{
    match v {
        Value::Num(n) => Result::Ok(n),
        other => Result::Err(
            Error::new(
                ErrorKind::TypeError {
                    expected: DiagnosticType::Num,
                    actual: other.diagnostic(),
                },
            ),
        ),
    }
}


// ------------------------------------------------------------------
// Laws of the evaluator.
// ------------------------------------------------------------------

/// The environment after an outcome contains every name the starting
/// environment had.
pub open spec fn env_grows<A>(env: EnvV, out: Out<A>) -> bool {
    match out {
        Out::Done { env: e2, .. } => forall|k: Seq<char>|
            env.dom().contains(k) ==> e2.dom().contains(k),
        Out::Fail { env: e2, .. } => forall|k: Seq<char>|
            env.dom().contains(k) ==> e2.dom().contains(k),
        Out::Native => true,
    }
}

/// Short-circuit `and`: when the left operand evaluates to a falsy value,
/// the right operand is irrelevant — evaluation returns the left value
/// without ever touching the right expression.
pub proof fn lemma_and_short_circuit(fuel: nat, l: ExprV, r1: ExprV, r2: ExprV, env: EnvV)
    requires
        eval_expr(fuel, l, env) matches Out::Done { a, .. } && !truthy_v(a),
    ensures
        eval_expr(fuel, ExprV::Binary(BinaryOp::And, Box::new(l), Box::new(r1)), env)
            == eval_expr(fuel, ExprV::Binary(BinaryOp::And, Box::new(l), Box::new(r2)), env),
        eval_expr(fuel, ExprV::Binary(BinaryOp::And, Box::new(l), Box::new(r1)), env)
            == eval_expr(fuel, l, env),
{
    let lout = eval_expr(fuel, l, env);
    match lout {
        Out::Done { a: lv, env: env1 } => {
            assert(eval_binary_rhs(fuel, BinaryOp::And, lv, r1, env1) == Out::Done::<ValueV> {
                a: lv,
                env: env1,
            });
            assert(eval_binary_rhs(fuel, BinaryOp::And, lv, r2, env1) == Out::Done::<ValueV> {
                a: lv,
                env: env1,
            });
            assert(eval_expr(fuel, ExprV::Binary(BinaryOp::And, Box::new(l), Box::new(r1)), env)
                == Out::Done::<ValueV> { a: lv, env: env1 });
            assert(eval_expr(fuel, ExprV::Binary(BinaryOp::And, Box::new(l), Box::new(r2)), env)
                == Out::Done::<ValueV> { a: lv, env: env1 });
        },
        _ => {
            assert(false);
        },
    }
}

/// Short-circuit `or`: when the left operand evaluates to a truthy value,
/// the right operand is irrelevant.
pub proof fn lemma_or_short_circuit(fuel: nat, l: ExprV, r1: ExprV, r2: ExprV, env: EnvV)
    requires
        eval_expr(fuel, l, env) matches Out::Done { a, .. } && truthy_v(a),
    ensures
        eval_expr(fuel, ExprV::Binary(BinaryOp::Or, Box::new(l), Box::new(r1)), env)
            == eval_expr(fuel, ExprV::Binary(BinaryOp::Or, Box::new(l), Box::new(r2)), env),
        eval_expr(fuel, ExprV::Binary(BinaryOp::Or, Box::new(l), Box::new(r1)), env)
            == eval_expr(fuel, l, env),
{
    let lout = eval_expr(fuel, l, env);
    match lout {
        Out::Done { a: lv, env: env1 } => {
            assert(eval_binary_rhs(fuel, BinaryOp::Or, lv, r1, env1) == Out::Done::<ValueV> {
                a: lv,
                env: env1,
            });
            assert(eval_binary_rhs(fuel, BinaryOp::Or, lv, r2, env1) == Out::Done::<ValueV> {
                a: lv,
                env: env1,
            });
            assert(eval_expr(fuel, ExprV::Binary(BinaryOp::Or, Box::new(l), Box::new(r1)), env)
                == Out::Done::<ValueV> { a: lv, env: env1 });
            assert(eval_expr(fuel, ExprV::Binary(BinaryOp::Or, Box::new(l), Box::new(r2)), env)
                == Out::Done::<ValueV> { a: lv, env: env1 });
        },
        _ => {
            assert(false);
        },
    }
}

/// Re-binding a name overwrites the earlier binding: lookups after the
/// second binding see only the latest value.
pub proof fn lemma_rebind_last_wins(env: EnvV, name: Seq<char>, v1: ValueV, v2: ValueV)
    ensures
        env.insert(name, v1).insert(name, v2) == env.insert(name, v2),
        env.insert(name, v1).insert(name, v2)[name] == v2,
{
    assert(env.insert(name, v1).insert(name, v2) =~= env.insert(name, v2));
}

/// The discriminant rule of value equality: values of different variants
/// are never equal, and two function values are never equal, even when they
/// are structurally identical.
pub proof fn lemma_eq_discriminants(a: ValueV, b: ValueV)
    ensures
        diag_v(a) != diag_v(b) ==> !val_eq(a, b),
        a is Func && b is Func ==> !val_eq(a, b),
{
}

/// Flat-environment leakage: evaluation never removes a binding, so a name
/// bound inside a block or as a call's parameter stays visible after the
/// block or call returns.
pub proof fn lemma_expr_env_monotonic(fuel: nat, e: ExprV, env: EnvV)
    ensures
        env_grows(env, eval_expr(fuel, e, env)),
    decreases fuel, e, 0int,
{
    match e {
        ExprV::Literal(_) => {},
        ExprV::Identifier(_) => {},
        ExprV::Block(b) => lemma_block_env_monotonic(fuel, b, env),
        ExprV::If(i) => lemma_if_env_monotonic(fuel, *i, env),
        ExprV::Unary(_, rx) => lemma_expr_env_monotonic(fuel, *rx, env),
        ExprV::Binary(op, lx, rx) => {
            lemma_expr_env_monotonic(fuel, *lx, env);
            match eval_expr(fuel, *lx, env) {
                Out::Done { a: lv, env: env1 } => {
                    lemma_binary_rhs_env_monotonic(fuel, op, lv, *rx, env1);
                },
                _ => {},
            }
        },
        ExprV::Call(t, args) => {
            lemma_expr_env_monotonic(fuel, *t, env);
            match eval_expr(fuel, *t, env) {
                Out::Done { a: fv, env: env1 } => {
                    match fv {
                        ValueV::Func(FuncV::User(uf)) => {
                            lemma_bind_args_env_monotonic(fuel, uf.params, args, env1);
                            match eval_bind_args(fuel, uf.params, args, env1) {
                                Out::Done { env: env2, .. } => {
                                    if fuel > 0 {
                                        lemma_expr_env_monotonic(
                                            (fuel - 1) as nat,
                                            uf.body,
                                            env2,
                                        );
                                    }
                                },
                                _ => {},
                            }
                        },
                        ValueV::Func(FuncV::Native(_)) => {
                            lemma_collect_args_env_monotonic(fuel, args, env1);
                        },
                        _ => {},
                    }
                },
                _ => {},
            }
        },
    }
}

proof fn lemma_binary_rhs_env_monotonic(fuel: nat, op: BinaryOp, lv: ValueV, rx: ExprV, env: EnvV)
    ensures
        env_grows(env, eval_binary_rhs(fuel, op, lv, rx, env)),
    decreases fuel, rx, 2int,
{
    lemma_expr_env_monotonic(fuel, rx, env);
}

proof fn lemma_if_env_monotonic(fuel: nat, i: IfExprV, env: EnvV)
    ensures
        env_grows(env, eval_if(fuel, i, env)),
    decreases fuel, i, 0int,
{
    lemma_expr_env_monotonic(fuel, i.condition, env);
    match eval_expr(fuel, i.condition, env) {
        Out::Done { a: c, env: env1 } => {
            if truthy_v(c) {
                lemma_block_env_monotonic(fuel, i.then_block, env1);
            } else {
                match i.else_block {
                    Some(ElseV::Else(b)) => lemma_block_env_monotonic(fuel, b, env1),
                    Some(ElseV::ElseIf(n)) => lemma_if_env_monotonic(fuel, *n, env1),
                    None => {},
                }
            }
        },
        _ => {},
    }
}

proof fn lemma_block_env_monotonic(fuel: nat, b: BlockV, env: EnvV)
    ensures
        env_grows(env, eval_block(fuel, b, env)),
    decreases fuel, b, 0int,
{
    lemma_stmts_env_monotonic(fuel, b.stmts, env);
    match eval_stmts(fuel, b.stmts, env) {
        Out::Done { env: env1, .. } => {
            match b.tail {
                Some(t) => lemma_expr_env_monotonic(fuel, *t, env1),
                None => {},
            }
        },
        _ => {},
    }
}

proof fn lemma_stmts_env_monotonic(fuel: nat, ss: Seq<StmtV>, env: EnvV)
    ensures
        env_grows(env, eval_stmts(fuel, ss, env)),
    decreases fuel, ss, 0int,
{
    if ss.len() > 0 {
        lemma_stmt_env_monotonic(fuel, ss[0], env);
        match eval_stmt(fuel, ss[0], env) {
            Out::Done { env: env1, .. } => {
                lemma_stmts_env_monotonic(fuel, ss.subrange(1, ss.len() as int), env1);
            },
            _ => {},
        }
    }
}

proof fn lemma_stmt_env_monotonic(fuel: nat, s: StmtV, env: EnvV)
    ensures
        env_grows(env, eval_stmt(fuel, s, env)),
    decreases fuel, s, 0int,
{
    match s {
        StmtV::Let(b) => lemma_binding_env_monotonic(fuel, b, env),
        StmtV::Expr(e) => lemma_expr_env_monotonic(fuel, e, env),
    }
}

proof fn lemma_binding_env_monotonic(fuel: nat, b: BindingV, env: EnvV)
    ensures
        env_grows(env, eval_binding(fuel, b, env)),
    decreases fuel, b, 0int,
{
    match b.params {
        Some(_) => {},
        None => lemma_expr_env_monotonic(fuel, b.value, env),
    }
}

proof fn lemma_bind_args_env_monotonic(fuel: nat, ps: Seq<Seq<char>>, args: Seq<ExprV>, env: EnvV)
    ensures
        env_grows(env, eval_bind_args(fuel, ps, args, env)),
    decreases fuel, args, 0int,
{
    if ps.len() > 0 && args.len() > 0 {
        lemma_expr_env_monotonic(fuel, args[0], env);
        match eval_expr(fuel, args[0], env) {
            Out::Done { a: v, env: env1 } => {
                lemma_bind_args_env_monotonic(
                    fuel,
                    ps.subrange(1, ps.len() as int),
                    args.subrange(1, args.len() as int),
                    env1.insert(ps[0], v),
                );
            },
            _ => {},
        }
    }
}

proof fn lemma_collect_args_env_monotonic(fuel: nat, args: Seq<ExprV>, env: EnvV)
    ensures
        env_grows(env, eval_collect_args(fuel, args, env)),
    decreases fuel, args, 0int,
{
    if args.len() > 0 {
        lemma_expr_env_monotonic(fuel, args[0], env);
        match eval_expr(fuel, args[0], env) {
            Out::Done { env: env1, .. } => {
                lemma_collect_args_env_monotonic(
                    fuel,
                    args.subrange(1, args.len() as int),
                    env1,
                );
            },
            _ => {},
        }
    }
}


} // verus!
