//! The abstract syntax tree: the node types the parser produces and the
//! evaluator walks, their mathematical views, and verified deep copies.
//!
//! Each node type has a ghost mirror (suffix `V`) whose collections are
//! `Seq`s and whose strings are `Seq<char>`s; every contract in the crate
//! speaks of nodes through these views.
use vstd::prelude::*;

verus! {

/// A parsed program: the ordered statements handed from the parser to the
/// evaluator.
pub type Program = Vec<Stmt>;

#[derive(Debug)]
pub enum Stmt {
    Let(Binding),
    Expr(Expr),
}

#[derive(Debug)]
pub struct Binding {
    pub pattern: Pattern,
    /// Present for a function definition: the ordered parameter patterns.
    /// Absent for a plain variable binding.
    pub arguments: Option<Vec<Pattern>>,
    pub value: Expr,
}

#[derive(Clone, Debug)]
pub struct Pattern(pub Identifier);

#[derive(Debug)]
pub enum Expr {
    Block(Block),
    Call(Call),
    If(Box<IfExpr>),
    Binary(Box<BinaryExpr>),
    Unary(Box<UnaryExpr>),
    Literal(Literal),
    Identifier(Identifier),
}

#[derive(Debug)]
pub struct Block(pub Vec<Stmt>, pub Option<Box<Expr>>);

#[derive(Debug)]
pub struct Call {
    pub target: Box<Expr>,
    pub arguments: Vec<Expr>,
}

#[derive(Debug)]
pub struct IfExpr {
    pub condition: Expr,
    pub then_block: Block,
    pub else_block: Option<ElseBlock>,
}

#[derive(Debug)]
pub enum ElseBlock {
    ElseIf(Box<IfExpr>),
    Else(Block),
}

#[derive(Debug)]
pub struct BinaryExpr {
    pub lhs: Expr,
    pub op: BinaryOp,
    pub rhs: Expr,
}

#[derive(Clone, Copy, Debug, PartialEq, Eq, Structural)]
pub enum BinaryOp {
    Or,
    And,
    NotEq,
    Eq,
    Greater,
    GreaterEq,
    Less,
    LessEq,
    Subtract,
    Add,
    Divide,
    Multiply,
}

#[derive(Debug)]
pub struct UnaryExpr {
    pub op: UnaryOp,
    pub rhs: Expr,
}

#[derive(Clone, Copy, Debug, PartialEq, Eq, Structural)]
pub enum UnaryOp {
    Not,
    Negate,
}

#[derive(Clone, Debug)]
pub enum Literal {
    Bool(bool),
    /// The IEEE-754 double-precision bit pattern of the numeric literal.
    Number(u64),
    Str(String),
    Nil,
}

#[derive(Clone, Debug, PartialEq, Eq, Hash)]
pub struct Identifier {
    pub name: String,
    /// A resolved stack slot for future optimization; unresolved by default.
    pub stack_index: Option<usize>,
}

impl Identifier {
    pub fn new(name: String) -> (r: Self)
        ensures
            r.name == name,
            r.stack_index is None,
    {
        Self { name, stack_index: None }
    }

    pub fn resolve(self, stack_index: usize) -> (r: Self)
        ensures
            r.name == self.name,
            r.stack_index == Some(stack_index),
    {
        Self { name: self.name, stack_index: Some(stack_index) }
    }

    pub fn deep_copy(&self) -> (r: Self)
        ensures
            r == *self,
    {
        Self { name: self.name.clone(), stack_index: self.stack_index }
    }
}

// ------------------------------------------------------------------
// Mathematical views of the tree.
// ------------------------------------------------------------------

pub enum StmtV {
    Let(BindingV),
    Expr(ExprV),
}

pub struct BindingV {
    pub pattern: Seq<char>,
    pub params: Option<Seq<Seq<char>>>,
    pub value: ExprV,
}

pub enum ExprV {
    Block(BlockV),
    Call(Box<ExprV>, Seq<ExprV>),
    If(Box<IfExprV>),
    Binary(BinaryOp, Box<ExprV>, Box<ExprV>),
    Unary(UnaryOp, Box<ExprV>),
    Literal(LiteralV),
    Identifier(Seq<char>),
}

pub struct BlockV {
    pub stmts: Seq<StmtV>,
    pub tail: Option<Box<ExprV>>,
}

pub struct IfExprV {
    pub condition: ExprV,
    pub then_block: BlockV,
    pub else_block: Option<ElseV>,
}

pub enum ElseV {
    ElseIf(Box<IfExprV>),
    Else(BlockV),
}

pub enum LiteralV {
    Bool(bool),
    Num(u64),
    Str(Seq<char>),
    Nil,
}

pub open spec fn pattern_v(p: Pattern) -> Seq<char> {
    p.0.name@
}

pub open spec fn patterns_v(ps: Seq<Pattern>) -> Seq<Seq<char>> {
    Seq::new(ps.len(), |i: int| pattern_v(ps[i]))
}

pub open spec fn lit_v(l: Literal) -> LiteralV {
    match l {
        Literal::Bool(b) => LiteralV::Bool(b),
        Literal::Number(n) => LiteralV::Num(n),
        Literal::Str(s) => LiteralV::Str(s@),
        Literal::Nil => LiteralV::Nil,
    }
}

pub open spec fn expr_v(e: Expr) -> ExprV
    decreases e,
{
    match e {
        Expr::Block(b) => ExprV::Block(block_v(b)),
        Expr::Call(c) => ExprV::Call(Box::new(expr_v(*c.target)), exprs_v(c.arguments@)),
        Expr::If(i) => ExprV::If(Box::new(if_v(*i))),
        Expr::Binary(b) => ExprV::Binary((*b).op, Box::new(expr_v((*b).lhs)), Box::new(expr_v((*b).rhs))),
        Expr::Unary(u) => ExprV::Unary((*u).op, Box::new(expr_v((*u).rhs))),
        Expr::Literal(l) => ExprV::Literal(lit_v(l)),
        Expr::Identifier(i) => ExprV::Identifier(i.name@),
    }
}

pub open spec fn exprs_v(es: Seq<Expr>) -> Seq<ExprV>
    decreases es,
{
    Seq::new(
        es.len(),
        |i: int|
            if 0 <= i < es.len() {
                expr_v(es[i])
            } else {
                // outside the sequence; never reached
                ExprV::Literal(LiteralV::Nil)
            },
    )
}

pub open spec fn block_v(b: Block) -> BlockV
    decreases b,
{
    BlockV {
        stmts: stmts_v(b.0@),
        tail: match b.1 {
            Some(e) => Some(Box::new(expr_v(*e))),
            None => None,
        },
    }
}

pub open spec fn stmts_v(ss: Seq<Stmt>) -> Seq<StmtV>
    decreases ss,
{
    Seq::new(
        ss.len(),
        |i: int|
            if 0 <= i < ss.len() {
                stmt_v(ss[i])
            } else {
                // outside the sequence; never reached
                StmtV::Expr(ExprV::Literal(LiteralV::Nil))
            },
    )
}

pub open spec fn stmt_v(s: Stmt) -> StmtV
    decreases s,
{
    match s {
        Stmt::Let(b) => StmtV::Let(binding_v(b)),
        Stmt::Expr(e) => StmtV::Expr(expr_v(e)),
    }
}

pub open spec fn binding_v(b: Binding) -> BindingV
    decreases b,
{
    BindingV {
        pattern: pattern_v(b.pattern),
        params: match b.arguments {
            Some(ps) => Some(patterns_v(ps@)),
            None => None,
        },
        value: expr_v(b.value),
    }
}

pub open spec fn if_v(i: IfExpr) -> IfExprV
    decreases i,
{
    IfExprV {
        condition: expr_v(i.condition),
        then_block: block_v(i.then_block),
        else_block: match i.else_block {
            Some(ElseBlock::ElseIf(n)) => Some(ElseV::ElseIf(Box::new(if_v(*n)))),
            Some(ElseBlock::Else(b)) => Some(ElseV::Else(block_v(b))),
            None => None,
        },
    }
}

// ------------------------------------------------------------------
// Verified deep copies: the evaluator stores subtrees by value.
// ------------------------------------------------------------------

impl Pattern {
    pub fn deep_copy(&self) -> (r: Self)
        ensures
            r == *self,
    {
        Pattern(self.0.deep_copy())
    }
}

pub fn copy_patterns(v: &Vec<Pattern>) -> (r: Vec<Pattern>)
    ensures
        r@ == v@,
{
    let mut out: Vec<Pattern> = Vec::new();
    let mut i: usize = 0;
    while i < v.len()
        invariant
            i <= v.len(),
            out@ =~= v@.subrange(0, i as int),
        decreases v@.len() - i,
    {
        out.push(v[i].deep_copy());
        i += 1;
    }
    proof {
        assert(out@ =~= v@);
    }
    out
}

impl Literal {
    pub fn deep_copy(&self) -> (r: Self)
        ensures
            lit_v(r) == lit_v(*self),
    {
        match self {
            Literal::Bool(b) => Literal::Bool(*b),
            Literal::Number(n) => Literal::Number(*n),
            Literal::Str(s) => Literal::Str(s.clone()),
            Literal::Nil => Literal::Nil,
        }
    }
}

impl Expr {
    pub fn deep_copy(&self) -> (r: Self)
        ensures
            expr_v(r) == expr_v(*self),
        decreases *self,
    {
        match self {
            Expr::Block(b) => Expr::Block(b.deep_copy()),
            Expr::Call(c) => Expr::Call(c.deep_copy()),
            Expr::If(i) => Expr::If(Box::new((**i).deep_copy())),
            Expr::Binary(b) => Expr::Binary(
                Box::new(
                    BinaryExpr {
                        lhs: (**b).lhs.deep_copy(),
                        op: (**b).op,
                        rhs: (**b).rhs.deep_copy(),
                    },
                ),
            ),
            Expr::Unary(u) => Expr::Unary(
                Box::new(UnaryExpr { op: (**u).op, rhs: (**u).rhs.deep_copy() }),
            ),
            Expr::Literal(l) => Expr::Literal(l.deep_copy()),
            Expr::Identifier(i) => Expr::Identifier(i.deep_copy()),
        }
    }
}

pub fn copy_exprs(v: &Vec<Expr>) -> (r: Vec<Expr>)
    ensures
        exprs_v(r@) == exprs_v(v@),
    decreases v@,
{
    let mut out: Vec<Expr> = Vec::new();
    let mut i: usize = 0;
    while i < v.len()
        invariant
            i <= v.len(),
            out@.len() == i,
            forall|j: int| 0 <= j < i ==> expr_v(#[trigger] out@[j]) == expr_v(v@[j]),
        decreases v@.len() - i,
    {
        proof {
            assert(decreases_to!(v@ => v@[i as int]));
        }
        out.push(v[i].deep_copy());
        i += 1;
    }
    proof {
        assert(exprs_v(out@) =~= exprs_v(v@));
    }
    out
}

impl Stmt {
    pub fn deep_copy(&self) -> (r: Self)
        ensures
            stmt_v(r) == stmt_v(*self),
        decreases *self,
    {
        match self {
            Stmt::Let(b) => Stmt::Let(b.deep_copy()),
            Stmt::Expr(e) => Stmt::Expr(e.deep_copy()),
        }
    }
}

pub fn copy_stmts(v: &Vec<Stmt>) -> (r: Vec<Stmt>)
    ensures
        stmts_v(r@) == stmts_v(v@),
    decreases v@,
{
    let mut out: Vec<Stmt> = Vec::new();
    let mut i: usize = 0;
    while i < v.len()
        invariant
            i <= v.len(),
            out@.len() == i,
            forall|j: int| 0 <= j < i ==> stmt_v(#[trigger] out@[j]) == stmt_v(v@[j]),
        decreases v@.len() - i,
    {
        proof {
            assert(decreases_to!(v@ => v@[i as int]));
        }
        out.push(v[i].deep_copy());
        i += 1;
    }
    proof {
        assert(stmts_v(out@) =~= stmts_v(v@));
    }
    out
}

impl Binding {
    pub fn deep_copy(&self) -> (r: Self)
        ensures
            binding_v(r) == binding_v(*self),
        decreases *self,
    {
        let arguments = match &self.arguments {
            Some(ps) => Some(copy_patterns(ps)),
            None => None,
        };
        Binding { pattern: self.pattern.deep_copy(), arguments, value: self.value.deep_copy() }
    }
}

impl Block {
    pub fn deep_copy(&self) -> (r: Self)
        ensures
            block_v(r) == block_v(*self),
        decreases *self,
    {
        let tail = match &self.1 {
            Some(e) => Some(Box::new((**e).deep_copy())),
            None => None,
        };
        Block(copy_stmts(&self.0), tail)
    }
}

impl Call {
    pub fn deep_copy(&self) -> (r: Self)
        ensures
            expr_v(Expr::Call(r)) == expr_v(Expr::Call(*self)),
        decreases *self,
    {
        Call { target: Box::new((*self.target).deep_copy()), arguments: copy_exprs(&self.arguments) }
    }
}

impl IfExpr {
    pub fn deep_copy(&self) -> (r: Self)
        ensures
            if_v(r) == if_v(*self),
        decreases *self,
    {
        let else_block = match &self.else_block {
            Some(ElseBlock::ElseIf(n)) => Some(ElseBlock::ElseIf(Box::new((**n).deep_copy()))),
            Some(ElseBlock::Else(b)) => Some(ElseBlock::Else(b.deep_copy())),
            None => None,
        };
        IfExpr {
            condition: self.condition.deep_copy(),
            then_block: self.then_block.deep_copy(),
            else_block,
        }
    }
}

} // verus!
