//! The statement tree of the animation-command scripting language.
//!
//! A script is an ordered block of statements; order is semantically
//! significant and the compiler never reorders them. Each executable type
//! has a mathematical view (`ExprV`, `StmtV`, ...) over `Seq`, which the
//! contracts of the lexer, parser and lowering pass speak about.

use vstd::prelude::*;

verus! {

/// An argument or condition expression. The language keeps expressions
/// atomic: a literal, or an identifier resolved by the host when the
/// lowered script runs.
#[derive(Debug, PartialEq, Eq)]
pub enum Expr {
    /// An unsigned integer literal.
    Int(u64),
    /// A boolean literal.
    Bool(bool),
    /// An identifier, left for the host to resolve.
    Ident(Vec<u8>),
    /// A string literal, without its quotes.
    Str(Vec<u8>),
}

/// One argument of a function call: an optional binding name and the
/// argument expression itself.
#[derive(Debug, PartialEq, Eq)]
pub struct ArgExpr {
    pub name: Option<Vec<u8>>,
    pub expr: Expr,
}

/// A function call: a possibly qualified name (its segments, in order)
/// and the ordered argument list.
#[derive(Debug, PartialEq, Eq)]
pub struct AcmdFuncCall {
    pub path: Vec<Vec<u8>>,
    pub args: Vec<ArgExpr>,
}

/// One statement of the scripting language.
#[derive(Debug, PartialEq, Eq)]
pub enum AcmdStatement {
    /// A function call.
    Call(AcmdFuncCall),
    /// A conditional; a missing else-branch still lowers to an empty,
    /// structurally present arm.
    If { cond: Expr, then_block: AcmdBlock, else_block: Option<AcmdBlock> },
    /// A counted loop; the count is evaluated once per entry.
    Repeat { count: Expr, body: AcmdBlock },
    /// An escape block: verbatim host statements, spliced through
    /// untranslated.
    Rust { host: Vec<u8> },
}

/// An ordered sequence of statements.
#[derive(Debug, PartialEq, Eq)]
pub struct AcmdBlock {
    pub stmts: Vec<AcmdStatement>,
}

/// A whole compiler input: an optional interpreter-state expression (absent
/// when the block is spliced into an already initialised context) and the
/// top-level block.
#[derive(Debug, PartialEq, Eq)]
pub struct AcmdInput {
    pub state: Option<Expr>,
    pub block: AcmdBlock,
}

/// Mathematical view of [`Expr`].
pub enum ExprV {
    Int(u64),
    Bool(bool),
    Ident(Seq<u8>),
    Str(Seq<u8>),
}

/// Mathematical view of [`ArgExpr`].
pub struct ArgV {
    pub name: Option<Seq<u8>>,
    pub expr: ExprV,
}

/// Mathematical view of [`AcmdFuncCall`].
pub struct CallV {
    pub path: Seq<Seq<u8>>,
    pub args: Seq<ArgV>,
}

/// Mathematical view of [`AcmdStatement`].
pub enum StmtV {
    Call(CallV),
    If { cond: ExprV, then_block: BlockV, else_block: Option<BlockV> },
    Repeat { count: ExprV, body: BlockV },
    Rust { host: Seq<u8> },
}

/// Mathematical view of [`AcmdBlock`].
pub struct BlockV {
    pub stmts: Seq<StmtV>,
}

/// Mathematical view of [`AcmdInput`].
pub struct InputV {
    pub state: Option<ExprV>,
    pub block: BlockV,
}

pub open spec fn view_expr(e: Expr) -> ExprV {
    match e {
        Expr::Int(n) => ExprV::Int(n),
        Expr::Bool(b) => ExprV::Bool(b),
        Expr::Ident(id) => ExprV::Ident(id@),
        Expr::Str(s) => ExprV::Str(s@),
    }
}

pub open spec fn view_arg(a: ArgExpr) -> ArgV {
    ArgV {
        name: match a.name {
            Some(n) => Some(n@),
            None => None,
        },
        expr: view_expr(a.expr),
    }
}

/// The views of a name's segments, in order.
pub open spec fn view_segs(ss: Seq<Vec<u8>>) -> Seq<Seq<u8>> {
    ss.map(|i: int, seg: Vec<u8>| seg@)
}

/// The views of an argument list, in order.
pub open spec fn view_args(aa: Seq<ArgExpr>) -> Seq<ArgV> {
    aa.map(|i: int, a: ArgExpr| view_arg(a))
}

pub open spec fn view_call(c: AcmdFuncCall) -> CallV {
    CallV { path: view_segs(c.path@), args: view_args(c.args@) }
}

pub open spec fn view_stmt(s: AcmdStatement) -> StmtV
    decreases s,
{
    match s {
        AcmdStatement::Call(c) => StmtV::Call(view_call(c)),
        AcmdStatement::If { cond, then_block, else_block } => StmtV::If {
            cond: view_expr(cond),
            then_block: view_block(then_block),
            else_block: match else_block {
                Some(b) => Some(view_block(b)),
                None => None,
            },
        },
        AcmdStatement::Repeat { count, body } => StmtV::Repeat {
            count: view_expr(count),
            body: view_block(body),
        },
        AcmdStatement::Rust { host } => StmtV::Rust { host: host@ },
    }
}

pub open spec fn view_stmts(ss: Seq<AcmdStatement>) -> Seq<StmtV>
    decreases ss,
{
    if ss.len() == 0 {
        Seq::empty()
    } else {
        seq![view_stmt(ss[0])] + view_stmts(ss.drop_first())
    }
}

pub open spec fn view_block(b: AcmdBlock) -> BlockV
    decreases b,
{
    BlockV { stmts: view_stmts(b.stmts@) }
}

pub open spec fn view_input(inp: AcmdInput) -> InputV {
    InputV {
        state: match inp.state {
            Some(e) => Some(view_expr(e)),
            None => None,
        },
        block: view_block(inp.block),
    }
}

/// `view_stmts` maps the sequence elementwise.
pub proof fn lemma_view_stmts(ss: Seq<AcmdStatement>)
    ensures
        view_stmts(ss).len() == ss.len(),
        forall|i: int|
            0 <= i < ss.len() ==> #[trigger] view_stmts(ss)[i] == view_stmt(ss[i]),
    decreases ss,
{
    if ss.len() != 0 {
        lemma_view_stmts(ss.drop_first());
    }
}

/// Copy a qualified name; the copy has the same view.
pub fn clone_path(p: &Vec<Vec<u8>>) -> (r: Vec<Vec<u8>>)
    ensures
        view_segs(r@) == view_segs(p@),
{
    let mut out: Vec<Vec<u8>> = Vec::new();
    let mut i: usize = 0;
    while i < p.len()
        invariant
            i <= p@.len(),
            out@.len() == i,
            forall|j: int| 0 <= j < i ==> #[trigger] out@[j]@ == p@[j]@,
        decreases p@.len() - i,
    {
        out.push(crate::bytes::clone_bytes(&p[i]));
        i = i + 1;
    }
    proof {
        assert(view_segs(out@) =~= view_segs(p@));
    }
    out
}

/// Copy an expression; the copy has the same view.
pub fn clone_expr(e: &Expr) -> (r: Expr)
    ensures
        r@ == e@,
{
    match e {
        Expr::Int(n) => Expr::Int(*n),
        Expr::Bool(b) => Expr::Bool(*b),
        Expr::Ident(id) => Expr::Ident(crate::bytes::clone_bytes(id)),
        Expr::Str(s) => Expr::Str(crate::bytes::clone_bytes(s)),
    }
}

impl View for Expr {
    type V = ExprV;

    open spec fn view(&self) -> ExprV {
        view_expr(*self)
    }
}

impl View for ArgExpr {
    type V = ArgV;

    open spec fn view(&self) -> ArgV {
        view_arg(*self)
    }
}

impl View for AcmdFuncCall {
    type V = CallV;

    open spec fn view(&self) -> CallV {
        view_call(*self)
    }
}

impl View for AcmdStatement {
    type V = StmtV;

    open spec fn view(&self) -> StmtV {
        view_stmt(*self)
    }
}

impl View for AcmdBlock {
    type V = BlockV;

    open spec fn view(&self) -> BlockV {
        view_block(*self)
    }
}

impl View for AcmdInput {
    type V = InputV;

    open spec fn view(&self) -> InputV {
        view_input(*self)
    }
}

} // verus!
