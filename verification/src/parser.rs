//! The statement parser of the animation-command scripting language.
//!
//! Three nested grammars: statements, expressions as arguments, and
//! argument-name bindings. The grammar is defined by the specification
//! functions (`p_stmt`, `p_expr`, `p_arg`, ...); the executable parser is
//! proved to succeed exactly where they do and to return exactly the
//! statement tree they describe. A malformed construct aborts with a
//! diagnostic naming its position; no partial tree is produced.

use vstd::prelude::*;

use crate::ast::{
    AcmdBlock, AcmdFuncCall, AcmdInput, AcmdStatement, ArgExpr, ArgV, BlockV, CallV, Expr, ExprV,
    InputV, StmtV,
};
use crate::bytes::clone_bytes;
use crate::errors::CompileError;
use crate::lexer::{view_tokens, Token, TokenV};

verus! {

/// An argument or condition expression: one atomic token.
pub open spec fn p_expr(t: Seq<TokenV>, i: int) -> Option<(ExprV, int)> {
    if 0 <= i < t.len() {
        match t[i] {
            TokenV::Int(n) => Some((ExprV::Int(n), i + 1)),
            TokenV::KwTrue => Some((ExprV::Bool(true), i + 1)),
            TokenV::KwFalse => Some((ExprV::Bool(false), i + 1)),
            TokenV::Ident(name) => Some((ExprV::Ident(name), i + 1)),
            TokenV::Str(s) => Some((ExprV::Str(s), i + 1)),
            _ => None,
        }
    } else {
        None
    }
}

/// One argument: a `name =` binding if an identifier is directly
/// followed by `=`, then the argument expression.
pub open spec fn p_arg(t: Seq<TokenV>, i: int) -> Option<(ArgV, int)> {
    if 0 <= i && i + 1 < t.len() && (t[i] is Ident) && (t[i + 1] is Assign) {
        match (t[i], p_expr(t, i + 2)) {
            (TokenV::Ident(nm), Some((e, j))) => Some((ArgV { name: Some(nm), expr: e }, j)),
            _ => None,
        }
    } else {
        match p_expr(t, i) {
            Some((e, j)) => Some((ArgV { name: None, expr: e }, j)),
            None => None,
        }
    }
}

/// The comma-separated argument list after the opening parenthesis, up to
/// and including the closing one; a trailing comma is allowed.
pub open spec fn p_args(t: Seq<TokenV>, i: int) -> Option<(Seq<ArgV>, int)>
    decreases t.len() - i, 0int,
{
    if !(0 <= i < t.len()) {
        None
    } else if t[i] is RParen {
        Some((Seq::empty(), i + 1))
    } else {
        match p_arg(t, i) {
            None => None,
            Some((a, j)) => if !(i < j && j < t.len()) {
                None
            } else if t[j] is Comma {
                match p_args(t, j + 1) {
                    None => None,
                    Some((rest, k)) => Some((seq![a] + rest, k)),
                }
            } else if t[j] is RParen {
                Some((seq![a], j + 1))
            } else {
                None
            },
        }
    }
}

/// A possibly qualified callee name: identifiers separated by dots.
pub open spec fn p_path(t: Seq<TokenV>, i: int) -> Option<(Seq<Seq<u8>>, int)>
    decreases t.len() - i, 0int,
{
    if !(0 <= i < t.len()) {
        None
    } else {
        match t[i] {
            TokenV::Ident(nm) => if i + 1 < t.len() && t[i + 1] is Dot {
                match p_path(t, i + 2) {
                    None => None,
                    Some((rest, j)) => Some((seq![nm] + rest, j)),
                }
            } else {
                Some((seq![nm], i + 1))
            },
            _ => None,
        }
    }
}

/// A function call: name, parenthesised arguments, optional semicolon.
pub open spec fn p_call(t: Seq<TokenV>, i: int) -> Option<(CallV, int)> {
    match p_path(t, i) {
        None => None,
        Some((path, j)) => if j < t.len() && t[j] is LParen {
            match p_args(t, j + 1) {
                None => None,
                Some((args, k)) => if k < t.len() && t[k] is Semi {
                    Some((CallV { path, args }, k + 1))
                } else {
                    Some((CallV { path, args }, k))
                },
            }
        } else {
            None
        },
    }
}

/// One statement, dispatched on its first token.
pub open spec fn p_stmt(t: Seq<TokenV>, i: int) -> Option<(StmtV, int)>
    decreases t.len() - i, 1int,
{
    if !(0 <= i < t.len()) {
        None
    } else if t[i] is KwIf {
        p_if(t, i)
    } else if t[i] is KwRepeat {
        p_repeat(t, i)
    } else {
        match t[i] {
            TokenV::HostBlock(src) => Some((StmtV::Rust { host: src }, i + 1)),
            _ => match p_call(t, i) {
                None => None,
                Some((c, j)) => Some((StmtV::Call(c), j)),
            },
        }
    }
}

/// A conditional: `if ( cond ) block` with an optional `else block`.
pub open spec fn p_if(t: Seq<TokenV>, i: int) -> Option<(StmtV, int)>
    decreases t.len() - i, 0int,
{
    if !(0 <= i && i + 1 < t.len() && t[i + 1] is LParen) {
        None
    } else {
        match p_expr(t, i + 2) {
            None => None,
            Some((cond, j)) => if !(i + 2 < j && j < t.len() && t[j] is RParen) {
                None
            } else {
                match p_block(t, j + 1) {
                    None => None,
                    Some((then_block, k)) => if k < t.len() && t[k] is KwElse {
                        if !(i < k) {
                            None
                        } else {
                            match p_block(t, k + 1) {
                                None => None,
                                Some((else_block, m)) => Some(
                                    (
                                        StmtV::If {
                                            cond,
                                            then_block,
                                            else_block: Some(else_block),
                                        },
                                        m,
                                    ),
                                ),
                            }
                        }
                    } else {
                        Some((StmtV::If { cond, then_block, else_block: None }, k))
                    },
                }
            },
        }
    }
}

/// A counted loop: `repeat ( count ) block`.
pub open spec fn p_repeat(t: Seq<TokenV>, i: int) -> Option<(StmtV, int)>
    decreases t.len() - i, 0int,
{
    if !(0 <= i && i + 1 < t.len() && t[i + 1] is LParen) {
        None
    } else {
        match p_expr(t, i + 2) {
            None => None,
            Some((count, j)) => if !(i + 2 < j && j < t.len() && t[j] is RParen) {
                None
            } else {
                match p_block(t, j + 1) {
                    None => None,
                    Some((body, k)) => Some((StmtV::Repeat { count, body }, k)),
                }
            },
        }
    }
}

/// The statements up to and including the closing brace.
pub open spec fn p_stmts(t: Seq<TokenV>, i: int) -> Option<(Seq<StmtV>, int)>
    decreases t.len() - i, 2int,
{
    if !(0 <= i < t.len()) {
        None
    } else if t[i] is RBrace {
        Some((Seq::empty(), i + 1))
    } else {
        match p_stmt(t, i) {
            None => None,
            Some((s, j)) => if !(i < j && j <= t.len()) {
                None
            } else {
                match p_stmts(t, j) {
                    None => None,
                    Some((rest, k)) => Some((seq![s] + rest, k)),
                }
            },
        }
    }
}

/// A braced block of statements.
pub open spec fn p_block(t: Seq<TokenV>, i: int) -> Option<(BlockV, int)>
    decreases t.len() - i, 3int,
{
    if 0 <= i < t.len() && t[i] is LBrace {
        match p_stmts(t, i + 1) {
            None => None,
            Some((ss, j)) => Some((BlockV { stmts: ss }, j)),
        }
    } else {
        None
    }
}

/// A whole input: an optional interpreter-state expression and comma,
/// then the top-level block, with nothing after it.
pub open spec fn p_input(t: Seq<TokenV>) -> Option<InputV> {
    if t.len() == 0 {
        None
    } else if t[0] is LBrace {
        match p_block(t, 0) {
            None => None,
            Some((b, j)) => if j == t.len() {
                Some(InputV { state: None, block: b })
            } else {
                None
            },
        }
    } else {
        match p_expr(t, 0) {
            None => None,
            Some((st, j)) => if j < t.len() && t[j] is Comma {
                match p_block(t, j + 1) {
                    None => None,
                    Some((b, k)) => if k == t.len() {
                        Some(InputV { state: Some(st), block: b })
                    } else {
                        None
                    },
                }
            } else {
                None
            },
        }
    }
}

/// Parse one atomic expression.
pub fn parse_expr(toks: &Vec<Token>, i: usize) -> (r: Result<(Expr, usize), CompileError>)
    requires
        i <= toks@.len(),
    ensures
        match r {
            Ok((e, j)) => {
                &&& p_expr(view_tokens(toks@), i as int) == Some((e@, j as int))
                &&& i < j <= toks@.len()
            },
            Err(_) => p_expr(view_tokens(toks@), i as int) is None,
        },
{
    if i < toks.len() {
        match &toks[i] {
            Token::Int(n) => Ok((Expr::Int(*n), i + 1)),
            Token::KwTrue => Ok((Expr::Bool(true), i + 1)),
            Token::KwFalse => Ok((Expr::Bool(false), i + 1)),
            Token::Ident(nm) => Ok((Expr::Ident(clone_bytes(nm)), i + 1)),
            Token::Str(s) => Ok((Expr::Str(clone_bytes(s)), i + 1)),
            _ => Err(CompileError::UnexpectedToken { at: i }),
        }
    } else {
        Err(CompileError::UnexpectedEnd)
    }
}

/// Parse one argument, with its optional name binding.
pub fn parse_arg(toks: &Vec<Token>, i: usize) -> (r: Result<(ArgExpr, usize), CompileError>)
    requires
        i <= toks@.len(),
    ensures
        match r {
            Ok((a, j)) => {
                &&& p_arg(view_tokens(toks@), i as int) == Some((a@, j as int))
                &&& i < j <= toks@.len()
            },
            Err(_) => p_arg(view_tokens(toks@), i as int) is None,
        },
{
    let n = toks.len();
    if i < n && i + 1 < n {
        let named = match (&toks[i], &toks[i + 1]) {
            (Token::Ident(_), Token::Assign) => true,
            _ => false,
        };
        if named {
            let nm = match &toks[i] {
                Token::Ident(nm) => clone_bytes(nm),
                _ => Vec::new(),
            };
            let (e, j) = match parse_expr(toks, i + 2) {
                Ok(x) => x,
                Err(er) => {
                    return Err(er);
                },
            };
            return Ok((ArgExpr { name: Some(nm), expr: e }, j));
        }
    }
    match parse_expr(toks, i) {
        Ok((e, j)) => Ok((ArgExpr { name: None, expr: e }, j)),
        Err(er) => Err(er),
    }
}

/// Parse the argument list up to and including the closing parenthesis.
pub fn parse_args(toks: &Vec<Token>, i: usize) -> (r: Result<(Vec<ArgExpr>, usize), CompileError>)
    requires
        i <= toks@.len(),
    ensures
        match r {
            Ok((args, j)) => {
                &&& p_args(view_tokens(toks@), i as int) == Some(
                    (crate::ast::view_args(args@), j as int),
                )
                &&& i < j <= toks@.len()
            },
            Err(_) => p_args(view_tokens(toks@), i as int) is None,
        },
    decreases toks@.len() - i,
{
    if i >= toks.len() {
        return Err(CompileError::UnexpectedEnd);
    }
    if matches!(&toks[i], Token::RParen) {
        let empty: Vec<ArgExpr> = Vec::new();
        proof {
            assert(crate::ast::view_args(empty@) =~= Seq::<ArgV>::empty());
        }
        return Ok((empty, i + 1));
    }
    let (a, j) = match parse_arg(toks, i) {
        Ok(x) => x,
        Err(er) => {
            return Err(er);
        },
    };
    let ghost av = a@;
    if j < toks.len() && matches!(&toks[j], Token::Comma) {
        let (mut rest, k) = match parse_args(toks, j + 1) {
            Ok(x) => x,
            Err(er) => {
                return Err(er);
            },
        };
        let ghost rv = rest@;
        rest.insert(0, a);
        proof {
            assert(crate::ast::view_args(rest@) =~= seq![av] + crate::ast::view_args(rv));
        }
        Ok((rest, k))
    } else if j < toks.len() && matches!(&toks[j], Token::RParen) {
        let mut one: Vec<ArgExpr> = Vec::new();
        one.push(a);
        proof {
            assert(crate::ast::view_args(one@) =~= seq![av]);
        }
        Ok((one, j + 1))
    } else if j >= toks.len() {
        Err(CompileError::UnexpectedEnd)
    } else {
        Err(CompileError::UnexpectedToken { at: j })
    }
}

/// Parse a possibly qualified callee name.
pub fn parse_path(toks: &Vec<Token>, i: usize) -> (r: Result<(Vec<Vec<u8>>, usize), CompileError>)
    requires
        i <= toks@.len(),
    ensures
        match r {
            Ok((path, j)) => {
                &&& p_path(view_tokens(toks@), i as int) == Some(
                    (crate::ast::view_segs(path@), j as int),
                )
                &&& i < j <= toks@.len()
            },
            Err(_) => p_path(view_tokens(toks@), i as int) is None,
        },
    decreases toks@.len() - i,
{
    if i >= toks.len() {
        return Err(CompileError::UnexpectedEnd);
    }
    match &toks[i] {
        Token::Ident(nm) => {
            let seg = clone_bytes(nm);
            let ghost sv = seg@;
            if i + 1 < toks.len() && matches!(&toks[i + 1], Token::Dot) {
                let (mut rest, j) = match parse_path(toks, i + 2) {
                    Ok(x) => x,
                    Err(er) => {
                        return Err(er);
                    },
                };
                let ghost rv = rest@;
                rest.insert(0, seg);
                proof {
                    assert(crate::ast::view_segs(rest@) =~= seq![sv] + crate::ast::view_segs(rv));
                }
                Ok((rest, j))
            } else {
                let mut one: Vec<Vec<u8>> = Vec::new();
                one.push(seg);
                proof {
                    assert(crate::ast::view_segs(one@) =~= seq![sv]);
                }
                Ok((one, i + 1))
            }
        },
        _ => Err(CompileError::UnexpectedToken { at: i }),
    }
}

/// Parse a function call.
pub fn parse_call(toks: &Vec<Token>, i: usize) -> (r: Result<(AcmdFuncCall, usize), CompileError>)
    requires
        i <= toks@.len(),
    ensures
        match r {
            Ok((c, j)) => {
                &&& p_call(view_tokens(toks@), i as int) == Some((c@, j as int))
                &&& i < j <= toks@.len()
            },
            Err(_) => p_call(view_tokens(toks@), i as int) is None,
        },
{
    let (path, j) = match parse_path(toks, i) {
        Ok(x) => x,
        Err(er) => {
            return Err(er);
        },
    };
    if j < toks.len() && matches!(&toks[j], Token::LParen) {
        let (args, k) = match parse_args(toks, j + 1) {
            Ok(x) => x,
            Err(er) => {
                return Err(er);
            },
        };
        if k < toks.len() && matches!(&toks[k], Token::Semi) {
            Ok((AcmdFuncCall { path, args }, k + 1))
        } else {
            Ok((AcmdFuncCall { path, args }, k))
        }
    } else if j >= toks.len() {
        Err(CompileError::UnexpectedEnd)
    } else {
        Err(CompileError::UnexpectedToken { at: j })
    }
}

/// Parse one statement.
pub fn parse_stmt(toks: &Vec<Token>, i: usize) -> (r: Result<(AcmdStatement, usize), CompileError>)
    requires
        i <= toks@.len(),
    ensures
        match r {
            Ok((s, j)) => {
                &&& p_stmt(view_tokens(toks@), i as int) == Some((s@, j as int))
                &&& i < j <= toks@.len()
            },
            Err(_) => p_stmt(view_tokens(toks@), i as int) is None,
        },
    decreases toks@.len() - i, 1int,
{
    if i >= toks.len() {
        return Err(CompileError::UnexpectedEnd);
    }
    if matches!(&toks[i], Token::KwIf) {
        parse_if(toks, i)
    } else if matches!(&toks[i], Token::KwRepeat) {
        parse_repeat(toks, i)
    } else {
        match &toks[i] {
            Token::HostBlock(src) => Ok(
                (AcmdStatement::Rust { host: clone_bytes(src) }, i + 1),
            ),
            _ => match parse_call(toks, i) {
                Ok((c, j)) => Ok((AcmdStatement::Call(c), j)),
                Err(er) => Err(er),
            },
        }
    }
}

/// Parse a conditional.
pub fn parse_if(toks: &Vec<Token>, i: usize) -> (r: Result<(AcmdStatement, usize), CompileError>)
    requires
        i <= toks@.len(),
    ensures
        match r {
            Ok((s, j)) => {
                &&& p_if(view_tokens(toks@), i as int) == Some((s@, j as int))
                &&& i < j <= toks@.len()
            },
            Err(_) => p_if(view_tokens(toks@), i as int) is None,
        },
    decreases toks@.len() - i, 0int,
{
    let n = toks.len();
    if !(i < n && i + 1 < n && matches!(&toks[i + 1], Token::LParen)) {
        if i >= n || i + 1 >= n {
            return Err(CompileError::UnexpectedEnd);
        }
        return Err(CompileError::UnexpectedToken { at: i + 1 });
    }
    let (cond, j) = match parse_expr(toks, i + 2) {
        Ok(x) => x,
        Err(er) => {
            return Err(er);
        },
    };
    if !(j < toks.len() && matches!(&toks[j], Token::RParen)) {
        if j >= toks.len() {
            return Err(CompileError::UnexpectedEnd);
        }
        return Err(CompileError::UnexpectedToken { at: j });
    }
    let (then_block, k) = match parse_block(toks, j + 1) {
        Ok(x) => x,
        Err(er) => {
            return Err(er);
        },
    };
    if k < toks.len() && matches!(&toks[k], Token::KwElse) {
        let (else_block, m) = match parse_block(toks, k + 1) {
            Ok(x) => x,
            Err(er) => {
                return Err(er);
            },
        };
        Ok((AcmdStatement::If { cond, then_block, else_block: Some(else_block) }, m))
    } else {
        Ok((AcmdStatement::If { cond, then_block, else_block: None }, k))
    }
}

/// Parse a counted loop.
pub fn parse_repeat(toks: &Vec<Token>, i: usize) -> (r: Result<
    (AcmdStatement, usize),
    CompileError,
>)
    requires
        i <= toks@.len(),
    ensures
        match r {
            Ok((s, j)) => {
                &&& p_repeat(view_tokens(toks@), i as int) == Some((s@, j as int))
                &&& i < j <= toks@.len()
            },
            Err(_) => p_repeat(view_tokens(toks@), i as int) is None,
        },
    decreases toks@.len() - i, 0int,
{
    let n = toks.len();
    if !(i < n && i + 1 < n && matches!(&toks[i + 1], Token::LParen)) {
        if i >= n || i + 1 >= n {
            return Err(CompileError::UnexpectedEnd);
        }
        return Err(CompileError::UnexpectedToken { at: i + 1 });
    }
    let (count, j) = match parse_expr(toks, i + 2) {
        Ok(x) => x,
        Err(er) => {
            return Err(er);
        },
    };
    if !(j < toks.len() && matches!(&toks[j], Token::RParen)) {
        if j >= toks.len() {
            return Err(CompileError::UnexpectedEnd);
        }
        return Err(CompileError::UnexpectedToken { at: j });
    }
    let (body, k) = match parse_block(toks, j + 1) {
        Ok(x) => x,
        Err(er) => {
            return Err(er);
        },
    };
    Ok((AcmdStatement::Repeat { count, body }, k))
}

/// Parse statements up to and including the closing brace.
pub fn parse_stmts(toks: &Vec<Token>, i: usize) -> (r: Result<
    (Vec<AcmdStatement>, usize),
    CompileError,
>)
    requires
        i <= toks@.len(),
    ensures
        match r {
            Ok((ss, j)) => {
                &&& p_stmts(view_tokens(toks@), i as int) == Some(
                    (crate::ast::view_stmts(ss@), j as int),
                )
                &&& i < j <= toks@.len()
            },
            Err(_) => p_stmts(view_tokens(toks@), i as int) is None,
        },
    decreases toks@.len() - i, 2int,
{
    if i >= toks.len() {
        return Err(CompileError::UnexpectedEnd);
    }
    if matches!(&toks[i], Token::RBrace) {
        let empty: Vec<AcmdStatement> = Vec::new();
        proof {
            assert(crate::ast::view_stmts(empty@) =~= Seq::<StmtV>::empty());
        }
        return Ok((empty, i + 1));
    }
    let (s, j) = match parse_stmt(toks, i) {
        Ok(x) => x,
        Err(er) => {
            return Err(er);
        },
    };
    let ghost sv = s@;
    let (mut rest, k) = match parse_stmts(toks, j) {
        Ok(x) => x,
        Err(er) => {
            return Err(er);
        },
    };
    let ghost rv = rest@;
    rest.insert(0, s);
    proof {
        assert(rest@.drop_first() =~= rv);
        assert(crate::ast::view_stmts(rest@) == seq![sv] + crate::ast::view_stmts(rv));
    }
    Ok((rest, k))
}

/// Parse a braced block.
pub fn parse_block(toks: &Vec<Token>, i: usize) -> (r: Result<(AcmdBlock, usize), CompileError>)
    requires
        i <= toks@.len(),
    ensures
        match r {
            Ok((b, j)) => {
                &&& p_block(view_tokens(toks@), i as int) == Some((b@, j as int))
                &&& i < j <= toks@.len()
            },
            Err(_) => p_block(view_tokens(toks@), i as int) is None,
        },
    decreases toks@.len() - i, 3int,
{
    if i < toks.len() && matches!(&toks[i], Token::LBrace) {
        match parse_stmts(toks, i + 1) {
            Ok((ss, j)) => Ok((AcmdBlock { stmts: ss }, j)),
            Err(er) => Err(er),
        }
    } else if i >= toks.len() {
        Err(CompileError::UnexpectedEnd)
    } else {
        Err(CompileError::UnexpectedToken { at: i })
    }
}

/// Parse a whole input. Succeeds exactly where the grammar [`p_input`]
/// succeeds, and then returns exactly the statement tree it describes.
pub fn parse(toks: &Vec<Token>) -> (r: Result<AcmdInput, CompileError>)
    ensures
        match r {
            Ok(inp) => p_input(view_tokens(toks@)) == Some(inp@),
            Err(_) => p_input(view_tokens(toks@)) is None,
        },
{
    if toks.len() == 0 {
        return Err(CompileError::UnexpectedEnd);
    }
    if matches!(&toks[0], Token::LBrace) {
        let (b, j) = match parse_block(toks, 0) {
            Ok(x) => x,
            Err(er) => {
                return Err(er);
            },
        };
        if j == toks.len() {
            Ok(AcmdInput { state: None, block: b })
        } else {
            Err(CompileError::UnexpectedToken { at: j })
        }
    } else {
        let (st, j) = match parse_expr(toks, 0) {
            Ok(x) => x,
            Err(er) => {
                return Err(er);
            },
        };
        if j < toks.len() && matches!(&toks[j], Token::Comma) {
            let (b, k) = match parse_block(toks, j + 1) {
                Ok(x) => x,
                Err(er) => {
                    return Err(er);
                },
            };
            if k == toks.len() {
                Ok(AcmdInput { state: Some(st), block: b })
            } else {
                Err(CompileError::UnexpectedToken { at: k })
            }
        } else if j >= toks.len() {
            Err(CompileError::UnexpectedEnd)
        } else {
            Err(CompileError::UnexpectedToken { at: j })
        }
    }
}

} // verus!
