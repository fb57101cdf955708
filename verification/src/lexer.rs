//! Tokens of the animation-command scripting language, and the lexer
//! that produces them from source bytes.
//!
//! The token grammar is defined by the specification functions
//! ([`next_token`], [`lex_from`]); the executable lexer is proved to
//! return exactly what they describe. One rule is context dependent: the
//! keyword `rust` opens an escape block, and the lexer captures the host
//! statements between its balanced braces verbatim as a single token.

use vstd::prelude::*;

use crate::bytes::bytes_eq;
use crate::errors::CompileError;

verus! {

/// One token. Identifier-shaped lexemes that are keywords of the
/// statement grammar get their own variants; every other identifier is
/// carried as its bytes.
#[derive(Debug, PartialEq, Eq)]
pub enum Token {
    Ident(Vec<u8>),
    Int(u64),
    Str(Vec<u8>),
    /// The body of an escape block: the bytes between the balanced
    /// braces after the keyword `rust`.
    HostBlock(Vec<u8>),
    KwIf,
    KwElse,
    KwRepeat,
    KwTrue,
    KwFalse,
    LParen,
    RParen,
    LBrace,
    RBrace,
    Comma,
    Semi,
    Assign,
    Dot,
}

/// Mathematical view of [`Token`].
pub enum TokenV {
    Ident(Seq<u8>),
    Int(u64),
    Str(Seq<u8>),
    HostBlock(Seq<u8>),
    KwIf,
    KwElse,
    KwRepeat,
    KwTrue,
    KwFalse,
    LParen,
    RParen,
    LBrace,
    RBrace,
    Comma,
    Semi,
    Assign,
    Dot,
}

impl View for Token {
    type V = TokenV;

    open spec fn view(&self) -> TokenV {
        match self {
            Token::Ident(s) => TokenV::Ident(s@),
            Token::Int(n) => TokenV::Int(*n),
            Token::Str(s) => TokenV::Str(s@),
            Token::HostBlock(s) => TokenV::HostBlock(s@),
            Token::KwIf => TokenV::KwIf,
            Token::KwElse => TokenV::KwElse,
            Token::KwRepeat => TokenV::KwRepeat,
            Token::KwTrue => TokenV::KwTrue,
            Token::KwFalse => TokenV::KwFalse,
            Token::LParen => TokenV::LParen,
            Token::RParen => TokenV::RParen,
            Token::LBrace => TokenV::LBrace,
            Token::RBrace => TokenV::RBrace,
            Token::Comma => TokenV::Comma,
            Token::Semi => TokenV::Semi,
            Token::Assign => TokenV::Assign,
            Token::Dot => TokenV::Dot,
        }
    }
}

/// The views of a token sequence, in order.
pub open spec fn view_tokens(ts: Seq<Token>) -> Seq<TokenV> {
    ts.map(|i: int, t: Token| t@)
}

/// The bytes of `if`.
pub open spec fn kw_if() -> Seq<u8> {
    seq![105u8, 102u8]
}

/// The bytes of `else`.
pub open spec fn kw_else() -> Seq<u8> {
    seq![101u8, 108u8, 115u8, 101u8]
}

/// The bytes of `repeat`.
pub open spec fn kw_repeat() -> Seq<u8> {
    seq![114u8, 101u8, 112u8, 101u8, 97u8, 116u8]
}

/// The bytes of `true`.
pub open spec fn kw_true() -> Seq<u8> {
    seq![116u8, 114u8, 117u8, 101u8]
}

/// The bytes of `false`.
pub open spec fn kw_false() -> Seq<u8> {
    seq![102u8, 97u8, 108u8, 115u8, 101u8]
}

/// The bytes of `rust`.
pub open spec fn kw_rust() -> Seq<u8> {
    seq![114u8, 117u8, 115u8, 116u8]
}

/// Whitespace: space, tab, line feed, carriage return.
pub open spec fn is_ws(c: u8) -> bool {
    c == 32 || c == 9 || c == 10 || c == 13
}

/// An ASCII decimal digit.
pub open spec fn is_digit(c: u8) -> bool {
    48 <= c <= 57
}

/// An ASCII letter.
pub open spec fn is_alpha(c: u8) -> bool {
    (65 <= c <= 90) || (97 <= c <= 122)
}

/// A byte an identifier may start with.
pub open spec fn is_ident_start(c: u8) -> bool {
    is_alpha(c) || c == 95
}

/// A byte an identifier may continue with.
pub open spec fn is_ident_char(c: u8) -> bool {
    is_ident_start(c) || is_digit(c)
}

/// The first position at or after `pos` holding a byte that is not
/// whitespace, or the end of the input.
pub open spec fn skip_ws(s: Seq<u8>, pos: int) -> int
    decreases s.len() - pos,
{
    if 0 <= pos < s.len() && is_ws(s[pos]) {
        skip_ws(s, pos + 1)
    } else {
        pos
    }
}

/// The position right after the identifier starting at `pos`.
pub open spec fn ident_end(s: Seq<u8>, pos: int) -> int
    decreases s.len() - pos,
{
    if 0 <= pos < s.len() && is_ident_char(s[pos]) {
        ident_end(s, pos + 1)
    } else {
        pos
    }
}

/// The position right after the digit run starting at `pos`.
pub open spec fn digits_end(s: Seq<u8>, pos: int) -> int
    decreases s.len() - pos,
{
    if 0 <= pos < s.len() && is_digit(s[pos]) {
        digits_end(s, pos + 1)
    } else {
        pos
    }
}

/// The position of the closing quote at or after `pos`, if any.
pub open spec fn str_end(s: Seq<u8>, pos: int) -> Option<int>
    decreases s.len() - pos,
{
    if !(0 <= pos < s.len()) {
        None
    } else if s[pos] == 34 {
        Some(pos)
    } else {
        str_end(s, pos + 1)
    }
}

/// The position of the brace closing the block that was entered before
/// `pos` and has since opened `depth` further braces, if any.
pub open spec fn brace_end(s: Seq<u8>, pos: int, depth: nat) -> Option<int>
    decreases s.len() - pos,
{
    if !(0 <= pos < s.len()) {
        None
    } else if s[pos] == 125 {
        if depth == 0 {
            Some(pos)
        } else {
            brace_end(s, pos + 1, (depth - 1) as nat)
        }
    } else if s[pos] == 123 {
        brace_end(s, pos + 1, depth + 1)
    } else {
        brace_end(s, pos + 1, depth)
    }
}

/// The value of the digit run `s[p..e)` appended to `acc`, or `None`
/// where the value leaves the 64-bit range.
pub open spec fn lex_u64_from(s: Seq<u8>, p: int, e: int, acc: u64) -> Option<u64>
    decreases e - p,
{
    if p >= e {
        Some(acc)
    } else {
        let d = s[p] - 48;
        if acc * 10 + d > u64::MAX {
            None
        } else {
            lex_u64_from(s, p + 1, e, (acc * 10 + d) as u64)
        }
    }
}

/// The value of the digit run `s[p..e)`.
pub open spec fn lex_u64(s: Seq<u8>, p: int, e: int) -> Option<u64> {
    lex_u64_from(s, p, e, 0)
}

/// The token an identifier-shaped lexeme becomes.
pub open spec fn ident_token(name: Seq<u8>) -> TokenV {
    if name == kw_if() {
        TokenV::KwIf
    } else if name == kw_else() {
        TokenV::KwElse
    } else if name == kw_repeat() {
        TokenV::KwRepeat
    } else if name == kw_true() {
        TokenV::KwTrue
    } else if name == kw_false() {
        TokenV::KwFalse
    } else {
        TokenV::Ident(name)
    }
}

/// The token starting at `pos`, which must hold a non-whitespace byte,
/// and the position right after it. `None` is a lexical error: a byte no
/// token starts with, an unterminated string, an escape block without a
/// brace or with an unbalanced one, or an integer literal out of range.
pub open spec fn next_token(s: Seq<u8>, pos: int) -> Option<(TokenV, int)> {
    let c = s[pos];
    if is_ident_start(c) {
        let e = ident_end(s, pos);
        let name = s.subrange(pos, e);
        if name == kw_rust() {
            let q = skip_ws(s, e);
            if q < s.len() && s[q] == 123 {
                match brace_end(s, q + 1, 0) {
                    Some(m) => Some((TokenV::HostBlock(s.subrange(q + 1, m)), m + 1)),
                    None => None,
                }
            } else {
                None
            }
        } else {
            Some((ident_token(name), e))
        }
    } else if is_digit(c) {
        let e = digits_end(s, pos);
        match lex_u64(s, pos, e) {
            Some(v) => Some((TokenV::Int(v), e)),
            None => None,
        }
    } else if c == 34 {
        match str_end(s, pos + 1) {
            Some(m) => Some((TokenV::Str(s.subrange(pos + 1, m)), m + 1)),
            None => None,
        }
    } else if c == 40 {
        Some((TokenV::LParen, pos + 1))
    } else if c == 41 {
        Some((TokenV::RParen, pos + 1))
    } else if c == 123 {
        Some((TokenV::LBrace, pos + 1))
    } else if c == 125 {
        Some((TokenV::RBrace, pos + 1))
    } else if c == 44 {
        Some((TokenV::Comma, pos + 1))
    } else if c == 59 {
        Some((TokenV::Semi, pos + 1))
    } else if c == 61 {
        Some((TokenV::Assign, pos + 1))
    } else if c == 46 {
        Some((TokenV::Dot, pos + 1))
    } else {
        None
    }
}

/// The tokens of `s` from `pos` on, or `None` on a lexical error.
pub open spec fn lex_from(s: Seq<u8>, pos: int) -> Option<Seq<TokenV>>
    decreases s.len() - pos,
{
    let p = skip_ws(s, pos);
    if p >= s.len() {
        Some(Seq::empty())
    } else {
        match next_token(s, p) {
            None => None,
            Some((t, q)) => if q <= pos || q > s.len() {
                None
            } else {
                match lex_from(s, q) {
                    None => None,
                    Some(rest) => Some(seq![t] + rest),
                }
            },
        }
    }
}

pub proof fn lemma_ident_end_bounds(s: Seq<u8>, pos: int)
    requires
        0 <= pos <= s.len(),
    ensures
        pos <= ident_end(s, pos) <= s.len(),
    decreases s.len() - pos,
{
    if pos < s.len() && is_ident_char(s[pos]) {
        lemma_ident_end_bounds(s, pos + 1);
    }
}

pub proof fn lemma_digits_end_bounds(s: Seq<u8>, pos: int)
    requires
        0 <= pos <= s.len(),
    ensures
        pos <= digits_end(s, pos) <= s.len(),
    decreases s.len() - pos,
{
    if pos < s.len() && is_digit(s[pos]) {
        lemma_digits_end_bounds(s, pos + 1);
    }
}

/// Every byte of the digit run `[pos, digits_end)` is a digit.
pub proof fn lemma_digits_end_range(s: Seq<u8>, pos: int)
    requires
        0 <= pos <= s.len(),
    ensures
        forall|j: int| pos <= j < digits_end(s, pos) ==> is_digit(s[j]),
    decreases s.len() - pos,
{
    if pos < s.len() && is_digit(s[pos]) {
        lemma_digits_end_range(s, pos + 1);
    }
}

/// The bytes of `if`.
pub fn if_bytes() -> (r: Vec<u8>)
    ensures
        r@ == kw_if(),
{
    let mut v: Vec<u8> = Vec::new();
    v.push(105);
    v.push(102);
    proof {
        assert(v@ =~= kw_if());
    }
    v
}

/// The bytes of `else`.
pub fn else_bytes() -> (r: Vec<u8>)
    ensures
        r@ == kw_else(),
{
    let mut v: Vec<u8> = Vec::new();
    v.push(101);
    v.push(108);
    v.push(115);
    v.push(101);
    proof {
        assert(v@ =~= kw_else());
    }
    v
}

/// The bytes of `repeat`.
pub fn repeat_bytes() -> (r: Vec<u8>)
    ensures
        r@ == kw_repeat(),
{
    let mut v: Vec<u8> = Vec::new();
    v.push(114);
    v.push(101);
    v.push(112);
    v.push(101);
    v.push(97);
    v.push(116);
    proof {
        assert(v@ =~= kw_repeat());
    }
    v
}

/// The bytes of `true`.
pub fn true_bytes() -> (r: Vec<u8>)
    ensures
        r@ == kw_true(),
{
    let mut v: Vec<u8> = Vec::new();
    v.push(116);
    v.push(114);
    v.push(117);
    v.push(101);
    proof {
        assert(v@ =~= kw_true());
    }
    v
}

/// The bytes of `false`.
pub fn false_bytes() -> (r: Vec<u8>)
    ensures
        r@ == kw_false(),
{
    let mut v: Vec<u8> = Vec::new();
    v.push(102);
    v.push(97);
    v.push(108);
    v.push(115);
    v.push(101);
    proof {
        assert(v@ =~= kw_false());
    }
    v
}

/// The bytes of `rust`.
pub fn rust_bytes() -> (r: Vec<u8>)
    ensures
        r@ == kw_rust(),
{
    let mut v: Vec<u8> = Vec::new();
    v.push(114);
    v.push(117);
    v.push(115);
    v.push(116);
    proof {
        assert(v@ =~= kw_rust());
    }
    v
}

/// Advance over whitespace.
pub fn scan_ws(src: &Vec<u8>, pos: usize) -> (r: usize)
    requires
        pos <= src@.len(),
    ensures
        r == skip_ws(src@, pos as int),
        pos <= r <= src@.len(),
        r < src@.len() ==> !is_ws(src@[r as int]),
{
    let mut i: usize = pos;
    while i < src.len() && (src[i] == 32 || src[i] == 9 || src[i] == 10 || src[i] == 13)
        invariant
            pos <= i <= src@.len(),
            skip_ws(src@, pos as int) == skip_ws(src@, i as int),
        decreases src@.len() - i,
    {
        i = i + 1;
    }
    i
}

/// Advance over identifier bytes.
fn scan_ident_end(src: &Vec<u8>, pos: usize) -> (r: usize)
    requires
        pos <= src@.len(),
    ensures
        r == ident_end(src@, pos as int),
        pos <= r <= src@.len(),
{
    let mut i: usize = pos;
    while i < src.len() && ((65 <= src[i] && src[i] <= 90) || (97 <= src[i] && src[i] <= 122)
        || src[i] == 95 || (48 <= src[i] && src[i] <= 57))
        invariant
            pos <= i <= src@.len(),
            ident_end(src@, pos as int) == ident_end(src@, i as int),
        decreases src@.len() - i,
    {
        i = i + 1;
    }
    i
}

/// Advance over digits.
fn scan_digits_end(src: &Vec<u8>, pos: usize) -> (r: usize)
    requires
        pos <= src@.len(),
    ensures
        r == digits_end(src@, pos as int),
        pos <= r <= src@.len(),
{
    let mut i: usize = pos;
    while i < src.len() && (48 <= src[i] && src[i] <= 57)
        invariant
            pos <= i <= src@.len(),
            digits_end(src@, pos as int) == digits_end(src@, i as int),
        decreases src@.len() - i,
    {
        i = i + 1;
    }
    i
}

/// Find the closing quote.
fn scan_str_end(src: &Vec<u8>, pos: usize) -> (r: Option<usize>)
    requires
        pos <= src@.len(),
    ensures
        match r {
            Some(m) => str_end(src@, pos as int) == Some(m as int) && pos <= m < src@.len(),
            None => str_end(src@, pos as int) is None,
        },
{
    let mut i: usize = pos;
    while i < src.len()
        invariant
            pos <= i,
            str_end(src@, pos as int) == str_end(src@, i as int),
        decreases src@.len() - i,
    {
        if src[i] == 34 {
            return Some(i);
        }
        i = i + 1;
    }
    None
}

/// Find the brace closing the block entered just before `pos`.
fn scan_brace_end(src: &Vec<u8>, pos: usize) -> (r: Option<usize>)
    requires
        pos <= src@.len(),
    ensures
        match r {
            Some(m) => brace_end(src@, pos as int, 0) == Some(m as int) && pos <= m < src@.len(),
            None => brace_end(src@, pos as int, 0) is None,
        },
{
    let mut i: usize = pos;
    let mut depth: usize = 0;
    while i < src.len()
        invariant
            pos <= i <= src@.len(),
            depth <= i - pos,
            brace_end(src@, pos as int, 0) == brace_end(src@, i as int, depth as nat),
        decreases src@.len() - i,
    {
        let c = src[i];
        if c == 125 {
            if depth == 0 {
                return Some(i);
            }
            depth = depth - 1;
        } else if c == 123 {
            depth = depth + 1;
        }
        i = i + 1;
    }
    None
}

/// Read the integer literal starting at `pos`; its end is the end of the
/// digit run.
fn scan_number(src: &Vec<u8>, pos: usize) -> (r: Option<(u64, usize)>)
    requires
        pos <= src@.len(),
    ensures
        match r {
            Some((v, q)) => {
                &&& q == digits_end(src@, pos as int)
                &&& lex_u64(src@, pos as int, q as int) == Some(v)
                &&& pos <= q <= src@.len()
            },
            None => lex_u64(src@, pos as int, digits_end(src@, pos as int)) is None,
        },
{
    let e = scan_digits_end(src, pos);
    proof {
        lemma_digits_end_range(src@, pos as int);
    }
    let mut acc: u64 = 0;
    let mut i: usize = pos;
    while i < e
        invariant
            pos <= i <= e <= src@.len(),
            e == digits_end(src@, pos as int),
            forall|j: int| pos <= j < e ==> is_digit(src@[j]),
            lex_u64_from(src@, pos as int, e as int, 0) == lex_u64_from(
                src@,
                i as int,
                e as int,
                acc,
            ),
        decreases e - i,
    {
        let d = (src[i] - 48) as u64;
        let wide: u128 = (acc as u128) * 10 + (d as u128);
        if wide > u64::MAX as u128 {
            return None;
        }
        acc = (acc * 10) + d;
        i = i + 1;
    }
    Some((acc, e))
}

/// Read the token starting at `pos`, which holds a non-whitespace byte.
pub fn scan_token(src: &Vec<u8>, pos: usize) -> (r: Result<(Token, usize), CompileError>)
    requires
        pos < src@.len(),
        !is_ws(src@[pos as int]),
    ensures
        match r {
            Ok((t, q)) => {
                &&& next_token(src@, pos as int) == Some((t@, q as int))
                &&& pos < q <= src@.len()
            },
            Err(_) => next_token(src@, pos as int) is None,
        },
{
    let n = src.len();
    let c = src[pos];
    if (65 <= c && c <= 90) || (97 <= c && c <= 122) || c == 95 {
        let e = scan_ident_end(src, pos);
        let name = crate::bytes::copy_range(src, pos, e);
        proof {
            lemma_ident_end_bounds(src@, pos as int + 1);
            assert(ident_end(src@, pos as int) >= pos + 1);
        }
        if bytes_eq(&name, &rust_bytes()) {
            let q = scan_ws(src, e);
            if q < n && src[q] == 123 {
                match scan_brace_end(src, q + 1) {
                    Some(m) => {
                        let content = crate::bytes::copy_range(src, q + 1, m);
                        Ok((Token::HostBlock(content), m + 1))
                    },
                    None => Err(CompileError::UnterminatedEscape { at: q }),
                }
            } else {
                Err(CompileError::EscapeWithoutBlock { at: q })
            }
        } else if bytes_eq(&name, &if_bytes()) {
            Ok((Token::KwIf, e))
        } else if bytes_eq(&name, &else_bytes()) {
            Ok((Token::KwElse, e))
        } else if bytes_eq(&name, &repeat_bytes()) {
            Ok((Token::KwRepeat, e))
        } else if bytes_eq(&name, &true_bytes()) {
            Ok((Token::KwTrue, e))
        } else if bytes_eq(&name, &false_bytes()) {
            Ok((Token::KwFalse, e))
        } else {
            Ok((Token::Ident(name), e))
        }
    } else if 48 <= c && c <= 57 {
        proof {
            lemma_digits_end_bounds(src@, pos as int + 1);
            assert(digits_end(src@, pos as int) >= pos + 1);
        }
        match scan_number(src, pos) {
            Some((v, q)) => Ok((Token::Int(v), q)),
            None => Err(CompileError::IntegerOutOfRange { at: pos }),
        }
    } else if c == 34 {
        match scan_str_end(src, pos + 1) {
            Some(m) => {
                let content = crate::bytes::copy_range(src, pos + 1, m);
                Ok((Token::Str(content), m + 1))
            },
            None => Err(CompileError::UnterminatedString { at: pos }),
        }
    } else if c == 40 {
        Ok((Token::LParen, pos + 1))
    } else if c == 41 {
        Ok((Token::RParen, pos + 1))
    } else if c == 123 {
        Ok((Token::LBrace, pos + 1))
    } else if c == 125 {
        Ok((Token::RBrace, pos + 1))
    } else if c == 44 {
        Ok((Token::Comma, pos + 1))
    } else if c == 59 {
        Ok((Token::Semi, pos + 1))
    } else if c == 61 {
        Ok((Token::Assign, pos + 1))
    } else if c == 46 {
        Ok((Token::Dot, pos + 1))
    } else {
        Err(CompileError::UnexpectedByte { at: pos })
    }
}

/// Tokenize a whole script. Succeeds exactly where the token grammar
/// [`lex_from`] succeeds, and then returns exactly its tokens.
pub fn lex(src: &Vec<u8>) -> (r: Result<Vec<Token>, CompileError>)
    ensures
        match r {
            Ok(toks) => lex_from(src@, 0) == Some(view_tokens(toks@)),
            Err(_) => lex_from(src@, 0) is None,
        },
{
    let mut toks: Vec<Token> = Vec::new();
    let mut pos: usize = 0;
    loop
        invariant
            pos <= src@.len(),
            match lex_from(src@, pos as int) {
                Some(rest) => lex_from(src@, 0) == Some(view_tokens(toks@) + rest),
                None => lex_from(src@, 0) is None,
            },
        decreases src@.len() - pos,
    {
        let p = scan_ws(src, pos);
        if p >= src.len() {
            proof {
                assert(lex_from(src@, pos as int) == Some(Seq::<TokenV>::empty()));
                assert(view_tokens(toks@) + Seq::<TokenV>::empty() =~= view_tokens(toks@));
            }
            return Ok(toks);
        }
        match scan_token(src, p) {
            Err(e) => {
                proof {
                    assert(lex_from(src@, pos as int) is None);
                }
                return Err(e);
            },
            Ok((t, q)) => {
                let ghost old_toks = toks@;
                let ghost tv = t@;
                toks.push(t);
                proof {
                    assert(view_tokens(toks@) =~= view_tokens(old_toks) + seq![tv]);
                    let lq = lex_from(src@, q as int);
                    if lq is Some {
                        let rest2 = lq->0;
                        assert(lex_from(src@, pos as int) == Some(seq![tv] + rest2));
                        assert(view_tokens(old_toks) + (seq![tv] + rest2) =~= (view_tokens(
                            old_toks,
                        ) + seq![tv]) + rest2);
                    } else {
                        assert(lex_from(src@, pos as int) is None);
                    }
                }
                pos = q;
            },
        }
    }
}

} // verus!
