use vstd::prelude::*;
use crate::token::{Kw, Span, Token, TokenKind, ParseResult, advances};

verus! {

/// `pos` holds a token, and the position after it is a `usize` too.
pub open spec fn has_token(s: Seq<Token>, pos: usize) -> bool {
    pos < s.len() && pos < usize::MAX
}

pub open spec fn sym_at(s: Seq<Token>, pos: usize, c: char) -> bool {
    has_token(s, pos) && s[pos as int].kind == TokenKind::Symbol(c)
}

pub open spec fn kw_at(s: Seq<Token>, pos: usize, k: Kw) -> bool {
    has_token(s, pos) && s[pos as int].kind == TokenKind::Keyword(k)
}

pub open spec fn ident_at(s: Seq<Token>, pos: usize) -> bool {
    has_token(s, pos) && s[pos as int].kind == TokenKind::Identifier
}

/// The symbols `c1` and `c2` at `pos`, written with no space between them.
pub open spec fn sym2_at(s: Seq<Token>, pos: usize, c1: char, c2: char) -> bool {
    sym_at(s, pos, c1) && sym_at(s, (pos + 1) as usize, c2) && s[pos + 1].span.line
        == s[pos as int].span.line && s[pos + 1].span.col == s[pos as int].span.col + 1
}

/// The symbol `c` at `pos`.
pub open spec fn spec_symbol(s: Seq<Token>, pos: usize, c: char) -> ParseResult<Span> {
    if sym_at(s, pos, c) {
        Ok(((pos + 1) as usize, s[pos as int].span))
    } else {
        Err(pos)
    }
}

/// The symbols `c1` and `c2` at `pos`, written with no space between them.
pub open spec fn spec_symbol2(s: Seq<Token>, pos: usize, c1: char, c2: char) -> ParseResult<Span> {
    if sym2_at(s, pos, c1, c2) {
        Ok(((pos + 2) as usize, s[pos as int].span))
    } else {
        Err(pos)
    }
}

/// The keyword `k` at `pos`.
pub open spec fn spec_keyword(s: Seq<Token>, pos: usize, k: Kw) -> ParseResult<Span> {
    if kw_at(s, pos, k) {
        Ok(((pos + 1) as usize, s[pos as int].span))
    } else {
        Err(pos)
    }
}

/// An identifier at `pos`.
pub open spec fn spec_identifier(s: Seq<Token>, pos: usize) -> ParseResult<Span> {
    if ident_at(s, pos) {
        Ok(((pos + 1) as usize, s[pos as int].span))
    } else {
        Err(pos)
    }
}

pub fn symbol(tokens: &Vec<Token>, pos: usize, c: char) -> (r: ParseResult<Span>)
    requires
        pos <= tokens.len(),
    ensures
        r == spec_symbol(tokens@, pos, c),
        advances(r, pos, tokens@.len()),
{
    if pos < tokens.len() {
        match tokens[pos].kind {
            TokenKind::Symbol(d) => {
                if d == c {
                    return Ok((pos + 1, tokens[pos].span));
                }
            },
            _ => {},
        }
    }
    Err(pos)
}

pub fn symbol2(tokens: &Vec<Token>, pos: usize, c1: char, c2: char) -> (r: ParseResult<Span>)
    requires
        pos <= tokens.len(),
    ensures
        r == spec_symbol2(tokens@, pos, c1, c2),
        advances(r, pos, tokens@.len()),
{
    if pos < tokens.len() && pos + 1 < tokens.len() {
        let a = tokens[pos];
        let b = tokens[pos + 1];
        match (a.kind, b.kind) {
            (TokenKind::Symbol(d1), TokenKind::Symbol(d2)) => {
                if d1 == c1 && d2 == c2 && b.span.line == a.span.line && a.span.col < usize::MAX
                    && b.span.col == a.span.col + 1 {
                    return Ok((pos + 2, a.span));
                }
            },
            _ => {},
        }
    }
    Err(pos)
}

pub fn keyword(tokens: &Vec<Token>, pos: usize, k: Kw) -> (r: ParseResult<Span>)
    requires
        pos <= tokens.len(),
    ensures
        r == spec_keyword(tokens@, pos, k),
        advances(r, pos, tokens@.len()),
{
    if pos < tokens.len() {
        match tokens[pos].kind {
            TokenKind::Keyword(j) => {
                if j == k {
                    return Ok((pos + 1, tokens[pos].span));
                }
            },
            _ => {},
        }
    }
    Err(pos)
}

pub fn identifier(tokens: &Vec<Token>, pos: usize) -> (r: ParseResult<Span>)
    requires
        pos <= tokens.len(),
    ensures
        r == spec_identifier(tokens@, pos),
        advances(r, pos, tokens@.len()),
{
    if pos < tokens.len() {
        match tokens[pos].kind {
            TokenKind::Identifier => {
                return Ok((pos + 1, tokens[pos].span));
            },
            _ => {},
        }
    }
    Err(pos)
}

pub fn is_symbol(tokens: &Vec<Token>, pos: usize, c: char) -> (r: bool)
    ensures
        r == sym_at(tokens@, pos, c),
{
    if pos < tokens.len() {
        match tokens[pos].kind {
            TokenKind::Symbol(d) => d == c,
            _ => false,
        }
    } else {
        false
    }
}

pub fn is_symbol2(tokens: &Vec<Token>, pos: usize, c1: char, c2: char) -> (r: bool)
    ensures
        r == sym2_at(tokens@, pos, c1, c2),
{
    if pos < tokens.len() && pos + 1 < tokens.len() && is_symbol(tokens, pos, c1) && is_symbol(
        tokens,
        pos + 1,
        c2,
    ) {
        let a = tokens[pos].span;
        let b = tokens[pos + 1].span;
        b.line == a.line && a.col < usize::MAX && b.col == a.col + 1
    } else {
        false
    }
}

pub fn is_keyword(tokens: &Vec<Token>, pos: usize, k: Kw) -> (r: bool)
    ensures
        r == kw_at(tokens@, pos, k),
{
    if pos < tokens.len() {
        match tokens[pos].kind {
            TokenKind::Keyword(j) => j == k,
            _ => false,
        }
    } else {
        false
    }
}

pub fn is_identifier(tokens: &Vec<Token>, pos: usize) -> (r: bool)
    ensures
        r == ident_at(tokens@, pos),
{
    if pos < tokens.len() {
        match tokens[pos].kind {
            TokenKind::Identifier => true,
            _ => false,
        }
    } else {
        false
    }
}

} // verus!
