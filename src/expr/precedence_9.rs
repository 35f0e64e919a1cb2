//! The relational level: `<=`, `>=`, `<`, `>` and `instanceof`.
use vstd::prelude::*;
use crate::combinator::{is_keyword, is_symbol, is_symbol2, keyword, symbol, symbol2};
use crate::expr;
use crate::grammar::{g_level, g_level_tail, spec_op};
use crate::id_gen::IdGen;
use crate::token::{Kw, Span, Token, ParseResult, advances, settles};
use crate::tree::Expr;

verus! {

/// A relational operator at `pos`. The two-symbol forms come first; a lone
/// `<` or `>` counts only where it does not start `<<` or `>>`.
pub fn op(tokens: &Vec<Token>, pos: usize) -> (r: ParseResult<Span>)
    requires
        pos <= tokens.len(),
    ensures
        r == spec_op(tokens@, pos, 3),
        advances(r, pos, tokens@.len()),
{
    if is_symbol2(tokens, pos, '<', '=') {
        symbol2(tokens, pos, '<', '=')
    } else if is_symbol2(tokens, pos, '>', '=') {
        symbol2(tokens, pos, '>', '=')
    } else if is_symbol(tokens, pos, '<') && !is_symbol(tokens, pos + 1, '<') {
        symbol(tokens, pos, '<')
    } else if is_symbol(tokens, pos, '>') && !is_symbol(tokens, pos + 1, '>') {
        symbol(tokens, pos, '>')
    } else if is_keyword(tokens, pos, Kw::Instanceof) {
        keyword(tokens, pos, Kw::Instanceof)
    } else {
        Err(pos)
    }
}

/// The relational operators and operands after `left`. An `instanceof` takes
/// a type as its right side and ends the fold.
pub fn parse_tail(left: Expr, tokens: &Vec<Token>, pos: usize, id_gen: &mut IdGen) -> (r: ParseResult<Expr>)
    requires
        pos <= tokens.len(),
    ensures
        (r, final(id_gen).uuid) == g_level_tail(tokens@, pos, 3, left, old(id_gen).uuid),
        settles(r, pos, tokens@.len()),
        old(id_gen).uuid <= final(id_gen).uuid,
{
    expr::parse_level_tail(tokens, pos, 3, left, id_gen)
}

/// A relational expression at `pos`.
pub fn parse(tokens: &Vec<Token>, pos: usize, id_gen: &mut IdGen) -> (r: ParseResult<Expr>)
    requires
        pos <= tokens.len(),
    ensures
        (r, final(id_gen).uuid) == g_level(tokens@, pos, 3, old(id_gen).uuid),
        advances(r, pos, tokens@.len()),
        old(id_gen).uuid <= final(id_gen).uuid,
{
    expr::parse_level(tokens, pos, 3, id_gen)
}

} // verus!
