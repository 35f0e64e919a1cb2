//! Index suffixes: `[ expr ]`, chained to the left.
use vstd::prelude::*;
use crate::combinator::is_symbol;
use crate::expr;
use crate::grammar::{g_index, g_index_tail};
use crate::id_gen::IdGen;
use crate::token::{Token, ParseResult, advances, extends};
use crate::tree::Expr;

verus! {

/// One `[ expr ]`, giving the index expression.
pub fn parse_index(tokens: &Vec<Token>, pos: usize, id_gen: &mut IdGen) -> (r: ParseResult<Expr>)
    requires
        pos <= tokens.len(),
    ensures
        (r, final(id_gen).uuid) == g_index(tokens@, pos, old(id_gen).uuid),
        advances(r, pos, tokens@.len()),
        old(id_gen).uuid <= final(id_gen).uuid,
    decreases tokens@.len() - pos, 0int,
{
    if !is_symbol(tokens, pos, '[') {
        return Err(pos);
    }
    let (p, index) = match expr::parse(tokens, pos + 1, id_gen) {
        Ok(ok) => ok,
        Err(_) => return Err(pos),
    };
    if is_symbol(tokens, p, ']') {
        Ok((p + 1, index))
    } else {
        Err(pos)
    }
}

/// The index suffixes after `expr`: each makes the expression so far the base
/// of a new array access. Never fails; with no suffix, `expr` comes back as it
/// was, at `pos`.
pub fn parse_tail(tokens: &Vec<Token>, pos: usize, expr: Expr, id_gen: &mut IdGen) -> (r: ParseResult<Expr>)
    requires
        pos <= tokens.len(),
    ensures
        (r, final(id_gen).uuid) == g_index_tail(tokens@, pos, expr, old(id_gen).uuid),
        extends(r, pos, tokens@.len()),
        old(id_gen).uuid <= final(id_gen).uuid,
    decreases tokens@.len() - pos, 1int,
{
    match parse_index(tokens, pos, id_gen) {
        Ok((p, index)) => parse_tail(
            tokens,
            p,
            Expr::ArrayAccess { expr: Box::new(expr), index: Box::new(index) },
            id_gen,
        ),
        Err(_) => Ok((pos, expr)),
    }
}

} // verus!
