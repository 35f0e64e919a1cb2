//! `( expr )`: the parentheses leave no node of their own.
use vstd::prelude::*;
use crate::combinator::is_symbol;
use crate::expr;
use crate::expr::array_access;
use crate::grammar::g_paren;
use crate::id_gen::IdGen;
use crate::token::{Token, ParseResult, advances};
use crate::tree::Expr;

verus! {

/// `( expr )` and the index suffixes after it; gives the inner expression.
pub fn parse(tokens: &Vec<Token>, pos: usize, id_gen: &mut IdGen) -> (r: ParseResult<Expr>)
    requires
        pos <= tokens.len(),
    ensures
        (r, final(id_gen).uuid) == g_paren(tokens@, pos, old(id_gen).uuid),
        advances(r, pos, tokens@.len()),
        old(id_gen).uuid <= final(id_gen).uuid,
    decreases tokens@.len() - pos, 2int,
{
    if !is_symbol(tokens, pos, '(') {
        return Err(pos);
    }
    let (p, e) = match expr::parse(tokens, pos + 1, id_gen) {
        Ok(ok) => ok,
        Err(_) => return Err(pos),
    };
    if !is_symbol(tokens, p, ')') {
        return Err(pos);
    }
    match array_access::parse_tail(tokens, p + 1, e, id_gen) {
        Ok(ok) => Ok(ok),
        Err(_) => Err(pos),
    }
}

} // verus!
