//! `for` statements: a foreach is tried first, then a classic for.
use vstd::prelude::*;
use crate::combinator::{is_identifier, is_keyword, is_symbol};
use crate::expr;
use crate::grammar::{g_for, g_for_loop, g_for_rest, g_foreach, g_inits};
use crate::id_gen::IdGen;
use crate::statement;
use crate::token::{Kw, Token, ParseResult, advances, extends};
use crate::tpe;
use crate::tree::{Nodes, StandaloneVariableDeclarator, Statement};

verus! {

/// `type name : expr ) body`, after `for (`.
pub fn parse_foreach(tokens: &Vec<Token>, pos: usize, id_gen: &mut IdGen) -> (r: ParseResult<Statement>)
    requires
        pos <= tokens.len(),
    ensures
        (r, final(id_gen).uuid) == g_foreach(tokens@, pos, old(id_gen).uuid),
        advances(r, pos, tokens@.len()),
        old(id_gen).uuid <= final(id_gen).uuid,
    decreases tokens@.len() - pos, 16int,
{
    let (p, tpe) = match tpe::parse(tokens, pos) {
        Ok(ok) => ok,
        Err(_) => return Err(pos),
    };
    if !(is_identifier(tokens, p) && is_symbol(tokens, p + 1, ':')) {
        return Err(pos);
    }
    let declarator = StandaloneVariableDeclarator { tpe, name: tokens[p].span };
    let (q, e) = match expr::parse(tokens, p + 2, id_gen) {
        Ok(ok) => ok,
        Err(_) => return Err(pos),
    };
    if !is_symbol(tokens, q, ')') {
        return Err(pos);
    }
    match statement::parse_block_or_single_statement(tokens, q + 1, id_gen) {
        Ok((u, block)) => Ok((u, Statement::Foreach { declarator, expr: e, block })),
        Err(_) => Err(pos),
    }
}

/// The initializers of a classic for: one variable declaration, or else
/// comma-separated expressions (possibly none).
pub fn parse_inits(tokens: &Vec<Token>, pos: usize, id_gen: &mut IdGen) -> (r: ParseResult<Nodes<Statement>>)
    requires
        pos <= tokens.len(),
    ensures
        (r, final(id_gen).uuid) == g_inits(tokens@, pos, old(id_gen).uuid),
        extends(r, pos, tokens@.len()),
        old(id_gen).uuid <= final(id_gen).uuid,
    decreases tokens@.len() - pos, 17int,
{
    match statement::parse_declarations(tokens, pos, id_gen) {
        Ok((p, st)) => Ok((p, Nodes::Cons(Box::new(st), Box::new(Nodes::Nil)))),
        Err(_) => statement::parse_expr_stmts(tokens, pos, id_gen),
    }
}

/// `inits ; rest`, after `for (`.
pub fn parse_for_loop(tokens: &Vec<Token>, pos: usize, id_gen: &mut IdGen) -> (r: ParseResult<Statement>)
    requires
        pos <= tokens.len(),
    ensures
        (r, final(id_gen).uuid) == g_for_loop(tokens@, pos, old(id_gen).uuid),
        advances(r, pos, tokens@.len()),
        old(id_gen).uuid <= final(id_gen).uuid,
    decreases tokens@.len() - pos, 18int,
{
    let (p, inits) = match parse_inits(tokens, pos, id_gen) {
        Ok(ok) => ok,
        Err(_) => return Err(pos),
    };
    if !is_symbol(tokens, p, ';') {
        return Err(pos);
    }
    match parse_for_rest(tokens, p + 1, inits, id_gen) {
        Ok(ok) => Ok(ok),
        Err(_) => Err(pos),
    }
}

/// `cond? ; updates ) body`, after the initializers and their `;`.
pub fn parse_for_rest(tokens: &Vec<Token>, pos: usize, inits: Nodes<Statement>, id_gen: &mut IdGen) -> (r: ParseResult<Statement>)
    requires
        pos <= tokens.len(),
    ensures
        (r, final(id_gen).uuid) == g_for_rest(tokens@, pos, inits, old(id_gen).uuid),
        advances(r, pos, tokens@.len()),
        old(id_gen).uuid <= final(id_gen).uuid,
    decreases tokens@.len() - pos, 17int,
{
    let (q, cond_opt) = match expr::parse(tokens, pos, id_gen) {
        Ok((q, c)) => (q, Some(c)),
        Err(_) => (pos, None),
    };
    if !is_symbol(tokens, q, ';') {
        return Err(pos);
    }
    let (u, updates) = match statement::parse_expr_stmts(tokens, q + 1, id_gen) {
        Ok(ok) => ok,
        Err(_) => return Err(pos),
    };
    if !is_symbol(tokens, u, ')') {
        return Err(pos);
    }
    match statement::parse_block_or_single_statement(tokens, u + 1, id_gen) {
        Ok((v, block)) => Ok((v, Statement::ForLoop { inits, cond_opt, updates, block })),
        Err(_) => Err(pos),
    }
}

/// A `for` statement at `pos`: a foreach where one parses, else a classic
/// for; where neither does, the whole statement fails at `pos`.
pub fn parse(tokens: &Vec<Token>, pos: usize, id_gen: &mut IdGen) -> (r: ParseResult<Statement>)
    requires
        pos <= tokens.len(),
    ensures
        (r, final(id_gen).uuid) == g_for(tokens@, pos, old(id_gen).uuid),
        advances(r, pos, tokens@.len()),
        old(id_gen).uuid <= final(id_gen).uuid,
    decreases tokens@.len() - pos, 19int,
{
    if !(is_keyword(tokens, pos, Kw::For) && is_symbol(tokens, pos + 1, '(')) {
        return Err(pos);
    }
    let p = pos + 2;
    match parse_foreach(tokens, p, id_gen) {
        Ok(ok) => return Ok(ok),
        Err(_) => {},
    }
    match parse_for_loop(tokens, p, id_gen) {
        Ok(ok) => Ok(ok),
        Err(_) => Err(pos),
    }
}

} // verus!
