//! Lambdas: a parameter list, `->`, then an expression.
use vstd::prelude::*;
use crate::combinator::{is_identifier, is_symbol, is_symbol2};
use crate::expr;
use crate::grammar::{g_lambda, spec_param, spec_params, spec_params_tail};
use crate::id_gen::IdGen;
use crate::token::{Token, ParseResult, advances, extends};
use crate::tpe;
use crate::tree::{Expr, Nodes, Param};

verus! {

pub fn parse_param(tokens: &Vec<Token>, pos: usize) -> (r: ParseResult<Param>)
    requires
        pos <= tokens.len(),
    ensures
        r == spec_param(tokens@, pos),
        advances(r, pos, tokens@.len()),
{
    match tpe::parse(tokens, pos) {
        Ok((p, t)) => {
            if is_identifier(tokens, p) {
                return Ok((p + 1, Param { tpe_opt: Some(t), name: tokens[p].span }));
            }
        },
        Err(_) => {},
    }
    if is_identifier(tokens, pos) {
        Ok((pos + 1, Param { tpe_opt: None, name: tokens[pos].span }))
    } else {
        Err(pos)
    }
}

pub fn parse_params(tokens: &Vec<Token>, pos: usize) -> (r: ParseResult<Nodes<Param>>)
    requires
        pos <= tokens.len(),
    ensures
        r == spec_params(tokens@, pos),
        extends(r, pos, tokens@.len()),
{
    let (p, first) = match parse_param(tokens, pos) {
        Ok(ok) => ok,
        Err(_) => return Ok((pos, Nodes::Nil)),
    };
    match parse_params_tail(tokens, p) {
        Ok((q, rest)) => Ok((q, Nodes::Cons(Box::new(first), Box::new(rest)))),
        Err(_) => Ok((pos, Nodes::Nil)),
    }
}

pub fn parse_params_tail(tokens: &Vec<Token>, pos: usize) -> (r: ParseResult<Nodes<Param>>)
    requires
        pos <= tokens.len(),
    ensures
        r == spec_params_tail(tokens@, pos),
        extends(r, pos, tokens@.len()),
    decreases tokens@.len() - pos,
{
    if !is_symbol(tokens, pos, ',') {
        return Ok((pos, Nodes::Nil));
    }
    let (p, param) = match parse_param(tokens, pos + 1) {
        Ok(ok) => ok,
        Err(_) => return Ok((pos, Nodes::Nil)),
    };
    match parse_params_tail(tokens, p) {
        Ok((q, rest)) => Ok((q, Nodes::Cons(Box::new(param), Box::new(rest)))),
        Err(_) => Ok((pos, Nodes::Nil)),
    }
}

/// A lambda at `pos`, stamped with a fresh identifier drawn once its
/// parameters and arrow have parsed: one above the allocator's value, which
/// the contract gives through `g_lambda`. Once the allocator is exhausted no
/// lambda parses.
pub fn parse(tokens: &Vec<Token>, pos: usize, id_gen: &mut IdGen) -> (r: ParseResult<Expr>)
    requires
        pos <= tokens.len(),
    ensures
        (r, final(id_gen).uuid) == g_lambda(tokens@, pos, old(id_gen).uuid),
        advances(r, pos, tokens@.len()),
        old(id_gen).uuid <= final(id_gen).uuid,
    decreases tokens@.len() - pos, 1int,
{
    let (p, params) = if is_identifier(tokens, pos) {
        let param = Param { tpe_opt: None, name: tokens[pos].span };
        (pos + 1, Nodes::Cons(Box::new(param), Box::new(Nodes::Nil)))
    } else if is_symbol(tokens, pos, '(') {
        match parse_params(tokens, pos + 1) {
            Ok((q, params)) => {
                if !is_symbol(tokens, q, ')') {
                    return Err(pos);
                }
                (q + 1, params)
            },
            Err(_) => return Err(pos),
        }
    } else {
        return Err(pos);
    };
    if !is_symbol2(tokens, p, '-', '>') || id_gen.uuid == u64::MAX {
        return Err(pos);
    }
    let b = p + 2;
    let id = id_gen.next();
    match expr::parse(tokens, b, id_gen) {
        Ok((q, e)) => Ok((q, Expr::Lambda { id, params, body: Box::new(e) })),
        Err(_) => Err(pos),
    }
}

} // verus!
