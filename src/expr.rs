//! Expressions: the precedence cascade, from assignment down to the postfix
//! level, and argument lists.
use vstd::prelude::*;
use crate::combinator::{is_keyword, is_symbol, is_symbol2, symbol, symbol2};
use crate::grammar::{expr_at, g_args, g_assignment, g_expr, g_expr_list, g_expr_list_tail, g_level, g_level_tail, g_postfix, spec_op};
use crate::id_gen::IdGen;
use crate::token::{Kw, Span, Token, ParseResult, advances, extends, settles};
use crate::tree::{Expr, Nodes};

pub mod array_access;
pub mod atom;
pub mod lambda;
pub mod parenthesized;
pub mod precedence_9;

verus! {

/// Parses one expression at `pos`.
pub fn parse(tokens: &Vec<Token>, pos: usize, id_gen: &mut IdGen) -> (r: ParseResult<Expr>)
    requires
        pos <= tokens.len(),
    ensures
        (r, final(id_gen).uuid) == g_expr(tokens@, pos, old(id_gen).uuid),
        (r, final(id_gen).uuid) == expr_at(tokens@, pos, old(id_gen).uuid),
        advances(r, pos, tokens@.len()),
        old(id_gen).uuid <= final(id_gen).uuid,
    decreases tokens@.len() - pos, 15int,
{
    proof {
        reveal(expr_at);
    }
    parse_assignment(tokens, pos, id_gen)
}

pub fn parse_assignment(tokens: &Vec<Token>, pos: usize, id_gen: &mut IdGen) -> (r: ParseResult<Expr>)
    requires
        pos <= tokens.len(),
    ensures
        (r, final(id_gen).uuid) == g_assignment(tokens@, pos, old(id_gen).uuid),
        advances(r, pos, tokens@.len()),
        old(id_gen).uuid <= final(id_gen).uuid,
    decreases tokens@.len() - pos, 14int,
{
    let (p, left) = match parse_level(tokens, pos, 0, id_gen) {
        Ok(ok) => ok,
        Err(_) => return Err(pos),
    };
    if is_symbol(tokens, p, '=') && !is_symbol(tokens, p + 1, '=') {
        let operator = tokens[p].span;
        match parse_assignment(tokens, p + 1, id_gen) {
            Ok((q, right)) => Ok(
                (q, Expr::Assignment { assigned: Box::new(left), operator, expr: Box::new(right) }),
            ),
            Err(_) => Ok((p, left)),
        }
    } else {
        Ok((p, left))
    }
}

/// The operator of a binary level at `pos` (see `spec_op` for the levels).
pub fn op(tokens: &Vec<Token>, pos: usize, level: u8) -> (r: ParseResult<Span>)
    requires
        pos <= tokens.len(),
    ensures
        r == spec_op(tokens@, pos, level as nat),
        advances(r, pos, tokens@.len()),
{
    if level == 0 {
        symbol2(tokens, pos, '|', '|')
    } else if level == 1 {
        symbol2(tokens, pos, '&', '&')
    } else if level == 2 {
        if is_symbol2(tokens, pos, '=', '=') {
            symbol2(tokens, pos, '=', '=')
        } else {
            symbol2(tokens, pos, '!', '=')
        }
    } else if level == 3 {
        precedence_9::op(tokens, pos)
    } else if level == 4 {
        if is_symbol2(tokens, pos, '<', '<') {
            symbol2(tokens, pos, '<', '<')
        } else {
            symbol2(tokens, pos, '>', '>')
        }
    } else if level == 5 {
        if is_symbol(tokens, pos, '+') {
            symbol(tokens, pos, '+')
        } else {
            symbol(tokens, pos, '-')
        }
    } else {
        if is_symbol(tokens, pos, '*') {
            symbol(tokens, pos, '*')
        } else if is_symbol(tokens, pos, '/') {
            symbol(tokens, pos, '/')
        } else {
            symbol(tokens, pos, '%')
        }
    }
}

/// One binary level: its left operand from the next level, then the fold.
pub fn parse_level(tokens: &Vec<Token>, pos: usize, level: u8, id_gen: &mut IdGen) -> (r: ParseResult<Expr>)
    requires
        pos <= tokens.len(),
        level <= 7,
    ensures
        (r, final(id_gen).uuid) == g_level(tokens@, pos, level as nat, old(id_gen).uuid),
        advances(r, pos, tokens@.len()),
        old(id_gen).uuid <= final(id_gen).uuid,
    decreases tokens@.len() - pos, if level >= 7 { 6int } else { 13 - level },
{
    if level >= 7 {
        return parse_postfix(tokens, pos, id_gen);
    }
    let (p, left) = match parse_level(tokens, pos, level + 1, id_gen) {
        Ok(ok) => ok,
        Err(_) => return Err(pos),
    };
    match parse_level_tail(tokens, p, level, left, id_gen) {
        Ok(ok) => Ok(ok),
        Err(_) => Err(pos),
    }
}

/// The left-associative fold of one binary level after its first operand.
pub fn parse_level_tail(
    tokens: &Vec<Token>,
    pos: usize,
    level: u8,
    left: Expr,
    id_gen: &mut IdGen,
) -> (r: ParseResult<Expr>)
    requires
        pos <= tokens.len(),
        level < 7,
    ensures
        (r, final(id_gen).uuid) == g_level_tail(tokens@, pos, level as nat, left, old(id_gen).uuid),
        settles(r, pos, tokens@.len()),
        old(id_gen).uuid <= final(id_gen).uuid,
    decreases tokens@.len() - pos, 0int,
{
    let (p, operator) = match op(tokens, pos, level) {
        Ok(ok) => ok,
        Err(_) => return Ok((pos, left)),
    };
    if level == 3 && is_keyword(tokens, pos, Kw::Instanceof) {
        match crate::tpe::parse(tokens, p) {
            Ok((q, tpe)) => Ok((q, Expr::InstanceOf { expr: Box::new(left), operator, tpe })),
            Err(_) => Err(pos),
        }
    } else {
        let (q, right) = match parse_level(tokens, p, level + 1, id_gen) {
            Ok(ok) => ok,
            Err(_) => return Err(pos),
        };
        let folded = Expr::BinaryOperation { left: Box::new(left), operator, right: Box::new(right) };
        match parse_level_tail(tokens, q, level, folded, id_gen) {
            Ok(ok) => Ok(ok),
            Err(_) => Err(pos),
        }
    }
}

/// An atom, then a postfix `++` or `--` written right after it.
pub fn parse_postfix(tokens: &Vec<Token>, pos: usize, id_gen: &mut IdGen) -> (r: ParseResult<Expr>)
    requires
        pos <= tokens.len(),
    ensures
        (r, final(id_gen).uuid) == g_postfix(tokens@, pos, old(id_gen).uuid),
        advances(r, pos, tokens@.len()),
        old(id_gen).uuid <= final(id_gen).uuid,
    decreases tokens@.len() - pos, 5int,
{
    let (p, e) = match atom::parse(tokens, pos, id_gen) {
        Ok(ok) => ok,
        Err(_) => return Err(pos),
    };
    if is_symbol2(tokens, p, '+', '+') || is_symbol2(tokens, p, '-', '-') {
        let operator = tokens[p].span;
        Ok((p + 2, Expr::UnaryOperation { expr: Box::new(e), operator, is_post: true }))
    } else {
        Ok((p, e))
    }
}

/// A parenthesized, comma-separated argument list.
pub fn parse_args(tokens: &Vec<Token>, pos: usize, id_gen: &mut IdGen) -> (r: ParseResult<Nodes<Expr>>)
    requires
        pos <= tokens.len(),
    ensures
        (r, final(id_gen).uuid) == g_args(tokens@, pos, old(id_gen).uuid),
        advances(r, pos, tokens@.len()),
        old(id_gen).uuid <= final(id_gen).uuid,
    decreases tokens@.len() - pos, 0int,
{
    if !is_symbol(tokens, pos, '(') {
        return Err(pos);
    }
    let (p, args) = match parse_expr_list(tokens, pos + 1, id_gen) {
        Ok(ok) => ok,
        Err(_) => return Err(pos),
    };
    if is_symbol(tokens, p, ')') {
        Ok((p + 1, args))
    } else {
        Err(pos)
    }
}

pub fn parse_expr_list(tokens: &Vec<Token>, pos: usize, id_gen: &mut IdGen) -> (r: ParseResult<Nodes<Expr>>)
    requires
        pos <= tokens.len(),
    ensures
        (r, final(id_gen).uuid) == g_expr_list(tokens@, pos, old(id_gen).uuid),
        extends(r, pos, tokens@.len()),
        old(id_gen).uuid <= final(id_gen).uuid,
    decreases tokens@.len() - pos, 16int,
{
    let (p, e) = match parse(tokens, pos, id_gen) {
        Ok(ok) => ok,
        Err(_) => return Ok((pos, Nodes::Nil)),
    };
    match parse_expr_list_tail(tokens, p, id_gen) {
        Ok((q, rest)) => Ok((q, Nodes::Cons(Box::new(e), Box::new(rest)))),
        Err(_) => Ok((pos, Nodes::Nil)),
    }
}

pub fn parse_expr_list_tail(tokens: &Vec<Token>, pos: usize, id_gen: &mut IdGen) -> (r: ParseResult<Nodes<Expr>>)
    requires
        pos <= tokens.len(),
    ensures
        (r, final(id_gen).uuid) == g_expr_list_tail(tokens@, pos, old(id_gen).uuid),
        extends(r, pos, tokens@.len()),
        old(id_gen).uuid <= final(id_gen).uuid,
    decreases tokens@.len() - pos, 0int,
{
    if !is_symbol(tokens, pos, ',') {
        return Ok((pos, Nodes::Nil));
    }
    let (p, e) = match parse(tokens, pos + 1, id_gen) {
        Ok(ok) => ok,
        Err(_) => return Ok((pos, Nodes::Nil)),
    };
    match parse_expr_list_tail(tokens, p, id_gen) {
        Ok((q, rest)) => Ok((q, Nodes::Cons(Box::new(e), Box::new(rest)))),
        Err(_) => Ok((pos, Nodes::Nil)),
    }
}

} // verus!
