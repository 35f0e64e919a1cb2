//! Statements: blocks, declarations, `return`, expression statements, and the
//! `for` and class forms of the submodules.
use vstd::prelude::*;
use crate::combinator::{is_identifier, is_keyword, is_symbol};
use crate::expr;
use crate::grammar::{
    g_block, g_block_or_single, g_declarations, g_declarators, g_declarations_stmt, g_declarator,
    g_declarators_tail, g_expr_stmt, g_expr_stmts, g_expr_stmts_tail, g_return, g_statement,
    g_statements,
};
use crate::id_gen::IdGen;
use crate::token::{Kw, Token, ParseResult, advances, extends};
use crate::tpe;
use crate::tree::{Block, Nodes, Statement, Type, VariableDeclarator};

pub mod class;
pub mod for_loop;

verus! {

/// One statement at `pos`, trying in order: a block, `for`, `return`, a class
/// declaration, a variable declaration, an expression statement.
pub fn parse(tokens: &Vec<Token>, pos: usize, id_gen: &mut IdGen) -> (r: ParseResult<Statement>)
    requires
        pos <= tokens.len(),
    ensures
        (r, final(id_gen).uuid) == g_statement(tokens@, pos, old(id_gen).uuid),
        advances(r, pos, tokens@.len()),
        old(id_gen).uuid <= final(id_gen).uuid,
    decreases tokens@.len() - pos, 22int,
{
    match parse_block(tokens, pos, id_gen) {
        Ok((p, b)) => return Ok((p, Statement::Block(b))),
        Err(_) => {},
    }
    match for_loop::parse(tokens, pos, id_gen) {
        Ok(ok) => return Ok(ok),
        Err(_) => {},
    }
    match parse_return(tokens, pos, id_gen) {
        Ok(ok) => return Ok(ok),
        Err(_) => {},
    }
    match class::parse(tokens, pos, id_gen) {
        Ok(ok) => return Ok(ok),
        Err(_) => {},
    }
    match parse_declarations_stmt(tokens, pos, id_gen) {
        Ok(ok) => return Ok(ok),
        Err(_) => {},
    }
    parse_expr_stmt(tokens, pos, id_gen)
}

/// `{ statement* }`
pub fn parse_block(tokens: &Vec<Token>, pos: usize, id_gen: &mut IdGen) -> (r: ParseResult<Block>)
    requires
        pos <= tokens.len(),
    ensures
        (r, final(id_gen).uuid) == g_block(tokens@, pos, old(id_gen).uuid),
        advances(r, pos, tokens@.len()),
        old(id_gen).uuid <= final(id_gen).uuid,
    decreases tokens@.len() - pos, 19int,
{
    if !is_symbol(tokens, pos, '{') {
        return Err(pos);
    }
    let (p, stmts) = match parse_statements(tokens, pos + 1, id_gen) {
        Ok(ok) => ok,
        Err(_) => return Err(pos),
    };
    if is_symbol(tokens, p, '}') {
        Ok((p + 1, Block { stmts }))
    } else {
        Err(pos)
    }
}

pub fn parse_statements(tokens: &Vec<Token>, pos: usize, id_gen: &mut IdGen) -> (r: ParseResult<Nodes<Statement>>)
    requires
        pos <= tokens.len(),
    ensures
        (r, final(id_gen).uuid) == g_statements(tokens@, pos, old(id_gen).uuid),
        extends(r, pos, tokens@.len()),
        old(id_gen).uuid <= final(id_gen).uuid,
    decreases tokens@.len() - pos, 23int,
{
    let (p, st) = match parse(tokens, pos, id_gen) {
        Ok(ok) => ok,
        Err(_) => return Ok((pos, Nodes::Nil)),
    };
    match parse_statements(tokens, p, id_gen) {
        Ok((q, rest)) => Ok((q, Nodes::Cons(Box::new(st), Box::new(rest)))),
        Err(_) => Ok((pos, Nodes::Nil)),
    }
}

/// A block, or one statement taken as a block of one.
pub fn parse_block_or_single_statement(tokens: &Vec<Token>, pos: usize, id_gen: &mut IdGen) -> (r: ParseResult<Block>)
    requires
        pos <= tokens.len(),
    ensures
        (r, final(id_gen).uuid) == g_block_or_single(tokens@, pos, old(id_gen).uuid),
        advances(r, pos, tokens@.len()),
        old(id_gen).uuid <= final(id_gen).uuid,
    decreases tokens@.len() - pos, 23int,
{
    match parse_block(tokens, pos, id_gen) {
        Ok(ok) => return Ok(ok),
        Err(_) => {},
    }
    match parse(tokens, pos, id_gen) {
        Ok((p, st)) => Ok((p, Block { stmts: Nodes::Cons(Box::new(st), Box::new(Nodes::Nil)) })),
        Err(_) => Err(pos),
    }
}

/// `return expr? ;`
pub fn parse_return(tokens: &Vec<Token>, pos: usize, id_gen: &mut IdGen) -> (r: ParseResult<Statement>)
    requires
        pos <= tokens.len(),
    ensures
        (r, final(id_gen).uuid) == g_return(tokens@, pos, old(id_gen).uuid),
        advances(r, pos, tokens@.len()),
        old(id_gen).uuid <= final(id_gen).uuid,
    decreases tokens@.len() - pos, 19int,
{
    if !is_keyword(tokens, pos, Kw::Return) {
        return Err(pos);
    }
    let p = pos + 1;
    if is_symbol(tokens, p, ';') {
        return Ok((p + 1, Statement::Return(None)));
    }
    let (q, e) = match expr::parse(tokens, p, id_gen) {
        Ok(ok) => ok,
        Err(_) => return Err(pos),
    };
    if is_symbol(tokens, q, ';') {
        Ok((q + 1, Statement::Return(Some(e))))
    } else {
        Err(pos)
    }
}

/// `expr ;`
pub fn parse_expr_stmt(tokens: &Vec<Token>, pos: usize, id_gen: &mut IdGen) -> (r: ParseResult<Statement>)
    requires
        pos <= tokens.len(),
    ensures
        (r, final(id_gen).uuid) == g_expr_stmt(tokens@, pos, old(id_gen).uuid),
        advances(r, pos, tokens@.len()),
        old(id_gen).uuid <= final(id_gen).uuid,
    decreases tokens@.len() - pos, 16int,
{
    let (p, e) = match expr::parse(tokens, pos, id_gen) {
        Ok(ok) => ok,
        Err(_) => return Err(pos),
    };
    if is_symbol(tokens, p, ';') {
        Ok((p + 1, Statement::Expr(e)))
    } else {
        Err(pos)
    }
}

/// `name` or `name = expr`.
pub fn parse_declarator(tokens: &Vec<Token>, pos: usize, id_gen: &mut IdGen) -> (r: ParseResult<VariableDeclarator>)
    requires
        pos <= tokens.len(),
    ensures
        (r, final(id_gen).uuid) == g_declarator(tokens@, pos, old(id_gen).uuid),
        advances(r, pos, tokens@.len()),
        old(id_gen).uuid <= final(id_gen).uuid,
    decreases tokens@.len() - pos, 0int,
{
    if !is_identifier(tokens, pos) {
        return Err(pos);
    }
    let name = tokens[pos].span;
    let p = pos + 1;
    if is_symbol(tokens, p, '=') && !is_symbol(tokens, p + 1, '=') {
        match expr::parse(tokens, p + 1, id_gen) {
            Ok((q, e)) => Ok((q, VariableDeclarator { name, expr_opt: Some(e) })),
            Err(_) => Err(pos),
        }
    } else {
        Ok((p, VariableDeclarator { name, expr_opt: None }))
    }
}

pub fn parse_declarators_tail(tokens: &Vec<Token>, pos: usize, id_gen: &mut IdGen) -> (r: ParseResult<Nodes<VariableDeclarator>>)
    requires
        pos <= tokens.len(),
    ensures
        (r, final(id_gen).uuid) == g_declarators_tail(tokens@, pos, old(id_gen).uuid),
        extends(r, pos, tokens@.len()),
        old(id_gen).uuid <= final(id_gen).uuid,
    decreases tokens@.len() - pos, 0int,
{
    if !is_symbol(tokens, pos, ',') {
        return Ok((pos, Nodes::Nil));
    }
    let (p, d) = match parse_declarator(tokens, pos + 1, id_gen) {
        Ok(ok) => ok,
        Err(_) => return Ok((pos, Nodes::Nil)),
    };
    match parse_declarators_tail(tokens, p, id_gen) {
        Ok((q, rest)) => Ok((q, Nodes::Cons(Box::new(d), Box::new(rest)))),
        Err(_) => Ok((pos, Nodes::Nil)),
    }
}

/// `type declarator (, declarator)*`, without the semicolon.
pub fn parse_declarations(tokens: &Vec<Token>, pos: usize, id_gen: &mut IdGen) -> (r: ParseResult<Statement>)
    requires
        pos <= tokens.len(),
    ensures
        (r, final(id_gen).uuid) == g_declarations(tokens@, pos, old(id_gen).uuid),
        advances(r, pos, tokens@.len()),
        old(id_gen).uuid <= final(id_gen).uuid,
    decreases tokens@.len() - pos, 16int,
{
    let (p, tpe) = match tpe::parse(tokens, pos) {
        Ok(ok) => ok,
        Err(_) => return Err(pos),
    };
    match parse_declarators(tokens, p, tpe, id_gen) {
        Ok(ok) => Ok(ok),
        Err(_) => Err(pos),
    }
}

/// The declarators after the type of a declaration.
pub fn parse_declarators(tokens: &Vec<Token>, pos: usize, tpe: Type, id_gen: &mut IdGen) -> (r: ParseResult<Statement>)
    requires
        pos <= tokens.len(),
    ensures
        (r, final(id_gen).uuid) == g_declarators(tokens@, pos, tpe, old(id_gen).uuid),
        advances(r, pos, tokens@.len()),
        old(id_gen).uuid <= final(id_gen).uuid,
    decreases tokens@.len() - pos, 1int,
{
    let (q, first) = match parse_declarator(tokens, pos, id_gen) {
        Ok(ok) => ok,
        Err(_) => return Err(pos),
    };
    match parse_declarators_tail(tokens, q, id_gen) {
        Ok((u, rest)) => Ok(
            (
                u,
                Statement::VariableDeclarators {
                    tpe,
                    declarators: Nodes::Cons(Box::new(first), Box::new(rest)),
                },
            ),
        ),
        Err(_) => Err(pos),
    }
}

/// A variable declaration and its semicolon.
pub fn parse_declarations_stmt(tokens: &Vec<Token>, pos: usize, id_gen: &mut IdGen) -> (r: ParseResult<Statement>)
    requires
        pos <= tokens.len(),
    ensures
        (r, final(id_gen).uuid) == g_declarations_stmt(tokens@, pos, old(id_gen).uuid),
        advances(r, pos, tokens@.len()),
        old(id_gen).uuid <= final(id_gen).uuid,
    decreases tokens@.len() - pos, 17int,
{
    let (p, st) = match parse_declarations(tokens, pos, id_gen) {
        Ok(ok) => ok,
        Err(_) => return Err(pos),
    };
    if is_symbol(tokens, p, ';') {
        Ok((p + 1, st))
    } else {
        Err(pos)
    }
}

/// Comma-separated expressions, each taken as a statement; possibly none.
pub fn parse_expr_stmts(tokens: &Vec<Token>, pos: usize, id_gen: &mut IdGen) -> (r: ParseResult<Nodes<Statement>>)
    requires
        pos <= tokens.len(),
    ensures
        (r, final(id_gen).uuid) == g_expr_stmts(tokens@, pos, old(id_gen).uuid),
        extends(r, pos, tokens@.len()),
        old(id_gen).uuid <= final(id_gen).uuid,
    decreases tokens@.len() - pos, 16int,
{
    let (p, e) = match expr::parse(tokens, pos, id_gen) {
        Ok(ok) => ok,
        Err(_) => return Ok((pos, Nodes::Nil)),
    };
    match parse_expr_stmts_tail(tokens, p, id_gen) {
        Ok((q, rest)) => Ok((q, Nodes::Cons(Box::new(Statement::Expr(e)), Box::new(rest)))),
        Err(_) => Ok((pos, Nodes::Nil)),
    }
}

pub fn parse_expr_stmts_tail(tokens: &Vec<Token>, pos: usize, id_gen: &mut IdGen) -> (r: ParseResult<Nodes<Statement>>)
    requires
        pos <= tokens.len(),
    ensures
        (r, final(id_gen).uuid) == g_expr_stmts_tail(tokens@, pos, old(id_gen).uuid),
        extends(r, pos, tokens@.len()),
        old(id_gen).uuid <= final(id_gen).uuid,
    decreases tokens@.len() - pos, 0int,
{
    if !is_symbol(tokens, pos, ',') {
        return Ok((pos, Nodes::Nil));
    }
    let (p, e) = match expr::parse(tokens, pos + 1, id_gen) {
        Ok(ok) => ok,
        Err(_) => return Ok((pos, Nodes::Nil)),
    };
    match parse_expr_stmts_tail(tokens, p, id_gen) {
        Ok((q, rest)) => Ok((q, Nodes::Cons(Box::new(Statement::Expr(e)), Box::new(rest)))),
        Err(_) => Ok((pos, Nodes::Nil)),
    }
}

} // verus!
