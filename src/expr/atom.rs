//! Atoms: literals, names and the forms a keyword or an identifier starts,
//! object and array creation, and the choice between a parenthesized
//! expression and a lambda.
use vstd::prelude::*;
use crate::combinator::{is_identifier, is_keyword, is_symbol, is_symbol2};
use crate::expr;
use crate::expr::{array_access, lambda, parenthesized};
use crate::grammar::{g_array_init, g_array_rest, g_new_array, g_new_generic, g_sizes, g_atom, g_constructor_call, g_lambda_or_paren, g_new, g_prefix, lambda_ahead};
use crate::id_gen::IdGen;
use crate::token::{Kw, Token, TokenKind, ParseResult, advances, extends, primitive_kw};
use crate::tpe;
use crate::tree::{Expr, Nodes, Type};

verus! {

/// An atom at `pos`, trying in order: a number, a string, a character, an
/// array initializer, an explicit constructor call, a keyword-or-identifier
/// form, a parenthesized expression or lambda.
pub fn parse(tokens: &Vec<Token>, pos: usize, id_gen: &mut IdGen) -> (r: ParseResult<Expr>)
    requires
        pos <= tokens.len(),
    ensures
        (r, final(id_gen).uuid) == g_atom(tokens@, pos, old(id_gen).uuid),
        advances(r, pos, tokens@.len()),
        old(id_gen).uuid <= final(id_gen).uuid,
    decreases tokens@.len() - pos, 4int,
{
    if pos < tokens.len() {
        let span = tokens[pos].span;
        match tokens[pos].kind {
            TokenKind::Int => return Ok((pos + 1, Expr::Int(span))),
            TokenKind::Str => return Ok((pos + 1, Expr::Str(span))),
            TokenKind::Char => return Ok((pos + 1, Expr::Char(span))),
            _ => {},
        }
    }
    match parse_array_initializer(tokens, pos, id_gen) {
        Ok((p, items)) => return Ok((p, Expr::ArrayInitializer { items })),
        Err(_) => {},
    }
    match parse_constructor_call(tokens, pos, id_gen) {
        Ok(ok) => return Ok(ok),
        Err(_) => {},
    }
    match parse_prefix_keyword_or_identifier(tokens, pos, id_gen) {
        Ok(ok) => Ok(ok),
        Err(_) => match parse_lambda_or_parenthesized(tokens, pos, id_gen) {
            Ok(ok) => Ok(ok),
            Err(_) => Err(pos),
        },
    }
}

/// `{ item, ... }`, giving the items.
pub fn parse_array_initializer(tokens: &Vec<Token>, pos: usize, id_gen: &mut IdGen) -> (r: ParseResult<Nodes<Expr>>)
    requires
        pos <= tokens.len(),
    ensures
        (r, final(id_gen).uuid) == g_array_init(tokens@, pos, old(id_gen).uuid),
        advances(r, pos, tokens@.len()),
        old(id_gen).uuid <= final(id_gen).uuid,
    decreases tokens@.len() - pos, 0int,
{
    if !is_symbol(tokens, pos, '{') {
        return Err(pos);
    }
    let (p, items) = match expr::parse_expr_list(tokens, pos + 1, id_gen) {
        Ok(ok) => ok,
        Err(_) => return Err(pos),
    };
    if is_symbol(tokens, p, '}') {
        Ok((p + 1, items))
    } else {
        Err(pos)
    }
}

/// `this(args)` or `super(args)`: an explicit constructor call.
pub fn parse_constructor_call(tokens: &Vec<Token>, pos: usize, id_gen: &mut IdGen) -> (r: ParseResult<Expr>)
    requires
        pos <= tokens.len(),
    ensures
        (r, final(id_gen).uuid) == g_constructor_call(tokens@, pos, old(id_gen).uuid),
        advances(r, pos, tokens@.len()),
        old(id_gen).uuid <= final(id_gen).uuid,
    decreases tokens@.len() - pos, 0int,
{
    if !(is_keyword(tokens, pos, Kw::This) || is_keyword(tokens, pos, Kw::Super)) {
        return Err(pos);
    }
    let name = tokens[pos].span;
    match expr::parse_args(tokens, pos + 1, id_gen) {
        Ok((p, args)) => Ok((p, Expr::ConstructorCall { name, args })),
        Err(_) => Err(pos),
    }
}

/// Whether the `(` at `pos` opens a lambda's parameter list: the ordered
/// lookahead of `lambda_ahead`.
pub fn is_lambda_head(tokens: &Vec<Token>, pos: usize) -> (r: bool)
    requires
        pos < tokens.len(),
    ensures
        r == lambda_ahead(tokens@, pos),
{
    let p = pos + 1;
    if is_symbol(tokens, p, ')') && is_symbol2(tokens, p + 1, '-', '>') {
        return true;
    }
    if p < tokens.len() {
        match tokens[p].kind {
            TokenKind::Keyword(k) => {
                if primitive_kw(k) {
                    return true;
                }
            },
            _ => {},
        }
    }
    if !is_identifier(tokens, p) {
        return false;
    }
    let q = p + 1;
    if is_symbol(tokens, q, ')') && is_symbol2(tokens, q + 1, '-', '>') {
        true
    } else if is_identifier(tokens, q) {
        true
    } else if is_symbol(tokens, q, ',') {
        true
    } else {
        match tpe::parse_type_args(tokens, q) {
            Ok((u, _)) => is_identifier(tokens, u),
            Err(_) => false,
        }
    }
}

/// A lambda or a parenthesized expression, whichever `is_lambda_head` picks.
pub fn parse_lambda_or_parenthesized(tokens: &Vec<Token>, pos: usize, id_gen: &mut IdGen) -> (r: ParseResult<Expr>)
    requires
        pos <= tokens.len(),
    ensures
        (r, final(id_gen).uuid) == g_lambda_or_paren(tokens@, pos, old(id_gen).uuid),
        advances(r, pos, tokens@.len()),
        old(id_gen).uuid <= final(id_gen).uuid,
    decreases tokens@.len() - pos, 3int,
{
    if !is_symbol(tokens, pos, '(') {
        return Err(pos);
    }
    if is_lambda_head(tokens, pos) {
        lambda::parse(tokens, pos, id_gen)
    } else {
        parenthesized::parse(tokens, pos, id_gen)
    }
}

/// What follows `new`: with type arguments first, an object creation;
/// otherwise an array creation where a `[` follows the type, or, for a class
/// type, an object creation with its constructor arguments.
#[verifier::rlimit(80)]
pub fn parse_new_object_or_array(tokens: &Vec<Token>, pos: usize, id_gen: &mut IdGen) -> (r: ParseResult<Expr>)
    requires
        pos <= tokens.len(),
    ensures
        (r, final(id_gen).uuid) == g_new(tokens@, pos, old(id_gen).uuid),
        advances(r, pos, tokens@.len()),
        old(id_gen).uuid <= final(id_gen).uuid,
    decreases tokens@.len() - pos, 1int,
{
    if is_symbol(tokens, pos, '<') {
        return parse_new_generic(tokens, pos, id_gen);
    }
    let (p, tpe) = match tpe::parse_no_array(tokens, pos) {
        Ok(ok) => ok,
        Err(_) => return Err(pos),
    };
    if is_symbol(tokens, p, '[') {
        match parse_new_array(tokens, p, tpe, id_gen) {
            Ok(ok) => Ok(ok),
            Err(_) => Err(pos),
        }
    } else {
        match tpe {
            Type::Class(c) => match expr::parse_args(tokens, p, id_gen) {
                Ok((q, args)) => Ok((q, Expr::NewObject { type_args_opt: None, tpe: c, args })),
                Err(_) => Err(pos),
            },
            _ => Err(pos),
        }
    }
}

/// The array part of a creation: sized dimensions, then empty ones, at least
/// one in all, then an optional initializer.
pub fn parse_new_array(tokens: &Vec<Token>, pos: usize, tpe: Type, id_gen: &mut IdGen) -> (r: ParseResult<Expr>)
    requires
        pos <= tokens.len(),
    ensures
        (r, final(id_gen).uuid) == g_new_array(tokens@, pos, tpe, old(id_gen).uuid),
        advances(r, pos, tokens@.len()),
        old(id_gen).uuid <= final(id_gen).uuid,
    decreases tokens@.len() - pos, 1int,
{
    let (q, sizes) = match parse_sizes(tokens, pos, id_gen) {
        Ok(ok) => ok,
        Err(_) => return Err(pos),
    };
    let (u, t) = match tpe::parse_dims(tokens, q, tpe) {
        Ok(ok) => ok,
        Err(_) => return Err(pos),
    };
    if u == pos {
        return Err(pos);
    }
    parse_array_rest(tokens, u, t, sizes, id_gen)
}

/// `[ size ]*`: as many sized dimensions as parse.
pub fn parse_sizes(tokens: &Vec<Token>, pos: usize, id_gen: &mut IdGen) -> (r: ParseResult<Nodes<Expr>>)
    requires
        pos <= tokens.len(),
    ensures
        (r, final(id_gen).uuid) == g_sizes(tokens@, pos, old(id_gen).uuid),
        extends(r, pos, tokens@.len()),
        old(id_gen).uuid <= final(id_gen).uuid,
    decreases tokens@.len() - pos, 0int,
{
    if !is_symbol(tokens, pos, '[') {
        return Ok((pos, Nodes::Nil));
    }
    let (p, size) = match expr::parse(tokens, pos + 1, id_gen) {
        Ok(ok) => ok,
        Err(_) => return Ok((pos, Nodes::Nil)),
    };
    if !is_symbol(tokens, p, ']') {
        return Ok((pos, Nodes::Nil));
    }
    match parse_sizes(tokens, p + 1, id_gen) {
        Ok((q, rest)) => Ok((q, Nodes::Cons(Box::new(size), Box::new(rest)))),
        Err(_) => Ok((pos, Nodes::Nil)),
    }
}

/// The optional array initializer after the dimensions.
pub fn parse_array_rest(
    tokens: &Vec<Token>,
    pos: usize,
    tpe: Type,
    sizes: Nodes<Expr>,
    id_gen: &mut IdGen,
) -> (r: ParseResult<Expr>)
    requires
        pos <= tokens.len(),
    ensures
        (r, final(id_gen).uuid) == g_array_rest(tokens@, pos, tpe, sizes, old(id_gen).uuid),
        extends(r, pos, tokens@.len()),
        old(id_gen).uuid <= final(id_gen).uuid,
    decreases tokens@.len() - pos, 1int,
{
    match parse_array_initializer(tokens, pos, id_gen) {
        Ok((q, items)) => Ok(
            (q, Expr::NewArray { tpe, sizes, initializer_opt: Some(Box::new(Expr::ArrayInitializer { items })) }),
        ),
        Err(_) => Ok((pos, Expr::NewArray { tpe, sizes, initializer_opt: None })),
    }
}

/// An object creation with type arguments right after `new`.
pub fn parse_new_generic(tokens: &Vec<Token>, pos: usize, id_gen: &mut IdGen) -> (r: ParseResult<Expr>)
    requires
        pos <= tokens.len(),
    ensures
        (r, final(id_gen).uuid) == g_new_generic(tokens@, pos, old(id_gen).uuid),
        advances(r, pos, tokens@.len()),
        old(id_gen).uuid <= final(id_gen).uuid,
    decreases tokens@.len() - pos, 0int,
{
    let (p, ta) = match tpe::parse_type_args(tokens, pos) {
        Ok(ok) => ok,
        Err(_) => return Err(pos),
    };
    let (q, c) = match tpe::parse_class_type(tokens, p) {
        Ok(ok) => ok,
        Err(_) => return Err(pos),
    };
    match expr::parse_args(tokens, q, id_gen) {
        Ok((u, args)) => Ok((u, Expr::NewObject { type_args_opt: Some(ta), tpe: c, args })),
        Err(_) => Err(pos),
    }
}

/// A keyword or an identifier and the form it starts.
#[verifier::rlimit(80)]
pub fn parse_prefix_keyword_or_identifier(tokens: &Vec<Token>, pos: usize, id_gen: &mut IdGen) -> (r: ParseResult<Expr>)
    requires
        pos <= tokens.len(),
    ensures
        (r, final(id_gen).uuid) == g_prefix(tokens@, pos, old(id_gen).uuid),
        advances(r, pos, tokens@.len()),
        old(id_gen).uuid <= final(id_gen).uuid,
    decreases tokens@.len() - pos, 3int,
{
    if pos >= tokens.len() {
        return Err(pos);
    }
    let span = tokens[pos].span;
    let p = pos + 1;
    match tokens[pos].kind {
        TokenKind::Keyword(k) => match k {
            Kw::True | Kw::False => Ok((p, Expr::Boolean(span))),
            Kw::Null => Ok((p, Expr::Null(span))),
            Kw::This => Ok((p, Expr::This(span))),
            Kw::Super => Ok((p, Expr::Super(span))),
            Kw::New => match parse_new_object_or_array(tokens, p, id_gen) {
                Ok(ok) => Ok(ok),
                Err(_) => Err(pos),
            },
            _ => Err(pos),
        },
        TokenKind::Identifier => {
            if is_symbol2(tokens, p, '-', '>') {
                lambda::parse(tokens, pos, id_gen)
            } else {
                match expr::parse_args(tokens, p, id_gen) {
                    Ok((q, args)) => Ok((q, Expr::MethodCall { name: span, args })),
                    Err(_) => array_access::parse_tail(tokens, p, Expr::Name(span), id_gen),
                }
            }
        },
        _ => Err(pos),
    }
}

} // verus!
