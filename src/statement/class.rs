//! Class declarations: modifiers, `class`, a name, type parameters, an
//! optional superclass, interfaces, and a body of nested classes and fields.
use vstd::prelude::*;
use crate::combinator::{is_identifier, is_keyword, is_symbol};
use crate::grammar::{
    g_class, g_member, g_members, spec_class_header, spec_class_types_tail, spec_idents_tail,
    spec_implements, spec_modifiers, spec_type_params,
};
use crate::id_gen::IdGen;
use crate::statement;
use crate::token::{Kw, Span, Token, TokenKind, ParseResult, advances, extends, modifier_kw, settles};
use crate::tpe;
use crate::tree::{Class, ClassType, Nodes, Statement};

verus! {

/// The modifier keywords at `pos`, as many as stand there.
pub fn parse_modifiers(tokens: &Vec<Token>, pos: usize) -> (r: ParseResult<Nodes<Span>>)
    requires
        pos <= tokens.len(),
    ensures
        r == spec_modifiers(tokens@, pos),
        extends(r, pos, tokens@.len()),
    decreases tokens@.len() - pos,
{
    if pos < tokens.len() {
        match tokens[pos].kind {
            TokenKind::Keyword(k) => {
                if modifier_kw(k) {
                    let span = tokens[pos].span;
                    return match parse_modifiers(tokens, pos + 1) {
                        Ok((p, rest)) => Ok((p, Nodes::Cons(Box::new(span), Box::new(rest)))),
                        Err(_) => Ok((pos, Nodes::Nil)),
                    };
                }
            },
            _ => {},
        }
    }
    Ok((pos, Nodes::Nil))
}

/// Type parameters `<T, U>`, where a `<` stands at `pos`.
pub fn parse_type_params(tokens: &Vec<Token>, pos: usize) -> (r: ParseResult<Nodes<Span>>)
    requires
        pos <= tokens.len(),
    ensures
        r == spec_type_params(tokens@, pos),
        settles(r, pos, tokens@.len()),
{
    if !is_symbol(tokens, pos, '<') {
        return Ok((pos, Nodes::Nil));
    }
    if !is_identifier(tokens, pos + 1) {
        return Err(pos);
    }
    let first = tokens[pos + 1].span;
    match parse_idents_tail(tokens, pos + 2) {
        Ok((q, rest)) => {
            if is_symbol(tokens, q, '>') {
                Ok((q + 1, Nodes::Cons(Box::new(first), Box::new(rest))))
            } else {
                Err(pos)
            }
        },
        Err(_) => Err(pos),
    }
}

pub fn parse_idents_tail(tokens: &Vec<Token>, pos: usize) -> (r: ParseResult<Nodes<Span>>)
    requires
        pos <= tokens.len(),
    ensures
        r == spec_idents_tail(tokens@, pos),
        extends(r, pos, tokens@.len()),
    decreases tokens@.len() - pos,
{
    if is_symbol(tokens, pos, ',') && is_identifier(tokens, pos + 1) {
        let name = tokens[pos + 1].span;
        match parse_idents_tail(tokens, pos + 2) {
            Ok((q, rest)) => Ok((q, Nodes::Cons(Box::new(name), Box::new(rest)))),
            Err(_) => Ok((pos, Nodes::Nil)),
        }
    } else {
        Ok((pos, Nodes::Nil))
    }
}

pub fn parse_class_types_tail(tokens: &Vec<Token>, pos: usize) -> (r: ParseResult<Nodes<ClassType>>)
    requires
        pos <= tokens.len(),
    ensures
        r == spec_class_types_tail(tokens@, pos),
        extends(r, pos, tokens@.len()),
    decreases tokens@.len() - pos,
{
    if !is_symbol(tokens, pos, ',') {
        return Ok((pos, Nodes::Nil));
    }
    let (p, c) = match tpe::parse_class_type(tokens, pos + 1) {
        Ok(ok) => ok,
        Err(_) => return Ok((pos, Nodes::Nil)),
    };
    match parse_class_types_tail(tokens, p) {
        Ok((q, rest)) => Ok((q, Nodes::Cons(Box::new(c), Box::new(rest)))),
        Err(_) => Ok((pos, Nodes::Nil)),
    }
}

/// `implements A, B`, where the keyword stands at `pos`; none otherwise.
pub fn parse_implements(tokens: &Vec<Token>, pos: usize) -> (r: ParseResult<Nodes<ClassType>>)
    requires
        pos <= tokens.len(),
    ensures
        r == spec_implements(tokens@, pos),
        settles(r, pos, tokens@.len()),
{
    if !is_keyword(tokens, pos, Kw::Implements) {
        return Ok((pos, Nodes::Nil));
    }
    let (p, c) = match tpe::parse_class_type(tokens, pos + 1) {
        Ok(ok) => ok,
        Err(_) => return Err(pos),
    };
    match parse_class_types_tail(tokens, p) {
        Ok((q, rest)) => Ok((q, Nodes::Cons(Box::new(c), Box::new(rest)))),
        Err(_) => Err(pos),
    }
}

/// What follows a class's name: its type parameters, superclass and
/// interfaces.
pub fn parse_class_header(tokens: &Vec<Token>, pos: usize) -> (r: ParseResult<(Nodes<Span>, Option<ClassType>, Nodes<ClassType>)>)
    requires
        pos <= tokens.len(),
    ensures
        r == spec_class_header(tokens@, pos),
        settles(r, pos, tokens@.len()),
{
    let (e, type_params) = match parse_type_params(tokens, pos) {
        Ok(ok) => ok,
        Err(_) => return Err(pos),
    };
    let (q, extend_opt) = if is_keyword(tokens, e, Kw::Extends) {
        match tpe::parse_class_type(tokens, e + 1) {
            Ok((q, c)) => (q, Some(c)),
            Err(_) => return Err(pos),
        }
    } else {
        (e, None)
    };
    match parse_implements(tokens, q) {
        Ok((u, implements)) => Ok((u, (type_params, extend_opt, implements))),
        Err(_) => Err(pos),
    }
}

/// A class declaration statement at `pos`.
pub fn parse(tokens: &Vec<Token>, pos: usize, id_gen: &mut IdGen) -> (r: ParseResult<Statement>)
    requires
        pos <= tokens.len(),
    ensures
        (r, final(id_gen).uuid) == g_class(tokens@, pos, old(id_gen).uuid),
        advances(r, pos, tokens@.len()),
        old(id_gen).uuid <= final(id_gen).uuid,
    decreases tokens@.len() - pos, 19int,
{
    let (p, modifiers) = match parse_modifiers(tokens, pos) {
        Ok(ok) => ok,
        Err(_) => return Err(pos),
    };
    if !(is_keyword(tokens, p, Kw::Class) && is_identifier(tokens, p + 1)) {
        return Err(pos);
    }
    let name = tokens[p + 1].span;
    let (q, header) = match parse_class_header(tokens, p + 2) {
        Ok(ok) => ok,
        Err(_) => return Err(pos),
    };
    if !is_symbol(tokens, q, '{') {
        return Err(pos);
    }
    let (u, body) = match parse_members(tokens, q + 1, id_gen) {
        Ok(ok) => ok,
        Err(_) => return Err(pos),
    };
    if !is_symbol(tokens, u, '}') {
        return Err(pos);
    }
    let (type_params, extend_opt, implements) = header;
    Ok((u + 1, Statement::Class(Class { modifiers, name, type_params, extend_opt, implements, body })))
}

/// A member of a class body: a nested class, or a field declaration.
pub fn parse_member(tokens: &Vec<Token>, pos: usize, id_gen: &mut IdGen) -> (r: ParseResult<Statement>)
    requires
        pos <= tokens.len(),
    ensures
        (r, final(id_gen).uuid) == g_member(tokens@, pos, old(id_gen).uuid),
        advances(r, pos, tokens@.len()),
        old(id_gen).uuid <= final(id_gen).uuid,
    decreases tokens@.len() - pos, 20int,
{
    match parse(tokens, pos, id_gen) {
        Ok(ok) => Ok(ok),
        Err(_) => statement::parse_declarations_stmt(tokens, pos, id_gen),
    }
}

pub fn parse_members(tokens: &Vec<Token>, pos: usize, id_gen: &mut IdGen) -> (r: ParseResult<Nodes<Statement>>)
    requires
        pos <= tokens.len(),
    ensures
        (r, final(id_gen).uuid) == g_members(tokens@, pos, old(id_gen).uuid),
        extends(r, pos, tokens@.len()),
        old(id_gen).uuid <= final(id_gen).uuid,
    decreases tokens@.len() - pos, 21int,
{
    let (p, m) = match parse_member(tokens, pos, id_gen) {
        Ok(ok) => ok,
        Err(_) => return Ok((pos, Nodes::Nil)),
    };
    match parse_members(tokens, p, id_gen) {
        Ok((q, rest)) => Ok((q, Nodes::Cons(Box::new(m), Box::new(rest)))),
        Err(_) => Ok((pos, Nodes::Nil)),
    }
}

} // verus!
