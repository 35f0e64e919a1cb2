use vstd::prelude::*;
use crate::combinator::{identifier, symbol, sym_at, ident_at, has_token};
use crate::token::{Token, TokenKind, ParseResult, advances, extends, is_primitive_kw, primitive_kw};
use crate::tree::{ClassType, Nodes, Type};

verus! {

/// `p` lies after `pos` and within the input: a later parse may start there.
pub open spec fn moved(s: Seq<Token>, pos: usize, p: usize) -> bool {
    pos < p && p <= s.len()
}

/// A type at `pos`, as a name that users of the type grammar need not unfold.
#[verifier::opaque]
pub open spec fn type_at(s: Seq<Token>, pos: usize) -> ParseResult<Type> {
    spec_type(s, pos)
}

/// A class type at `pos`, likewise.
#[verifier::opaque]
pub open spec fn class_type_at(s: Seq<Token>, pos: usize) -> ParseResult<ClassType> {
    spec_class_type(s, pos)
}

/// A type without brackets at `pos`, likewise.
#[verifier::opaque]
pub open spec fn type_no_array_at(s: Seq<Token>, pos: usize) -> ParseResult<Type> {
    spec_type_no_array(s, pos)
}

/// Type arguments at `pos`, likewise.
#[verifier::opaque]
pub open spec fn type_args_at(s: Seq<Token>, pos: usize) -> ParseResult<Nodes<Type>> {
    spec_type_args(s, pos)
}

/// Empty dimensions at `pos` wrapping `t`, likewise.
#[verifier::opaque]
pub open spec fn dims_at(s: Seq<Token>, pos: usize, t: Type) -> ParseResult<Type> {
    spec_dims(s, pos, t)
}

/// type := (primitive | class_type) ('[' ']')*
pub open spec fn spec_type(s: Seq<Token>, pos: usize) -> ParseResult<Type>
    decreases s.len() - pos, 2int,
{
    match spec_type_no_array(s, pos) {
        Ok((p, t)) => if moved(s, pos, p) {
            spec_dims(s, p, t)
        } else {
            Err(pos)
        },
        Err(_) => Err(pos),
    }
}

/// A primitive type keyword, or a class type.
pub open spec fn spec_type_no_array(s: Seq<Token>, pos: usize) -> ParseResult<Type>
    decreases s.len() - pos, 1int,
{
    if has_token(s, pos) && (match s[pos as int].kind {
        TokenKind::Keyword(k) => is_primitive_kw(k),
        _ => false,
    }) {
        Ok(((pos + 1) as usize, Type::Primitive(s[pos as int].span)))
    } else {
        match spec_class_type(s, pos) {
            Ok((p, c)) => Ok((p, Type::Class(c))),
            Err(_) => Err(pos),
        }
    }
}

/// class_type := identifier type_args?
pub open spec fn spec_class_type(s: Seq<Token>, pos: usize) -> ParseResult<ClassType>
    decreases s.len() - pos, 0int,
{
    if ident_at(s, pos) {
        let name = s[pos as int].span;
        match spec_type_args(s, (pos + 1) as usize) {
            Ok((q, args)) => Ok((q, ClassType { name, type_args_opt: Some(args) })),
            Err(_) => Ok(((pos + 1) as usize, ClassType { name, type_args_opt: None })),
        }
    } else {
        Err(pos)
    }
}

/// type_args := '<' type (',' type)* '>'
pub open spec fn spec_type_args(s: Seq<Token>, pos: usize) -> ParseResult<Nodes<Type>>
    decreases s.len() - pos, 3int,
{
    if !sym_at(s, pos, '<') {
        Err(pos)
    } else {
        match spec_type(s, (pos + 1) as usize) {
            Ok((q, t)) => if moved(s, pos, q) {
                match spec_type_list_tail(s, q) {
                    Ok((u, rest)) => if moved(s, pos, u) {
                        if sym_at(s, u, '>') {
                            Ok(((u + 1) as usize, Nodes::Cons(Box::new(t), Box::new(rest))))
                        } else {
                            Err(pos)
                        }
                    } else {
                        Err(pos)
                    },
                    Err(_) => Err(pos),
                }
            } else {
                Err(pos)
            },
            Err(_) => Err(pos),
        }
    }
}

/// (',' type)*, stopping before the first ',' that no type follows.
pub open spec fn spec_type_list_tail(s: Seq<Token>, pos: usize) -> ParseResult<Nodes<Type>>
    decreases s.len() - pos, 3int,
{
    if !sym_at(s, pos, ',') {
        Ok((pos, Nodes::Nil))
    } else {
        match spec_type(s, (pos + 1) as usize) {
            Ok((q, t)) => if moved(s, pos, q) {
                match spec_type_list_tail(s, q) {
                    Ok((u, rest)) => Ok((u, Nodes::Cons(Box::new(t), Box::new(rest)))),
                    Err(_) => Ok((pos, Nodes::Nil)),
                }
            } else {
                Ok((pos, Nodes::Nil))
            },
            Err(_) => Ok((pos, Nodes::Nil)),
        }
    }
}

/// ('[' ']')*, each pair wrapping the type so far in an array type.
pub open spec fn spec_dims(s: Seq<Token>, pos: usize, t: Type) -> ParseResult<Type>
    decreases s.len() - pos, 0int,
{
    if sym_at(s, pos, '[') && sym_at(s, (pos + 1) as usize, ']') {
        spec_dims(s, (pos + 2) as usize, Type::Array(Box::new(t)))
    } else {
        Ok((pos, t))
    }
}

pub fn parse(tokens: &Vec<Token>, pos: usize) -> (r: ParseResult<Type>)
    requires
        pos <= tokens.len(),
    ensures
        r == spec_type(tokens@, pos),
        r == type_at(tokens@, pos),
        advances(r, pos, tokens@.len()),
    decreases tokens@.len() - pos, 2int,
{
    proof {
        reveal(type_at);
    }
    match parse_no_array(tokens, pos) {
        Ok((p, t)) => parse_dims(tokens, p, t),
        Err(_) => Err(pos),
    }
}

pub fn parse_no_array(tokens: &Vec<Token>, pos: usize) -> (r: ParseResult<Type>)
    requires
        pos <= tokens.len(),
    ensures
        r == spec_type_no_array(tokens@, pos),
        r == type_no_array_at(tokens@, pos),
        advances(r, pos, tokens@.len()),
    decreases tokens@.len() - pos, 1int,
{
    proof {
        reveal(type_no_array_at);
    }
    if pos < tokens.len() {
        match tokens[pos].kind {
            TokenKind::Keyword(k) => {
                if primitive_kw(k) {
                    return Ok((pos + 1, Type::Primitive(tokens[pos].span)));
                }
            },
            _ => {},
        }
    }
    match parse_class_type(tokens, pos) {
        Ok((p, c)) => Ok((p, Type::Class(c))),
        Err(_) => Err(pos),
    }
}

pub fn parse_class_type(tokens: &Vec<Token>, pos: usize) -> (r: ParseResult<ClassType>)
    requires
        pos <= tokens.len(),
    ensures
        r == spec_class_type(tokens@, pos),
        r == class_type_at(tokens@, pos),
        advances(r, pos, tokens@.len()),
    decreases tokens@.len() - pos, 0int,
{
    proof {
        reveal(class_type_at);
    }
    match identifier(tokens, pos) {
        Ok((p, name)) => match parse_type_args(tokens, p) {
            Ok((q, args)) => Ok((q, ClassType { name, type_args_opt: Some(args) })),
            Err(_) => Ok((p, ClassType { name, type_args_opt: None })),
        },
        Err(_) => Err(pos),
    }
}

pub fn parse_type_args(tokens: &Vec<Token>, pos: usize) -> (r: ParseResult<Nodes<Type>>)
    requires
        pos <= tokens.len(),
    ensures
        r == spec_type_args(tokens@, pos),
        r == type_args_at(tokens@, pos),
        advances(r, pos, tokens@.len()),
    decreases tokens@.len() - pos, 3int,
{
    proof {
        reveal(type_args_at);
    }
    let (p, _) = match symbol(tokens, pos, '<') {
        Ok(ok) => ok,
        Err(_) => return Err(pos),
    };
    let (q, t) = match parse(tokens, p) {
        Ok(ok) => ok,
        Err(_) => return Err(pos),
    };
    let (u, rest) = match parse_type_list_tail(tokens, q) {
        Ok(ok) => ok,
        Err(_) => return Err(pos),
    };
    match symbol(tokens, u, '>') {
        Ok((v, _)) => Ok((v, Nodes::Cons(Box::new(t), Box::new(rest)))),
        Err(_) => Err(pos),
    }
}

pub fn parse_type_list_tail(tokens: &Vec<Token>, pos: usize) -> (r: ParseResult<Nodes<Type>>)
    requires
        pos <= tokens.len(),
    ensures
        r == spec_type_list_tail(tokens@, pos),
        extends(r, pos, tokens@.len()),
    decreases tokens@.len() - pos, 3int,
{
    let (p, _) = match symbol(tokens, pos, ',') {
        Ok(ok) => ok,
        Err(_) => return Ok((pos, Nodes::Nil)),
    };
    let (q, t) = match parse(tokens, p) {
        Ok(ok) => ok,
        Err(_) => return Ok((pos, Nodes::Nil)),
    };
    match parse_type_list_tail(tokens, q) {
        Ok((u, rest)) => Ok((u, Nodes::Cons(Box::new(t), Box::new(rest)))),
        Err(_) => Ok((pos, Nodes::Nil)),
    }
}

pub fn parse_dims(tokens: &Vec<Token>, pos: usize, t: Type) -> (r: ParseResult<Type>)
    requires
        pos <= tokens.len(),
    ensures
        r == spec_dims(tokens@, pos, t),
        r == dims_at(tokens@, pos, t),
        extends(r, pos, tokens@.len()),
    decreases tokens@.len() - pos, 0int,
{
    proof {
        reveal(dims_at);
    }
    let (p, _) = match symbol(tokens, pos, '[') {
        Ok(ok) => ok,
        Err(_) => return Ok((pos, t)),
    };
    match symbol(tokens, p, ']') {
        Ok((q, _)) => parse_dims(tokens, q, Type::Array(Box::new(t))),
        Err(_) => Ok((pos, t)),
    }
}

} // verus!
