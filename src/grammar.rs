//! The grammar, as spec functions: each says what its parser returns on a
//! token sequence, a start position and the identifier allocator's value, and
//! what the allocator holds afterwards. Alternatives are tried in order and
//! the first success is taken; a failure returns the start position.
use vstd::prelude::*;
use crate::combinator::{has_token, ident_at, kw_at, spec_symbol, spec_symbol2, sym2_at, sym_at};
use crate::token::{Kw, Span, Token, TokenKind, ParseResult, is_modifier_kw, is_primitive_kw};
use crate::tpe::{class_type_at, dims_at, moved, spec_type_args, type_args_at, type_at, type_no_array_at};
use crate::tree::{Block, Class, ClassType, Expr, Nodes, Param, StandaloneVariableDeclarator, Statement, Type, VariableDeclarator};

verus! {

/// A later parse may start at `p`, at or after `pos`.
pub open spec fn within(s: Seq<Token>, pos: usize, p: usize) -> bool {
    pos <= p && p <= s.len()
}

/// The binary levels, from the loosest: 0 `||`, 1 `&&`, 2 `==` `!=`,
/// 3 relational and `instanceof`, 4 shifts, 5 additive, 6 multiplicative;
/// level 7 and above is the postfix level.
///
/// The operator of `level` at `pos`. A `<` or `>` that starts `<<` or `>>` is
/// no relational operator.
pub open spec fn spec_op(s: Seq<Token>, pos: usize, level: nat) -> ParseResult<Span> {
    if level == 0 {
        spec_symbol2(s, pos, '|', '|')
    } else if level == 1 {
        spec_symbol2(s, pos, '&', '&')
    } else if level == 2 {
        if sym2_at(s, pos, '=', '=') {
            spec_symbol2(s, pos, '=', '=')
        } else {
            spec_symbol2(s, pos, '!', '=')
        }
    } else if level == 3 {
        if sym2_at(s, pos, '<', '=') {
            spec_symbol2(s, pos, '<', '=')
        } else if sym2_at(s, pos, '>', '=') {
            spec_symbol2(s, pos, '>', '=')
        } else if sym_at(s, pos, '<') && !sym_at(s, (pos + 1) as usize, '<') {
            spec_symbol(s, pos, '<')
        } else if sym_at(s, pos, '>') && !sym_at(s, (pos + 1) as usize, '>') {
            spec_symbol(s, pos, '>')
        } else if kw_at(s, pos, Kw::Instanceof) {
            Ok(((pos + 1) as usize, s[pos as int].span))
        } else {
            Err(pos)
        }
    } else if level == 4 {
        if sym2_at(s, pos, '<', '<') {
            spec_symbol2(s, pos, '<', '<')
        } else {
            spec_symbol2(s, pos, '>', '>')
        }
    } else if level == 5 {
        if sym_at(s, pos, '+') {
            spec_symbol(s, pos, '+')
        } else {
            spec_symbol(s, pos, '-')
        }
    } else {
        if sym_at(s, pos, '*') {
            spec_symbol(s, pos, '*')
        } else if sym_at(s, pos, '/') {
            spec_symbol(s, pos, '/')
        } else {
            spec_symbol(s, pos, '%')
        }
    }
}

pub open spec fn g_expr(s: Seq<Token>, pos: usize, id: u64) -> (ParseResult<Expr>, u64)
    decreases s.len() - pos, 15int,
{
    g_assignment(s, pos, id)
}

/// assignment := level0 ('=' assignment)?, where the '=' does not start '=='.
pub open spec fn g_assignment(s: Seq<Token>, pos: usize, id: u64) -> (ParseResult<Expr>, u64)
    decreases s.len() - pos, 14int,
{
    let (r, id1) = g_level(s, pos, 0, id);
    match r {
        Ok((p, left)) => if !moved(s, pos, p) {
            (Err(pos), id1)
        } else if sym_at(s, p, '=') && !sym_at(s, (p + 1) as usize, '=') {
            let (r2, id2) = g_assignment(s, (p + 1) as usize, id1);
            match r2 {
                Ok((q, right)) => (
                    Ok(
                        (
                            q,
                            Expr::Assignment {
                                assigned: Box::new(left),
                                operator: s[p as int].span,
                                expr: Box::new(right),
                            },
                        ),
                    ),
                    id2,
                ),
                Err(_) => (Ok((p, left)), id2),
            }
        } else {
            (Ok((p, left)), id1)
        },
        Err(_) => (Err(pos), id1),
    }
}

/// level(l) := level(l + 1) (op(l) level(l + 1))*, folded to the left; below
/// the last binary level stands the postfix level.
pub open spec fn g_level(s: Seq<Token>, pos: usize, level: nat, id: u64) -> (ParseResult<Expr>, u64)
    decreases s.len() - pos, if level >= 7 { 6int } else { 13 - level },
{
    if level >= 7 {
        g_postfix(s, pos, id)
    } else {
        let (r, id1) = g_level(s, pos, level + 1, id);
        match r {
            Ok((p, left)) => if moved(s, pos, p) {
                let (r2, id2) = g_level_tail(s, p, level, left, id1);
                match r2 {
                    Ok(ok) => (Ok(ok), id2),
                    Err(_) => (Err(pos), id2),
                }
            } else {
                (Err(pos), id1)
            },
            Err(_) => (Err(pos), id1),
        }
    }
}

/// The operators and right operands that follow `left` at `level`. An
/// `instanceof` takes a type and ends the fold. An operator whose right
/// operand does not parse fails the whole level.
pub open spec fn g_level_tail(s: Seq<Token>, pos: usize, level: nat, left: Expr, id: u64) -> (ParseResult<Expr>, u64)
    decreases s.len() - pos, 0int,
{
    match spec_op(s, pos, level) {
        Ok((p, operator)) => if !moved(s, pos, p) {
            (Err(pos), id)
        } else if level == 3 && kw_at(s, pos, Kw::Instanceof) {
            match type_at(s, p) {
                Ok((q, tpe)) => (Ok((q, Expr::InstanceOf { expr: Box::new(left), operator, tpe })), id),
                Err(_) => (Err(pos), id),
            }
        } else {
            let (r, id1) = g_level(s, p, level + 1, id);
            match r {
                Ok((q, right)) => if moved(s, pos, q) {
                    let folded = Expr::BinaryOperation {
                        left: Box::new(left),
                        operator,
                        right: Box::new(right),
                    };
                    let (r2, id2) = g_level_tail(s, q, level, folded, id1);
                    match r2 {
                        Ok(ok) => (Ok(ok), id2),
                        Err(_) => (Err(pos), id2),
                    }
                } else {
                    (Err(pos), id1)
                },
                Err(_) => (Err(pos), id1),
            }
        },
        Err(_) => (Ok((pos, left)), id),
    }
}

/// postfix := atom ('++' | '--')?
pub open spec fn g_postfix(s: Seq<Token>, pos: usize, id: u64) -> (ParseResult<Expr>, u64)
    decreases s.len() - pos, 5int,
{
    let (r, id1) = g_atom(s, pos, id);
    match r {
        Ok((p, e)) => if moved(s, pos, p) && (sym2_at(s, p, '+', '+') || sym2_at(s, p, '-', '-')) {
            (
                Ok(
                    (
                        (p + 2) as usize,
                        Expr::UnaryOperation { expr: Box::new(e), operator: s[p as int].span, is_post: true },
                    ),
                ),
                id1,
            )
        } else {
            (r, id1)
        },
        Err(_) => (Err(pos), id1),
    }
}

/// atom := number | string | char | array initializer | constructor call
///       | keyword-or-identifier form | parenthesized-or-lambda
pub open spec fn g_atom(s: Seq<Token>, pos: usize, id: u64) -> (ParseResult<Expr>, u64)
    decreases s.len() - pos, 4int,
{
    if has_token(s, pos) && s[pos as int].kind == TokenKind::Int {
        (Ok(((pos + 1) as usize, Expr::Int(s[pos as int].span))), id)
    } else if has_token(s, pos) && s[pos as int].kind == TokenKind::Str {
        (Ok(((pos + 1) as usize, Expr::Str(s[pos as int].span))), id)
    } else if has_token(s, pos) && s[pos as int].kind == TokenKind::Char {
        (Ok(((pos + 1) as usize, Expr::Char(s[pos as int].span))), id)
    } else {
        let (ra, ida) = g_array_init(s, pos, id);
        match ra {
            Ok((p, items)) => (Ok((p, Expr::ArrayInitializer { items })), ida),
            Err(_) => {
                let (rc, idc) = g_constructor_call(s, pos, ida);
                match rc {
                    Ok(_) => (rc, idc),
                    Err(_) => {
                        let (r1, id1) = g_prefix(s, pos, idc);
                        match r1 {
                            Ok(_) => (r1, id1),
                            Err(_) => {
                                let (r2, id2) = g_lambda_or_paren(s, pos, id1);
                                match r2 {
                                    Ok(_) => (r2, id2),
                                    Err(_) => (Err(pos), id2),
                                }
                            },
                        }
                    },
                }
            },
        }
    }
}

/// array initializer := '{' (expr (',' expr)*)? '}'
pub open spec fn g_array_init(s: Seq<Token>, pos: usize, id: u64) -> (ParseResult<Nodes<Expr>>, u64)
    decreases s.len() - pos, 0int,
{
    if !sym_at(s, pos, '{') {
        (Err(pos), id)
    } else {
        let (r, id1) = g_expr_list(s, (pos + 1) as usize, id);
        match r {
            Ok((p, items)) => if within(s, pos, p) && sym_at(s, p, '}') {
                (Ok(((p + 1) as usize, items)), id1)
            } else {
                (Err(pos), id1)
            },
            Err(_) => (Err(pos), id1),
        }
    }
}

/// constructor call := ('this' | 'super') args
pub open spec fn g_constructor_call(s: Seq<Token>, pos: usize, id: u64) -> (ParseResult<Expr>, u64)
    decreases s.len() - pos, 0int,
{
    if !(kw_at(s, pos, Kw::This) || kw_at(s, pos, Kw::Super)) {
        (Err(pos), id)
    } else {
        let (r, id1) = g_args(s, (pos + 1) as usize, id);
        match r {
            Ok((p, args)) => (Ok((p, Expr::ConstructorCall { name: s[pos as int].span, args })), id1),
            Err(_) => (Err(pos), id1),
        }
    }
}

/// A keyword or an identifier and what it starts: a literal, `this`, `super`,
/// an object or array creation, a one-parameter lambda, a method call, or a
/// name with its index suffixes.
pub open spec fn g_prefix(s: Seq<Token>, pos: usize, id: u64) -> (ParseResult<Expr>, u64)
    decreases s.len() - pos, 3int,
{
    if !has_token(s, pos) {
        (Err(pos), id)
    } else {
        let span = s[pos as int].span;
        let p = (pos + 1) as usize;
        match s[pos as int].kind {
            TokenKind::Keyword(k) => match k {
                Kw::True | Kw::False => (Ok((p, Expr::Boolean(span))), id),
                Kw::Null => (Ok((p, Expr::Null(span))), id),
                Kw::This => (Ok((p, Expr::This(span))), id),
                Kw::Super => (Ok((p, Expr::Super(span))), id),
                Kw::New => {
                    let (r, id1) = g_new(s, p, id);
                    match r {
                        Ok(_) => (r, id1),
                        Err(_) => (Err(pos), id1),
                    }
                },
                _ => (Err(pos), id),
            },
            TokenKind::Identifier => if sym2_at(s, p, '-', '>') {
                g_lambda(s, pos, id)
            } else {
                let (r, id1) = g_args(s, p, id);
                match r {
                    Ok((q, args)) => (Ok((q, Expr::MethodCall { name: span, args })), id1),
                    Err(_) => g_index_tail(s, p, Expr::Name(span), id1),
                }
            },
            _ => (Err(pos), id),
        }
    }
}

/// What follows `new`. Type arguments written first fix an object creation;
/// otherwise a type without brackets, then, where a `[` follows, an array
/// creation, or, for a class type, the constructor's arguments.
pub open spec fn g_new(s: Seq<Token>, pos: usize, id: u64) -> (ParseResult<Expr>, u64)
    decreases s.len() - pos, 1int,
{
    if sym_at(s, pos, '<') {
        g_new_generic(s, pos, id)
    } else {
        match type_no_array_at(s, pos) {
            Ok((p, tpe)) => if !moved(s, pos, p) {
                (Err(pos), id)
            } else if sym_at(s, p, '[') {
                let (r, id1) = g_new_array(s, p, tpe, id);
                match r {
                    Ok(ok) => (Ok(ok), id1),
                    Err(_) => (Err(pos), id1),
                }
            } else {
                match tpe {
                    Type::Class(c) => {
                        let (r, id1) = g_args(s, p, id);
                        match r {
                            Ok((q, args)) => (Ok((q, Expr::NewObject { type_args_opt: None, tpe: c, args })), id1),
                            Err(_) => (Err(pos), id1),
                        }
                    },
                    _ => (Err(pos), id),
                }
            }
            Err(_) => (Err(pos), id),
        }
    }
}

/// The array part of a creation: sized dimensions, then empty ones, at least
/// one dimension in all, then an optional array initializer.
pub open spec fn g_new_array(s: Seq<Token>, pos: usize, tpe: Type, id: u64) -> (ParseResult<Expr>, u64)
    decreases s.len() - pos, 1int,
{
    let (r, id1) = g_sizes(s, pos, id);
    match r {
        Ok((q, sizes)) => if !within(s, pos, q) {
            (Err(pos), id1)
        } else {
            match dims_at(s, q, tpe) {
                Ok((u, t)) => if !(q <= u && u <= s.len()) || u == pos {
                    (Err(pos), id1)
                } else {
                    g_array_rest(s, u, t, sizes, id1)
                },
                Err(_) => (Err(pos), id1),
            }
        },
        Err(_) => (Err(pos), id1),
    }
}

/// ('[' expr ']')*: the dimensions written with a size.
pub open spec fn g_sizes(s: Seq<Token>, pos: usize, id: u64) -> (ParseResult<Nodes<Expr>>, u64)
    decreases s.len() - pos, 0int,
{
    if !sym_at(s, pos, '[') {
        (Ok((pos, Nodes::Nil)), id)
    } else {
        let (r, id1) = g_expr(s, (pos + 1) as usize, id);
        match r {
            Ok((p, size)) => if within(s, pos, p) && sym_at(s, p, ']') {
                let (r2, id2) = g_sizes(s, (p + 1) as usize, id1);
                match r2 {
                    Ok((q, rest)) => (Ok((q, Nodes::Cons(Box::new(size), Box::new(rest)))), id2),
                    Err(_) => (Ok((pos, Nodes::Nil)), id2),
                }
            } else {
                (Ok((pos, Nodes::Nil)), id1)
            },
            Err(_) => (Ok((pos, Nodes::Nil)), id1),
        }
    }
}

/// After the dimensions of an array creation: an optional array initializer.
pub open spec fn g_array_rest(s: Seq<Token>, pos: usize, tpe: Type, sizes: Nodes<Expr>, id: u64) -> (ParseResult<Expr>, u64)
    decreases s.len() - pos, 1int,
{
    let (r, id1) = g_array_init(s, pos, id);
    match r {
        Ok((q, items)) => (
            Ok((q, Expr::NewArray { tpe, sizes, initializer_opt: Some(Box::new(Expr::ArrayInitializer { items })) })),
            id1,
        ),
        Err(_) => (Ok((pos, Expr::NewArray { tpe, sizes, initializer_opt: None })), id1),
    }
}

/// An object creation whose type arguments are written right after `new`:
/// type_args class_type args.
pub open spec fn g_new_generic(s: Seq<Token>, pos: usize, id: u64) -> (ParseResult<Expr>, u64)
    decreases s.len() - pos, 0int,
{
    match type_args_at(s, pos) {
        Ok((p, ta)) => if !moved(s, pos, p) {
            (Err(pos), id)
        } else {
            match class_type_at(s, p) {
                Ok((q, c)) => if !moved(s, pos, q) {
                    (Err(pos), id)
                } else {
                    let (r, id1) = g_args(s, q, id);
                    match r {
                        Ok((u, args)) => (Ok((u, Expr::NewObject { type_args_opt: Some(ta), tpe: c, args })), id1),
                        Err(_) => (Err(pos), id1),
                    }
                },
                Err(_) => (Err(pos), id),
            }
        },
        Err(_) => (Err(pos), id),
    }
}

/// args := '(' (expr (',' expr)*)? ')'
pub open spec fn g_args(s: Seq<Token>, pos: usize, id: u64) -> (ParseResult<Nodes<Expr>>, u64)
    decreases s.len() - pos, 0int,
{
    if !sym_at(s, pos, '(') {
        (Err(pos), id)
    } else {
        let (r, id1) = g_expr_list(s, (pos + 1) as usize, id);
        match r {
            Ok((p, args)) => if within(s, pos, p) && sym_at(s, p, ')') {
                (Ok(((p + 1) as usize, args)), id1)
            } else {
                (Err(pos), id1)
            },
            Err(_) => (Err(pos), id1),
        }
    }
}

/// (expr (',' expr)*)?: possibly empty, ending after the last expression parsed.
pub open spec fn g_expr_list(s: Seq<Token>, pos: usize, id: u64) -> (ParseResult<Nodes<Expr>>, u64)
    decreases s.len() - pos, 16int,
{
    let (r, id1) = g_expr(s, pos, id);
    match r {
        Ok((p, e)) => if moved(s, pos, p) {
            let (r2, id2) = g_expr_list_tail(s, p, id1);
            match r2 {
                Ok((q, rest)) => (Ok((q, Nodes::Cons(Box::new(e), Box::new(rest)))), id2),
                Err(_) => (Ok((pos, Nodes::Nil)), id2),
            }
        } else {
            (Ok((pos, Nodes::Nil)), id1)
        },
        Err(_) => (Ok((pos, Nodes::Nil)), id1),
    }
}

pub open spec fn g_expr_list_tail(s: Seq<Token>, pos: usize, id: u64) -> (ParseResult<Nodes<Expr>>, u64)
    decreases s.len() - pos, 0int,
{
    if !sym_at(s, pos, ',') {
        (Ok((pos, Nodes::Nil)), id)
    } else {
        let (r, id1) = g_expr(s, (pos + 1) as usize, id);
        match r {
            Ok((p, e)) => if moved(s, pos, p) {
                let (r2, id2) = g_expr_list_tail(s, p, id1);
                match r2 {
                    Ok((q, rest)) => (Ok((q, Nodes::Cons(Box::new(e), Box::new(rest)))), id2),
                    Err(_) => (Ok((pos, Nodes::Nil)), id2),
                }
            } else {
                (Ok((pos, Nodes::Nil)), id1)
            },
            Err(_) => (Ok((pos, Nodes::Nil)), id1),
        }
    }
}

/// index := '[' expr ']'
pub open spec fn g_index(s: Seq<Token>, pos: usize, id: u64) -> (ParseResult<Expr>, u64)
    decreases s.len() - pos, 0int,
{
    if !sym_at(s, pos, '[') {
        (Err(pos), id)
    } else {
        let (r, id1) = g_expr(s, (pos + 1) as usize, id);
        match r {
            Ok((p, index)) => if within(s, pos, p) && sym_at(s, p, ']') {
                (Ok(((p + 1) as usize, index)), id1)
            } else {
                (Err(pos), id1)
            },
            Err(_) => (Err(pos), id1),
        }
    }
}

/// index*, each index making the expression so far the base of an array access.
pub open spec fn g_index_tail(s: Seq<Token>, pos: usize, e: Expr, id: u64) -> (ParseResult<Expr>, u64)
    decreases s.len() - pos, 1int,
{
    let (r, id1) = g_index(s, pos, id);
    match r {
        Ok((p, index)) => if moved(s, pos, p) {
            g_index_tail(s, p, Expr::ArrayAccess { expr: Box::new(e), index: Box::new(index) }, id1)
        } else {
            (Ok((pos, e)), id1)
        },
        Err(_) => (Ok((pos, e)), id1),
    }
}

/// Whether the '(' at `pos` opens a lambda's parameter list rather than a
/// parenthesized expression, decided by looking ahead, in this order: `()`
/// then `->`; a primitive type; anything but an identifier (no lambda); an
/// identifier then `)` then `->`; two identifiers; an identifier then `,`; an
/// identifier, type arguments, then an identifier. Otherwise no lambda.
pub open spec fn lambda_ahead(s: Seq<Token>, pos: usize) -> bool {
    let p = (pos + 1) as usize;
    let q = (pos + 2) as usize;
    if sym_at(s, p, ')') && sym2_at(s, q, '-', '>') {
        true
    } else if has_token(s, p) && (match s[p as int].kind {
        TokenKind::Keyword(k) => is_primitive_kw(k),
        _ => false,
    }) {
        true
    } else if !ident_at(s, p) {
        false
    } else if sym_at(s, q, ')') && sym2_at(s, (q + 1) as usize, '-', '>') {
        true
    } else if ident_at(s, q) {
        true
    } else if sym_at(s, q, ',') {
        true
    } else {
        match spec_type_args(s, q) {
            Ok((u, _)) => ident_at(s, u),
            Err(_) => false,
        }
    }
}

pub open spec fn g_lambda_or_paren(s: Seq<Token>, pos: usize, id: u64) -> (ParseResult<Expr>, u64)
    decreases s.len() - pos, 3int,
{
    if !sym_at(s, pos, '(') {
        (Err(pos), id)
    } else if lambda_ahead(s, pos) {
        g_lambda(s, pos, id)
    } else {
        g_paren(s, pos, id)
    }
}

/// paren := '(' expr ')' index*: the parentheses leave no node behind.
pub open spec fn g_paren(s: Seq<Token>, pos: usize, id: u64) -> (ParseResult<Expr>, u64)
    decreases s.len() - pos, 2int,
{
    if !sym_at(s, pos, '(') {
        (Err(pos), id)
    } else {
        let (r, id1) = g_expr(s, (pos + 1) as usize, id);
        match r {
            Ok((p, e)) => if within(s, pos, p) && sym_at(s, p, ')') {
                let (r2, id2) = g_index_tail(s, (p + 1) as usize, e, id1);
                match r2 {
                    Ok(ok) => (Ok(ok), id2),
                    Err(_) => (Err(pos), id2),
                }
            } else {
                (Err(pos), id1)
            },
            Err(_) => (Err(pos), id1),
        }
    }
}

/// A parameter: a type then a name, or a bare name.
pub open spec fn spec_param(s: Seq<Token>, pos: usize) -> ParseResult<Param> {
    match type_at(s, pos) {
        Ok((p, t)) => if ident_at(s, p) {
            Ok(((p + 1) as usize, Param { tpe_opt: Some(t), name: s[p as int].span }))
        } else if ident_at(s, pos) {
            Ok(((pos + 1) as usize, Param { tpe_opt: None, name: s[pos as int].span }))
        } else {
            Err(pos)
        },
        Err(_) => if ident_at(s, pos) {
            Ok(((pos + 1) as usize, Param { tpe_opt: None, name: s[pos as int].span }))
        } else {
            Err(pos)
        },
    }
}

/// (param (',' param)*)?
pub open spec fn spec_params(s: Seq<Token>, pos: usize) -> ParseResult<Nodes<Param>> {
    match spec_param(s, pos) {
        Ok((p, first)) => if moved(s, pos, p) {
            match spec_params_tail(s, p) {
                Ok((q, rest)) => Ok((q, Nodes::Cons(Box::new(first), Box::new(rest)))),
                Err(_) => Ok((pos, Nodes::Nil)),
            }
        } else {
            Ok((pos, Nodes::Nil))
        },
        Err(_) => Ok((pos, Nodes::Nil)),
    }
}

pub open spec fn spec_params_tail(s: Seq<Token>, pos: usize) -> ParseResult<Nodes<Param>>
    decreases s.len() - pos,
{
    if !sym_at(s, pos, ',') {
        Ok((pos, Nodes::Nil))
    } else {
        match spec_param(s, (pos + 1) as usize) {
            Ok((p, param)) => if moved(s, pos, p) {
                match spec_params_tail(s, p) {
                    Ok((q, rest)) => Ok((q, Nodes::Cons(Box::new(param), Box::new(rest)))),
                    Err(_) => Ok((pos, Nodes::Nil)),
                }
            } else {
                Ok((pos, Nodes::Nil))
            },
            Err(_) => Ok((pos, Nodes::Nil)),
        }
    }
}

/// lambda := (identifier | '(' params ')') '->' expr. The lambda is
/// stamped with a fresh identifier, one above the allocator's value, drawn
/// before its body is parsed; with the allocator exhausted no lambda parses,
/// so no identifier is handed out twice.
pub open spec fn g_lambda(s: Seq<Token>, pos: usize, id: u64) -> (ParseResult<Expr>, u64)
    decreases s.len() - pos, 1int,
{
    let head: ParseResult<Nodes<Param>> = if ident_at(s, pos) {
        Ok(
            (
                (pos + 1) as usize,
                Nodes::Cons(
                    Box::new(Param { tpe_opt: None, name: s[pos as int].span }),
                    Box::new(Nodes::Nil),
                ),
            ),
        )
    } else if sym_at(s, pos, '(') {
        match spec_params(s, (pos + 1) as usize) {
            Ok((q, params)) => if within(s, pos, q) && sym_at(s, q, ')') {
                Ok(((q + 1) as usize, params))
            } else {
                Err(pos)
            },
            Err(_) => Err(pos),
        }
    } else {
        Err(pos)
    };
    match head {
        Ok((p, params)) => if moved(s, pos, p) && sym2_at(s, p, '-', '>') && id < u64::MAX {
            let b = (p + 2) as usize;
            let lid = (id + 1) as u64;
            let (r, id1) = g_expr(s, b, lid);
            match r {
                Ok((q, e)) => (Ok((q, Expr::Lambda { id: lid, params, body: Box::new(e) })), id1),
                Err(_) => (Err(pos), id1),
            }
        } else {
            (Err(pos), id)
        },
        Err(_) => (Err(pos), id),
    }
}

/// An expression at `pos`, as a name that the statement grammar need not
/// unfold.
#[verifier::opaque]
pub open spec fn expr_at(s: Seq<Token>, pos: usize, id: u64) -> (ParseResult<Expr>, u64) {
    g_expr(s, pos, id)
}

/// block := '{' statement* '}'
pub open spec fn g_block(s: Seq<Token>, pos: usize, id: u64) -> (ParseResult<Block>, u64)
    decreases s.len() - pos, 19int,
{
    if !sym_at(s, pos, '{') {
        (Err(pos), id)
    } else {
        let (r, id1) = g_statements(s, (pos + 1) as usize, id);
        match r {
            Ok((p, stmts)) => if within(s, pos, p) && sym_at(s, p, '}') {
                (Ok(((p + 1) as usize, Block { stmts })), id1)
            } else {
                (Err(pos), id1)
            },
            Err(_) => (Err(pos), id1),
        }
    }
}

/// statement*: as many statements as parse, one after another.
pub open spec fn g_statements(s: Seq<Token>, pos: usize, id: u64) -> (ParseResult<Nodes<Statement>>, u64)
    decreases s.len() - pos, 23int,
{
    let (r, id1) = g_statement(s, pos, id);
    match r {
        Ok((p, st)) => if moved(s, pos, p) {
            let (r2, id2) = g_statements(s, p, id1);
            match r2 {
                Ok((q, rest)) => (Ok((q, Nodes::Cons(Box::new(st), Box::new(rest)))), id2),
                Err(_) => (Ok((pos, Nodes::Nil)), id2),
            }
        } else {
            (Ok((pos, Nodes::Nil)), id1)
        },
        Err(_) => (Ok((pos, Nodes::Nil)), id1),
    }
}

/// A block, or a single statement taken as a block of one.
pub open spec fn g_block_or_single(s: Seq<Token>, pos: usize, id: u64) -> (ParseResult<Block>, u64)
    decreases s.len() - pos, 23int,
{
    let (r, id1) = g_block(s, pos, id);
    match r {
        Ok(_) => (r, id1),
        Err(_) => {
            let (r2, id2) = g_statement(s, pos, id1);
            match r2 {
                Ok((p, st)) => (Ok((p, Block { stmts: Nodes::Cons(Box::new(st), Box::new(Nodes::Nil)) })), id2),
                Err(_) => (Err(pos), id2),
            }
        },
    }
}

/// statement := block | for | return | class | declaration ';' | expr ';',
/// tried in this order.
pub open spec fn g_statement(s: Seq<Token>, pos: usize, id: u64) -> (ParseResult<Statement>, u64)
    decreases s.len() - pos, 22int,
{
    let (r1, id1) = g_block(s, pos, id);
    match r1 {
        Ok((p, b)) => (Ok((p, Statement::Block(b))), id1),
        Err(_) => {
            let (r2, id2) = g_for(s, pos, id1);
            match r2 {
                Ok(_) => (r2, id2),
                Err(_) => {
                    let (r3, id3) = g_return(s, pos, id2);
                    match r3 {
                        Ok(_) => (r3, id3),
                        Err(_) => {
                            let (r4, id4) = g_class(s, pos, id3);
                            match r4 {
                                Ok(_) => (r4, id4),
                                Err(_) => {
                                    let (r5, id5) = g_declarations_stmt(s, pos, id4);
                                    match r5 {
                                        Ok(_) => (r5, id5),
                                        Err(_) => g_expr_stmt(s, pos, id5),
                                    }
                                },
                            }
                        },
                    }
                },
            }
        },
    }
}

/// return := 'return' expr? ';'
pub open spec fn g_return(s: Seq<Token>, pos: usize, id: u64) -> (ParseResult<Statement>, u64)
    decreases s.len() - pos, 19int,
{
    let p = (pos + 1) as usize;
    if !kw_at(s, pos, Kw::Return) {
        (Err(pos), id)
    } else if sym_at(s, p, ';') {
        (Ok(((p + 1) as usize, Statement::Return(None))), id)
    } else {
        let (r, id1) = expr_at(s, p, id);
        match r {
            Ok((q, e)) => if within(s, pos, q) && sym_at(s, q, ';') {
                (Ok(((q + 1) as usize, Statement::Return(Some(e)))), id1)
            } else {
                (Err(pos), id1)
            },
            Err(_) => (Err(pos), id1),
        }
    }
}

/// expr ';'
pub open spec fn g_expr_stmt(s: Seq<Token>, pos: usize, id: u64) -> (ParseResult<Statement>, u64)
    decreases s.len() - pos, 16int,
{
    let (r, id1) = expr_at(s, pos, id);
    match r {
        Ok((p, e)) => if within(s, pos, p) && sym_at(s, p, ';') {
            (Ok(((p + 1) as usize, Statement::Expr(e))), id1)
        } else {
            (Err(pos), id1)
        },
        Err(_) => (Err(pos), id1),
    }
}

/// declarator := identifier ('=' expr)?, where the '=' does not start '=='.
pub open spec fn g_declarator(s: Seq<Token>, pos: usize, id: u64) -> (ParseResult<VariableDeclarator>, u64)
    decreases s.len() - pos, 0int,
{
    let p = (pos + 1) as usize;
    if !ident_at(s, pos) {
        (Err(pos), id)
    } else if sym_at(s, p, '=') && !sym_at(s, (p + 1) as usize, '=') {
        let (r, id1) = expr_at(s, (p + 1) as usize, id);
        match r {
            Ok((q, e)) => (Ok((q, VariableDeclarator { name: s[pos as int].span, expr_opt: Some(e) })), id1),
            Err(_) => (Err(pos), id1),
        }
    } else {
        (Ok((p, VariableDeclarator { name: s[pos as int].span, expr_opt: None })), id)
    }
}

/// (',' declarator)*
pub open spec fn g_declarators_tail(s: Seq<Token>, pos: usize, id: u64) -> (ParseResult<Nodes<VariableDeclarator>>, u64)
    decreases s.len() - pos, 0int,
{
    if !sym_at(s, pos, ',') {
        (Ok((pos, Nodes::Nil)), id)
    } else {
        let (r, id1) = g_declarator(s, (pos + 1) as usize, id);
        match r {
            Ok((p, d)) => if moved(s, pos, p) {
                let (r2, id2) = g_declarators_tail(s, p, id1);
                match r2 {
                    Ok((q, rest)) => (Ok((q, Nodes::Cons(Box::new(d), Box::new(rest)))), id2),
                    Err(_) => (Ok((pos, Nodes::Nil)), id2),
                }
            } else {
                (Ok((pos, Nodes::Nil)), id1)
            },
            Err(_) => (Ok((pos, Nodes::Nil)), id1),
        }
    }
}

/// declarations := type declarators
pub open spec fn g_declarations(s: Seq<Token>, pos: usize, id: u64) -> (ParseResult<Statement>, u64)
    decreases s.len() - pos, 16int,
{
    match type_at(s, pos) {
        Ok((p, tpe)) => if !moved(s, pos, p) {
            (Err(pos), id)
        } else {
            let (r, id1) = g_declarators(s, p, tpe, id);
            match r {
                Ok(ok) => (Ok(ok), id1),
                Err(_) => (Err(pos), id1),
            }
        },
        Err(_) => (Err(pos), id),
    }
}

/// declarators := declarator (',' declarator)*, all of type `tpe`.
pub open spec fn g_declarators(s: Seq<Token>, pos: usize, tpe: Type, id: u64) -> (ParseResult<Statement>, u64)
    decreases s.len() - pos, 1int,
{
    let (r, id1) = g_declarator(s, pos, id);
    match r {
        Ok((q, first)) => if moved(s, pos, q) {
            let (r2, id2) = g_declarators_tail(s, q, id1);
            match r2 {
                Ok((u, rest)) => (
                    Ok((u, Statement::VariableDeclarators {
                        tpe,
                        declarators: Nodes::Cons(Box::new(first), Box::new(rest)),
                    })),
                    id2,
                ),
                Err(_) => (Err(pos), id2),
            }
        } else {
            (Err(pos), id1)
        },
        Err(_) => (Err(pos), id1),
    }
}

/// declarations ';'
pub open spec fn g_declarations_stmt(s: Seq<Token>, pos: usize, id: u64) -> (ParseResult<Statement>, u64)
    decreases s.len() - pos, 17int,
{
    let (r, id1) = g_declarations(s, pos, id);
    match r {
        Ok((p, st)) => if within(s, pos, p) && sym_at(s, p, ';') {
            (Ok(((p + 1) as usize, st)), id1)
        } else {
            (Err(pos), id1)
        },
        Err(_) => (Err(pos), id1),
    }
}

/// (expr (',' expr)*)?, each expression taken as a statement.
pub open spec fn g_expr_stmts(s: Seq<Token>, pos: usize, id: u64) -> (ParseResult<Nodes<Statement>>, u64)
    decreases s.len() - pos, 16int,
{
    let (r, id1) = expr_at(s, pos, id);
    match r {
        Ok((p, e)) => if moved(s, pos, p) {
            let (r2, id2) = g_expr_stmts_tail(s, p, id1);
            match r2 {
                Ok((q, rest)) => (Ok((q, Nodes::Cons(Box::new(Statement::Expr(e)), Box::new(rest)))), id2),
                Err(_) => (Ok((pos, Nodes::Nil)), id2),
            }
        } else {
            (Ok((pos, Nodes::Nil)), id1)
        },
        Err(_) => (Ok((pos, Nodes::Nil)), id1),
    }
}

pub open spec fn g_expr_stmts_tail(s: Seq<Token>, pos: usize, id: u64) -> (ParseResult<Nodes<Statement>>, u64)
    decreases s.len() - pos, 0int,
{
    if !sym_at(s, pos, ',') {
        (Ok((pos, Nodes::Nil)), id)
    } else {
        let (r, id1) = expr_at(s, (pos + 1) as usize, id);
        match r {
            Ok((p, e)) => if moved(s, pos, p) {
                let (r2, id2) = g_expr_stmts_tail(s, p, id1);
                match r2 {
                    Ok((q, rest)) => (Ok((q, Nodes::Cons(Box::new(Statement::Expr(e)), Box::new(rest)))), id2),
                    Err(_) => (Ok((pos, Nodes::Nil)), id2),
                }
            } else {
                (Ok((pos, Nodes::Nil)), id1)
            },
            Err(_) => (Ok((pos, Nodes::Nil)), id1),
        }
    }
}

/// for := 'for' '(' (foreach | classic for)
pub open spec fn g_for(s: Seq<Token>, pos: usize, id: u64) -> (ParseResult<Statement>, u64)
    decreases s.len() - pos, 19int,
{
    let p = (pos + 2) as usize;
    if !(kw_at(s, pos, Kw::For) && sym_at(s, (pos + 1) as usize, '(')) {
        (Err(pos), id)
    } else {
        let (r1, id1) = g_foreach(s, p, id);
        match r1 {
            Ok(_) => (r1, id1),
            Err(_) => {
                let (r2, id2) = g_for_loop(s, p, id1);
                match r2 {
                    Ok(_) => (r2, id2),
                    Err(_) => (Err(pos), id2),
                }
            },
        }
    }
}

/// foreach := type identifier ':' expr ')' block_or_single
pub open spec fn g_foreach(s: Seq<Token>, pos: usize, id: u64) -> (ParseResult<Statement>, u64)
    decreases s.len() - pos, 16int,
{
    match type_at(s, pos) {
        Ok((p, tpe)) => if !(moved(s, pos, p) && ident_at(s, p) && sym_at(s, (p + 1) as usize, ':')) {
            (Err(pos), id)
        } else {
            let declarator = StandaloneVariableDeclarator { tpe, name: s[p as int].span };
            let (r, id1) = expr_at(s, (p + 2) as usize, id);
            match r {
                Ok((q, expr)) => if within(s, pos, q) && sym_at(s, q, ')') {
                    let (r2, id2) = g_block_or_single(s, (q + 1) as usize, id1);
                    match r2 {
                        Ok((u, block)) => (Ok((u, Statement::Foreach { declarator, expr, block })), id2),
                        Err(_) => (Err(pos), id2),
                    }
                } else {
                    (Err(pos), id1)
                },
                Err(_) => (Err(pos), id1),
            }
        },
        Err(_) => (Err(pos), id),
    }
}

/// The initializers of a classic for: one declaration, or expressions.
pub open spec fn g_inits(s: Seq<Token>, pos: usize, id: u64) -> (ParseResult<Nodes<Statement>>, u64)
    decreases s.len() - pos, 17int,
{
    let (r, id1) = g_declarations(s, pos, id);
    match r {
        Ok((p, st)) => (Ok((p, Nodes::Cons(Box::new(st), Box::new(Nodes::Nil)))), id1),
        Err(_) => g_expr_stmts(s, pos, id1),
    }
}

/// classic for := inits ';' rest
pub open spec fn g_for_loop(s: Seq<Token>, pos: usize, id: u64) -> (ParseResult<Statement>, u64)
    decreases s.len() - pos, 18int,
{
    let (r, id1) = g_inits(s, pos, id);
    match r {
        Ok((p, inits)) => if !(within(s, pos, p) && sym_at(s, p, ';')) {
            (Err(pos), id1)
        } else {
            let (r2, id2) = g_for_rest(s, (p + 1) as usize, inits, id1);
            match r2 {
                Ok(ok) => (Ok(ok), id2),
                Err(_) => (Err(pos), id2),
            }
        },
        Err(_) => (Err(pos), id1),
    }
}

/// What follows the initializers of a classic for and their ';':
/// expr? ';' updates ')' block_or_single
pub open spec fn g_for_rest(s: Seq<Token>, pos: usize, inits: Nodes<Statement>, id: u64) -> (ParseResult<Statement>, u64)
    decreases s.len() - pos, 17int,
{
    let (rc, id1) = expr_at(s, pos, id);
    let (q, cond_opt) = match rc {
        Ok((q, c)) => (q, Some(c)),
        Err(_) => (pos, None),
    };
    if !(within(s, pos, q) && sym_at(s, q, ';')) {
        (Err(pos), id1)
    } else {
        let (ru, id2) = g_expr_stmts(s, (q + 1) as usize, id1);
        match ru {
            Ok((u, updates)) => if within(s, pos, u) && sym_at(s, u, ')') {
                let (rb, id3) = g_block_or_single(s, (u + 1) as usize, id2);
                match rb {
                    Ok((v, block)) => (Ok((v, Statement::ForLoop { inits, cond_opt, updates, block })), id3),
                    Err(_) => (Err(pos), id3),
                }
            } else {
                (Err(pos), id2)
            },
            Err(_) => (Err(pos), id2),
        }
    }
}

/// The modifier keywords at `pos`, as many as stand there.
pub open spec fn spec_modifiers(s: Seq<Token>, pos: usize) -> ParseResult<Nodes<Span>>
    decreases s.len() - pos,
{
    if has_token(s, pos) && (match s[pos as int].kind {
        TokenKind::Keyword(k) => is_modifier_kw(k),
        _ => false,
    }) {
        match spec_modifiers(s, (pos + 1) as usize) {
            Ok((p, rest)) => Ok((p, Nodes::Cons(Box::new(s[pos as int].span), Box::new(rest)))),
            Err(_) => Ok((pos, Nodes::Nil)),
        }
    } else {
        Ok((pos, Nodes::Nil))
    }
}

/// type_params := ('<' identifier (',' identifier)* '>')?
pub open spec fn spec_type_params(s: Seq<Token>, pos: usize) -> ParseResult<Nodes<Span>> {
    if !sym_at(s, pos, '<') {
        Ok((pos, Nodes::Nil))
    } else if !ident_at(s, (pos + 1) as usize) {
        Err(pos)
    } else {
        match spec_idents_tail(s, (pos + 2) as usize) {
            Ok((q, rest)) => if sym_at(s, q, '>') {
                Ok(((q + 1) as usize, Nodes::Cons(Box::new(s[pos + 1].span), Box::new(rest))))
            } else {
                Err(pos)
            },
            Err(_) => Err(pos),
        }
    }
}

/// (',' identifier)*
pub open spec fn spec_idents_tail(s: Seq<Token>, pos: usize) -> ParseResult<Nodes<Span>>
    decreases s.len() - pos,
{
    if sym_at(s, pos, ',') && ident_at(s, (pos + 1) as usize) {
        match spec_idents_tail(s, (pos + 2) as usize) {
            Ok((q, rest)) => Ok((q, Nodes::Cons(Box::new(s[pos + 1].span), Box::new(rest)))),
            Err(_) => Ok((pos, Nodes::Nil)),
        }
    } else {
        Ok((pos, Nodes::Nil))
    }
}

/// (',' class_type)*
pub open spec fn spec_class_types_tail(s: Seq<Token>, pos: usize) -> ParseResult<Nodes<ClassType>>
    decreases s.len() - pos,
{
    if !sym_at(s, pos, ',') {
        Ok((pos, Nodes::Nil))
    } else {
        match class_type_at(s, (pos + 1) as usize) {
            Ok((p, c)) => if moved(s, pos, p) {
                match spec_class_types_tail(s, p) {
                    Ok((q, rest)) => Ok((q, Nodes::Cons(Box::new(c), Box::new(rest)))),
                    Err(_) => Ok((pos, Nodes::Nil)),
                }
            } else {
                Ok((pos, Nodes::Nil))
            },
            Err(_) => Ok((pos, Nodes::Nil)),
        }
    }
}

/// implements := ('implements' class_type (',' class_type)*)?
pub open spec fn spec_implements(s: Seq<Token>, pos: usize) -> ParseResult<Nodes<ClassType>> {
    if !kw_at(s, pos, Kw::Implements) {
        Ok((pos, Nodes::Nil))
    } else {
        match class_type_at(s, (pos + 1) as usize) {
            Ok((p, c)) => if moved(s, pos, p) {
                match spec_class_types_tail(s, p) {
                    Ok((q, rest)) => Ok((q, Nodes::Cons(Box::new(c), Box::new(rest)))),
                    Err(_) => Err(pos),
                }
            } else {
                Err(pos)
            },
            Err(_) => Err(pos),
        }
    }
}

/// What follows a class's name: type_params ('extends' class_type)? implements
pub open spec fn spec_class_header(s: Seq<Token>, pos: usize) -> ParseResult<(Nodes<Span>, Option<ClassType>, Nodes<ClassType>)> {
    match spec_type_params(s, pos) {
        Ok((e, tps)) => if !(pos <= e && e <= s.len()) {
            Err(pos)
        } else {
            let ext: ParseResult<Option<ClassType>> = if kw_at(s, e, Kw::Extends) {
                match class_type_at(s, (e + 1) as usize) {
                    Ok((q, c)) => Ok((q, Some(c))),
                    Err(_) => Err(pos),
                }
            } else {
                Ok((e, None))
            };
            match ext {
                Ok((q, extend_opt)) => if !(pos <= q && q <= s.len()) {
                    Err(pos)
                } else {
                    match spec_implements(s, q) {
                        Ok((u, impls)) => Ok((u, (tps, extend_opt, impls))),
                        Err(_) => Err(pos),
                    }
                },
                Err(_) => Err(pos),
            }
        },
        Err(_) => Err(pos),
    }
}

/// class := modifier* 'class' identifier class_header '{' member* '}'
pub open spec fn g_class(s: Seq<Token>, pos: usize, id: u64) -> (ParseResult<Statement>, u64)
    decreases s.len() - pos, 19int,
{
    match spec_modifiers(s, pos) {
        Ok((p, modifiers)) => if !(within(s, pos, p) && kw_at(s, p, Kw::Class) && ident_at(s, (p + 1) as usize)) {
            (Err(pos), id)
        } else {
            let name = s[p + 1].span;
            let ext = spec_class_header(s, (p + 2) as usize);
            match ext {
                Ok((q, header)) => if within(s, pos, q) && sym_at(s, q, '{') {
                    let (r, id1) = g_members(s, (q + 1) as usize, id);
                    match r {
                        Ok((u, body)) => if within(s, pos, u) && sym_at(s, u, '}') {
                            (
                                Ok(
                                    (
                                        (u + 1) as usize,
                                        Statement::Class(
                                            Class {
                                                modifiers,
                                                name,
                                                type_params: header.0,
                                                extend_opt: header.1,
                                                implements: header.2,
                                                body,
                                            },
                                        ),
                                    ),
                                ),
                                id1,
                            )
                        } else {
                            (Err(pos), id1)
                        },
                        Err(_) => (Err(pos), id1),
                    }
                } else {
                    (Err(pos), id)
                },
                Err(_) => (Err(pos), id),
            }
        },
        Err(_) => (Err(pos), id),
    }
}

/// member := class | declaration ';'
pub open spec fn g_member(s: Seq<Token>, pos: usize, id: u64) -> (ParseResult<Statement>, u64)
    decreases s.len() - pos, 20int,
{
    let (r, id1) = g_class(s, pos, id);
    match r {
        Ok(_) => (r, id1),
        Err(_) => g_declarations_stmt(s, pos, id1),
    }
}

/// member*
pub open spec fn g_members(s: Seq<Token>, pos: usize, id: u64) -> (ParseResult<Nodes<Statement>>, u64)
    decreases s.len() - pos, 21int,
{
    let (r, id1) = g_member(s, pos, id);
    match r {
        Ok((p, m)) => if moved(s, pos, p) {
            let (r2, id2) = g_members(s, p, id1);
            match r2 {
                Ok((q, rest)) => (Ok((q, Nodes::Cons(Box::new(m), Box::new(rest)))), id2),
                Err(_) => (Ok((pos, Nodes::Nil)), id2),
            }
        } else {
            (Ok((pos, Nodes::Nil)), id1)
        },
        Err(_) => (Ok((pos, Nodes::Nil)), id1),
    }
}

} // verus!
