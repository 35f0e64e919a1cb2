use vstd::prelude::*;

verus! {

/// Where a token stands in its source file: used for diagnostics and as the
/// token's identity in the tree. The tree holds no source text: the text of a
/// name or a literal is found through its position in the caller's token
/// table, which the lexer keeps.
#[derive(Clone, Copy, Debug, PartialEq, Eq, Structural)]
pub struct Span {
    pub line: usize,
    pub col: usize,
}

/// Reserved words, as the lexer classifies them.
#[derive(Clone, Copy, Debug, PartialEq, Eq, Structural)]
pub enum Kw {
    True,
    False,
    Null,
    New,
    This,
    Super,
    Instanceof,
    For,
    Return,
    Class,
    Extends,
    Implements,
    Public,
    Private,
    Protected,
    Static,
    Final,
    Abstract,
    Strictfp,
    Boolean,
    Byte,
    Short,
    Char,
    Int,
    Long,
    Void,
}

#[derive(Clone, Copy, Debug, PartialEq, Eq, Structural)]
pub enum TokenKind {
    Identifier,
    Keyword(Kw),
    Int,
    Str,
    Char,
    Symbol(char),
}

#[derive(Clone, Copy, Debug, PartialEq, Eq, Structural)]
pub struct Token {
    pub kind: TokenKind,
    pub span: Span,
}

/// The keywords that name a primitive type.
pub open spec fn is_primitive_kw(k: Kw) -> bool {
    match k {
        Kw::Boolean | Kw::Byte | Kw::Short | Kw::Char | Kw::Int | Kw::Long | Kw::Void => true,
        _ => false,
    }
}

/// The keywords that may stand before a class declaration.
pub open spec fn is_modifier_kw(k: Kw) -> bool {
    match k {
        Kw::Public | Kw::Private | Kw::Protected | Kw::Static | Kw::Final | Kw::Abstract
        | Kw::Strictfp => true,
        _ => false,
    }
}

pub fn primitive_kw(k: Kw) -> (r: bool)
    ensures
        r == is_primitive_kw(k),
{
    match k {
        Kw::Boolean | Kw::Byte | Kw::Short | Kw::Char | Kw::Int | Kw::Long | Kw::Void => true,
        _ => false,
    }
}

pub fn modifier_kw(k: Kw) -> (r: bool)
    ensures
        r == is_modifier_kw(k),
{
    match k {
        Kw::Public | Kw::Private | Kw::Protected | Kw::Static | Kw::Final | Kw::Abstract
        | Kw::Strictfp => true,
        _ => false,
    }
}

/// The outcome of a parser started at some position: on success the position
/// just after what was consumed and the value built; on failure the starting
/// position, unchanged.
pub type ParseResult<T> = Result<(usize, T), usize>;

/// A result that either failed at `pos` or consumed at least one token and
/// stays within the input.
pub open spec fn advances<T>(r: ParseResult<T>, pos: usize, len: nat) -> bool {
    match r {
        Ok((p, _)) => pos < p && p <= len,
        Err(p) => p == pos,
    }
}

/// A result that failed at `pos`, or succeeded at or after `pos` and within
/// the input.
pub open spec fn settles<T>(r: ParseResult<T>, pos: usize, len: nat) -> bool {
    match r {
        Ok((p, _)) => pos <= p && p <= len,
        Err(p) => p == pos,
    }
}

/// A result that never fails and ends at or after `pos`.
pub open spec fn extends<T>(r: ParseResult<T>, pos: usize, len: nat) -> bool {
    match r {
        Ok((p, _)) => pos <= p && p <= len,
        Err(_) => false,
    }
}

} // verus!
