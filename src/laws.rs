//! Laws of the grammar, proved over the spec functions that the parsers'
//! contracts are stated in.
use vstd::prelude::*;
use crate::combinator::sym_at;
use crate::grammar::{g_atom, g_expr, g_index, g_index_tail, g_lambda_or_paren, g_paren, g_prefix, lambda_ahead};
use crate::token::Token;
use crate::tree::Expr;

verus! {

/// Index suffixes nest to the left: after `e`, a suffix `[i]` then a suffix
/// `[j]`, with no suffix after them, give the access `(e[i])[j]`, never
/// `e[i[j]]`.
pub proof fn lemma_index_left_assoc(
    s: Seq<Token>,
    pos: usize,
    e: Expr,
    id: u64,
    p1: usize,
    i: Expr,
    id1: u64,
    p2: usize,
    j: Expr,
    id2: u64,
)
    requires
        g_index(s, pos, id) == (Ok::<(usize, Expr), usize>((p1, i)), id1),
        g_index(s, p1, id1) == (Ok::<(usize, Expr), usize>((p2, j)), id2),
        g_index(s, p2, id2).0 is Err,
    ensures
        g_index_tail(s, pos, e, id) == (
            Ok::<(usize, Expr), usize>(
                (
                    p2,
                    Expr::ArrayAccess {
                        expr: Box::new(Expr::ArrayAccess { expr: Box::new(e), index: Box::new(i) }),
                        index: Box::new(j),
                    },
                ),
            ),
            g_index(s, p2, id2).1,
        ),
{
    reveal_with_fuel(g_index_tail, 3);
    reveal_with_fuel(g_index, 2);
}

/// Parentheses are transparent: where the `(` at `pos` opens no lambda, the
/// expression `E` inside ends at the matching `)`, and no index suffix
/// follows, the atom `( E )` is the tree of `E` itself.
pub proof fn lemma_paren_transparent(s: Seq<Token>, pos: usize, id: u64, p: usize, e: Expr, id1: u64)
    requires
        sym_at(s, pos, '('),
        !lambda_ahead(s, pos),
        g_expr(s, (pos + 1) as usize, id) == (Ok::<(usize, Expr), usize>((p, e)), id1),
        pos < p,
        sym_at(s, p, ')'),
        g_index(s, (p + 1) as usize, id1).0 is Err,
    ensures
        g_atom(s, pos, id) == (Ok::<(usize, Expr), usize>(((p + 1) as usize, e)), g_index(s, (p + 1) as usize, id1).1),
{
    reveal_with_fuel(g_atom, 2);
    reveal_with_fuel(g_prefix, 2);
    reveal_with_fuel(g_lambda_or_paren, 2);
    reveal_with_fuel(g_paren, 2);
    reveal_with_fuel(g_index_tail, 2);
}

} // verus!
