//! Row-major index arithmetic for the framebuffer grids: a cell at row `y`,
//! column `x` under a row pitch of `p` cells lives at index `y * p + x`.

use vstd::arithmetic::div_mod::lemma_fundamental_div_mod;
use vstd::arithmetic::div_mod::lemma_fundamental_div_mod_converse;
use vstd::prelude::*;

verus! {

/// A cell inside the visible region has a row-major index inside the buffer.
pub proof fn lemma_row_index_bound(p: int, h: int, y: int, x: int)
    by (nonlinear_arith)
    requires
        0 <= x < p,
        0 <= y < h,
    ensures
        y * p + x < p * h,
{
}

/// A row-major cell index under pitch `p` decomposes into the row and column
/// the write loops walk.
pub proof fn lemma_cell_index(p: int, y: int, x: int)
    requires
        0 < p,
        0 <= y,
        0 <= x < p,
    ensures
        (y * p + x) / p == y,
        (y * p + x) % p == x,
{
    lemma_fundamental_div_mod_converse(y * p + x, p, y, x);
}

/// Any cell index splits into its row and column under pitch `p`.
pub proof fn lemma_index_decompose(p: int, i: int)
    requires
        0 < p,
        0 <= i,
    ensures
        i == (i / p) * p + (i % p),
        0 <= i % p < p,
        0 <= i / p,
{
    lemma_fundamental_div_mod(i, p);
    vstd::arithmetic::mul::lemma_mul_is_commutative(p, i / p);
    vstd::arithmetic::div_mod::lemma_mod_bound(i, p);
    vstd::arithmetic::div_mod::lemma_div_pos_is_pos(i, p);
}

} // verus!
