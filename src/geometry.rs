use vstd::prelude::*;

verus! {

/// A two-dimensional size in pixels.
#[derive(Clone, Copy, Debug, PartialEq, Eq, Structural)]
pub struct Extent {
    pub width: u32,
    pub height: u32,
}

/// The smallest multiple of `alignment` that is not below `value`.
pub open spec fn align_up(value: int, alignment: int) -> int {
    if value % alignment == 0 {
        value
    } else {
        value + (alignment - value % alignment)
    }
}

/// Rounds `value` up to the next multiple of `alignment`.
pub fn return_aligned(value: u32, alignment: u32) -> (r: u32)
    requires
        alignment > 0,
        align_up(value as int, alignment as int) <= u32::MAX,
    ensures
        r == align_up(value as int, alignment as int),
        r % alignment == 0,
        value <= r,
        r < value + alignment,
{
    let rem = value % alignment;
    if rem == 0 {
        value
    } else {
        proof {
            let v = value as int;
            let a = alignment as int;
            vstd::arithmetic::div_mod::lemma_fundamental_div_mod(v, a);
            assert(v + (a - v % a) == (v / a + 1) * a + 0) by (nonlinear_arith)
                requires v == a * (v / a) + v % a;
            vstd::arithmetic::div_mod::lemma_fundamental_div_mod_converse(
                v + (a - v % a), a, v / a + 1, 0);
        }
        value + (alignment - rem)
    }
}

/// The number of `tile`-wide groups that cover `size`: the size rounded up to
/// a multiple of the tile, divided by the tile.
pub open spec fn tiles_covering(size: int, tile: int) -> int {
    align_up(size, tile) / tile
}

/// Counts the `tile`-wide groups that cover `size`, for every `u32` size.
pub fn tile_count(size: u32, tile: u32) -> (r: u32)
    requires
        tile > 0,
    ensures
        r == tiles_covering(size as int, tile as int),
{
    let q = size / tile;
    let rem = size % tile;
    proof {
        let v = size as int;
        let a = tile as int;
        vstd::arithmetic::div_mod::lemma_fundamental_div_mod(v, a);
        if v % a == 0 {
            assert(align_up(v, a) == v);
        } else {
            assert(v + (a - v % a) == (v / a + 1) * a + 0) by (nonlinear_arith)
                requires v == a * (v / a) + v % a;
            vstd::arithmetic::div_mod::lemma_fundamental_div_mod_converse(
                v + (a - v % a), a, v / a + 1, 0);
        }
    }
    if rem == 0 {
        q
    } else {
        proof {
            assert(q < u32::MAX) by (nonlinear_arith)
                requires q == size / tile, tile > 0, size % tile != 0;
        }
        q + 1
    }
}

} // verus!
