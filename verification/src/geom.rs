//! Fixed-point 2D vectors and the integer helpers the physics is built on:
//! saturating addition, the sign conventions, and the rounding that maps a
//! subpixel coordinate to its grid tile.

use vstd::prelude::*;
use crate::config::{SUBPIXEL, TILE_SUB, POS_LIMIT};

verus! {

/// A 2D vector in subpixels (position) or subpixels per tick (velocity).
#[derive(Clone, Copy, PartialEq, Eq, Structural, Debug)]
pub struct Vec2i {
    pub x: i64,
    pub y: i64,
}

impl Vec2i {
    /// The vector `(x, y)`.
    pub fn new(x: i64, y: i64) -> (v: Vec2i)
        ensures
            v.x == x,
            v.y == y,
    {
        Vec2i { x, y }
    }
}

/// The absolute value.
pub open spec fn abs_int(v: int) -> int {
    if v < 0 { -v } else { v }
}

/// `v` clamped to the interval `[lo, hi]`.
pub open spec fn clamp_int(v: int, lo: int, hi: int) -> int {
    if v < lo { lo } else if v > hi { hi } else { v }
}

/// The mathematical sign: -1, 0 or 1.
pub open spec fn sgn_int(v: int) -> int {
    if v > 0 { 1 } else if v < 0 { -1 } else { 0 }
}

/// The sign convention of the physics: zero counts as positive.
pub open spec fn fsign_int(v: int) -> int {
    if v < 0 { -1 } else { 1 }
}

/// The sign of `v`, with zero counting as positive.
pub fn fsign(v: i64) -> (r: i64)
    ensures
        r == fsign_int(v as int),
{
    if v < 0 { -1 } else { 1 }
}

/// The mathematical sign of `v`: -1, 0 or 1.
pub fn sgn(v: i64) -> (r: i64)
    ensures
        r == sgn_int(v as int),
{
    if v > 0 { 1 } else if v < 0 { -1 } else { 0 }
}

/// `a + b`, saturating at `-limit` and `limit`.
pub fn clamped_add(a: i64, b: i64, limit: i64) -> (r: i64)
    requires
        limit > 0,
    ensures
        r as int == clamp_int(a + b, -(limit as int), limit as int),
{
    let s: i128 = a as i128 + b as i128;
    if s < -(limit as i128) {
        -limit
    } else if s > limit as i128 {
        limit
    } else {
        s as i64
    }
}

/// The grid tile that subpixel coordinate `p` falls on: division by the tile
/// size, rounded to the nearest tile, halves away from zero.
pub open spec fn spec_tile_index(p: int) -> int {
    if p >= 0 {
        (p + TILE_SUB / 2) / (TILE_SUB as int)
    } else {
        -(((-p) + TILE_SUB / 2) / (TILE_SUB as int))
    }
}

/// The grid tile that subpixel coordinate `p` falls on.
pub fn tile_index(p: i64) -> (r: i64)
    requires
        -POS_LIMIT - TILE_SUB <= p <= POS_LIMIT + TILE_SUB,
    ensures
        r == spec_tile_index(p as int),
{
    if p >= 0 {
        (p + TILE_SUB / 2) / TILE_SUB
    } else {
        -(((-p) + TILE_SUB / 2) / TILE_SUB)
    }
}

/// Saturation bound for grid coordinates and pixel counts; far beyond any
/// index that passes a grid bounds check.
pub const MAX_GRID: usize = 0x4000_0000;

/// A tile index as a grid coordinate: clamped to `[0, MAX_GRID]`.
pub open spec fn spec_tile_to_grid(t: int) -> int {
    clamp_int(t, 0, MAX_GRID as int)
}

/// A tile index as a grid coordinate: clamped to `[0, MAX_GRID]`.
pub fn tile_to_grid(t: i64) -> (r: usize)
    ensures
        r == spec_tile_to_grid(t as int),
{
    if t < 0 {
        0
    } else if t > MAX_GRID as i64 {
        MAX_GRID
    } else {
        t as usize
    }
}

/// A subpixel coordinate as a whole pixel count: truncating division,
/// clamped to `[0, MAX_GRID]`.
pub open spec fn spec_sub_to_px(p: int) -> int {
    if p < 0 { 0 } else { clamp_int(p / (SUBPIXEL as int), 0, MAX_GRID as int) }
}

/// A subpixel coordinate as a whole pixel count.
pub fn sub_to_px(p: i64) -> (r: usize)
    ensures
        r == spec_sub_to_px(p as int),
{
    if p < 0 {
        0
    } else {
        let px: i64 = p / SUBPIXEL;
        if px > MAX_GRID as i64 { MAX_GRID } else { px as usize }
    }
}

} // verus!
