//! A continuous 2D position or vector, held in fixed point: each coordinate
//! counts micro-cells, `SCALE` of which make one arena cell.

use vstd::prelude::*;

use crate::coord::{Coord, Direction};
use crate::math::{
    add_clamped, advance_coord, clamp64, is_isqrt, isqrt, lemma_isqrt_ordered, spec_isqrt,
    spec_step, step_scaled, sub_clamped,
};
use crate::SCALE;

verus! {

/// A continuous position or direction vector in micro-cells.
#[derive(Clone, Copy, PartialEq, Eq, Structural, Debug)]
pub struct Point {
    pub x: i64,
    pub y: i64,
}

/// Componentwise clamped sum.
pub open spec fn spec_add(a: Point, b: Point) -> Point {
    Point { x: clamp64(a.x + b.x) as i64, y: clamp64(a.y + b.y) as i64 }
}

/// Componentwise clamped difference.
pub open spec fn spec_sub(a: Point, b: Point) -> Point {
    Point { x: clamp64(a.x - b.x) as i64, y: clamp64(a.y - b.y) as i64 }
}

/// `p` advanced by the unit vector `unit` at `speed` micro-cells per tick
/// for `dt` ticks, each coordinate clamped.
pub open spec fn spec_stepped(p: Point, unit: Point, speed: int, dt: int) -> Point {
    Point {
        x: clamp64(p.x + clamp64(spec_step(unit.x as int, speed, dt))) as i64,
        y: clamp64(p.y + clamp64(spec_step(unit.y as int, speed, dt))) as i64,
    }
}

/// `p` advanced by a velocity of `v` micro-cells per tick for `dt` ticks,
/// each coordinate clamped.
pub open spec fn spec_advanced(p: Point, v: Point, dt: int) -> Point {
    Point { x: clamp64(p.x + v.x * dt) as i64, y: clamp64(p.y + v.y * dt) as i64 }
}

/// The position of a whole-cell coordinate, in micro-cells.
pub open spec fn spec_from_coord(c: Coord) -> Point {
    Point { x: (c.x * SCALE) as i64, y: (c.y * SCALE) as i64 }
}

/// The cell a micro-cell coordinate falls in: rounded to the nearest whole
/// cell, halves away from zero, and clamped into `i32`.
pub open spec fn spec_cell_of(v: i64) -> int {
    let r = if v >= 0 {
        (v + SCALE / 2) / (SCALE as int)
    } else {
        -(((-v) + SCALE / 2) / (SCALE as int))
    };
    if r > i32::MAX as int {
        i32::MAX as int
    } else if r < i32::MIN as int {
        i32::MIN as int
    } else {
        r
    }
}

/// The squared distance between two points, in micro-cells squared.
pub open spec fn spec_dist_sq(a: Point, b: Point) -> int {
    (a.x - b.x) * (a.x - b.x) + (a.y - b.y) * (a.y - b.y)
}

/// The vector of length `SCALE` (one cell) pointing the way `p` does, with
/// each coordinate truncated toward zero; the zero vector is left unchanged.
pub open spec fn spec_normalize(p: Point) -> Point {
    if p.x == 0 && p.y == 0 {
        p
    } else {
        let len = spec_isqrt(p.x * p.x + p.y * p.y);
        Point {
            x: (if p.x >= 0 {
                (p.x * SCALE) / len
            } else {
                -(((-p.x) * SCALE) / len)
            }) as i64,
            y: (if p.y >= 0 {
                (p.y * SCALE) / len
            } else {
                -(((-p.y) * SCALE) / len)
            }) as i64,
        }
    }
}

/// The unit cell step of a direction, in micro-cells.
pub open spec fn spec_direction_point(d: Direction) -> Point {
    match d {
        Direction::Up => Point { x: 0, y: (-SCALE) as i64 },
        Direction::Down => Point { x: 0, y: SCALE },
        Direction::Left => Point { x: (-SCALE) as i64, y: 0 },
        Direction::Right => Point { x: SCALE, y: 0 },
    }
}

impl Point {
    pub fn new(x: i64, y: i64) -> (p: Point)
        ensures
            p == (Point { x, y }),
    {
        Point { x, y }
    }

    /// The position of a whole-cell coordinate.
    pub fn from_coord(c: Coord) -> (p: Point)
        ensures
            p == spec_from_coord(c),
            p.x == c.x * SCALE,
            p.y == c.y * SCALE,
    {
        Point { x: (c.x as i64) * SCALE, y: (c.y as i64) * SCALE }
    }

    /// The discrete cell this position falls in: each coordinate rounded to
    /// the nearest cell, halves away from zero, clamped into `i32`.
    pub fn as_coord(self) -> (c: Coord)
        ensures
            c.x as int == spec_cell_of(self.x),
            c.y as int == spec_cell_of(self.y),
    {
        Coord { x: cell_of(self.x), y: cell_of(self.y) }
    }

    /// Componentwise sum, clamped into `i64`.
    pub fn add(self, rhs: Point) -> (r: Point)
        ensures
            r == spec_add(self, rhs),
    {
        Point { x: add_clamped(self.x, rhs.x), y: add_clamped(self.y, rhs.y) }
    }

    /// Componentwise difference, clamped into `i64`.
    pub fn sub(self, rhs: Point) -> (r: Point)
        ensures
            r == spec_sub(self, rhs),
    {
        Point { x: sub_clamped(self.x, rhs.x), y: sub_clamped(self.y, rhs.y) }
    }

    /// The vector of length one cell pointing the way `self` does; the zero
    /// vector is returned unchanged, never divided.
    pub fn normalize(self) -> (r: Point)
        ensures
            r == spec_normalize(self),
            -SCALE <= r.x <= SCALE,
            -SCALE <= r.y <= SCALE,
    {
        if self.x == 0 && self.y == 0 {
            return self;
        }
        let ax: u128 = if self.x >= 0 {
            self.x as u128
        } else {
            (-(self.x as i128)) as u128
        };
        let ay: u128 = if self.y >= 0 {
            self.y as u128
        } else {
            (-(self.y as i128)) as u128
        };
        assert(ax * ax <= 0x8000_0000_0000_0000 * 0x8000_0000_0000_0000) by (nonlinear_arith)
            requires
                ax <= 0x8000_0000_0000_0000,
        ;
        assert(ay * ay <= 0x8000_0000_0000_0000 * 0x8000_0000_0000_0000) by (nonlinear_arith)
            requires
                ay <= 0x8000_0000_0000_0000,
        ;
        let n: u128 = ax * ax + ay * ay;
        let len: u128 = isqrt(n);
        proof {
            assert(ax * ax == self.x * self.x && ay * ay == self.y * self.y) by (nonlinear_arith)
                requires
                    (ax == self.x || ax == -self.x) && (ay == self.y || ay == -self.y),
            ;
            assert((ax as int) * (ax as int) < (ax as int + 1) * (ax as int + 1)
                && (ay as int) * (ay as int) < (ay as int + 1) * (ay as int + 1)
                && ax * ax >= 0 && ay * ay >= 0) by (nonlinear_arith)
                requires
                    ax >= 0 && ay >= 0,
            ;
            assert(is_isqrt(ax * ax, ax as int));
            lemma_isqrt_ordered(ax * ax, n as int, ax as int, len as int);
            assert(is_isqrt(ay * ay, ay as int));
            lemma_isqrt_ordered(ay * ay, n as int, ay as int, len as int);
            assert(ax * ax + ay * ay >= 1) by (nonlinear_arith)
                requires
                    ax >= 1 || ay >= 1,
            ;
            assert(len >= 1) by {
                assert(n >= 1);
                if len == 0 {
                    assert((0 + 1) * (0 + 1) == 1);
                }
            }
        }
        assert(ax * (SCALE as u128) <= 0x8000_0000_0000_0000 * 1_000_000
            && ay * (SCALE as u128) <= 0x8000_0000_0000_0000 * 1_000_000) by (nonlinear_arith)
            requires
                ax <= 0x8000_0000_0000_0000 && ay <= 0x8000_0000_0000_0000,
        ;
        let ux: u128 = ax * (SCALE as u128) / len;
        let uy: u128 = ay * (SCALE as u128) / len;
        proof {
            lemma_scaled_le(ax as int, len as int);
            lemma_scaled_le(ay as int, len as int);
        }
        Point {
            x: if self.x >= 0 {
                ux as i64
            } else {
                -(ux as i64)
            },
            y: if self.y >= 0 {
                uy as i64
            } else {
                -(uy as i64)
            },
        }
    }

    /// `self` advanced by the unit vector `unit` at `speed` micro-cells per
    /// tick for `dt` ticks; each coordinate is clamped into `i64`.
    pub fn stepped(self, unit: Point, speed: u32, dt: u128) -> (r: Point)
        requires
            -SCALE <= unit.x <= SCALE,
            -SCALE <= unit.y <= SCALE,
            speed as int <= SCALE as int,
        ensures
            r == spec_stepped(self, unit, speed as int, dt as int),
    {
        Point {
            x: add_clamped(self.x, step_scaled(unit.x, speed, dt)),
            y: add_clamped(self.y, step_scaled(unit.y, speed, dt)),
        }
    }

    /// `self` advanced by a velocity of `v` micro-cells per tick for `dt`
    /// ticks; each coordinate is clamped into `i64`.
    pub fn advanced(self, v: Point, dt: u128) -> (r: Point)
        ensures
            r == spec_advanced(self, v, dt as int),
    {
        Point { x: advance_coord(self.x, v.x, dt), y: advance_coord(self.y, v.y, dt) }
    }

    /// Whether `self` lies strictly within distance `thresh` of `other`.
    pub fn within(self, other: Point, thresh: i64) -> (r: bool)
        requires
            0 <= thresh,
        ensures
            r == (spec_dist_sq(self, other) < thresh * thresh),
    {
        let dx: i128 = self.x as i128 - other.x as i128;
        let dy: i128 = self.y as i128 - other.y as i128;
        let adx: u128 = if dx >= 0 {
            dx as u128
        } else {
            (-dx) as u128
        };
        let ady: u128 = if dy >= 0 {
            dy as u128
        } else {
            (-dy) as u128
        };
        assert(adx * adx <= 0xffff_ffff_ffff_ffff * 0xffff_ffff_ffff_ffff) by (nonlinear_arith)
            requires
                adx <= 0xffff_ffff_ffff_ffff,
        ;
        assert(ady * ady <= 0xffff_ffff_ffff_ffff * 0xffff_ffff_ffff_ffff) by (nonlinear_arith)
            requires
                ady <= 0xffff_ffff_ffff_ffff,
        ;
        let sqx: u128 = adx * adx;
        let sqy: u128 = ady * ady;
        proof {
            assert(sqx == dx * dx && sqy == dy * dy) by (nonlinear_arith)
                requires
                    (adx == dx || adx == -dx) && (ady == dy || ady == -dy) && sqx == adx * adx
                        && sqy == ady * ady,
            ;
        }
        assert((thresh as u128) * (thresh as u128) <= 0x8000_0000_0000_0000
            * 0x8000_0000_0000_0000) by (nonlinear_arith)
            requires
                thresh as u128 <= 0x8000_0000_0000_0000,
        ;
        let t2: u128 = (thresh as u128) * (thresh as u128);
        match sqx.checked_add(sqy) {
            Some(s) => s < t2,
            None => false,
        }
    }
}

fn cell_of(v: i64) -> (c: i32)
    ensures
        c as int == spec_cell_of(v),
{
    let av: i128 = if v >= 0 {
        v as i128
    } else {
        -(v as i128)
    };
    let r: i128 = (av + (SCALE as i128) / 2) / (SCALE as i128);
    let r = if v >= 0 {
        r
    } else {
        -r
    };
    if r > i32::MAX as i128 {
        i32::MAX
    } else if r < i32::MIN as i128 {
        i32::MIN
    } else {
        r as i32
    }
}

/// With `len` at least the integer square root bound of `a`, the scaled
/// quotient stays within one cell.
proof fn lemma_scaled_le(a: int, len: int)
    requires
        1 <= len,
        0 <= a <= len,
    ensures
        0 <= (a * SCALE) / len <= SCALE,
{
    assert(a * SCALE <= len * SCALE) by (nonlinear_arith)
        requires
            a <= len && SCALE >= 0,
    ;
    assert(a * SCALE >= 0) by (nonlinear_arith)
        requires
            a >= 0 && SCALE >= 0,
    ;
    vstd::arithmetic::div_mod::lemma_div_is_ordered(a * SCALE, len * SCALE, len);
    assert(len * SCALE / len == SCALE) by (nonlinear_arith)
        requires
            1 <= len,
    ;
    vstd::arithmetic::div_mod::lemma_div_is_ordered(0, a * SCALE, len);
}

impl Direction {
    /// The unit cell step of this direction, in micro-cells.
    pub fn as_point(self) -> (p: Point)
        ensures
            p == spec_direction_point(self),
    {
        match self {
            Direction::Up => Point { x: 0, y: -SCALE },
            Direction::Down => Point { x: 0, y: SCALE },
            Direction::Left => Point { x: -SCALE, y: 0 },
            Direction::Right => Point { x: SCALE, y: 0 },
        }
    }
}

} // verus!
