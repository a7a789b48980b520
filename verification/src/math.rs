//! Integer helpers for the fixed-point coordinate arithmetic: clamped
//! addition, an integer square root, and the scaled multiply-divide used to
//! turn a direction vector and a speed into a displacement.

use vstd::arithmetic::div_mod::lemma_div_is_ordered;
use vstd::arithmetic::mul::lemma_mul_inequality;
use vstd::prelude::*;

use crate::SCALE;

verus! {

/// The value `v` clamped into the range of `i64`.
pub open spec fn clamp64(v: int) -> int {
    if v > i64::MAX as int {
        i64::MAX as int
    } else if v < i64::MIN as int {
        i64::MIN as int
    } else {
        v
    }
}

/// `a + b`, clamped into the range of `i64`.
pub fn add_clamped(a: i64, b: i64) -> (r: i64)
    ensures
        r as int == clamp64(a + b),
{
    if b >= 0 {
        if a > i64::MAX - b {
            i64::MAX
        } else {
            a + b
        }
    } else {
        if a < i64::MIN - b {
            i64::MIN
        } else {
            a + b
        }
    }
}

/// `a - b`, clamped into the range of `i64`.
pub fn sub_clamped(a: i64, b: i64) -> (r: i64)
    ensures
        r as int == clamp64(a - b),
{
    if b <= 0 {
        if a > i64::MAX + b {
            i64::MAX
        } else {
            a - b
        }
    } else {
        if a < i64::MIN + b {
            i64::MIN
        } else {
            a - b
        }
    }
}

/// `r` is the integer square root of `n`.
pub open spec fn is_isqrt(n: int, r: int) -> bool {
    &&& 0 <= r
    &&& r * r <= n
    &&& n < (r + 1) * (r + 1)
}

/// The integer square root of `n`, as a spec value.
pub open spec fn spec_isqrt(n: int) -> int {
    choose|r: int| is_isqrt(n, r)
}

/// Two integer square roots of the same value are equal.
pub proof fn lemma_isqrt_unique(n: int, r1: int, r2: int)
    requires
        is_isqrt(n, r1),
        is_isqrt(n, r2),
    ensures
        r1 == r2,
{
    if r1 < r2 {
        assert((r1 + 1) * (r1 + 1) <= r2 * r2) by (nonlinear_arith)
            requires
                0 <= r1 && r1 + 1 <= r2,
        ;
    }
    if r2 < r1 {
        assert((r2 + 1) * (r2 + 1) <= r1 * r1) by (nonlinear_arith)
            requires
                0 <= r2 && r2 + 1 <= r1,
        ;
    }
}

/// The integer square root is monotone.
pub proof fn lemma_isqrt_ordered(n1: int, n2: int, r1: int, r2: int)
    requires
        is_isqrt(n1, r1),
        is_isqrt(n2, r2),
        n1 <= n2,
    ensures
        r1 <= r2,
{
    if r2 < r1 {
        assert((r2 + 1) * (r2 + 1) <= r1 * r1) by (nonlinear_arith)
            requires
                0 <= r2 && r2 + 1 <= r1,
        ;
    }
}

/// Integer square root by binary search.
pub fn isqrt(n: u128) -> (r: u128)
    ensures
        is_isqrt(n as int, r as int),
        r as int == spec_isqrt(n as int),
{
    if n == 0 {
        proof {
            assert(is_isqrt(0, 0));
            assert(exists|r: int| is_isqrt(0, r));
            lemma_isqrt_unique(0, 0, spec_isqrt(0));
        }
        return 0;
    }
    let mut lo: u128 = 0;
    let mut hi: u128 = 0x1_0000_0000_0000_0000;
    while lo + 1 < hi
        invariant
            lo < hi <= 0x1_0000_0000_0000_0000,
            lo * lo <= n,
            n < hi * hi,
        decreases hi - lo,
    {
        let mid: u128 = lo + (hi - lo) / 2;
        assert(mid * mid <= 0xffff_ffff_ffff_ffff * 0xffff_ffff_ffff_ffff) by (nonlinear_arith)
            requires
                mid <= 0xffff_ffff_ffff_ffff,
        ;
        if mid * mid <= n {
            lo = mid;
        } else {
            hi = mid;
        }
    }
    proof {
        assert(is_isqrt(n as int, lo as int));
        assert(exists|r: int| is_isqrt(n as int, r));
        lemma_isqrt_unique(n as int, lo as int, spec_isqrt(n as int));
    }
    lo
}

/// Truncating scaled product: the displacement, in micro-cells, of one
/// coordinate of a unit vector `unit` moving at `speed` micro-cells per tick
/// for `dt` ticks.
pub open spec fn spec_step(unit: int, speed: int, dt: int) -> int {
    if unit >= 0 {
        (unit * speed * dt) / (SCALE as int)
    } else {
        -(((-unit) * speed * dt) / (SCALE as int))
    }
}

/// Over a single tick, a unit-vector coordinate scaled by a speed of at most
/// one cell per tick moves at most one cell.
pub proof fn lemma_step_in_range(unit: int, speed: int)
    requires
        -(SCALE as int) <= unit <= SCALE as int,
        0 <= speed <= SCALE as int,
    ensures
        -(SCALE as int) <= spec_step(unit, speed, 1) <= SCALE as int,
{
    let au = if unit >= 0 {
        unit
    } else {
        -unit
    };
    assert(au * speed * 1 == au * speed) by (nonlinear_arith);
    lemma_mul_inequality(au, SCALE as int, speed);
    assert(au * speed == speed * au && SCALE as int * speed == speed * (SCALE as int))
        by (nonlinear_arith);
    lemma_div_is_ordered(au * speed, (SCALE as int) * speed, SCALE as int);
    assert(((SCALE as int) * speed) / (SCALE as int) == speed) by (nonlinear_arith)
        requires
            SCALE as int >= 1,
    ;
    assert(au * speed >= 0) by (nonlinear_arith)
        requires
            au >= 0 && speed >= 0,
    ;
    lemma_div_is_ordered(0, au * speed, SCALE as int);
}

/// A unit-vector coordinate scaled by `speed` over `dt` ticks never moves
/// farther than `speed * dt` micro-cells, clamped or not.
pub proof fn lemma_step_bound(unit: int, speed: int, dt: int)
    requires
        -(SCALE as int) <= unit <= SCALE as int,
        0 <= speed,
        0 <= dt,
    ensures
        -(speed * dt) <= spec_step(unit, speed, dt) <= speed * dt,
        -(speed * dt) <= clamp64(spec_step(unit, speed, dt)) <= speed * dt,
{
    let au = if unit >= 0 {
        unit
    } else {
        -unit
    };
    assert(au * speed * dt <= (SCALE as int) * speed * dt && 0 <= au * speed * dt)
        by (nonlinear_arith)
        requires
            0 <= au <= SCALE as int && 0 <= speed && 0 <= dt,
    ;
    lemma_div_is_ordered(au * speed * dt, (SCALE as int) * speed * dt, SCALE as int);
    lemma_div_is_ordered(0, au * speed * dt, SCALE as int);
    assert(((SCALE as int) * speed * dt) / (SCALE as int) == speed * dt) by (nonlinear_arith)
        requires
            1 <= SCALE as int,
    ;
}

/// Bound used to cut `dt` off once the displacement is certain to clamp.
const DT_CAP: u128 = 100_000_000_000_000_000_000_000_000;

proof fn lemma_step_mag_saturates(au: int, speed: int, dt: int)
    requires
        1 <= au,
        1 <= speed,
        DT_CAP as int <= dt,
    ensures
        (au * speed * dt) / (SCALE as int) > i64::MAX as int,
{
    assert(au * speed * dt >= dt) by (nonlinear_arith)
        requires
            1 <= au && 1 <= speed && 0 <= dt,
    ;
    lemma_div_is_ordered(dt, au * speed * dt, SCALE as int);
    lemma_div_is_ordered(DT_CAP as int, dt, SCALE as int);
    assert((DT_CAP as int) / (SCALE as int) == 100_000_000_000_000_000_000);
}

/// One coordinate of a scaled displacement: `unit * speed * dt / SCALE`,
/// truncated toward zero and clamped into `i64`.
pub fn step_scaled(unit: i64, speed: u32, dt: u128) -> (r: i64)
    requires
        -SCALE <= unit <= SCALE,
        speed as int <= SCALE as int,
    ensures
        r as int == clamp64(spec_step(unit as int, speed as int, dt as int)),
{
    let au: u128 = if unit >= 0 {
        unit as u128
    } else {
        (-unit) as u128
    };
    let dtc: u128 = if dt > DT_CAP {
        DT_CAP
    } else {
        dt
    };
    assert(au * (speed as u128) <= 1_000_000_000_000) by (nonlinear_arith)
        requires
            au <= 1_000_000 && speed as u128 <= 1_000_000,
    ;
    let unit_speed: u128 = au * (speed as u128);
    assert(unit_speed * dtc <= 1_000_000_000_000 * DT_CAP) by (nonlinear_arith)
        requires
            unit_speed <= 1_000_000_000_000 && dtc <= DT_CAP,
    ;
    let prod: u128 = unit_speed * dtc;
    let q: u128 = prod / (SCALE as u128);
    proof {
        if dt > DT_CAP {
            if au == 0 || speed == 0 {
                assert(au * (speed as int) * dtc == 0) by (nonlinear_arith)
                    requires
                        au == 0 || speed == 0,
                ;
                assert(au * (speed as int) * (dt as int) == 0) by (nonlinear_arith)
                    requires
                        au == 0 || speed == 0,
                ;
            } else {
                lemma_step_mag_saturates(au as int, speed as int, dtc as int);
                lemma_step_mag_saturates(au as int, speed as int, dt as int);
            }
        }
        assert(prod as int == au * (speed as int) * (dtc as int)) by (nonlinear_arith)
            requires
                prod == (au * (speed as u128)) * dtc,
        ;
    }
    if unit >= 0 {
        if q > i64::MAX as u128 {
            i64::MAX
        } else {
            q as i64
        }
    } else {
        if q >= 9_223_372_036_854_775_808u128 {
            i64::MIN
        } else {
            -(q as i64)
        }
    }
}

/// `pos + v * dt`, clamped into `i64`: a coordinate advanced by a per-tick
/// velocity over `dt` ticks.
pub fn advance_coord(pos: i64, v: i64, dt: u128) -> (r: i64)
    ensures
        r as int == clamp64(pos + v * dt),
{
    if v == 0 || dt == 0 {
        proof {
            assert(v * dt == 0) by (nonlinear_arith)
                requires
                    v == 0 || dt == 0,
            ;
        }
        return pos;
    }
    let av: u128 = if v >= 0 {
        v as u128
    } else {
        (-(v as i128)) as u128
    };
    match av.checked_mul(dt) {
        Some(m) => {
            if m >= 0x4_0000_0000_0000_0000u128 {
                // |v * dt| >= 2^66, so the sum clamps whatever `pos` is.
                proof {
                    assert(av * dt >= 0x4_0000_0000_0000_0000) by (nonlinear_arith)
                        requires
                            av * dt == m && m >= 0x4_0000_0000_0000_0000u128,
                    ;
                    if v >= 0 {
                        assert(v * dt == av * dt) by (nonlinear_arith)
                            requires
                                av == v,
                        ;
                    } else {
                        assert(v * dt == -(av * dt)) by (nonlinear_arith)
                            requires
                                av == -v,
                        ;
                    }
                }
                if v >= 0 {
                    i64::MAX
                } else {
                    i64::MIN
                }
            } else {
                let signed: i128 = if v >= 0 {
                    m as i128
                } else {
                    -(m as i128)
                };
                proof {
                    if v >= 0 {
                        assert(v * dt == av * dt) by (nonlinear_arith)
                            requires
                                av == v,
                        ;
                    } else {
                        assert(v * dt == -(av * dt)) by (nonlinear_arith)
                            requires
                                av == -v,
                        ;
                    }
                }
                let sum: i128 = pos as i128 + signed;
                if sum > i64::MAX as i128 {
                    i64::MAX
                } else if sum < i64::MIN as i128 {
                    i64::MIN
                } else {
                    sum as i64
                }
            }
        },
        None => {
            // The magnitude of v * dt exceeds u128: the sum clamps.
            proof {
                assert(av * dt > u128::MAX) by (nonlinear_arith)
                    requires
                        av.checked_mul(dt) is None && av * dt == av as int * dt as int,
                ;
                if v >= 0 {
                    assert(v * dt == av * dt) by (nonlinear_arith)
                        requires
                            av == v,
                    ;
                } else {
                    assert(v * dt == -(av * dt)) by (nonlinear_arith)
                        requires
                            av == -v,
                    ;
                }
            }
            if v >= 0 {
                i64::MAX
            } else {
                i64::MIN
            }
        },
    }
}

} // verus!
