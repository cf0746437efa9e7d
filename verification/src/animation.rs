//! Easing curves over normalized time in thousandths (0 start, 1000 end),
//! linear interpolation, and the hit-flash countdown shared by every
//! combatant.

use vstd::prelude::*;
use crate::geom::div_t;
use crate::config::TIME_LIMIT;

verus! {

/// Linear easing: time passes through unchanged.
pub fn linear(t: i64) -> (r: i64)
    ensures
        r == t,
{
    t
}

/// Quadratic ease-in (`t^2`): a slow start.
pub fn ease_in_quad(t: i64) -> (r: i64)
    requires
        0 <= t <= 1000,
    ensures
        r == (t * t) / 1000,
        0 <= r <= 1000,
{
    proof {
        assert(0 <= t * t <= 1_000_000 && t * t / 1000 <= 1000) by (nonlinear_arith)
            requires
                0 <= t <= 1000,
        ;
    }
    (t * t) / 1000
}

/// Quadratic ease-out (`t (2 - t)`): a slow end.
pub fn ease_out_quad(t: i64) -> (r: i64)
    requires
        0 <= t <= 1000,
    ensures
        r == (t * (2000 - t)) / 1000,
        0 <= r <= 1000,
{
    proof {
        assert(0 <= t * (2000 - t) <= 1_000_000 && t * (2000 - t) / 1000 <= 1000)
            by (nonlinear_arith)
            requires
                0 <= t <= 1000,
        ;
    }
    (t * (2000 - t)) / 1000
}

/// Quadratic ease-in-out: slow at both ends.
pub fn ease_in_out_quad(t: i64) -> (r: i64)
    requires
        0 <= t <= 1000,
    ensures
        t < 500 ==> r == (2 * t * t) / 1000,
        t >= 500 ==> r == ((4000 - 2 * t) * t) / 1000 - 1000,
        0 <= r <= 1000,
{
    if t < 500 {
        proof {
            assert(0 <= 2 * t * t <= 500_000 && 2 * t * t / 1000 <= 500) by (nonlinear_arith)
                requires
                    0 <= t < 500,
            ;
        }
        (2 * t * t) / 1000
    } else {
        proof {
            assert(1_000_000 <= (4000 - 2 * t) * t <= 2_000_000 && 1000 <= (4000 - 2 * t) * t
                / 1000 <= 2000) by (nonlinear_arith)
                requires
                    500 <= t <= 1000,
            ;
        }
        ((4000 - 2 * t) * t) / 1000 - 1000
    }
}

/// Cubic ease-in (`t^3`): stronger acceleration.
pub fn ease_in_cubic(t: i64) -> (r: i64)
    requires
        0 <= t <= 1000,
    ensures
        r == (t * t * t) / 1_000_000,
        0 <= r <= 1000,
{
    proof {
        assert(0 <= t * t <= 1_000_000 && 0 <= t * t * t <= 1_000_000_000 && t * t * t / 1_000_000
            <= 1000) by (nonlinear_arith)
            requires
                0 <= t <= 1000,
        ;
    }
    (t * t * t) / 1_000_000
}

/// Cubic ease-out (`(t-1)^3 + 1`): stronger deceleration.
pub fn ease_out_cubic(t: i64) -> (r: i64)
    requires
        0 <= t <= 1000,
    ensures
        r == div_t((t - 1000) * (t - 1000) * (t - 1000), 1_000_000) + 1000,
        0 <= r <= 1000,
{
    let u: i64 = t - 1000;
    proof {
        assert(0 <= u * u <= 1_000_000 && -1_000_000_000 <= u * u * u <= 0) by (nonlinear_arith)
            requires
                -1000 <= u <= 0,
        ;
        crate::geom::lemma_div_t_bound(u * u * u, 1_000_000, 1000);
    }
    crate::geom::div_toward_zero(u * u * u, 1_000_000) + 1000
}

/// Linear interpolation from `a` to `b` by `t` thousandths.
pub fn lerp(a: i64, b: i64, t: i64) -> (r: i64)
    requires
        -1_000_000_000_000 <= a <= 1_000_000_000_000,
        -1_000_000_000_000 <= b <= 1_000_000_000_000,
        0 <= t <= 1000,
    ensures
        r == a + div_t((b - a) * t, 1000),
        a <= b ==> a <= r <= b,
        b < a ==> b <= r <= a,
{
    let d: i64 = b - a;
    proof {
        assert(-2_000_000_000_000_000 <= d * t <= 2_000_000_000_000_000 && (d >= 0 ==> 0 <= d * t
            <= d * 1000) && (d < 0 ==> d * 1000 <= d * t <= 0)) by (nonlinear_arith)
            requires
                -2_000_000_000_000 <= d <= 2_000_000_000_000,
                0 <= t <= 1000,
        ;
        if d >= 0 {
            assert(0 <= (d * t) / 1000 <= d) by (nonlinear_arith)
                requires
                    0 <= d * t <= d * 1000,
                    d >= 0,
            ;
        } else {
            assert(0 <= (-(d * t)) / 1000 <= -d) by (nonlinear_arith)
                requires
                    d * 1000 <= d * t <= 0,
                    d < 0,
            ;
        }
    }
    a + crate::geom::div_toward_zero(d * t, 1000)
}

/// Tick the hit-flash countdown toward zero and report the flash intensity
/// in thousandths: the remaining share of the flash duration.
pub fn update_hit_flash(hit_flash_timer: &mut i64, delta: i64, duration: i64) -> (intensity: i64)
    requires
        0 <= *old(hit_flash_timer) <= TIME_LIMIT,
        0 <= delta <= crate::config::DT_LIMIT,
        0 < duration <= TIME_LIMIT,
    ensures
        *final(hit_flash_timer) as int == (if *old(hit_flash_timer) > 0 {
            if *old(hit_flash_timer) - delta < 0 {
                0int
            } else {
                *old(hit_flash_timer) - delta
            }
        } else {
            0int
        }),
        intensity as int == (*final(hit_flash_timer) as int * 1000) / (duration as int),
        0 <= *final(hit_flash_timer) <= *old(hit_flash_timer),
        0 <= intensity <= 1000 * TIME_LIMIT,
{
    if *hit_flash_timer > 0 {
        *hit_flash_timer = *hit_flash_timer - delta;
        if *hit_flash_timer < 0 {
            *hit_flash_timer = 0;
        }
    }
    let t: i64 = *hit_flash_timer;
    proof {
        assert(0 <= t as int * 1000 <= 86_400_000_000_000int) by (nonlinear_arith)
            requires
                0 <= t <= 86_400_000,
        ;
        assert(0 <= (t as int * 1000) / (duration as int) <= t as int * 1000) by (nonlinear_arith)
            requires
                t as int * 1000 >= 0,
                duration > 0,
        ;
    }
    (t * 1000) / duration
}

} // verus!
