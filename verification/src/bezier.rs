//! Bezier curve evaluation for scripted entry paths. Progress along a curve
//! is a value in thousandths: 0 at the start point, 1000 at the end point.

use vstd::prelude::*;
use crate::geom::{Position, pos_wf, div_t, clamp_int, POS_LIMIT};

verus! {

/// Cubic Bezier interpolation, as a specification:
/// `P(t) = (1-t)^3 P0 + 3 (1-t)^2 t P1 + 3 (1-t) t^2 P2 + t^3 P3`,
/// with `t` in thousandths and the quotient rounded toward zero.
pub open spec fn cubic_bezier_spec(p0: Position, p1: Position, p2: Position, p3: Position, t: int) -> Position {
    let tc = clamp_int(t, 0, 1000);
    let mt = 1000 - tc;
    let x = mt * mt * mt * p0.x + 3 * mt * mt * tc * p1.x + 3 * mt * tc * tc * p2.x + tc * tc * tc
        * p3.x;
    let y = mt * mt * mt * p0.y + 3 * mt * mt * tc * p1.y + 3 * mt * tc * tc * p2.y + tc * tc * tc
        * p3.y;
    Position { x: div_t(x, 1_000_000_000) as i64, y: div_t(y, 1_000_000_000) as i64 }
}

/// A weighted sum whose nonnegative weights total `w` stays within `w`
/// times the bound on its inputs.
proof fn lemma_weighted_sum_bound(
    c0: int,
    c1: int,
    c2: int,
    c3: int,
    x0: int,
    x1: int,
    x2: int,
    x3: int,
    w: int,
    m: int,
)
    requires
        c0 >= 0,
        c1 >= 0,
        c2 >= 0,
        c3 >= 0,
        c0 + c1 + c2 + c3 == w,
        0 <= m,
        -m <= x0 <= m,
        -m <= x1 <= m,
        -m <= x2 <= m,
        -m <= x3 <= m,
    ensures
        -w * m <= c0 * x0 + c1 * x1 + c2 * x2 + c3 * x3 <= w * m,
{
    assert(-w * m <= c0 * x0 + c1 * x1 + c2 * x2 + c3 * x3 <= w * m) by (nonlinear_arith)
        requires
            c0 >= 0,
            c1 >= 0,
            c2 >= 0,
            c3 >= 0,
            c0 + c1 + c2 + c3 == w,
            0 <= m,
            -m <= x0 <= m,
            -m <= x1 <= m,
            -m <= x2 <= m,
            -m <= x3 <= m,
    ;
}

/// A single weighted term stays within the weight bound times the input
/// bound.
proof fn lemma_term_bound(c: int, x: int, cb: int, m: int)
    requires
        0 <= c <= cb,
        -m <= x <= m,
        0 <= m,
    ensures
        -cb * m <= c * x <= cb * m,
{
    assert(-cb * m <= c * x <= cb * m) by (nonlinear_arith)
        requires
            0 <= c <= cb,
            -m <= x <= m,
            0 <= m,
    ;
}

/// Cubic Bezier curve interpolation over the four control points, with
/// progress `t` in thousandths (clamped into 0..=1000). At 0 it returns the
/// start point exactly; at 1000, the end point exactly.
pub fn cubic_bezier(p0: Position, p1: Position, p2: Position, p3: Position, t: i64) -> (p: Position)
    requires
        pos_wf(p0),
        pos_wf(p1),
        pos_wf(p2),
        pos_wf(p3),
    ensures
        p == cubic_bezier_spec(p0, p1, p2, p3, t as int),
        pos_wf(p),
        t <= 0 ==> p == p0,
        t >= 1000 ==> p == p3,
{
    let tc: i64 = crate::geom::clamp_i64(t, 0, 1000);
    let mt: i64 = 1000 - tc;
    proof {
        assert(0 <= mt * mt <= 1_000_000 && 0 <= tc * tc <= 1_000_000 && 0 <= mt * tc <= 1_000_000
            && 0 <= mt * mt * mt <= 1_000_000_000 && 0 <= 3 * mt * mt <= 3_000_000
            && 0 <= 3 * mt * mt * tc <= 3_000_000_000i64 && 0 <= 3 * mt * tc <= 3_000_000
            && 0 <= 3 * mt * tc * tc <= 3_000_000_000i64 && 0 <= tc * tc * tc <= 1_000_000_000
            && mt * mt * mt + 3 * mt * mt * tc + 3 * mt * tc * tc + tc * tc * tc
            == 1_000_000_000) by (nonlinear_arith)
            requires
                0 <= tc <= 1000,
                mt == 1000 - tc,
        ;
        lemma_term_bound((mt * mt * mt) as int, p0.x as int, 3_000_000_000, POS_LIMIT as int);
        lemma_term_bound((3 * mt * mt * tc) as int, p1.x as int, 3_000_000_000, POS_LIMIT as int);
        lemma_term_bound((3 * mt * tc * tc) as int, p2.x as int, 3_000_000_000, POS_LIMIT as int);
        lemma_term_bound((tc * tc * tc) as int, p3.x as int, 3_000_000_000, POS_LIMIT as int);
        lemma_term_bound((mt * mt * mt) as int, p0.y as int, 3_000_000_000, POS_LIMIT as int);
        lemma_term_bound((3 * mt * mt * tc) as int, p1.y as int, 3_000_000_000, POS_LIMIT as int);
        lemma_term_bound((3 * mt * tc * tc) as int, p2.y as int, 3_000_000_000, POS_LIMIT as int);
        lemma_term_bound((tc * tc * tc) as int, p3.y as int, 3_000_000_000, POS_LIMIT as int);
        lemma_weighted_sum_bound(
            (mt * mt * mt) as int,
            (3 * mt * mt * tc) as int,
            (3 * mt * tc * tc) as int,
            (tc * tc * tc) as int,
            p0.x as int,
            p1.x as int,
            p2.x as int,
            p3.x as int,
            1_000_000_000,
            POS_LIMIT as int,
        );
        lemma_weighted_sum_bound(
            (mt * mt * mt) as int,
            (3 * mt * mt * tc) as int,
            (3 * mt * tc * tc) as int,
            (tc * tc * tc) as int,
            p0.y as int,
            p1.y as int,
            p2.y as int,
            p3.y as int,
            1_000_000_000,
            POS_LIMIT as int,
        );
        crate::geom::lemma_div_t_bound(
            mt * mt * mt * p0.x + 3 * mt * mt * tc * p1.x + 3 * mt * tc * tc * p2.x + tc * tc * tc
                * p3.x,
            1_000_000_000,
            POS_LIMIT as int,
        );
        crate::geom::lemma_div_t_bound(
            mt * mt * mt * p0.y + 3 * mt * mt * tc * p1.y + 3 * mt * tc * tc * p2.y + tc * tc * tc
                * p3.y,
            1_000_000_000,
            POS_LIMIT as int,
        );
    }
    let x: i64 = mt * mt * mt * p0.x + 3 * mt * mt * tc * p1.x + 3 * mt * tc * tc * p2.x + tc * tc
        * tc * p3.x;
    let y: i64 = mt * mt * mt * p0.y + 3 * mt * mt * tc * p1.y + 3 * mt * tc * tc * p2.y + tc * tc
        * tc * p3.y;
    let rx: i64 = crate::geom::div_toward_zero(x, 1_000_000_000);
    let ry: i64 = crate::geom::div_toward_zero(y, 1_000_000_000);
    let p = Position { x: rx, y: ry };
    proof {
        if t <= 0 {
            assert(mt * mt * mt * p0.x + 3 * mt * mt * tc * p1.x + 3 * mt * tc * tc * p2.x + tc
                * tc * tc * p3.x == 1_000_000_000 * p0.x && mt * mt * mt * p0.y + 3 * mt * mt * tc
                * p1.y + 3 * mt * tc * tc * p2.y + tc * tc * tc * p3.y == 1_000_000_000 * p0.y)
                by (nonlinear_arith)
                requires
                    tc == 0,
                    mt == 1000,
            ;
            lemma_exact_div(p0.x as int);
            lemma_exact_div(p0.y as int);
        }
        if t >= 1000 {
            assert(mt * mt * mt * p0.x + 3 * mt * mt * tc * p1.x + 3 * mt * tc * tc * p2.x + tc
                * tc * tc * p3.x == 1_000_000_000 * p3.x && mt * mt * mt * p0.y + 3 * mt * mt * tc
                * p1.y + 3 * mt * tc * tc * p2.y + tc * tc * tc * p3.y == 1_000_000_000 * p3.y)
                by (nonlinear_arith)
                requires
                    tc == 1000,
                    mt == 0,
            ;
            lemma_exact_div(p3.x as int);
            lemma_exact_div(p3.y as int);
        }
    }
    p
}

/// Dividing a billionfold value by a billion recovers the value.
proof fn lemma_exact_div(v: int)
    ensures
        div_t(1_000_000_000 * v, 1_000_000_000) == v,
{
    if v >= 0 {
        assert((1_000_000_000 * v) / 1_000_000_000 == v) by (nonlinear_arith);
    } else {
        assert((-(1_000_000_000 * v)) / 1_000_000_000 == -v) by (nonlinear_arith);
    }
}

/// Quadratic Bezier interpolation, as a specification:
/// `P(t) = (1-t)^2 P0 + 2 (1-t) t P1 + t^2 P2`.
pub open spec fn quadratic_bezier_spec(p0: Position, p1: Position, p2: Position, t: int) -> Position {
    let tc = clamp_int(t, 0, 1000);
    let mt = 1000 - tc;
    let x = mt * mt * p0.x + 2 * mt * tc * p1.x + tc * tc * p2.x;
    let y = mt * mt * p0.y + 2 * mt * tc * p1.y + tc * tc * p2.y;
    Position { x: div_t(x, 1_000_000) as i64, y: div_t(y, 1_000_000) as i64 }
}

/// Quadratic Bezier curve interpolation (three control points), with
/// progress `t` in thousandths (clamped into 0..=1000).
pub fn quadratic_bezier(p0: Position, p1: Position, p2: Position, t: i64) -> (p: Position)
    requires
        pos_wf(p0),
        pos_wf(p1),
        pos_wf(p2),
    ensures
        p == quadratic_bezier_spec(p0, p1, p2, t as int),
        pos_wf(p),
        t <= 0 ==> p == p0,
        t >= 1000 ==> p == p2,
{
    let tc: i64 = crate::geom::clamp_i64(t, 0, 1000);
    let mt: i64 = 1000 - tc;
    proof {
        assert(0 <= mt * mt <= 1_000_000 && 0 <= mt * tc <= 1_000_000 && 0 <= 2 * mt * tc
            <= 2_000_000 && 0 <= tc * tc <= 1_000_000 && mt * mt + 2 * mt * tc + tc * tc
            == 1_000_000) by (nonlinear_arith)
            requires
                0 <= tc <= 1000,
                mt == 1000 - tc,
        ;
        lemma_term_bound((mt * mt) as int, p0.x as int, 2_000_000, POS_LIMIT as int);
        lemma_term_bound((2 * mt * tc) as int, p1.x as int, 2_000_000, POS_LIMIT as int);
        lemma_term_bound((tc * tc) as int, p2.x as int, 2_000_000, POS_LIMIT as int);
        lemma_term_bound((mt * mt) as int, p0.y as int, 2_000_000, POS_LIMIT as int);
        lemma_term_bound((2 * mt * tc) as int, p1.y as int, 2_000_000, POS_LIMIT as int);
        lemma_term_bound((tc * tc) as int, p2.y as int, 2_000_000, POS_LIMIT as int);
        lemma_weighted_sum_bound(
            (mt * mt) as int,
            (2 * mt * tc) as int,
            (tc * tc) as int,
            0,
            p0.x as int,
            p1.x as int,
            p2.x as int,
            0,
            1_000_000,
            POS_LIMIT as int,
        );
        lemma_weighted_sum_bound(
            (mt * mt) as int,
            (2 * mt * tc) as int,
            (tc * tc) as int,
            0,
            p0.y as int,
            p1.y as int,
            p2.y as int,
            0,
            1_000_000,
            POS_LIMIT as int,
        );
        crate::geom::lemma_div_t_bound(
            mt * mt * p0.x + 2 * mt * tc * p1.x + tc * tc * p2.x,
            1_000_000,
            POS_LIMIT as int,
        );
        crate::geom::lemma_div_t_bound(
            mt * mt * p0.y + 2 * mt * tc * p1.y + tc * tc * p2.y,
            1_000_000,
            POS_LIMIT as int,
        );
    }
    let x: i64 = mt * mt * p0.x + 2 * mt * tc * p1.x + tc * tc * p2.x;
    let y: i64 = mt * mt * p0.y + 2 * mt * tc * p1.y + tc * tc * p2.y;
    let p = Position {
        x: crate::geom::div_toward_zero(x, 1_000_000),
        y: crate::geom::div_toward_zero(y, 1_000_000),
    };
    proof {
        if t <= 0 {
            assert(mt * mt * p0.x + 2 * mt * tc * p1.x + tc * tc * p2.x == 1_000_000 * p0.x && mt
                * mt * p0.y + 2 * mt * tc * p1.y + tc * tc * p2.y == 1_000_000 * p0.y)
                by (nonlinear_arith)
                requires
                    tc == 0,
                    mt == 1000,
            ;
            lemma_exact_div_million(p0.x as int);
            lemma_exact_div_million(p0.y as int);
        }
        if t >= 1000 {
            assert(mt * mt * p0.x + 2 * mt * tc * p1.x + tc * tc * p2.x == 1_000_000 * p2.x && mt
                * mt * p0.y + 2 * mt * tc * p1.y + tc * tc * p2.y == 1_000_000 * p2.y)
                by (nonlinear_arith)
                requires
                    tc == 1000,
                    mt == 0,
            ;
            lemma_exact_div_million(p2.x as int);
            lemma_exact_div_million(p2.y as int);
        }
    }
    p
}

/// Dividing a millionfold value by a million recovers the value.
proof fn lemma_exact_div_million(v: int)
    ensures
        div_t(1_000_000 * v, 1_000_000) == v,
{
    if v >= 0 {
        assert((1_000_000 * v) / 1_000_000 == v) by (nonlinear_arith);
    } else {
        assert((-(1_000_000 * v)) / 1_000_000 == -v) by (nonlinear_arith);
    }
}

/// The tangent (direction) of a cubic Bezier curve, as a specification: the
/// derivative `3 (1-t)^2 (P1-P0) + 6 (1-t) t (P2-P1) + 3 t^2 (P3-P2)`.
pub open spec fn cubic_bezier_tangent_spec(p0: Position, p1: Position, p2: Position, p3: Position, t: int) -> Position {
    let tc = clamp_int(t, 0, 1000);
    let mt = 1000 - tc;
    let x = 3 * mt * mt * (p1.x - p0.x) + 6 * mt * tc * (p2.x - p1.x) + 3 * tc * tc * (p3.x - p2.x);
    let y = 3 * mt * mt * (p1.y - p0.y) + 6 * mt * tc * (p2.y - p1.y) + 3 * tc * tc * (p3.y - p2.y);
    Position { x: div_t(x, 1_000_000) as i64, y: div_t(y, 1_000_000) as i64 }
}

/// The tangent of a cubic Bezier curve at progress `t`, for orienting a
/// sprite along its path.
pub fn cubic_bezier_tangent(p0: Position, p1: Position, p2: Position, p3: Position, t: i64) -> (d: Position)
    requires
        pos_wf(p0),
        pos_wf(p1),
        pos_wf(p2),
        pos_wf(p3),
    ensures
        d == cubic_bezier_tangent_spec(p0, p1, p2, p3, t as int),
{
    let tc: i64 = crate::geom::clamp_i64(t, 0, 1000);
    let mt: i64 = 1000 - tc;
    proof {
        assert(0 <= mt * mt <= 1_000_000 && 0 <= mt * tc <= 1_000_000 && 0 <= tc * tc <= 1_000_000
            && 0 <= 3 * mt * mt <= 3_000_000 && 0 <= 6 * mt * tc <= 6_000_000 && 0 <= 3 * tc * tc
            <= 3_000_000) by (nonlinear_arith)
            requires
                0 <= tc <= 1000,
                mt == 1000 - tc,
        ;
        lemma_term_bound((3 * mt * mt) as int, p1.x - p0.x, 6_000_000, 2 * POS_LIMIT as int);
        lemma_term_bound((6 * mt * tc) as int, p2.x - p1.x, 6_000_000, 2 * POS_LIMIT as int);
        lemma_term_bound((3 * tc * tc) as int, p3.x - p2.x, 6_000_000, 2 * POS_LIMIT as int);
        lemma_term_bound((3 * mt * mt) as int, p1.y - p0.y, 6_000_000, 2 * POS_LIMIT as int);
        lemma_term_bound((6 * mt * tc) as int, p2.y - p1.y, 6_000_000, 2 * POS_LIMIT as int);
        lemma_term_bound((3 * tc * tc) as int, p3.y - p2.y, 6_000_000, 2 * POS_LIMIT as int);
    }
    let x: i64 = 3 * mt * mt * (p1.x - p0.x) + 6 * mt * tc * (p2.x - p1.x) + 3 * tc * tc * (p3.x
        - p2.x);
    let y: i64 = 3 * mt * mt * (p1.y - p0.y) + 6 * mt * tc * (p2.y - p1.y) + 3 * tc * tc * (p3.y
        - p2.y);
    Position {
        x: crate::geom::div_toward_zero(x, 1_000_000),
        y: crate::geom::div_toward_zero(y, 1_000_000),
    }
}

} // verus!
