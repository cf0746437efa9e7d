//! Plane geometry over integer coordinates: vectors, the circle-overlap
//! test, direct-aim velocities and the quadratic lead-intercept solver.

use vstd::prelude::*;

verus! {

/// Coordinates are held in thousandths of a pixel and bounded by this limit
/// (ten thousand pixels in every direction from the origin).
pub const POS_LIMIT: i64 = 10_000_000;

/// Velocity components (thousandths of a pixel per second) stay within this
/// limit for every projectile and entity.
pub const VEL_LIMIT: i64 = 8_000_000;

/// Configured speeds (thousandths of a pixel per second) stay within this
/// limit; emitted velocities may exceed it only by the small factors the
/// firing rules introduce, and stay within `VEL_LIMIT`.
pub const SPEED_LIMIT: i64 = 1_000_000;

/// A point or displacement of the playfield plane, in thousandths of a pixel.
#[derive(Clone, Copy, PartialEq, Eq, Structural, Debug)]
pub struct Position {
    pub x: i64,
    pub y: i64,
}

/// A position within the modelled world.
pub open spec fn pos_wf(p: Position) -> bool {
    &&& -POS_LIMIT <= p.x <= POS_LIMIT
    &&& -POS_LIMIT <= p.y <= POS_LIMIT
}

/// A velocity within the modelled world.
pub open spec fn vel_wf(p: Position) -> bool {
    &&& -VEL_LIMIT <= p.x <= VEL_LIMIT
    &&& -VEL_LIMIT <= p.y <= VEL_LIMIT
}

/// Quotient rounded toward zero, the rounding rule used throughout the
/// simulation (mirrors what the executable divisions below compute).
pub open spec fn div_t(a: int, b: int) -> int
    recommends
        b != 0,
{
    if b > 0 {
        if a >= 0 {
            a / b
        } else {
            -((-a) / b)
        }
    } else {
        if a >= 0 {
            -(a / (-b))
        } else {
            (-a) / (-b)
        }
    }
}

/// The integer square root: the greatest integer whose square is at most `n`.
pub open spec fn sqrt_floor(n: int) -> int
    recommends
        n >= 0,
{
    choose|r: int| r >= 0 && #[trigger] (r * r) <= n && n < (r + 1) * (r + 1)
}

/// Any value that squares below `n` and whose successor squares above it is
/// the integer square root of `n`.
pub proof fn lemma_sqrt_floor_unique(n: int, r: int)
    requires
        r >= 0,
        r * r <= n,
        n < (r + 1) * (r + 1),
    ensures
        sqrt_floor(n) == r,
{
    let s = choose|s: int| s >= 0 && #[trigger] (s * s) <= n && n < (s + 1) * (s + 1);
    assert(s >= 0 && s * s <= n && n < (s + 1) * (s + 1));
    assert(s == r) by (nonlinear_arith)
        requires
            r >= 0,
            r * r <= n,
            n < (r + 1) * (r + 1),
            s >= 0,
            s * s <= n,
            n < (s + 1) * (s + 1),
    ;
}

/// Division with the simulation's rounding rule (toward zero); the divisor
/// must be positive.
pub fn div_toward_zero(a: i64, b: i64) -> (r: i64)
    requires
        b > 0,
        a > i64::MIN,
    ensures
        r == div_t(a as int, b as int),
        0 <= a ==> 0 <= r <= a,
        a < 0 ==> a <= r <= 0,
{
    if a >= 0 {
        let q: u64 = (a as u64) / (b as u64);
        proof {
            assert(q == (a as int) / (b as int)) by (nonlinear_arith)
                requires
                    a >= 0,
                    b > 0,
                    q == (a as u64) as int / (b as u64) as int,
                    (a as u64) as int == a as int,
                    (b as u64) as int == b as int,
            ;
            assert((a as int) / (b as int) <= a as int) by (nonlinear_arith)
                requires
                    a >= 0,
                    b > 0,
            ;
        }
        q as i64
    } else {
        let m: u64 = (-a) as u64;
        let q: u64 = m / (b as u64);
        proof {
            assert(q == (m as int) / (b as int)) by (nonlinear_arith)
                requires
                    b > 0,
                    q == (m as u64) as int / (b as u64) as int,
                    (m as u64) as int == m as int,
                    (b as u64) as int == b as int,
            ;
            assert((m as int) / (b as int) <= m as int) by (nonlinear_arith)
                requires
                    m >= 0,
                    b > 0,
            ;
        }
        -(q as i64)
    }
}

/// The magnitude of the quotient never exceeds the bound that holds of the
/// dividend's magnitude divided by the divisor.
pub proof fn lemma_div_t_bound(a: int, b: int, m: int)
    requires
        b > 0,
        -m * b <= a <= m * b,
        0 <= m,
    ensures
        -m <= div_t(a, b) <= m,
{
    if a >= 0 {
        assert(0 <= a / b <= m) by (nonlinear_arith)
            requires
                b > 0,
                0 <= a <= m * b,
                0 <= m,
        ;
    } else {
        assert(0 <= (-a) / b <= m) by (nonlinear_arith)
            requires
                b > 0,
                -m * b <= a < 0,
                0 <= m,
        ;
    }
}

/// The integer square root of `n`, computed by bisection.
pub fn isqrt(n: u128) -> (r: u128)
    ensures
        r * r <= n < (r + 1) * (r + 1),
        r == sqrt_floor(n as int),
{
    let mut lo: u128 = 0;
    let mut hi: u128 = 1u128 << 64;
    proof {
        assert((1u128 << 64) == 0x1_0000_0000_0000_0000u128) by (bit_vector);
        assert(0x1_0000_0000_0000_0000u128 * 0x1_0000_0000_0000_0000u128 as int > u128::MAX as int)
            by (nonlinear_arith);
    }
    while hi - lo > 1
        invariant
            0 <= lo < hi <= 0x1_0000_0000_0000_0000u128,
            lo * lo <= n,
            n < hi * hi,
        decreases hi - lo,
    {
        let mid: u128 = lo + (hi - lo) / 2;
        proof {
            assert(lo < mid < hi);
            assert(mid * mid < 0x1_0000_0000_0000_0000u128 * 0x1_0000_0000_0000_0000u128)
                by (nonlinear_arith)
                requires
                    0 <= mid < 0x1_0000_0000_0000_0000u128,
            ;
        }
        if mid * mid <= n {
            lo = mid;
        } else {
            hi = mid;
        }
    }
    proof {
        lemma_sqrt_floor_unique(n as int, lo as int);
    }
    lo
}

/// The squared Euclidean distance between two points, as a specification.
pub open spec fn dist_sq(a: Position, b: Position) -> int {
    (a.x - b.x) * (a.x - b.x) + (a.y - b.y) * (a.y - b.y)
}

/// Squared distance between two positions (avoids any square root).
pub fn distance_sq(a: Position, b: Position) -> (d: i64)
    requires
        pos_wf(a),
        pos_wf(b),
    ensures
        d == dist_sq(a, b),
        0 <= d <= 800_000_000_000_000,
{
    let dx: i64 = a.x - b.x;
    let dy: i64 = a.y - b.y;
    proof {
        assert(dx * dx <= 400_000_000_000_000 && dy * dy <= 400_000_000_000_000 && dx * dx >= 0
            && dy * dy >= 0) by (nonlinear_arith)
            requires
                -20_000_000 <= dx <= 20_000_000,
                -20_000_000 <= dy <= 20_000_000,
        ;
    }
    dx * dx + dy * dy
}

/// The Euclidean distance between two points, rounded down to whole
/// thousandths of a pixel.
pub fn distance(a: Position, b: Position) -> (d: i64)
    requires
        pos_wf(a),
        pos_wf(b),
    ensures
        d == sqrt_floor(dist_sq(a, b)),
        0 <= d <= 30_000_000,
{
    let dd: i64 = distance_sq(a, b);
    let r: u128 = isqrt(dd as u128);
    proof {
        assert(r * r <= 800_000_000_000_000);
        assert(r <= 30_000_000) by (nonlinear_arith)
            requires
                r * r <= 800_000_000_000_000,
                r >= 0,
        ;
    }
    r as i64
}

/// Two circles overlap when the squared distance between their centres is
/// below the square of the sum of their radii.
pub open spec fn circles_overlap(p1: Position, p2: Position, r1: int, r2: int) -> bool {
    dist_sq(p1, p2) < (r1 + r2) * (r1 + r2)
}

/// Circle-to-circle collision test (compares squared quantities).
pub fn circle_collision(pos1: Position, pos2: Position, radius1: i64, radius2: i64) -> (hit: bool)
    requires
        pos_wf(pos1),
        pos_wf(pos2),
        0 <= radius1 <= POS_LIMIT,
        0 <= radius2 <= POS_LIMIT,
    ensures
        hit == circles_overlap(pos1, pos2, radius1 as int, radius2 as int),
{
    let dd: i64 = distance_sq(pos1, pos2);
    let rs: i64 = radius1 + radius2;
    proof {
        assert(rs * rs <= 400_000_000_000_000 && rs * rs >= 0) by (nonlinear_arith)
            requires
                0 <= rs <= 20_000_000,
        ;
    }
    dd < rs * rs
}

/// `v` held into the interval `[lo, hi]`.
pub open spec fn clamp_int(v: int, lo: int, hi: int) -> int {
    if v < lo {
        lo
    } else if v > hi {
        hi
    } else {
        v
    }
}

/// Clamp a coordinate into the interval `[lo, hi]`.
pub fn clamp_i64(v: i64, lo: i64, hi: i64) -> (r: i64)
    requires
        lo <= hi,
    ensures
        r == clamp_int(v as int, lo as int, hi as int),
        lo <= r <= hi,
{
    if v < lo {
        lo
    } else if v > hi {
        hi
    } else {
        v
    }
}

/// Division of wide intermediates with the simulation's rounding rule
/// (toward zero); the divisor must be nonzero.
pub fn div_i128(a: i128, b: i128) -> (r: i128)
    requires
        b != 0,
        a > i128::MIN,
        b > i128::MIN,
    ensures
        r == div_t(a as int, b as int),
{
    let an: u128 = if a >= 0 {
        a as u128
    } else {
        (-a) as u128
    };
    let bn: u128 = if b >= 0 {
        b as u128
    } else {
        (-b) as u128
    };
    let q: u128 = an / bn;
    proof {
        assert(q <= an) by (nonlinear_arith)
            requires
                bn > 0,
                q == an as int / bn as int,
                an >= 0,
        ;
    }
    if (a >= 0) == (b >= 0) {
        q as i128
    } else {
        -(q as i128)
    }
}

/// The velocity of magnitude `speed` that points from `from` toward `to`;
/// the zero vector when the two points coincide. Components are the exact
/// quotients `delta * speed / distance`, rounded toward zero.
pub open spec fn velocity_toward(from: Position, to: Position, speed: int) -> Position {
    let dx = to.x - from.x;
    let dy = to.y - from.y;
    let len = sqrt_floor(dist_sq(from, to));
    if len == 0 {
        Position { x: 0, y: 0 }
    } else {
        Position { x: div_t(dx * speed, len) as i64, y: div_t(dy * speed, len) as i64 }
    }
}

/// The magnitude of a value.
pub open spec fn abs_int(a: int) -> int {
    if a >= 0 {
        a
    } else {
        -a
    }
}

/// The integer square root of a nonnegative value satisfies its defining
/// property.
pub proof fn lemma_sqrt_floor_props(n: int)
    requires
        n >= 0,
    ensures
        sqrt_floor(n) >= 0,
        sqrt_floor(n) * sqrt_floor(n) <= n,
        n < (sqrt_floor(n) + 1) * (sqrt_floor(n) + 1),
{
    let w = lemma_sqrt_exists(n);
    assert(w >= 0 && w * w <= n && n < (w + 1) * (w + 1));
    assert(exists|r: int| r >= 0 && #[trigger] (r * r) <= n && n < (r + 1) * (r + 1));
}

/// Either coordinate's magnitude is bounded by the distance itself.
pub proof fn lemma_delta_le_distance(from: Position, to: Position)
    requires
        pos_wf(from),
        pos_wf(to),
    ensures
        -sqrt_floor(dist_sq(from, to)) <= to.x - from.x <= sqrt_floor(dist_sq(from, to)),
        -sqrt_floor(dist_sq(from, to)) <= to.y - from.y <= sqrt_floor(dist_sq(from, to)),
{
    let dx = from.x - to.x;
    let dy = from.y - to.y;
    let dd = dist_sq(from, to);
    let len = sqrt_floor(dd);
    assert(dx * dx >= 0 && dy * dy >= 0) by (nonlinear_arith);
    assert(dd == dx * dx + dy * dy);
    lemma_sqrt_floor_props(dd);
    assert(-len <= dx <= len && -len <= dy <= len) by (nonlinear_arith)
        requires
            dx * dx <= dd,
            dy * dy <= dd,
            len >= 0,
            len * len <= dd < (len + 1) * (len + 1),
    ;
}

/// Every nonnegative integer has an integer square root; this constructs it.
proof fn lemma_sqrt_exists(n: int) -> (r: int)
    requires
        n >= 0,
    ensures
        r >= 0,
        r * r <= n,
        n < (r + 1) * (r + 1),
    decreases n,
{
    if n == 0 {
        0
    } else {
        let p = lemma_sqrt_exists(n - 1);
        if n < (p + 1) * (p + 1) {
            p
        } else {
            assert(n == (p + 1) * (p + 1));
            assert((p + 1) * (p + 1) <= n && n < (p + 2) * (p + 2)) by (nonlinear_arith)
                requires
                    p >= 0,
                    n == (p + 1) * (p + 1),
            ;
            p + 1
        }
    }
}

/// Normalize the direction from `from` to `to` and scale it to `speed`
/// (direct aim); returns the zero velocity when the points coincide.
pub fn calculate_velocity(from: Position, to: Position, speed: i64) -> (v: Position)
    requires
        pos_wf(from),
        pos_wf(to),
        0 <= speed <= SPEED_LIMIT,
    ensures
        v == velocity_toward(from, to, speed as int),
        -speed <= v.x <= speed,
        -speed <= v.y <= speed,
        vel_wf(v),
{
    let dx: i64 = to.x - from.x;
    let dy: i64 = to.y - from.y;
    let len: i64 = distance(from, to);
    if len == 0 {
        Position { x: 0, y: 0 }
    } else {
        proof {
            lemma_delta_le_distance(from, to);
            assert(-speed * len <= dx * speed <= speed * len && -speed * len <= dy * speed
                <= speed * len && -30_000_000_000_000 <= dx * speed <= 30_000_000_000_000
                && -30_000_000_000_000 <= dy * speed <= 30_000_000_000_000) by (nonlinear_arith)
                requires
                    -len <= dx <= len,
                    -len <= dy <= len,
                    0 <= speed <= 1_000_000,
                    0 < len <= 30_000_000,
            ;
            lemma_div_t_bound(dx * speed, len as int, speed as int);
            lemma_div_t_bound(dy * speed, len as int, speed as int);
        }
        let vx: i64 = div_toward_zero(dx * speed, len);
        let vy: i64 = div_toward_zero(dy * speed, len);
        Position { x: vx, y: vy }
    }
}

/// The point a lead-targeting shooter aims at: the earliest intercept of a
/// target moving at constant velocity, found from the quadratic
/// `(|v|^2 - s^2) t^2 + 2 (d . v) t + |d|^2 = 0`; the target's current
/// position when the equation degenerates (leading coefficient zero, no real
/// root, or no positive root). Times are in milliseconds; the intercept is
/// clamped into the modelled world.
pub open spec fn lead_aim_point(from: Position, target_pos: Position, target_vel: Position, speed: int) -> Position {
    let dx = target_pos.x - from.x;
    let dy = target_pos.y - from.y;
    let a = target_vel.x * target_vel.x + target_vel.y * target_vel.y - speed * speed;
    let b = 2 * (dx * target_vel.x + dy * target_vel.y);
    let c = dx * dx + dy * dy;
    let disc = b * b - 4 * a * c;
    if a == 0 || disc < 0 {
        target_pos
    } else {
        let sd = sqrt_floor(disc);
        let den = 2 * a;
        let pos1 = (-b + sd) * den > 0;
        let pos2 = (-b - sd) * den > 0;
        if !pos1 && !pos2 {
            target_pos
        } else {
            let t1 = div_t(1000 * (-b + sd), den);
            let t2 = div_t(1000 * (-b - sd), den);
            let t = if pos1 && pos2 {
                if t1 <= t2 {
                    t1
                } else {
                    t2
                }
            } else if pos1 {
                t1
            } else {
                t2
            };
            Position {
                x: clamp_int(
                    target_pos.x + div_t(target_vel.x * t, 1000),
                    -POS_LIMIT as int,
                    POS_LIMIT as int,
                ) as i64,
                y: clamp_int(
                    target_pos.y + div_t(target_vel.y * t, 1000),
                    -POS_LIMIT as int,
                    POS_LIMIT as int,
                ) as i64,
            }
        }
    }
}

/// Lead-targeting velocity: aim where the moving target will be. Falls back
/// to direct aim at the target's current position whenever the intercept
/// quadratic has no usable root, the only defined behaviour for the
/// degenerate cases.
pub fn calculate_lead_velocity(
    from: Position,
    target_pos: Position,
    target_velocity: Position,
    projectile_speed: i64,
) -> (v: Position)
    requires
        pos_wf(from),
        pos_wf(target_pos),
        vel_wf(target_velocity),
        0 <= projectile_speed <= SPEED_LIMIT,
    ensures
        v == velocity_toward(
            from,
            lead_aim_point(from, target_pos, target_velocity, projectile_speed as int),
            projectile_speed as int,
        ),
        -projectile_speed <= v.x <= projectile_speed,
        -projectile_speed <= v.y <= projectile_speed,
        vel_wf(v),
{
    let dx: i128 = (target_pos.x - from.x) as i128;
    let dy: i128 = (target_pos.y - from.y) as i128;
    let vx: i128 = target_velocity.x as i128;
    let vy: i128 = target_velocity.y as i128;
    let s: i128 = projectile_speed as i128;
    proof {
        assert(0 <= vx * vx <= 64_000_000_000_000 && 0 <= vy * vy <= 64_000_000_000_000 && 0 <= s
            * s <= 1_000_000_000_000 && -160_000_000_000_000 <= dx * vx <= 160_000_000_000_000
            && -160_000_000_000_000 <= dy * vy <= 160_000_000_000_000 && 0 <= dx * dx
            <= 400_000_000_000_000 && 0 <= dy * dy <= 400_000_000_000_000) by (nonlinear_arith)
            requires
                -20_000_000 <= dx <= 20_000_000,
                -20_000_000 <= dy <= 20_000_000,
                -8_000_000 <= vx <= 8_000_000,
                -8_000_000 <= vy <= 8_000_000,
                0 <= s <= 1_000_000,
        ;
    }
    let a: i128 = vx * vx + vy * vy - s * s;
    let b: i128 = 2 * (dx * vx + dy * vy);
    let c: i128 = dx * dx + dy * dy;
    proof {
        assert(0 <= b * b <= 1_000_000_000_000_000_000_000_000_000_000int
            && -1_000_000_000_000_000_000_000_000_000_000int <= 4 * a * c
            <= 1_000_000_000_000_000_000_000_000_000_000int) by (nonlinear_arith)
            requires
                -1_000_000_000_000_000 <= b <= 1_000_000_000_000_000,
                -200_000_000_000_000 <= a <= 200_000_000_000_000,
                0 <= c <= 800_000_000_000_000,
        ;
    }
    let disc: i128 = b * b - 4 * a * c;
    if a == 0 || disc < 0 {
        return calculate_velocity(from, target_pos, projectile_speed);
    }
    let sd_u: u128 = isqrt(disc as u128);
    proof {
        assert(sd_u * sd_u <= 2_000_000_000_000_000_000_000_000_000_000int ==> sd_u
            <= 2_000_000_000_000_000u128) by (nonlinear_arith);
    }
    let sd: i128 = sd_u as i128;
    let den: i128 = 2 * a;
    let num1: i128 = -b + sd;
    let num2: i128 = -b - sd;
    proof {
        assert(-4_000_000_000_000_000_000_000_000_000_000_000int <= num1 * den
            <= 4_000_000_000_000_000_000_000_000_000_000_000int
            && -4_000_000_000_000_000_000_000_000_000_000_000int <= num2 * den
            <= 4_000_000_000_000_000_000_000_000_000_000_000int) by (nonlinear_arith)
            requires
                -4_000_000_000_000_000 <= num1 <= 4_000_000_000_000_000,
                -4_000_000_000_000_000 <= num2 <= 4_000_000_000_000_000,
                -400_000_000_000_000 <= den <= 400_000_000_000_000,
        ;
    }
    let pos1: bool = num1 * den > 0;
    let pos2: bool = num2 * den > 0;
    if !pos1 && !pos2 {
        return calculate_velocity(from, target_pos, projectile_speed);
    }
    let t1: i128 = div_i128(1000 * num1, den);
    let t2: i128 = div_i128(1000 * num2, den);
    let t: i128 = if pos1 && pos2 {
        if t1 <= t2 {
            t1
        } else {
            t2
        }
    } else if pos1 {
        t1
    } else {
        t2
    };
    proof {
        lemma_div_t_magnitude(1000 * num1, den as int);
        lemma_div_t_magnitude(1000 * num2, den as int);
        assert(-32_000_000_000_000_000_000_000_000_000int <= vx * t
            <= 32_000_000_000_000_000_000_000_000_000int
            && -32_000_000_000_000_000_000_000_000_000int <= vy * t
            <= 32_000_000_000_000_000_000_000_000_000int) by (nonlinear_arith)
            requires
                -4_000_000_000_000_000_000 <= t <= 4_000_000_000_000_000_000,
                -8_000_000 <= vx <= 8_000_000,
                -8_000_000 <= vy <= 8_000_000,
        ;
        lemma_div_t_magnitude(vx * t, 1000);
        lemma_div_t_magnitude(vy * t, 1000);
    }
    let ox: i128 = div_i128(vx * t, 1000);
    let oy: i128 = div_i128(vy * t, 1000);
    let ix: i64 = clamp_i64_from_i128((target_pos.x as i128) + ox);
    let iy: i64 = clamp_i64_from_i128((target_pos.y as i128) + oy);
    let aim = Position { x: ix, y: iy };
    calculate_velocity(from, aim, projectile_speed)
}

/// Lead-intercept correctness for a stationary target: when the target's
/// velocity is zero, the lead-targeting aim point is the target's current
/// position, so the lead-targeting velocity equals the direct-aim velocity
/// for every shooter position, target position and projectile speed.
pub proof fn lemma_lead_stationary_equals_direct(from: Position, target_pos: Position, speed: int)
    requires
        pos_wf(from),
        pos_wf(target_pos),
        0 <= speed <= SPEED_LIMIT,
    ensures
        lead_aim_point(from, target_pos, Position { x: 0, y: 0 }, speed) == target_pos,
        velocity_toward(from, lead_aim_point(from, target_pos, Position { x: 0, y: 0 }, speed), speed)
            == velocity_toward(from, target_pos, speed),
{
    let dx = target_pos.x - from.x;
    let dy = target_pos.y - from.y;
    let a = 0 * 0 + 0 * 0 - speed * speed;
    let c = dx * dx + dy * dy;
    let b = 2 * (dx * 0 + dy * 0);
    assert(b == 0);
    if speed == 0 {
        assert(a == 0);
    } else {
        assert(a < 0 && 4 * a * c <= 0 && c >= 0) by (nonlinear_arith)
            requires
                a == 0 * 0 + 0 * 0 - speed * speed,
                c == dx * dx + dy * dy,
                speed > 0,
        ;
        let disc = b * b - 4 * a * c;
        assert(disc >= 0);
        let sd = sqrt_floor(disc);
        lemma_sqrt_floor_props(disc);
        let den = 2 * a;
        assert(den < 0);
        assert(!((-b + sd) * den > 0)) by (nonlinear_arith)
            requires
                b == 0,
                sd >= 0,
                den < 0,
        ;
        if (-b - sd) * den > 0 {
            let t = div_t(1000 * (-b - sd), den);
            assert(0 * t == 0) by (nonlinear_arith);
            assert(div_t(0, 1000) == 0);
            assert(clamp_int(target_pos.x + 0, -POS_LIMIT as int, POS_LIMIT as int)
                == target_pos.x);
            assert(clamp_int(target_pos.y + 0, -POS_LIMIT as int, POS_LIMIT as int)
                == target_pos.y);
        }
    }
}

/// The magnitude of a toward-zero quotient never exceeds the dividend's.
pub proof fn lemma_div_t_magnitude(a: int, b: int)
    requires
        b != 0,
    ensures
        -abs_int(a) <= div_t(a, b) <= abs_int(a),
{
    let m = abs_int(a);
    let bb = if b > 0 {
        b
    } else {
        -b
    };
    assert(0 <= m / bb <= m) by (nonlinear_arith)
        requires
            m >= 0,
            bb > 0,
    ;
}

/// Narrow a wide intermediate into coordinate range, saturating at the world
/// limit (values this large are far outside the playfield either way).
fn clamp_i64_from_i128(v: i128) -> (r: i64)
    ensures
        r == clamp_int(v as int, -POS_LIMIT as int, POS_LIMIT as int),
        -POS_LIMIT <= r <= POS_LIMIT,
{
    if v < -(POS_LIMIT as i128) {
        -POS_LIMIT
    } else if v > POS_LIMIT as i128 {
        POS_LIMIT
    } else {
        v as i64
    }
}

} // verus!
