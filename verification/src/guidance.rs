//! Projectile guidance and lifecycle: homing target re-acquisition,
//! constant-rate steering with a speed clamp, position integration, and
//! expiry by age or by leaving the padded playfield bounds.

use vstd::prelude::*;
use crate::geom::{
    Position, pos_wf, vel_wf, dist_sq, sqrt_floor, div_t, clamp_int, POS_LIMIT,
};
use crate::models::{Projectile, ProjectileOwner, Enemy, MAX_PROJECTILE_LIFETIME};
use crate::config::{TIME_LIMIT, DT_LIMIT};

verus! {

/// The fixed speed a homing projectile seeks, in thousandths of a pixel
/// per second.
pub const HOMING_SPEED: i64 = 300_000;

/// How sharply a homing projectile turns, per second.
pub const HOMING_TURN_RATE: i64 = 8;

/// A homing projectile's speed is clamped to one and a half times the
/// sought speed, so repeated re-targeting cannot accelerate it without
/// bound.
pub const HOMING_MAX_SPEED: i64 = 450_000;

/// Whether index `i` is the first enemy at minimal squared distance from
/// `from` (ties break to the first minimum found).
pub open spec fn is_first_nearest_enemy(from: Position, es: Seq<Enemy>, i: int) -> bool {
    &&& 0 <= i < es.len()
    &&& forall|j: int|
        0 <= j < es.len() ==> dist_sq(from, es[i].pos) <= dist_sq(from, (#[trigger] es[j]).pos)
    &&& forall|j: int| 0 <= j < i ==> dist_sq(from, (#[trigger] es[j]).pos) > dist_sq(from, es[i].pos)
}

/// Find the enemy nearest to `from` and return its index; nothing when no
/// enemies remain.
pub fn find_nearest_enemy_index(from: Position, enemies: &Vec<Enemy>) -> (r: Option<usize>)
    requires
        pos_wf(from),
        forall|i: int| 0 <= i < enemies@.len() ==> (#[trigger] enemies@[i]).wf(),
    ensures
        match r {
            None => enemies@.len() == 0,
            Some(i) => is_first_nearest_enemy(from, enemies@, i as int),
        },
{
    if enemies.len() == 0 {
        return None;
    }
    let mut best: usize = 0;
    let mut best_d: i64 = crate::geom::distance_sq(from, enemies[0].pos);
    let mut k: usize = 1;
    while k < enemies.len()
        invariant
            1 <= k <= enemies@.len(),
            0 <= best < k,
            pos_wf(from),
            forall|i: int| 0 <= i < enemies@.len() ==> (#[trigger] enemies@[i]).wf(),
            best_d == dist_sq(from, enemies@[best as int].pos),
            forall|j: int| 0 <= j < k ==> best_d <= dist_sq(from, (#[trigger] enemies@[j]).pos),
            forall|j: int| 0 <= j < best ==> dist_sq(from, (#[trigger] enemies@[j]).pos) > best_d,
        decreases enemies@.len() - k,
    {
        let d: i64 = crate::geom::distance_sq(from, enemies[k].pos);
        if d < best_d {
            best = k;
            best_d = d;
        }
        k += 1;
    }
    Some(best)
}

/// The velocity after one homing steering step: blend toward the direction
/// of the target at the fixed homing speed, by the turn rate and the tick
/// length, then clamp the speed. Within a pixel of the target, the
/// velocity is left alone.
pub open spec fn spec_homing_steer(v: Position, pos: Position, target: Position, dt: int) -> Position {
    let dx = target.x - pos.x;
    let dy = target.y - pos.y;
    let dist = sqrt_floor(dist_sq(pos, target));
    if dist < 1000 {
        v
    } else {
        let des_x = div_t(dx * HOMING_SPEED, dist);
        let des_y = div_t(dy * HOMING_SPEED, dist);
        let vx = v.x + div_t((des_x - v.x) * HOMING_TURN_RATE * dt, 1000);
        let vy = v.y + div_t((des_y - v.y) * HOMING_TURN_RATE * dt, 1000);
        let cur = sqrt_floor(vx * vx + vy * vy);
        if cur > HOMING_MAX_SPEED {
            let sc = div_t(HOMING_MAX_SPEED * 1000, cur);
            Position { x: div_t(vx * sc, 1000) as i64, y: div_t(vy * sc, 1000) as i64 }
        } else {
            Position { x: vx as i64, y: vy as i64 }
        }
    }
}

/// Steer a homing projectile's velocity toward the target; the result never
/// exceeds the clamped homing speed (unless untouched for being on target).
pub fn homing_behavior(projectile: &mut Projectile, target: Position, delta: i64)
    requires
        old(projectile).wf(),
        pos_wf(target),
        0 <= delta <= DT_LIMIT,
    ensures
        *final(projectile) == (Projectile {
            velocity: spec_homing_steer(
                old(projectile).velocity,
                old(projectile).pos,
                target,
                delta as int,
            ),
            ..*old(projectile)
        }),
        final(projectile).wf(),
{
    let dist: i64 = crate::geom::distance(projectile.pos, target);
    if dist < 1000 {
        return;
    }
    let dx: i64 = target.x - projectile.pos.x;
    let dy: i64 = target.y - projectile.pos.y;
    proof {
        crate::geom::lemma_delta_le_distance(projectile.pos, target);
        assert(-30_000_000_000_000i64 <= dx * HOMING_SPEED <= 30_000_000_000_000i64
            && -HOMING_SPEED * dist <= dx * HOMING_SPEED <= HOMING_SPEED * dist
            && -30_000_000_000_000i64 <= dy * HOMING_SPEED <= 30_000_000_000_000i64
            && -HOMING_SPEED * dist <= dy * HOMING_SPEED <= HOMING_SPEED * dist)
            by (nonlinear_arith)
            requires
                -dist <= dx <= dist,
                -dist <= dy <= dist,
                0 < dist <= 30_000_000,
        ;
        crate::geom::lemma_div_t_bound(dx * HOMING_SPEED, dist as int, HOMING_SPEED as int);
        crate::geom::lemma_div_t_bound(dy * HOMING_SPEED, dist as int, HOMING_SPEED as int);
    }
    let des_x: i64 = crate::geom::div_toward_zero(dx * HOMING_SPEED, dist);
    let des_y: i64 = crate::geom::div_toward_zero(dy * HOMING_SPEED, dist);
    proof {
        assert(-8_300_000 * 8 * 1000 <= (des_x - projectile.velocity.x) * HOMING_TURN_RATE * delta
            <= 8_300_000 * 8 * 1000 && -8_300_000 * 8 * 1000 <= (des_y - projectile.velocity.y)
            * HOMING_TURN_RATE * delta <= 8_300_000 * 8 * 1000) by (nonlinear_arith)
            requires
                -8_300_000 <= des_x - projectile.velocity.x <= 8_300_000,
                -8_300_000 <= des_y - projectile.velocity.y <= 8_300_000,
                0 <= delta <= 1000,
        ;
        crate::geom::lemma_div_t_bound(
            (des_x - projectile.velocity.x) * HOMING_TURN_RATE * delta,
            1000,
            66_400_000,
        );
        crate::geom::lemma_div_t_bound(
            (des_y - projectile.velocity.y) * HOMING_TURN_RATE * delta,
            1000,
            66_400_000,
        );
    }
    let vx: i64 = projectile.velocity.x + crate::geom::div_toward_zero(
        (des_x - projectile.velocity.x) * HOMING_TURN_RATE * delta,
        1000,
    );
    let vy: i64 = projectile.velocity.y + crate::geom::div_toward_zero(
        (des_y - projectile.velocity.y) * HOMING_TURN_RATE * delta,
        1000,
    );
    proof {
        assert(0 <= vx * vx <= 6_400_000_000_000_000i64 && 0 <= vy * vy
            <= 6_400_000_000_000_000i64) by (nonlinear_arith)
            requires
                -80_000_000 <= vx <= 80_000_000,
                -80_000_000 <= vy <= 80_000_000,
        ;
    }
    let sq: i64 = vx * vx + vy * vy;
    let cur_u: u128 = crate::geom::isqrt(sq as u128);
    proof {
        assert(cur_u * cur_u <= 12_800_000_000_000_000u128 ==> cur_u <= 200_000_000u128)
            by (nonlinear_arith);
        assert(vx * vx <= sq && vy * vy <= sq) by (nonlinear_arith)
            requires
                sq == vx * vx + vy * vy,
                0 <= vx * vx,
                0 <= vy * vy,
        ;
        assert(-(cur_u as int) <= vx <= cur_u as int && -(cur_u as int) <= vy <= cur_u as int)
            by (nonlinear_arith)
            requires
                vx * vx <= sq,
                vy * vy <= sq,
                cur_u >= 0,
                cur_u * cur_u <= sq < (cur_u + 1) * (cur_u + 1),
        ;
    }
    let cur: i64 = cur_u as i64;
    if cur > HOMING_MAX_SPEED {
        proof {
            assert(0 <= HOMING_MAX_SPEED * 1000 / (cur as int) && HOMING_MAX_SPEED * 1000
                / (cur as int) * (cur as int) <= HOMING_MAX_SPEED * 1000) by (nonlinear_arith)
                requires
                    cur > 450_000,
            ;
            let sc = (HOMING_MAX_SPEED * 1000) / (cur as int);
            assert(sc <= 1000) by (nonlinear_arith)
                requires
                    sc == 450_000_000int / (cur as int),
                    cur > 450_000,
            ;
            assert(-450_000_000 <= vx * sc <= 450_000_000 && -450_000_000 <= vy * sc
                <= 450_000_000 && -80_000_000_000i64 <= vx * sc <= 80_000_000_000i64
                && -80_000_000_000i64 <= vy * sc <= 80_000_000_000i64) by (nonlinear_arith)
                requires
                    -(cur as int) <= vx <= cur as int,
                    -(cur as int) <= vy <= cur as int,
                    0 <= sc <= 1000,
                    sc * (cur as int) <= 450_000_000,
                    -80_000_000 <= vx <= 80_000_000,
                    -80_000_000 <= vy <= 80_000_000,
            ;
            crate::geom::lemma_div_t_bound(vx * sc, 1000, 450_000);
            crate::geom::lemma_div_t_bound(vy * sc, 1000, 450_000);
        }
        let sc: i64 = (HOMING_MAX_SPEED * 1000) / cur;
        projectile.velocity = Position {
            x: crate::geom::div_toward_zero(vx * sc, 1000),
            y: crate::geom::div_toward_zero(vy * sc, 1000),
        };
    } else {
        projectile.velocity = Position { x: vx, y: vy };
    }
}

/// The position a target decision points at: the indexed enemy for locks
/// the player's side holds, the player for enemy missiles.
pub open spec fn spec_lock_target(
    lock: Option<usize>,
    owner: ProjectileOwner,
    es: Seq<Enemy>,
    player_pos: Position,
) -> Option<Position> {
    if owner is Enemy {
        Some(player_pos)
    } else {
        match lock {
            Some(i) => if i < es.len() {
                Some(es[i as int].pos)
            } else {
                None
            },
            None => None,
        }
    }
}

/// Re-resolve a homing projectile's target. A live lock is kept; a stale or
/// missing lock is replaced by the nearest live enemy; when no enemies
/// remain the lock clears and no target is returned, so the projectile
/// flies on in a straight line. Enemy missiles always track the player.
pub fn resolve_homing_target(
    projectile: &mut Projectile,
    enemies: &Vec<Enemy>,
    player_pos: Position,
) -> (t: Option<Position>)
    requires
        old(projectile).wf(),
        pos_wf(player_pos),
        forall|i: int| 0 <= i < enemies@.len() ==> (#[trigger] enemies@[i]).wf(),
    ensures
        *final(projectile) == (Projectile {
            locked_target_index: final(projectile).locked_target_index,
            ..*old(projectile)
        }),
        final(projectile).wf(),
        old(projectile).owner is Enemy ==> final(projectile).locked_target_index == old(
            projectile,
        ).locked_target_index && t == Some(player_pos),
        !(old(projectile).owner is Enemy) ==> {
            &&& match old(projectile).locked_target_index {
                Some(idx) => if idx < enemies@.len() {
                    &&& final(projectile).locked_target_index == Some(idx)
                    &&& t == Some(enemies@[idx as int].pos)
                } else {
                    spec_reacquired(*old(projectile), *final(projectile), enemies@, t)
                },
                None => spec_reacquired(*old(projectile), *final(projectile), enemies@, t),
            }
        },
{
    match projectile.owner {
        ProjectileOwner::Enemy => Some(player_pos),
        ProjectileOwner::Player | ProjectileOwner::Ally => {
            let needs_new: bool = match projectile.locked_target_index {
                Some(idx) => idx >= enemies.len(),
                None => true,
            };
            if needs_new {
                let found = find_nearest_enemy_index(projectile.pos, enemies);
                projectile.locked_target_index = found;
                match found {
                    Some(i) => Some(enemies[i].pos),
                    None => None,
                }
            } else {
                match projectile.locked_target_index {
                    Some(idx) => Some(enemies[idx].pos),
                    None => None,
                }
            }
        },
    }
}

/// What re-acquisition leaves behind: with live enemies, the new lock is
/// the first nearest one and the target is its position; with none, the
/// lock clears and there is no target.
pub open spec fn spec_reacquired(
    o: Projectile,
    n: Projectile,
    es: Seq<Enemy>,
    t: Option<Position>,
) -> bool {
    if es.len() == 0 {
        &&& n.locked_target_index is None
        &&& t is None
    } else {
        exists|i: usize|
            {
                &&& #[trigger] is_first_nearest_enemy(o.pos, es, i as int)
                &&& n.locked_target_index == Some(i)
                &&& t == Some(es[i as int].pos)
            }
    }
}

/// The position after one tick of motion, clamped into the modelled world.
pub open spec fn spec_integrate(pos: Position, v: Position, dt: int) -> Position {
    Position {
        x: clamp_int(pos.x + div_t(v.x * dt, 1000), -POS_LIMIT as int, POS_LIMIT as int) as i64,
        y: clamp_int(pos.y + div_t(v.y * dt, 1000), -POS_LIMIT as int, POS_LIMIT as int) as i64,
    }
}

/// Advance a position by its velocity for one tick.
pub fn integrate_position(pos: Position, v: Position, dt: i64) -> (r: Position)
    requires
        pos_wf(pos),
        vel_wf(v),
        0 <= dt <= DT_LIMIT,
    ensures
        r == spec_integrate(pos, v, dt as int),
        pos_wf(r),
{
    proof {
        assert(-8_000_000_000i64 <= v.x * dt <= 8_000_000_000i64 && -8_000_000_000i64 <= v.y * dt
            <= 8_000_000_000i64) by (nonlinear_arith)
            requires
                -8_000_000 <= v.x <= 8_000_000,
                -8_000_000 <= v.y <= 8_000_000,
                0 <= dt <= 1000,
        ;
        crate::geom::lemma_div_t_bound(v.x * dt, 1000, 8_000_000);
        crate::geom::lemma_div_t_bound(v.y * dt, 1000, 8_000_000);
    }
    let ox: i64 = crate::geom::div_toward_zero(v.x * dt, 1000);
    let oy: i64 = crate::geom::div_toward_zero(v.y * dt, 1000);
    Position {
        x: crate::geom::clamp_i64(pos.x + ox, -POS_LIMIT, POS_LIMIT),
        y: crate::geom::clamp_i64(pos.y + oy, -POS_LIMIT, POS_LIMIT),
    }
}

/// Whether one tick of guidance relates the old projectile to the new one:
/// timers advanced, the homing rule applied to lock and velocity, position
/// integrated, and everything else untouched.
pub open spec fn spec_guided(
    o: Projectile,
    n: Projectile,
    es: Seq<Enemy>,
    player_pos: Position,
    dt: int,
) -> bool {
    let tgt = spec_lock_target(n.locked_target_index, o.owner, es, player_pos);
    &&& n.lifetime == o.lifetime + dt
    &&& n.trail_timer == (if o.trail_timer + dt > TIME_LIMIT {
        TIME_LIMIT as int
    } else {
        o.trail_timer + dt
    })
    &&& (if o.homing {
        if o.owner is Enemy {
            n.locked_target_index == o.locked_target_index
        } else {
            match o.locked_target_index {
                Some(idx) => if idx < es.len() {
                    n.locked_target_index == Some(idx)
                } else {
                    spec_relock(o, n, es)
                },
                None => spec_relock(o, n, es),
            }
        }
    } else {
        n.locked_target_index == o.locked_target_index
    })
    &&& n.velocity == (if o.homing && tgt is Some {
        spec_homing_steer(o.velocity, o.pos, tgt->0, dt)
    } else {
        o.velocity
    })
    &&& n.pos == spec_integrate(o.pos, n.velocity, dt)
    &&& n.damage == o.damage
    &&& n.weapon_type == o.weapon_type
    &&& n.owner == o.owner
    &&& n.piercing == o.piercing
    &&& n.homing == o.homing
    &&& n.explosion_radius == o.explosion_radius
}

/// The lock after re-acquisition alone (no target returned).
pub open spec fn spec_relock(o: Projectile, n: Projectile, es: Seq<Enemy>) -> bool {
    if es.len() == 0 {
        n.locked_target_index is None
    } else {
        exists|i: usize|
            #[trigger] is_first_nearest_enemy(o.pos, es, i as int) && n.locked_target_index == Some(
                i,
            )
    }
}

/// The field bounds guidance maintains (full well-formedness except that a
/// projectile may briefly exceed the age cap until the expiry pass runs).
pub open spec fn spec_guided_bounds(p: Projectile) -> bool {
    &&& pos_wf(p.pos)
    &&& vel_wf(p.velocity)
    &&& 0 <= p.lifetime <= MAX_PROJECTILE_LIFETIME + DT_LIMIT
    &&& 0 <= p.trail_timer <= TIME_LIMIT
    &&& 0 <= p.damage <= crate::config::DMG_LIMIT
    &&& 0 <= p.explosion_radius <= POS_LIMIT
    &&& !(p.piercing && p.explosion_radius > 0)
}

/// One guidance tick for the whole projectile list: age every projectile,
/// re-resolve and steer the homing ones, and integrate every position.
/// Nothing is added or removed here; expiry is a separate pass.
pub fn guide_projectiles(
    projectiles: &mut Vec<Projectile>,
    enemies: &Vec<Enemy>,
    player_pos: Position,
    delta: i64,
)
    requires
        forall|i: int| 0 <= i < old(projectiles)@.len() ==> (#[trigger] old(projectiles)@[i]).wf(),
        forall|i: int| 0 <= i < enemies@.len() ==> (#[trigger] enemies@[i]).wf(),
        pos_wf(player_pos),
        0 <= delta <= DT_LIMIT,
    ensures
        final(projectiles)@.len() == old(projectiles)@.len(),
        forall|i: int|
            0 <= i < final(projectiles)@.len() ==> spec_guided(
                (#[trigger] old(projectiles)@[i]),
                final(projectiles)@[i],
                enemies@,
                player_pos,
                delta as int,
            ),
        forall|i: int|
            0 <= i < final(projectiles)@.len() ==> spec_guided_bounds(
                #[trigger] final(projectiles)@[i],
            ),
{
    let n: usize = projectiles.len();
    let mut k: usize = 0;
    while k < n
        invariant
            0 <= k <= n,
            n == projectiles@.len() == old(projectiles)@.len(),
            forall|i: int|
                k <= i < projectiles@.len() ==> projectiles@[i] == (#[trigger] old(
                    projectiles,
                )@[i]),
            forall|i: int| 0 <= i < enemies@.len() ==> (#[trigger] enemies@[i]).wf(),
            pos_wf(player_pos),
            0 <= delta <= DT_LIMIT,
            forall|i: int| k <= i < projectiles@.len() ==> (#[trigger] projectiles@[i]).wf(),
            forall|i: int|
                0 <= i < k ==> spec_guided(
                    (#[trigger] old(projectiles)@[i]),
                    projectiles@[i],
                    enemies@,
                    player_pos,
                    delta as int,
                ),
            forall|i: int| 0 <= i < k ==> spec_guided_bounds(#[trigger] projectiles@[i]),
        decreases n - k,
    {
        let pr = vstd::std_specs::vec::vec_index_mut(projectiles, k);
        if pr.homing {
            let t = resolve_homing_target(pr, enemies, player_pos);
            match t {
                Some(target) => {
                    homing_behavior(pr, target, delta);
                },
                None => {},
            }
        }
        pr.lifetime = pr.lifetime + delta;
        if pr.trail_timer + delta > TIME_LIMIT {
            pr.trail_timer = TIME_LIMIT;
        } else {
            pr.trail_timer = pr.trail_timer + delta;
        }
        pr.pos = integrate_position(pr.pos, pr.velocity, delta);
        k += 1;
    }
}

/// Whether a projectile survives the expiry pass: it is inside the padded
/// playfield bounds and younger than the fixed maximum lifetime. Both
/// checks run every tick: an old projectile is removed even on screen, and
/// an out-of-bounds one is removed even when young.
pub open spec fn spec_keep(p: Projectile, width: int, height: int, padding: int) -> bool {
    &&& p.pos.y > -padding
    &&& p.pos.y < height + padding
    &&& p.pos.x > -padding
    &&& p.pos.x < width + padding
    &&& p.lifetime < MAX_PROJECTILE_LIFETIME
}

/// The subsequence of projectiles that survive expiry, in order.
pub open spec fn spec_filter_kept(
    ps: Seq<Projectile>,
    width: int,
    height: int,
    padding: int,
) -> Seq<Projectile>
    decreases ps.len(),
{
    if ps.len() == 0 {
        Seq::empty()
    } else {
        let rest = spec_filter_kept(ps.drop_last(), width, height, padding);
        if spec_keep(ps.last(), width, height, padding) {
            rest.push(ps.last())
        } else {
            rest
        }
    }
}

/// Remove every projectile that has left the padded playfield or outlived
/// the fixed maximum lifetime; keep the rest, in order.
pub fn expire_projectiles(projectiles: &mut Vec<Projectile>, width: i64, height: i64, padding: i64)
    requires
        0 <= width <= POS_LIMIT,
        0 <= height <= POS_LIMIT,
        0 <= padding <= POS_LIMIT,
        forall|i: int|
            0 <= i < old(projectiles)@.len() ==> spec_guided_bounds(
                #[trigger] old(projectiles)@[i],
            ),
    ensures
        final(projectiles)@ == spec_filter_kept(
            old(projectiles)@,
            width as int,
            height as int,
            padding as int,
        ),
        forall|i: int|
            0 <= i < final(projectiles)@.len() ==> spec_keep(
                #[trigger] final(projectiles)@[i],
                width as int,
                height as int,
                padding as int,
            ),
        forall|i: int|
            0 <= i < final(projectiles)@.len() ==> (#[trigger] final(projectiles)@[i]).wf(),
{
    let n: usize = projectiles.len();
    let mut kept: Vec<Projectile> = Vec::new();
    let mut k: usize = 0;
    while k < n
        invariant
            0 <= k <= n,
            n == projectiles@.len(),
            0 <= width <= POS_LIMIT,
            0 <= height <= POS_LIMIT,
            0 <= padding <= POS_LIMIT,
            forall|i: int|
                0 <= i < projectiles@.len() ==> spec_guided_bounds(#[trigger] projectiles@[i]),
            kept@ == spec_filter_kept(
                projectiles@.take(k as int),
                width as int,
                height as int,
                padding as int,
            ),
            forall|i: int|
                0 <= i < kept@.len() ==> spec_keep(
                    #[trigger] kept@[i],
                    width as int,
                    height as int,
                    padding as int,
                ),
            forall|i: int| 0 <= i < kept@.len() ==> (#[trigger] kept@[i]).wf(),
        decreases n - k,
    {
        let p: Projectile = projectiles[k];
        proof {
            assert(projectiles@.take(k + 1).drop_last() =~= projectiles@.take(k as int));
            assert(projectiles@.take(k + 1).last() == p);
        }
        let in_bounds: bool = p.pos.y > -padding && p.pos.y < height + padding && p.pos.x
            > -padding && p.pos.x < width + padding;
        let alive: bool = p.lifetime < MAX_PROJECTILE_LIFETIME;
        if in_bounds && alive {
            kept.push(p);
        }
        k += 1;
    }
    proof {
        assert(projectiles@.take(n as int) =~= projectiles@);
    }
    *projectiles = kept;
}

} // verus!
