//! Ghost spawn and despawn animations. Spawn grows and fades an entering
//! ghost in; despawn is a short shrink, spin and fade, and only when its
//! timer runs out does the ghost leave the active list.

use vstd::prelude::*;
use crate::models::{GhostUnit, TAU_MILLI};
use crate::config::{AnimationConfig, DT_LIMIT};

verus! {

/// What one animation tick guarantees about a ghost: lifecycle timers and
/// flags move exactly; the visual scale, rotation and opacity stay in
/// range; nothing else changes.
pub open spec fn spec_anim_stepped(o: GhostUnit, n: GhostUnit, cfg: AnimationConfig, delta: int) -> bool {
    &&& n.pos == o.pos
    &&& n.stats == o.stats
    &&& n.weapon_type == o.weapon_type
    &&& n.entity_type == o.entity_type
    &&& n.energy_drain_per_sec == o.energy_drain_per_sec
    &&& n.fire_timer == o.fire_timer
    &&& n.anim.despawn_timer as int == (if o.anim.is_despawning {
        if o.anim.despawn_timer - delta < 0 {
            0int
        } else {
            o.anim.despawn_timer - delta
        }
    } else {
        o.anim.despawn_timer as int
    })
    &&& n.anim.is_despawning == o.anim.is_despawning
    &&& (o.anim.is_spawning ==> (n.anim.is_spawning == (o.anim.spawn_timer - delta > 0))
        && n.anim.spawn_timer as int == (if o.anim.spawn_timer - delta < 0 {
        0int
    } else {
        o.anim.spawn_timer - delta
    }))
    &&& (!o.anim.is_spawning ==> n.anim.is_spawning == o.anim.is_spawning
        && n.anim.spawn_timer == o.anim.spawn_timer)
    &&& n.anim.hit_flash_timer as int == (if o.anim.hit_flash_timer > 0 {
        if o.anim.hit_flash_timer - delta < 0 {
            0int
        } else {
            o.anim.hit_flash_timer - delta
        }
    } else {
        o.anim.hit_flash_timer as int
    })
    &&& n.wf()
}

/// Advance one ghost's spawn animation: the timer counts down while scale
/// grows and opacity fades in; when it runs out the ghost settles at full
/// size and opacity. Returns whether the animation has finished.
pub fn update_ghost_spawn_animation(ghost: &mut GhostUnit, delta: i64, config: &AnimationConfig) -> (done: bool)
    requires
        old(ghost).wf(),
        config.wf(),
        0 <= delta <= DT_LIMIT,
    ensures
        final(ghost).wf(),
        !old(ghost).anim.is_spawning ==> done && *final(ghost) == *old(ghost),
        old(ghost).anim.is_spawning ==> {
            &&& done == (old(ghost).anim.spawn_timer - delta <= 0)
            &&& final(ghost).anim.spawn_timer as int == (if old(ghost).anim.spawn_timer - delta
                < 0 {
                0int
            } else {
                old(ghost).anim.spawn_timer - delta
            })
            &&& final(ghost).anim.is_spawning == !done
            &&& (done ==> final(ghost).anim.scale == 1000 && final(ghost).anim.alpha == 1000
                && final(ghost).anim.rotation == 0)
            &&& final(ghost).pos == old(ghost).pos
            &&& final(ghost).stats == old(ghost).stats
            &&& final(ghost).weapon_type == old(ghost).weapon_type
            &&& final(ghost).entity_type == old(ghost).entity_type
            &&& final(ghost).energy_drain_per_sec == old(ghost).energy_drain_per_sec
            &&& final(ghost).fire_timer == old(ghost).fire_timer
            &&& final(ghost).anim.is_despawning == old(ghost).anim.is_despawning
            &&& final(ghost).anim.despawn_timer == old(ghost).anim.despawn_timer
            &&& final(ghost).anim.hit_flash_timer == old(ghost).anim.hit_flash_timer
        },
{
    if !ghost.anim.is_spawning {
        return true;
    }
    let t0: i64 = ghost.anim.spawn_timer;
    if t0 - delta < 0 {
        ghost.anim.spawn_timer = 0;
    } else {
        ghost.anim.spawn_timer = t0 - delta;
    }
    if ghost.anim.spawn_timer > 0 {
        let remaining: i64 = ghost.anim.spawn_timer;
        let d: i64 = config.ghost_spawn_duration;
        let t: i64 = if remaining >= d {
            0
        } else {
            proof {
                assert(0 <= (d - remaining) * 1000 <= 86_400_000_000i64 && ((d - remaining)
                    * 1000) as int / (d as int) <= 1000 && ((d - remaining) * 1000) as int / (
                d as int) >= 0) by (nonlinear_arith)
                    requires
                        0 < remaining < d <= 86_400_000,
                ;
            }
            ((d - remaining) * 1000) / d
        };
        let eased: i64 = crate::animation::ease_out_quad(t);
        ghost.anim.scale = crate::animation::lerp(config.ghost_spawn_scale_start, 1000, eased);
        ghost.anim.alpha = eased;
        proof {
            assert(0 <= config.ghost_spawn_rotation_speed * delta <= 1_000_000_000i64)
                by (nonlinear_arith)
                requires
                    0 <= config.ghost_spawn_rotation_speed <= 1_000_000,
                    0 <= delta <= 1000,
            ;
        }
        let spin: i64 = (config.ghost_spawn_rotation_speed * delta) / 1000;
        ghost.anim.rotation = (ghost.anim.rotation + spin) % TAU_MILLI;
        false
    } else {
        ghost.anim.is_spawning = false;
        ghost.anim.scale = 1000;
        ghost.anim.alpha = 1000;
        ghost.anim.rotation = 0;
        true
    }
}

/// Advance one ghost's despawn animation: the timer counts down while the
/// ghost shrinks, fades and spins. Returns whether it has finished, which
/// is when the ghost may leave the active list.
pub fn update_ghost_despawn_animation(ghost: &mut GhostUnit, delta: i64, config: &AnimationConfig) -> (done: bool)
    requires
        old(ghost).wf(),
        config.wf(),
        0 <= delta <= DT_LIMIT,
    ensures
        final(ghost).wf(),
        !old(ghost).anim.is_despawning ==> !done && *final(ghost) == *old(ghost),
        old(ghost).anim.is_despawning ==> {
            &&& done == (old(ghost).anim.despawn_timer - delta <= 0)
            &&& final(ghost).anim.despawn_timer as int == (if old(ghost).anim.despawn_timer - delta
                < 0 {
                0int
            } else {
                old(ghost).anim.despawn_timer - delta
            })
            &&& final(ghost).anim.is_despawning
            &&& final(ghost).pos == old(ghost).pos
            &&& final(ghost).stats == old(ghost).stats
            &&& final(ghost).weapon_type == old(ghost).weapon_type
            &&& final(ghost).entity_type == old(ghost).entity_type
            &&& final(ghost).energy_drain_per_sec == old(ghost).energy_drain_per_sec
            &&& final(ghost).fire_timer == old(ghost).fire_timer
            &&& final(ghost).anim.is_spawning == old(ghost).anim.is_spawning
            &&& final(ghost).anim.spawn_timer == old(ghost).anim.spawn_timer
            &&& final(ghost).anim.hit_flash_timer == old(ghost).anim.hit_flash_timer
        },
{
    if !ghost.anim.is_despawning {
        return false;
    }
    let t0: i64 = ghost.anim.despawn_timer;
    if t0 - delta < 0 {
        ghost.anim.despawn_timer = 0;
    } else {
        ghost.anim.despawn_timer = t0 - delta;
    }
    if ghost.anim.despawn_timer > 0 {
        let remaining: i64 = ghost.anim.despawn_timer;
        let d: i64 = config.ghost_despawn_duration;
        let t: i64 = if remaining >= d {
            0
        } else {
            proof {
                assert(0 <= (d - remaining) * 1000 <= 86_400_000_000i64 && ((d - remaining)
                    * 1000) as int / (d as int) <= 1000 && ((d - remaining) * 1000) as int / (
                d as int) >= 0) by (nonlinear_arith)
                    requires
                        0 < remaining < d <= 86_400_000,
                ;
            }
            ((d - remaining) * 1000) / d
        };
        let eased: i64 = crate::animation::ease_in_quad(t);
        ghost.anim.scale = crate::animation::lerp(1000, 0, eased);
        ghost.anim.alpha = 1000 - eased;
        proof {
            assert(0 <= config.ghost_despawn_rotation_speed * delta <= 1_000_000_000i64)
                by (nonlinear_arith)
                requires
                    0 <= config.ghost_despawn_rotation_speed <= 1_000_000,
                    0 <= delta <= 1000,
            ;
        }
        let spin: i64 = (config.ghost_despawn_rotation_speed * delta) / 1000;
        ghost.anim.rotation = (ghost.anim.rotation + spin) % TAU_MILLI;
        false
    } else {
        true
    }
}

/// Whether a ghost stays in the active list after the animation pass: it
/// is not despawning, or its despawn animation still runs.
pub open spec fn spec_anim_keep(g: GhostUnit) -> bool {
    !g.anim.is_despawning || g.anim.despawn_timer > 0
}

/// The ghosts that survive the animation pass, in order.
pub open spec fn spec_filter_anim(gs: Seq<GhostUnit>) -> Seq<GhostUnit>
    decreases gs.len(),
{
    if gs.len() == 0 {
        Seq::empty()
    } else {
        let rest = spec_filter_anim(gs.drop_last());
        if spec_anim_keep(gs.last()) {
            rest.push(gs.last())
        } else {
            rest
        }
    }
}

/// Run every ghost's animations for one tick, then drop the ghosts whose
/// despawn animation has finished: despawn is an animation, not an instant
/// removal, and a ghost leaves the list only once its timer reaches zero.
pub fn update_ghost_animations(ghosts: &mut Vec<GhostUnit>, delta: i64, config: &AnimationConfig)
    requires
        config.wf(),
        0 <= delta <= DT_LIMIT,
        forall|i: int| 0 <= i < old(ghosts)@.len() ==> (#[trigger] old(ghosts)@[i]).wf(),
    ensures
        final(ghosts)@.len() <= old(ghosts)@.len(),
        forall|i: int| 0 <= i < final(ghosts)@.len() ==> (#[trigger] final(ghosts)@[i]).wf(),
        forall|i: int| 0 <= i < final(ghosts)@.len() ==> spec_anim_keep(#[trigger] final(ghosts)@[i]),
        exists|mid: Seq<GhostUnit>|
            {
                &&& mid.len() == old(ghosts)@.len()
                &&& (forall|i: int|
                    0 <= i < mid.len() ==> spec_anim_stepped(
                        (#[trigger] old(ghosts)@[i]),
                        mid[i],
                        *config,
                        delta as int,
                    ))
                &&& final(ghosts)@ == spec_filter_anim(mid)
            },
{
    let n: usize = ghosts.len();
    let mut k: usize = 0;
    while k < n
        invariant
            0 <= k <= n,
            n == ghosts@.len() == old(ghosts)@.len(),
            config.wf(),
            0 <= delta <= DT_LIMIT,
            forall|i: int| k <= i < n ==> ghosts@[i] == #[trigger] old(ghosts)@[i],
            forall|i: int| 0 <= i < n ==> (#[trigger] ghosts@[i]).wf(),
            forall|i: int|
                0 <= i < k ==> spec_anim_stepped(
                    (#[trigger] old(ghosts)@[i]),
                    ghosts@[i],
                    *config,
                    delta as int,
                ),
        decreases n - k,
    {
        let g = vstd::std_specs::vec::vec_index_mut(ghosts, k);
        if g.anim.is_spawning {
            update_ghost_spawn_animation(g, delta, config);
        }
        if g.anim.is_despawning {
            update_ghost_despawn_animation(g, delta, config);
        }
        let t0: i64 = g.anim.hit_flash_timer;
        if t0 > 0 {
            if t0 - delta < 0 {
                g.anim.hit_flash_timer = 0;
            } else {
                g.anim.hit_flash_timer = t0 - delta;
            }
        }
        k += 1;
    }
    let ghost mid = ghosts@;
    let mut rev: Vec<GhostUnit> = Vec::new();
    while ghosts.len() > 0
        invariant
            ghosts@.len() + rev@.len() == mid.len(),
            ghosts@ == mid.take(ghosts@.len() as int),
            forall|j: int| 0 <= j < rev@.len() ==> #[trigger] rev@[j] == mid[mid.len() - 1 - j],
            forall|i: int| 0 <= i < mid.len() ==> (#[trigger] mid[i]).wf(),
        decreases ghosts@.len(),
    {
        proof {
            assert(ghosts@.last() == mid[ghosts@.len() - 1]);
            assert(ghosts@.take(ghosts@.len() as int).drop_last() =~= mid.take(
                ghosts@.len() - 1,
            ));
        }
        let g = ghosts.pop().unwrap();
        rev.push(g);
    }
    let total: usize = rev.len();
    let mut i: usize = 0;
    while rev.len() > 0
        invariant
            i + rev@.len() == total,
            total == mid.len(),
            forall|j: int| 0 <= j < rev@.len() ==> #[trigger] rev@[j] == mid[mid.len() - 1 - j],
            ghosts@ == spec_filter_anim(mid.take(i as int)),
            forall|ii: int| 0 <= ii < mid.len() ==> (#[trigger] mid[ii]).wf(),
            forall|ii: int| 0 <= ii < ghosts@.len() ==> (#[trigger] ghosts@[ii]).wf(),
            forall|ii: int| 0 <= ii < ghosts@.len() ==> spec_anim_keep(#[trigger] ghosts@[ii]),
            ghosts@.len() <= i,
        decreases rev@.len(),
    {
        proof {
            assert(rev@.last() == mid[i as int]);
            assert(mid.take(i + 1).drop_last() =~= mid.take(i as int));
            assert(mid.take(i + 1).last() == mid[i as int]);
        }
        let g = rev.pop().unwrap();
        let keep: bool = !g.anim.is_despawning || g.anim.despawn_timer > 0;
        if keep {
            ghosts.push(g);
        }
        i += 1;
    }
    proof {
        assert(mid.take(mid.len() as int) =~= mid);
    }
}

} // verus!
