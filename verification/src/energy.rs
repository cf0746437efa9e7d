//! The shared energy resource: active ghosts drain it, time regenerates
//! it, and running dry despawns every ghost.

use vstd::prelude::*;
use crate::models::{Player, GhostUnit};
use crate::config::{EnergyConfig, AnimationConfig, DT_LIMIT};

verus! {

/// Energy after one ghost's drain for one tick: the per-second drain
/// scaled to the tick, never below zero.
pub open spec fn spec_drain_step(energy: int, drain_per_sec: int, delta: int) -> int {
    let d = (drain_per_sec * delta) / 1000;
    if energy - d < 0 {
        0int
    } else {
        energy - d
    }
}

/// Energy after every ghost's drain, applied in order.
pub open spec fn spec_drained(energy: int, ghosts: Seq<GhostUnit>, delta: int) -> int
    decreases ghosts.len(),
{
    if ghosts.len() == 0 {
        energy
    } else {
        spec_drain_step(
            spec_drained(energy, ghosts.drop_last(), delta),
            ghosts.last().energy_drain_per_sec as int,
            delta,
        )
    }
}

/// Manage the player's energy for one tick: each active ghost drains its
/// share (energy never below zero); if the pool is empty afterwards, every
/// ghost that is not already despawning starts its despawn animation; then
/// energy regenerates, quickly when no ghosts are active and slowly
/// otherwise, up to the maximum.
pub fn manage_energy(
    player: &mut Player,
    ghosts: &mut Vec<GhostUnit>,
    config: &EnergyConfig,
    animations: &AnimationConfig,
    delta: i64,
)
    requires
        old(player).wf(),
        config.wf(),
        animations.wf(),
        0 <= delta <= DT_LIMIT,
        forall|i: int| 0 <= i < old(ghosts)@.len() ==> (#[trigger] old(ghosts)@[i]).wf(),
    ensures
        final(player).wf(),
        final(ghosts)@.len() == old(ghosts)@.len(),
        forall|i: int| 0 <= i < final(ghosts)@.len() ==> (#[trigger] final(ghosts)@[i]).wf(),
        *final(player) == (Player { energy: final(player).energy, ..*old(player) }),
        ({
            let drained = spec_drained(old(player).energy as int, old(ghosts)@, delta as int);
            let rate = if old(ghosts)@.len() == 0 {
                config.regen_rate_idle as int
            } else {
                config.regen_rate_active as int
            };
            let regen = drained + (rate * delta) / 1000;
            &&& final(player).energy as int == (if regen > old(player).max_energy {
                old(player).max_energy as int
            } else {
                regen
            })
            &&& (drained > 0 ==> forall|i: int|
                0 <= i < final(ghosts)@.len() ==> #[trigger] final(ghosts)@[i] == old(ghosts)@[i])
            &&& (drained <= 0 ==> forall|i: int|
                0 <= i < final(ghosts)@.len() ==> #[trigger] final(ghosts)@[i] == (if old(
                    ghosts,
                )@[i].anim.is_despawning {
                    old(ghosts)@[i]
                } else {
                    GhostUnit {
                        anim: crate::models::EntityAnimState {
                            is_despawning: true,
                            despawn_timer: animations.ghost_despawn_duration,
                            ..old(ghosts)@[i].anim
                        },
                        ..old(ghosts)@[i]
                    }
                }))
        }),
{
    let n: usize = ghosts.len();
    let mut i: usize = 0;
    while i < n
        invariant
            0 <= i <= n,
            n == ghosts@.len() == old(ghosts)@.len(),
            0 <= delta <= DT_LIMIT,
            ghosts@ == old(ghosts)@,
            old(player).wf(),
            forall|j: int| 0 <= j < n ==> (#[trigger] ghosts@[j]).wf(),
            *player == (Player { energy: player.energy, ..*old(player) }),
            0 <= player.energy <= old(player).max_energy,
            player.energy as int == spec_drained(
                old(player).energy as int,
                old(ghosts)@.take(i as int),
                delta as int,
            ),
        decreases n - i,
    {
        proof {
            assert(old(ghosts)@.take(i + 1).drop_last() =~= old(ghosts)@.take(i as int));
            assert(old(ghosts)@.take(i + 1).last() == old(ghosts)@[i as int]);
            assert(0 <= ghosts@[i as int].energy_drain_per_sec * delta
                <= 1_000_000_000_000i64 && (ghosts@[i as int].energy_drain_per_sec * delta) / 1000
                >= 0) by (nonlinear_arith)
                requires
                    0 <= ghosts@[i as int].energy_drain_per_sec <= 1_000_000_000,
                    0 <= delta <= 1000,
            ;
        }
        let d: i64 = (ghosts[i].energy_drain_per_sec * delta) / 1000;
        if player.energy - d < 0 {
            player.energy = 0;
        } else {
            player.energy = player.energy - d;
        }
        i += 1;
    }
    proof {
        assert(old(ghosts)@.take(n as int) =~= old(ghosts)@);
    }
    if player.energy <= 0 {
        let mut j: usize = 0;
        while j < n
            invariant
                0 <= j <= n,
                n == ghosts@.len() == old(ghosts)@.len(),
                animations.wf(),
                old(player).wf(),
                forall|k: int| j <= k < n ==> ghosts@[k] == #[trigger] old(ghosts)@[k],
                forall|k: int| 0 <= k < n ==> (#[trigger] ghosts@[k]).wf(),
                forall|k: int|
                    0 <= k < j ==> #[trigger] ghosts@[k] == (if old(
                        ghosts,
                    )@[k].anim.is_despawning {
                        old(ghosts)@[k]
                    } else {
                        GhostUnit {
                            anim: crate::models::EntityAnimState {
                                is_despawning: true,
                                despawn_timer: animations.ghost_despawn_duration,
                                ..old(ghosts)@[k].anim
                            },
                            ..old(ghosts)@[k]
                        }
                    }),
            decreases n - j,
        {
            let g = vstd::std_specs::vec::vec_index_mut(ghosts, j);
            if !g.anim.is_despawning {
                g.anim.is_despawning = true;
                g.anim.despawn_timer = animations.ghost_despawn_duration;
            }
            j += 1;
        }
        player.energy = 0;
    }
    let rate: i64 = if ghosts.len() == 0 {
        config.regen_rate_idle
    } else {
        config.regen_rate_active
    };
    proof {
        assert(0 <= rate * delta <= 1_000_000_000_000i64 && (rate * delta) / 1000 >= 0)
            by (nonlinear_arith)
            requires
                0 <= rate <= 1_000_000_000,
                0 <= delta <= 1000,
        ;
    }
    let add: i64 = (rate * delta) / 1000;
    if player.energy + add > player.max_energy {
        player.energy = player.max_energy;
    } else {
        player.energy = player.energy + add;
    }
}

} // verus!
