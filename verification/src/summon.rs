//! Summoning captured ghosts: switching the active formation, summoning a
//! single ghost of a chosen kind, and deploying a whole formation. A
//! deployment always checks the formation's validity first and falls back
//! to scattered placement, so layout geometry is never evaluated below its
//! minimum count.

use vstd::prelude::*;
use crate::geom::{pos_wf, POS_LIMIT};
use crate::models::{Player, GhostUnit, GhostFormation, EntityType};
use crate::config::GameConfig;
use crate::formation::{deployed_formation, spec_deployed_formation, calculate_formation_position};

verus! {

/// Switch the active formation if the requested one is valid for the
/// current ghost count; an invalid request leaves the formation alone.
pub fn change_formation(current: &mut GhostFormation, requested: GhostFormation, ghost_count: usize) -> (switched: bool)
    ensures
        switched == requested.spec_is_valid_for_count(ghost_count),
        switched ==> *final(current) == requested,
        !switched ==> *final(current) == *old(current),
{
    if requested.is_valid_for_count(ghost_count) {
        *current = requested;
        true
    } else {
        false
    }
}

/// Whether `i` is the first index of `kind` in the queue.
pub open spec fn is_first_of_kind(q: Seq<EntityType>, kind: EntityType, i: int) -> bool {
    &&& 0 <= i < q.len()
    &&& q[i] == kind
    &&& forall|j: int| 0 <= j < i ==> q[j] != kind
}

/// Summon one ghost of the desired kind from the queue, if it is queued
/// and the energy suffices. The summon position comes from the current
/// formation, with the scattered fallback substituted whenever the
/// formation is invalid for the grown count. On success the first queued
/// entry of that kind leaves the queue and the energy cost is paid.
pub fn try_spawn_ghost(
    player: &mut Player,
    ghosts: &mut Vec<GhostUnit>,
    formation: GhostFormation,
    config: &GameConfig,
    play_width: i64,
    desired_type: EntityType,
) -> (spawned: bool)
    requires
        old(player).wf(),
        config.wf(),
        old(ghosts)@.len() < 10_000,
        30_000 <= play_width <= POS_LIMIT,
        2 * config.formation_spacing.screen_edge_padding <= play_width,
        forall|i: int| 0 <= i < old(ghosts)@.len() ==> (#[trigger] old(ghosts)@[i]).wf(),
    ensures
        final(player).wf(),
        forall|i: int| 0 <= i < final(ghosts)@.len() ==> (#[trigger] final(ghosts)@[i]).wf(),
        !spawned ==> *final(player) == *old(player) && final(ghosts)@ == old(ghosts)@,
        spawned ==> {
            &&& exists|i: int|
                #[trigger] is_first_of_kind(old(player).available_ghosts@, desired_type, i)
                    && final(player).available_ghosts@ == old(player).available_ghosts@.remove(i)
            &&& old(player).energy >= desired_type.spec_energy_cost(config.entities)
            &&& final(player).energy == old(player).energy - desired_type.spec_energy_cost(
                config.entities,
            )
            &&& final(ghosts)@.len() == old(ghosts)@.len() + 1
            &&& forall|i: int| 0 <= i < old(ghosts)@.len() ==> final(ghosts)@[i] == #[trigger] old(
                ghosts,
            )@[i]
            &&& final(ghosts)@.last().entity_type == desired_type
            &&& final(ghosts)@.last().stats == desired_type.spec_stats(config.entities)
            &&& final(ghosts)@.last().anim.is_spawning
        },
        !spawned ==> (forall|i: int|
            0 <= i < old(player).available_ghosts@.len() ==> old(player).available_ghosts@[i]
                != desired_type) || old(player).energy < desired_type.spec_energy_cost(
            config.entities,
        ),
{
    let mut found: Option<usize> = None;
    let mut i: usize = 0;
    let n: usize = player.available_ghosts.len();
    while i < n
        invariant
            0 <= i <= n,
            n == player.available_ghosts@.len(),
            *player == *old(player),
            match found {
                None => forall|j: int| 0 <= j < i ==> player.available_ghosts@[j] != desired_type,
                Some(fi) => is_first_of_kind(player.available_ghosts@, desired_type, fi as int),
            },
        decreases n - i,
    {
        let none_yet: bool = match found {
            None => true,
            Some(_) => false,
        };
        if none_yet && player.available_ghosts[i] == desired_type {
            found = Some(i);
            proof {
                assert(is_first_of_kind(player.available_ghosts@, desired_type, i as int));
            }
        }
        i += 1;
    }
    match found {
        None => false,
        Some(index) => {
            let energy_cost: i64 = desired_type.get_energy_cost(&config.entities);
            if player.energy < energy_cost {
                return false;
            }
            let use_formation = deployed_formation(formation, ghosts.len() + 1);
            let spawn_pos = calculate_formation_position(
                player.pos,
                ghosts.len(),
                ghosts.len() + 1,
                use_formation,
                play_width,
                &config.formation_spacing,
            );
            let g = GhostUnit::from_entity_type(desired_type, spawn_pos, config);
            ghosts.push(g);
            player.available_ghosts.remove(index);
            player.energy = player.energy - energy_cost;
            true
        },
    }
}

/// The kinds of these ghosts, in order.
pub open spec fn spec_ghost_kinds(gs: Seq<GhostUnit>) -> Seq<EntityType>
    decreases gs.len(),
{
    if gs.len() == 0 {
        Seq::empty()
    } else {
        spec_ghost_kinds(gs.drop_last()).push(gs.last().entity_type)
    }
}

/// Dismiss every deployed ghost: each ghost's kind returns to the back of
/// the summonable queue in deployment order, and every ghost not already
/// despawning starts its despawn animation with the given duration (the
/// field drops each one only when that animation has played out). Nothing
/// else of the player changes.
pub fn cancel_summon(player: &mut Player, ghosts: &mut Vec<GhostUnit>, despawn_duration: i64)
    requires
        old(player).wf(),
        0 < despawn_duration <= crate::config::TIME_LIMIT,
        forall|i: int| 0 <= i < old(ghosts)@.len() ==> (#[trigger] old(ghosts)@[i]).wf(),
    ensures
        final(player).wf(),
        *final(player) == (Player {
            available_ghosts: final(player).available_ghosts,
            ..*old(player)
        }),
        final(player).available_ghosts@ == old(player).available_ghosts@ + spec_ghost_kinds(
            old(ghosts)@,
        ),
        final(ghosts)@.len() == old(ghosts)@.len(),
        forall|i: int| 0 <= i < final(ghosts)@.len() ==> (#[trigger] final(ghosts)@[i]).wf(),
        forall|i: int|
            0 <= i < final(ghosts)@.len() ==> #[trigger] final(ghosts)@[i] == (
            if !old(ghosts)@[i].anim.is_despawning {
                GhostUnit {
                    anim: crate::models::EntityAnimState {
                        is_despawning: true,
                        despawn_timer: despawn_duration,
                        ..old(ghosts)@[i].anim
                    },
                    ..old(ghosts)@[i]
                }
            } else {
                old(ghosts)@[i]
            }),
{
    if ghosts.len() == 0 {
        proof {
            assert(player.available_ghosts@ + spec_ghost_kinds(old(ghosts)@)
                =~= player.available_ghosts@);
        }
        return ;
    }
    let n: usize = ghosts.len();
    let mut i: usize = 0;
    while i < n
        invariant
            0 <= i <= n,
            n == ghosts@.len(),
            old(player).wf(),
            ghosts@ == old(ghosts)@,
            forall|k: int| 0 <= k < n ==> (#[trigger] ghosts@[k]).wf(),
            *player == (Player { available_ghosts: player.available_ghosts, ..*old(player) }),
            player.available_ghosts@ == old(player).available_ghosts@ + spec_ghost_kinds(
                ghosts@.take(i as int),
            ),
        decreases n - i,
    {
        proof {
            assert(ghosts@.take(i + 1).drop_last() =~= ghosts@.take(i as int));
            assert(ghosts@.take(i + 1).last() == ghosts@[i as int]);
        }
        player.available_ghosts.push(ghosts[i].entity_type);
        i += 1;
    }
    proof {
        assert(ghosts@.take(n as int) =~= ghosts@);
    }
    let mut i: usize = 0;
    while i < n
        invariant
            0 <= i <= n,
            n == ghosts@.len() == old(ghosts)@.len(),
            0 < despawn_duration <= crate::config::TIME_LIMIT,
            forall|k: int| i <= k < n ==> ghosts@[k] == #[trigger] old(ghosts)@[k],
            forall|k: int| 0 <= k < n ==> (#[trigger] ghosts@[k]).wf(),
            forall|k: int|
                0 <= k < i ==> #[trigger] ghosts@[k] == (if !old(ghosts)@[k].anim.is_despawning {
                    GhostUnit {
                        anim: crate::models::EntityAnimState {
                            is_despawning: true,
                            despawn_timer: despawn_duration,
                            ..old(ghosts)@[k].anim
                        },
                        ..old(ghosts)@[k]
                    }
                } else {
                    old(ghosts)@[k]
                }),
        decreases n - i,
    {
        let g = vstd::std_specs::vec::vec_index_mut(ghosts, i);
        if !g.anim.is_despawning {
            g.anim.is_despawning = true;
            g.anim.despawn_timer = despawn_duration;
        }
        i += 1;
    }
}

/// The energy cost of summoning these kinds, summed.
pub open spec fn spec_cost_sum(kinds: Seq<EntityType>, config: crate::config::EntitiesConfig) -> int
    decreases kinds.len(),
{
    if kinds.len() == 0 {
        0int
    } else {
        spec_cost_sum(kinds.drop_last(), config) + kinds.last().spec_energy_cost(config)
    }
}

/// Deploy queued ghosts as a formation. The requested formation is used
/// only when valid for the queued count; otherwise the scattered fallback
/// deploys instead (the returned formation says which was used). Up to the
/// formation's optimal count of ghosts leave the front of the queue, each
/// summoned at its formation slot, and the summed energy cost is paid; a
/// short energy budget deploys nothing.
pub fn spawn_formation(
    player: &mut Player,
    ghosts: &mut Vec<GhostUnit>,
    formation: GhostFormation,
    config: &GameConfig,
    play_width: i64,
) -> (r: (usize, GhostFormation))
    requires
        old(player).wf(),
        config.wf(),
        old(ghosts)@.len() + 8 < 10_000,
        30_000 <= play_width <= POS_LIMIT,
        2 * config.formation_spacing.screen_edge_padding <= play_width,
        forall|i: int| 0 <= i < old(ghosts)@.len() ==> (#[trigger] old(ghosts)@[i]).wf(),
    ensures
        final(player).wf(),
        forall|i: int| 0 <= i < final(ghosts)@.len() ==> (#[trigger] final(ghosts)@[i]).wf(),
        r.1 == spec_deployed_formation(formation, old(player).available_ghosts@.len() as usize),
        r.0 == (if old(player).available_ghosts@.len() <= r.1.spec_optimal_ghost_count() {
            old(player).available_ghosts@.len() as int
        } else {
            r.1.spec_optimal_ghost_count() as int
        }) || r.0 == 0,
        old(player).energy < spec_cost_sum(
            old(player).available_ghosts@.take(r.0 as int),
            config.entities,
        ) ==> r.0 == 0,
        r.0 == 0 ==> *final(player) == *old(player) && final(ghosts)@ == old(ghosts)@,
        r.0 > 0 ==> ({
            let base = old(ghosts)@;
            let queue = old(player).available_ghosts@;
            let out = final(ghosts)@;
            &&& out.len() == base.len() + r.0
            &&& (forall|i: int| 0 <= i < base.len() ==> #[trigger] out[i] == base[i])
            &&& (forall|i: int|
                base.len() <= i < out.len() ==> (#[trigger] out[i]).entity_type == queue[i
                    - base.len()] && out[i].stats == queue[i - base.len()].spec_stats(
                    config.entities,
                ))
            &&& final(player).available_ghosts@ == queue.skip(r.0 as int)
            &&& final(player).energy == old(player).energy - spec_cost_sum(
                queue.take(r.0 as int),
                config.entities,
            )
            &&& *final(player) == (Player {
                available_ghosts: final(player).available_ghosts,
                energy: final(player).energy,
                ..*old(player)
            })
        }),
{
    let available_count: usize = player.available_ghosts.len();
    let use_formation: GhostFormation = deployed_formation(formation, available_count);
    let optimal: usize = use_formation.optimal_ghost_count();
    let spawn_count: usize = if available_count <= optimal {
        available_count
    } else {
        optimal
    };
    if spawn_count == 0 {
        return (0, use_formation);
    }
    let mut total_cost: i64 = 0;
    let mut i: usize = 0;
    while i < spawn_count
        invariant
            0 <= i <= spawn_count,
            spawn_count <= 8,
            spawn_count <= player.available_ghosts@.len(),
            *player == *old(player),
            config.wf(),
            total_cost == spec_cost_sum(
                player.available_ghosts@.take(i as int),
                config.entities,
            ),
            0 <= total_cost <= i * 1_000_000_000,
        decreases spawn_count - i,
    {
        proof {
            assert(player.available_ghosts@.take(i + 1).drop_last()
                =~= player.available_ghosts@.take(i as int));
            assert(player.available_ghosts@.take(i + 1).last()
                == player.available_ghosts@[i as int]);
            assert((i + 1) * 1_000_000_000 == i * 1_000_000_000 + 1_000_000_000)
                by (nonlinear_arith);
        }
        let kind = player.available_ghosts[i];
        total_cost = total_cost + kind.get_energy_cost(&config.entities);
        i += 1;
    }
    if player.energy < total_cost {
        return (0, use_formation);
    }
    let ghost old_avail = player.available_ghosts@;
    let ghost old_ghosts = ghosts@;
    proof {
        assert(use_formation is Scattered || spawn_count
            >= use_formation.spec_min_ghost_count());
    }
    let mut i: usize = 0;
    while i < spawn_count
        invariant
            0 <= i <= spawn_count,
            0 < spawn_count <= 8,
            config.wf(),
            old(player).wf(),
            30_000 <= play_width <= POS_LIMIT,
            2 * config.formation_spacing.screen_edge_padding <= play_width,
            spawn_count <= old_avail.len(),
            old_ghosts.len() + 8 < 10_000,
            use_formation is Scattered || spawn_count >= use_formation.spec_min_ghost_count(),
            ghosts@.len() == old_ghosts.len() + i,
            player.available_ghosts@ == old_avail.skip(i as int),
            *player == (Player { available_ghosts: player.available_ghosts, ..*old(player) }),
            pos_wf(player.pos),
            forall|k: int| 0 <= k < old_ghosts.len() ==> ghosts@[k] == #[trigger] old_ghosts[k],
            forall|k: int| 0 <= k < ghosts@.len() ==> (#[trigger] ghosts@[k]).wf(),
            forall|k: int|
                old_ghosts.len() <= k < ghosts@.len() ==> (#[trigger] ghosts@[k]).entity_type
                    == old_avail[k - old_ghosts.len()] && ghosts@[k].stats == old_avail[k
                    - old_ghosts.len()].spec_stats(config.entities),
        decreases spawn_count - i,
    {
        proof {
            assert(old_avail.skip(i as int)[0] == old_avail[i as int]);
            assert(old_avail.skip(i as int).remove(0) =~= old_avail.skip(i + 1));
        }
        let ghost_type: EntityType = player.available_ghosts[0];
        player.available_ghosts.remove(0);
        let slots: usize = ghosts.len() + (spawn_count - i);
        let spawn_pos = calculate_formation_position(
            player.pos,
            ghosts.len(),
            slots,
            use_formation,
            play_width,
            &config.formation_spacing,
        );
        let g = GhostUnit::from_entity_type(ghost_type, spawn_pos, config);
        ghosts.push(g);
        i += 1;
    }
    player.energy = player.energy - total_cost;
    proof {
        assert(*final(player) == (Player {
            available_ghosts: final(player).available_ghosts,
            energy: final(player).energy,
            ..*old(player)
        }));
    }
    (spawn_count, use_formation)
}

} // verus!
