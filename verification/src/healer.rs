//! The healing fields: healer enemies heal other enemies in range, healer
//! ghosts heal the player. Healing reads the tick's positions, then
//! applies, and never raises health past its ceiling.

use vstd::prelude::*;
use crate::geom::{Position, dist_sq};
use crate::models::{Enemy, GhostUnit, Player};
use crate::config::{HealerStats, DT_LIMIT};

verus! {

/// How many healers among `es` (the index `skip` excluded) stand within
/// healing range of `at`.
pub open spec fn spec_heal_count(es: Seq<Enemy>, at: Position, skip: int, radius: int) -> int
    decreases es.len(),
{
    if es.len() == 0 {
        0int
    } else {
        spec_heal_count(es.drop_last(), at, skip, radius) + (if es.len() - 1 != skip
            && es.last().entity_type is Healer && dist_sq(es.last().pos, at) <= radius * radius {
            1int
        } else {
            0int
        })
    }
}

/// Health after healing: raised by the tick's heal amount once per healer
/// in range, capped at the ceiling.
pub open spec fn spec_healed(health: int, max_health: int, count: int, amount: int) -> int {
    if health + count * amount > max_health {
        max_health
    } else {
        health + count * amount
    }
}

/// Count the healers within range of position `at`, skipping index `skip`.
fn count_healers_near(enemies: &Vec<Enemy>, at: Position, skip: usize, radius: i64) -> (c: usize)
    requires
        forall|i: int| 0 <= i < enemies@.len() ==> (#[trigger] enemies@[i]).wf(),
        crate::geom::pos_wf(at),
        0 <= radius <= crate::geom::POS_LIMIT,
    ensures
        c == spec_heal_count(enemies@, at, skip as int, radius as int),
        c <= enemies@.len(),
{
    proof {
        assert(0 <= radius * radius <= 100_000_000_000_000i64) by (nonlinear_arith)
            requires
                0 <= radius <= 10_000_000,
        ;
    }
    let rr: i64 = radius * radius;
    let mut c: usize = 0;
    let mut j: usize = 0;
    while j < enemies.len()
        invariant
            0 <= j <= enemies@.len(),
            forall|i: int| 0 <= i < enemies@.len() ==> (#[trigger] enemies@[i]).wf(),
            crate::geom::pos_wf(at),
            rr == radius * radius,
            0 <= radius <= crate::geom::POS_LIMIT,
            c == spec_heal_count(enemies@.take(j as int), at, skip as int, radius as int),
            c <= j,
        decreases enemies@.len() - j,
    {
        proof {
            assert(enemies@.take(j + 1).drop_last() =~= enemies@.take(j as int));
            assert(enemies@.take(j + 1).last() == enemies@[j as int]);
        }
        let is_healer: bool = match enemies[j].entity_type {
            crate::models::EntityType::Healer => true,
            _ => false,
        };
        if j != skip && is_healer && crate::geom::distance_sq(enemies[j].pos, at) <= rr {
            c = c + 1;
        }
        j += 1;
    }
    proof {
        assert(enemies@.take(enemies@.len() as int) =~= enemies@);
    }
    c
}

/// Apply healing from healer enemies to the other enemies in their range:
/// each enemy's health rises by the tick's heal amount once per healer in
/// range of it (itself excluded), and never past its ceiling. Positions
/// and everything else stay put.
pub fn update_healer_healing(enemies: &mut Vec<Enemy>, healer: &HealerStats, delta: i64)
    requires
        healer.wf(),
        0 <= delta <= DT_LIMIT,
        forall|i: int| 0 <= i < old(enemies)@.len() ==> (#[trigger] old(enemies)@[i]).wf(),
    ensures
        final(enemies)@.len() == old(enemies)@.len(),
        forall|i: int| 0 <= i < final(enemies)@.len() ==> (#[trigger] final(enemies)@[i]).wf(),
        forall|i: int|
            0 <= i < final(enemies)@.len() ==> #[trigger] final(enemies)@[i] == (Enemy {
                stats: crate::models::Stats {
                    health: spec_healed(
                        old(enemies)@[i].stats.health as int,
                        old(enemies)@[i].stats.max_health as int,
                        spec_heal_count(
                            old(enemies)@,
                            old(enemies)@[i].pos,
                            i,
                            healer.heal_radius as int,
                        ),
                        (healer.heal_rate * delta) / 1000,
                    ) as i64,
                    ..old(enemies)@[i].stats
                },
                ..old(enemies)@[i]
            }),
{
    proof {
        assert(0 <= healer.heal_rate * delta <= 1_000_000_000_000i64 && (healer.heal_rate * delta)
            / 1000 >= 0 && (healer.heal_rate * delta) / 1000 <= 1_000_000_000)
            by (nonlinear_arith)
            requires
                0 <= healer.heal_rate <= 1_000_000_000,
                0 <= delta <= 1000,
        ;
    }
    let amount: i64 = (healer.heal_rate * delta) / 1000;
    let n: usize = enemies.len();
    let mut counts: Vec<usize> = Vec::new();
    let mut i: usize = 0;
    while i < n
        invariant
            0 <= i <= n,
            n == enemies@.len(),
            healer.wf(),
            forall|k: int| 0 <= k < enemies@.len() ==> (#[trigger] enemies@[k]).wf(),
            counts@.len() == i,
            forall|k: int|
                0 <= k < i ==> #[trigger] counts@[k] == spec_heal_count(
                    enemies@,
                    enemies@[k].pos,
                    k,
                    healer.heal_radius as int,
                ) && counts@[k] <= enemies@.len(),
        decreases n - i,
    {
        let c = count_healers_near(enemies, enemies[i].pos, i, healer.heal_radius);
        counts.push(c);
        i += 1;
    }
    let ghost before = enemies@;
    let mut i: usize = 0;
    while i < n
        invariant
            0 <= i <= n,
            n == enemies@.len() == before.len() == counts@.len(),
            healer.wf(),
            amount == (healer.heal_rate * delta) / 1000,
            0 <= amount <= 1_000_000_000,
            forall|k: int| 0 <= k < before.len() ==> (#[trigger] before[k]).wf(),
            forall|k: int| i <= k < n ==> enemies@[k] == #[trigger] before[k],
            forall|k: int|
                0 <= k < n ==> #[trigger] counts@[k] == spec_heal_count(
                    before,
                    before[k].pos,
                    k,
                    healer.heal_radius as int,
                ) && counts@[k] <= before.len(),
            forall|k: int| 0 <= k < n ==> (#[trigger] enemies@[k]).wf(),
            forall|k: int|
                0 <= k < i ==> #[trigger] enemies@[k] == (Enemy {
                    stats: crate::models::Stats {
                        health: spec_healed(
                            before[k].stats.health as int,
                            before[k].stats.max_health as int,
                            spec_heal_count(before, before[k].pos, k, healer.heal_radius as int),
                            amount as int,
                        ) as i64,
                        ..before[k].stats
                    },
                    ..before[k]
                }),
        decreases n - i,
    {
        let c: usize = counts[i];
        proof {
            assert(0 <= (c as i128) * (amount as i128)
                <= 200_000_000_000_000_000_000_000_000_000int) by (nonlinear_arith)
                requires
                    0 <= c as i128 <= 100_000_000_000_000_000_000i128,
                    0 <= amount as i128 <= 1_000_000_000,
            ;
        }
        let add_wide: i128 = (c as i128) * (amount as i128);
        let e = vstd::std_specs::vec::vec_index_mut(enemies, i);
        if (e.stats.health as i128) + add_wide > e.stats.max_health as i128 {
            e.stats.health = e.stats.max_health;
        } else {
            e.stats.health = ((e.stats.health as i128) + add_wide) as i64;
        }
        i += 1;
    }
}

/// How many healer ghosts stand within healing range of `at`.
pub open spec fn spec_ghost_heal_count(gs: Seq<GhostUnit>, at: Position, radius: int) -> int
    decreases gs.len(),
{
    if gs.len() == 0 {
        0int
    } else {
        spec_ghost_heal_count(gs.drop_last(), at, radius) + (if gs.last().entity_type is Healer
            && dist_sq(gs.last().pos, at) <= radius * radius {
            1int
        } else {
            0int
        })
    }
}

/// Apply healing from healer ghosts to the player: health rises by the
/// tick's heal amount once per healer ghost in range, capped at the
/// player's ceiling; nothing else changes.
pub fn update_ghost_healer_healing(
    player: &mut Player,
    ghosts: &Vec<GhostUnit>,
    healer: &HealerStats,
    delta: i64,
)
    requires
        old(player).wf(),
        healer.wf(),
        0 <= delta <= DT_LIMIT,
        forall|i: int| 0 <= i < ghosts@.len() ==> (#[trigger] ghosts@[i]).wf(),
    ensures
        final(player).wf(),
        *final(player) == (Player {
            stats: crate::models::Stats {
                health: spec_healed(
                    old(player).stats.health as int,
                    old(player).stats.max_health as int,
                    spec_ghost_heal_count(ghosts@, old(player).pos, healer.heal_radius as int),
                    (healer.heal_rate * delta) / 1000,
                ) as i64,
                ..old(player).stats
            },
            ..*old(player)
        }),
{
    proof {
        assert(0 <= healer.heal_rate * delta <= 1_000_000_000_000i64 && (healer.heal_rate * delta)
            / 1000 >= 0 && (healer.heal_rate * delta) / 1000 <= 1_000_000_000)
            by (nonlinear_arith)
            requires
                0 <= healer.heal_rate <= 1_000_000_000,
                0 <= delta <= 1000,
        ;
        assert(0 <= healer.heal_radius * healer.heal_radius <= 100_000_000_000_000i64)
            by (nonlinear_arith)
            requires
                0 <= healer.heal_radius <= 10_000_000,
        ;
    }
    let amount: i64 = (healer.heal_rate * delta) / 1000;
    let rr: i64 = healer.heal_radius * healer.heal_radius;
    let mut c: usize = 0;
    let mut j: usize = 0;
    while j < ghosts.len()
        invariant
            0 <= j <= ghosts@.len(),
            old(player).wf(),
            healer.wf(),
            *player == *old(player),
            forall|i: int| 0 <= i < ghosts@.len() ==> (#[trigger] ghosts@[i]).wf(),
            rr == healer.heal_radius * healer.heal_radius,
            c == spec_ghost_heal_count(
                ghosts@.take(j as int),
                old(player).pos,
                healer.heal_radius as int,
            ),
            c <= j,
        decreases ghosts@.len() - j,
    {
        proof {
            assert(ghosts@.take(j + 1).drop_last() =~= ghosts@.take(j as int));
            assert(ghosts@.take(j + 1).last() == ghosts@[j as int]);
        }
        let is_healer: bool = match ghosts[j].entity_type {
            crate::models::EntityType::Healer => true,
            _ => false,
        };
        if is_healer && crate::geom::distance_sq(ghosts[j].pos, player.pos) <= rr {
            c = c + 1;
        }
        j += 1;
    }
    proof {
        assert(ghosts@.take(ghosts@.len() as int) =~= ghosts@);
    }
    proof {
        assert(0 <= (c as i128) * (amount as i128) <= 200_000_000_000_000_000_000_000_000_000int)
            by (nonlinear_arith)
            requires
                0 <= c as i128 <= 100_000_000_000_000_000_000i128,
                0 <= amount as i128 <= 1_000_000_000,
        ;
    }
    let add_wide: i128 = (c as i128) * (amount as i128);
    if (player.stats.health as i128) + add_wide > player.stats.max_health as i128 {
        player.stats.health = player.stats.max_health;
    } else {
        player.stats.health = ((player.stats.health as i128) + add_wide) as i64;
    }
}

} // verus!
