//! The entity lifecycle: defeated enemies leave the field and join the
//! player's queue of summonable ghosts, splitters leave their brood
//! behind, and dead ghosts despawn through their animation rather than
//! vanishing.

use vstd::prelude::*;
use crate::models::{Enemy, GhostUnit, EntityType, Particle, Player, EntityAnimState};
use crate::config::GameConfig;
use crate::shake::ScreenShake;
use crate::splitter::{spec_splits_ok, spec_ghost_splits_ok};

verus! {

/// Whether two enemy records agree on everything the splitting rule and
/// the capture mechanic read (the weapon loadout compared by contents).
pub open spec fn enemies_alike(a: Enemy, b: Enemy) -> bool {
    &&& a.pos == b.pos
    &&& a.stats == b.stats
    &&& a.weapon@ == b.weapon@
    &&& a.entity_type == b.entity_type
}

/// The survivors among these enemies, in order.
pub open spec fn spec_live_enemies(es: Seq<Enemy>) -> Seq<Enemy>
    decreases es.len(),
{
    if es.len() == 0 {
        Seq::empty()
    } else {
        let rest = spec_live_enemies(es.drop_last());
        if es.last().stats.health > 0 {
            rest.push(es.last())
        } else {
            rest
        }
    }
}

/// The dead splitters among these enemies, in order.
pub open spec fn spec_dead_splitters(es: Seq<Enemy>) -> Seq<Enemy>
    decreases es.len(),
{
    if es.len() == 0 {
        Seq::empty()
    } else {
        let rest = spec_dead_splitters(es.drop_last());
        if es.last().stats.health <= 0 && es.last().entity_type is Splitter {
            rest.push(es.last())
        } else {
            rest
        }
    }
}

/// Whether two ghost records agree on everything the splitting rule
/// reads (the loadout compared by contents).
pub open spec fn ghosts_alike(a: GhostUnit, b: GhostUnit) -> bool {
    &&& a.pos == b.pos
    &&& a.stats == b.stats
    &&& a.weapon_type@ == b.weapon_type@
    &&& a.entity_type == b.entity_type
    &&& a.energy_drain_per_sec == b.energy_drain_per_sec
}

/// The newly dead splitter ghosts among these, in order: dead, of the
/// splitter kind, and not already despawning — a ghost in its despawn
/// animation contributes no brood, which is what stops re-entrant
/// splitting.
pub open spec fn spec_dead_ghost_splitters(gs: Seq<GhostUnit>) -> Seq<GhostUnit>
    decreases gs.len(),
{
    if gs.len() == 0 {
        Seq::empty()
    } else {
        let rest = spec_dead_ghost_splitters(gs.drop_last());
        if gs.last().stats.health <= 0 && !gs.last().anim.is_despawning
            && gs.last().entity_type is Splitter {
            rest.push(gs.last())
        } else {
            rest
        }
    }
}

/// The kinds of the dead among these enemies, in order: what the capture
/// mechanic pushes onto the player's queue.
pub open spec fn spec_dead_kinds(es: Seq<Enemy>) -> Seq<EntityType>
    decreases es.len(),
{
    if es.len() == 0 {
        Seq::empty()
    } else {
        let rest = spec_dead_kinds(es.drop_last());
        if es.last().stats.health <= 0 {
            rest.push(es.last().entity_type)
        } else {
            rest
        }
    }
}

/// Copy an enemy record (the loadout copied by contents).
fn copy_enemy(e: &Enemy) -> (r: Enemy)
    requires
        e.wf(),
    ensures
        enemies_alike(r, *e),
        r.wf(),
        r.entity_type == e.entity_type,
{
    let mut ws: Vec<crate::models::WeaponType> = Vec::new();
    let mut i: usize = 0;
    while i < e.weapon.len()
        invariant
            0 <= i <= e.weapon@.len(),
            ws@ == e.weapon@.take(i as int),
        decreases e.weapon@.len() - i,
    {
        ws.push(e.weapon[i]);
        proof {
            assert(e.weapon@.take(i + 1) =~= e.weapon@.take(i as int).push(e.weapon@[i as int]));
        }
        i += 1;
    }
    proof {
        assert(e.weapon@.take(e.weapon@.len() as int) =~= e.weapon@);
    }
    Enemy {
        pos: e.pos,
        stats: e.stats,
        weapon: ws,
        entity_type: e.entity_type,
        anim: e.anim,
        movement_state: e.movement_state,
        fire_timer: e.fire_timer,
    }
}

/// Clean up after this tick's deaths.
///
/// Every defeated enemy leaves the field, its kind joins the back of the
/// player's summonable-ghost queue in order, and its death burst and
/// screen shake fire. Each defeated splitter's brood (exactly the
/// configured count of plain fighters, by the splitting rule) then joins
/// the field after the survivors. Defeated ghosts are not removed: each
/// newly dead ghost starts its despawn animation instead, and each dead
/// splitter ghost that was not already despawning leaves its brood of
/// plain-fighter ghosts — despawning ghosts cannot split again, which is
/// what stops re-entrant splitting.
pub fn cleanup_dead_entities(
    player: &mut Player,
    enemies: &mut Vec<Enemy>,
    ghosts: &mut Vec<GhostUnit>,
    particles: &mut Vec<Particle>,
    shake: &mut ScreenShake,
    config: &GameConfig,
)
    requires
        old(player).wf(),
        config.wf(),
        old(shake).wf(),
        config.particles.death_red_count + config.particles.death_orange_count
            + config.particles.death_yellow_count <= 10_000,
        config.entities.splitter.split_count <= 100,
        forall|i: int| 0 <= i < old(enemies)@.len() ==> (#[trigger] old(enemies)@[i]).wf(),
        forall|i: int| 0 <= i < old(ghosts)@.len() ==> (#[trigger] old(ghosts)@[i]).wf(),
        forall|i: int| 0 <= i < old(particles)@.len() ==> (#[trigger] old(particles)@[i]).wf(),
    ensures
        final(player).wf(),
        final(shake).wf(),
        *final(player) == (Player {
            available_ghosts: final(player).available_ghosts,
            ..*old(player)
        }),
        final(player).available_ghosts@ == old(player).available_ghosts@ + spec_dead_kinds(
            old(enemies)@,
        ),
        forall|i: int| 0 <= i < final(enemies)@.len() ==> (#[trigger] final(enemies)@[i]).wf(),
        forall|i: int| 0 <= i < final(ghosts)@.len() ==> (#[trigger] final(ghosts)@[i]).wf(),
        forall|i: int| 0 <= i < final(particles)@.len() ==> (#[trigger] final(particles)@[i]).wf(),
        exists|dead: Seq<Enemy>, brood: Seq<Enemy>|
            {
                &&& dead.len() == spec_dead_splitters(old(enemies)@).len()
                &&& (forall|k: int|
                    0 <= k < dead.len() ==> enemies_alike(
                        #[trigger] dead[k],
                        spec_dead_splitters(old(enemies)@)[k],
                    ))
                &&& spec_splits_ok(dead, brood, config.entities.splitter)
                &&& final(enemies)@ == spec_live_enemies(old(enemies)@) + brood
            },
        final(ghosts)@.len() >= old(ghosts)@.len(),
        forall|i: int|
            0 <= i < old(ghosts)@.len() ==> #[trigger] final(ghosts)@[i] == (
            if old(ghosts)@[i].stats.health <= 0 && !old(ghosts)@[i].anim.is_despawning {
                GhostUnit {
                    anim: EntityAnimState {
                        is_despawning: true,
                        despawn_timer: config.animations.ghost_despawn_duration,
                        ..old(ghosts)@[i].anim
                    },
                    ..old(ghosts)@[i]
                }
            } else {
                old(ghosts)@[i]
            }),
        forall|i: int|
            old(ghosts)@.len() <= i < final(ghosts)@.len()
                ==> (#[trigger] final(ghosts)@[i]).entity_type is BasicFighter,
        exists|gdead: Seq<GhostUnit>, gbrood: Seq<GhostUnit>|
            {
                &&& gdead.len() == spec_dead_ghost_splitters(old(ghosts)@).len()
                &&& (forall|k: int|
                    0 <= k < gdead.len() ==> ghosts_alike(
                        #[trigger] gdead[k],
                        spec_dead_ghost_splitters(old(ghosts)@)[k],
                    ))
                &&& spec_ghost_splits_ok(gdead, gbrood, config.entities.splitter)
                &&& final(ghosts)@.len() == old(ghosts)@.len() + gbrood.len()
                &&& (forall|i: int|
                    old(ghosts)@.len() <= i < final(ghosts)@.len()
                        ==> #[trigger] final(ghosts)@[i] == gbrood[i - old(ghosts)@.len()])
            },
{
    // Collect the dead splitters before any removal, as parents of the brood.
    let mut dead_splitters: Vec<Enemy> = Vec::new();
    let n: usize = enemies.len();
    let mut i: usize = 0;
    while i < n
        invariant
            0 <= i <= n,
            n == enemies@.len(),
            forall|k: int| 0 <= k < n ==> (#[trigger] enemies@[k]).wf(),
            dead_splitters@.len() == spec_dead_splitters(enemies@.take(i as int)).len(),
            forall|k: int|
                0 <= k < dead_splitters@.len() ==> enemies_alike(
                    #[trigger] dead_splitters@[k],
                    spec_dead_splitters(enemies@.take(i as int))[k],
                ),
            forall|k: int| 0 <= k < dead_splitters@.len() ==> (#[trigger] dead_splitters@[k]).wf(),
            forall|k: int|
                0 <= k < dead_splitters@.len() ==> (#[trigger] dead_splitters@[k]).entity_type is Splitter,
        decreases n - i,
    {
        proof {
            assert(enemies@.take(i + 1).drop_last() =~= enemies@.take(i as int));
            assert(enemies@.take(i + 1).last() == enemies@[i as int]);
        }
        let is_dead_splitter: bool = enemies[i].stats.health <= 0 && match enemies[i].entity_type {
            EntityType::Splitter => true,
            _ => false,
        };
        if is_dead_splitter {
            let c = copy_enemy(&enemies[i]);
            dead_splitters.push(c);
        }
        i += 1;
    }
    proof {
        assert(enemies@.take(n as int) =~= enemies@);
    }
    // Remove the dead, queueing their kinds and marking their deaths.
    let ghost before = enemies@;
    let total: usize = enemies.len();
    let mut rev: Vec<Enemy> = Vec::new();
    while enemies.len() > 0
        invariant
            enemies@.len() + rev@.len() == before.len(),
            enemies@ == before.take(enemies@.len() as int),
            forall|j: int| 0 <= j < rev@.len() ==> #[trigger] rev@[j] == before[before.len() - 1 - j],
            forall|k: int| 0 <= k < before.len() ==> (#[trigger] before[k]).wf(),
        decreases enemies@.len(),
    {
        proof {
            assert(enemies@.last() == before[enemies@.len() - 1]);
            assert(enemies@.take(enemies@.len() as int).drop_last() =~= before.take(
                enemies@.len() - 1,
            ));
        }
        let e = enemies.pop().unwrap();
        rev.push(e);
    }
    let mut deaths: Vec<crate::geom::Position> = Vec::new();
    let mut i: usize = 0;
    while rev.len() > 0
        invariant
            i + rev@.len() == total,
            total == before.len(),
            old(player).wf(),
            forall|j: int| 0 <= j < rev@.len() ==> #[trigger] rev@[j] == before[before.len() - 1 - j],
            enemies@ == spec_live_enemies(before.take(i as int)),
            player.available_ghosts@ == old(player).available_ghosts@ + spec_dead_kinds(
                before.take(i as int),
            ),
            *player == (Player { available_ghosts: player.available_ghosts, ..*old(player) }),
            forall|k: int| 0 <= k < before.len() ==> (#[trigger] before[k]).wf(),
            forall|k: int| 0 <= k < enemies@.len() ==> (#[trigger] enemies@[k]).wf(),
            forall|k: int| 0 <= k < deaths@.len() ==> crate::geom::pos_wf(#[trigger] deaths@[k]),
            enemies@.len() <= i,
        decreases rev@.len(),
    {
        proof {
            assert(rev@.last() == before[i as int]);
            assert(before.take(i + 1).drop_last() =~= before.take(i as int));
            assert(before.take(i + 1).last() == before[i as int]);
        }
        let e = rev.pop().unwrap();
        if e.stats.health <= 0 {
            player.available_ghosts.push(e.entity_type);
            deaths.push(e.pos);
        } else {
            enemies.push(e);
        }
        i += 1;
    }
    proof {
        assert(before.take(before.len() as int) =~= before);
    }
    // Death feedback: shake and a burst per defeated enemy.
    let mut d: usize = 0;
    while d < deaths.len()
        invariant
            0 <= d <= deaths@.len(),
            config.wf(),
            config.particles.death_red_count + config.particles.death_orange_count
                + config.particles.death_yellow_count <= 10_000,
            forall|k: int| 0 <= k < deaths@.len() ==> crate::geom::pos_wf(#[trigger] deaths@[k]),
            forall|k: int| 0 <= k < particles@.len() ==> (#[trigger] particles@[k]).wf(),
            shake.wf(),
        decreases deaths@.len() - d,
    {
        crate::shake::shake_on_enemy_death(shake, &config.screen_shake);
        crate::particles::spawn_death_explosion(particles, deaths[d], &config.particles);
        d += 1;
    }
    // The brood joins the field after the survivors.
    let mut brood = crate::splitter::handle_enemy_splits(&dead_splitters, config);
    let ghost survivors = enemies@;
    let ghost brood_view = brood@;
    enemies.append(&mut brood);
    proof {
        assert(enemies@ == survivors + brood_view);
    }
    let mut d: usize = 0;
    while d < dead_splitters.len()
        invariant
            0 <= d <= dead_splitters@.len(),
            config.wf(),
            config.particles.death_red_count + config.particles.death_orange_count
                + config.particles.death_yellow_count <= 10_000,
            config.entities.splitter.split_count <= 100,
            forall|k: int| 0 <= k < dead_splitters@.len() ==> (#[trigger] dead_splitters@[k]).wf(),
            forall|k: int| 0 <= k < particles@.len() ==> (#[trigger] particles@[k]).wf(),
        decreases dead_splitters@.len() - d,
    {
        crate::particles::spawn_split_particles(
            particles,
            dead_splitters[d].pos,
            config.entities.splitter.split_count,
            false,
            &config.particles,
        );
        d += 1;
    }
    // Ghosts: collect the newly dead splitter ghosts, then start despawns.
    let mut dead_ghost_splitters: Vec<GhostUnit> = Vec::new();
    let gn: usize = ghosts.len();
    let mut i: usize = 0;
    while i < gn
        invariant
            0 <= i <= gn,
            gn == ghosts@.len(),
            ghosts@ == old(ghosts)@,
            forall|k: int| 0 <= k < gn ==> (#[trigger] ghosts@[k]).wf(),
            dead_ghost_splitters@.len() == spec_dead_ghost_splitters(ghosts@.take(i as int)).len(),
            forall|k: int|
                0 <= k < dead_ghost_splitters@.len() ==> ghosts_alike(
                    #[trigger] dead_ghost_splitters@[k],
                    spec_dead_ghost_splitters(ghosts@.take(i as int))[k],
                ),
            forall|k: int|
                0 <= k < dead_ghost_splitters@.len() ==> (#[trigger] dead_ghost_splitters@[k]).wf(),
            forall|k: int|
                0 <= k < dead_ghost_splitters@.len() ==> (#[trigger] dead_ghost_splitters@[k]).entity_type is Splitter,
        decreases gn - i,
    {
        proof {
            assert(ghosts@.take(i + 1).drop_last() =~= ghosts@.take(i as int));
            assert(ghosts@.take(i + 1).last() == ghosts@[i as int]);
        }
        let is_dead_splitter: bool = ghosts[i].stats.health <= 0 && !ghosts[i].anim.is_despawning
            && match ghosts[i].entity_type {
            EntityType::Splitter => true,
            _ => false,
        };
        if is_dead_splitter {
            let g = copy_ghost(&ghosts[i]);
            dead_ghost_splitters.push(g);
        }
        i += 1;
    }
    proof {
        assert(ghosts@.take(gn as int) =~= ghosts@);
    }
    let mut i: usize = 0;
    while i < gn
        invariant
            0 <= i <= gn,
            gn == ghosts@.len() == old(ghosts)@.len(),
            config.wf(),
            forall|k: int| i <= k < gn ==> ghosts@[k] == #[trigger] old(ghosts)@[k],
            forall|k: int| 0 <= k < gn ==> (#[trigger] ghosts@[k]).wf(),
            forall|k: int|
                0 <= k < i ==> #[trigger] ghosts@[k] == (if old(ghosts)@[k].stats.health <= 0
                    && !old(ghosts)@[k].anim.is_despawning {
                    GhostUnit {
                        anim: EntityAnimState {
                            is_despawning: true,
                            despawn_timer: config.animations.ghost_despawn_duration,
                            ..old(ghosts)@[k].anim
                        },
                        ..old(ghosts)@[k]
                    }
                } else {
                    old(ghosts)@[k]
                }),
        decreases gn - i,
    {
        let g = vstd::std_specs::vec::vec_index_mut(ghosts, i);
        if g.stats.health <= 0 && !g.anim.is_despawning {
            g.anim.is_despawning = true;
            g.anim.despawn_timer = config.animations.ghost_despawn_duration;
        }
        i += 1;
    }
    let mut ghost_brood = crate::splitter::handle_ghost_splits(&dead_ghost_splitters, config);
    let ghost gprev = ghosts@;
    let ghost gbrood = ghost_brood@;
    ghosts.append(&mut ghost_brood);
    proof {
        assert(ghosts@ == gprev + gbrood);
        assert(spec_ghost_splits_ok(dead_ghost_splitters@, gbrood, config.entities.splitter));
        assert forall|i: int| old(ghosts)@.len() <= i < ghosts@.len() implies #[trigger] ghosts@[i]
            == gbrood[i - old(ghosts)@.len()] by {
            assert(ghosts@[i] == (gprev + gbrood)[i]);
        }
    }
    let mut d: usize = 0;
    while d < dead_ghost_splitters.len()
        invariant
            0 <= d <= dead_ghost_splitters@.len(),
            config.wf(),
            config.particles.death_red_count + config.particles.death_orange_count
                + config.particles.death_yellow_count <= 10_000,
            config.entities.splitter.split_count <= 100,
            forall|k: int|
                0 <= k < dead_ghost_splitters@.len() ==> (#[trigger] dead_ghost_splitters@[k]).wf(),
            forall|k: int| 0 <= k < particles@.len() ==> (#[trigger] particles@[k]).wf(),
        decreases dead_ghost_splitters@.len() - d,
    {
        crate::particles::spawn_split_particles(
            particles,
            dead_ghost_splitters[d].pos,
            config.entities.splitter.split_count,
            true,
            &config.particles,
        );
        d += 1;
    }
    proof {
        assert(spec_splits_ok(dead_splitters@, brood_view, config.entities.splitter));
    }
}

/// Copy a ghost record (the loadout copied by contents).
fn copy_ghost(g: &GhostUnit) -> (r: GhostUnit)
    requires
        g.wf(),
    ensures
        r.pos == g.pos,
        r.stats == g.stats,
        r.weapon_type@ == g.weapon_type@,
        r.entity_type == g.entity_type,
        r.energy_drain_per_sec == g.energy_drain_per_sec,
        r.wf(),
{
    let mut ws: Vec<crate::models::WeaponType> = Vec::new();
    let mut i: usize = 0;
    while i < g.weapon_type.len()
        invariant
            0 <= i <= g.weapon_type@.len(),
            ws@ == g.weapon_type@.take(i as int),
        decreases g.weapon_type@.len() - i,
    {
        ws.push(g.weapon_type[i]);
        proof {
            assert(g.weapon_type@.take(i + 1) =~= g.weapon_type@.take(i as int).push(
                g.weapon_type@[i as int],
            ));
        }
        i += 1;
    }
    proof {
        assert(g.weapon_type@.take(g.weapon_type@.len() as int) =~= g.weapon_type@);
    }
    GhostUnit {
        pos: g.pos,
        stats: g.stats,
        weapon_type: ws,
        entity_type: g.entity_type,
        energy_drain_per_sec: g.energy_drain_per_sec,
        anim: g.anim,
        fire_timer: g.fire_timer,
    }
}

} // verus!
