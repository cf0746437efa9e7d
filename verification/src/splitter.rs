//! The splitting rule: a defeated splitter leaves behind a fixed number of
//! weaker children arranged in a horizontal line on its death position.
//! Children are always of the plain fighter kind, so a split can never
//! recurse.

use vstd::prelude::*;
use crate::geom::{Position, clamp_int, POS_LIMIT};
use crate::models::{Enemy, GhostUnit, EntityType, Stats, EntityAnimState, EnemyMovementState, WeaponType};
use crate::config::{GameConfig, SplitterStats};

verus! {

/// Horizontal distance between split children, in thousandths of a pixel.
pub const SPLIT_SPACING: i64 = 40_000;

/// The horizontal offset of split child `i` of `count`, centring the line
/// of children on the death position.
pub open spec fn spec_split_offset(i: int, count: int) -> int {
    (2 * i - (count - 1)) * (SPLIT_SPACING as int / 2)
}

/// A child's health: the parent's maximum scaled by the configured ratio
/// (thousandths, rounded down).
pub open spec fn spec_split_health(parent_max: int, ratio: int) -> int {
    (parent_max * ratio) / 1000
}

/// Whether `c` is split child number `i` of the defeated splitter enemy
/// `e`: a plain fighter on the offset position, carrying the parent's
/// weapons and damage and the scaled health, at rest.
pub open spec fn is_enemy_child_of(c: Enemy, e: Enemy, i: int, cfg: SplitterStats) -> bool {
    let hp = spec_split_health(e.stats.max_health as int, cfg.split_health_ratio as int);
    &&& c.pos.x == clamp_int(
        e.pos.x + spec_split_offset(i, cfg.split_count as int),
        -POS_LIMIT as int,
        POS_LIMIT as int,
    )
    &&& c.pos.y == e.pos.y
    &&& c.stats == Stats { health: hp as i64, max_health: hp as i64, damage: e.stats.damage }
    &&& c.weapon@ == e.weapon@
    &&& c.entity_type is BasicFighter
    &&& c.anim == EntityAnimState {
        spawn_timer: 0i64,
        despawn_timer: 0i64,
        is_spawning: false,
        is_despawning: false,
        scale: 1_000i64,
        rotation: 0i64,
        alpha: 1_000i64,
        hit_flash_timer: 0i64,
    }
    &&& c.movement_state is FreeMovement
    &&& c.fire_timer == 0
}

/// How many of these enemies are splitters.
pub open spec fn spec_num_splitters(dead: Seq<Enemy>) -> int
    decreases dead.len(),
{
    if dead.len() == 0 {
        0int
    } else {
        spec_num_splitters(dead.drop_last()) + (if dead.last().entity_type is Splitter {
            1int
        } else {
            0int
        })
    }
}

/// Whether `out` is exactly the brood of `dead`, in order: each defeated
/// splitter contributes its `split_count` children in line order, and
/// nothing else is contributed.
pub open spec fn spec_splits_ok(dead: Seq<Enemy>, out: Seq<Enemy>, cfg: SplitterStats) -> bool
    decreases dead.len(),
{
    if dead.len() == 0 {
        out.len() == 0
    } else {
        let parent = dead.last();
        if parent.entity_type is Splitter {
            &&& out.len() >= cfg.split_count
            &&& spec_splits_ok(dead.drop_last(), out.take(out.len() - cfg.split_count), cfg)
            &&& forall|i: int|
                0 <= i < cfg.split_count ==> is_enemy_child_of(
                    #[trigger] out[out.len() - cfg.split_count + i],
                    parent,
                    i,
                    cfg,
                )
        } else {
            spec_splits_ok(dead.drop_last(), out, cfg)
        }
    }
}

/// The ghost counterpart of `spec_splits_ok`.
pub open spec fn spec_ghost_splits_ok(dead: Seq<GhostUnit>, out: Seq<GhostUnit>, cfg: SplitterStats) -> bool
    decreases dead.len(),
{
    if dead.len() == 0 {
        out.len() == 0
    } else {
        let parent = dead.last();
        if parent.entity_type is Splitter {
            &&& out.len() >= cfg.split_count
            &&& spec_ghost_splits_ok(dead.drop_last(), out.take(out.len() - cfg.split_count), cfg)
            &&& forall|i: int|
                0 <= i < cfg.split_count ==> is_ghost_child_of(
                    #[trigger] out[out.len() - cfg.split_count + i],
                    parent,
                    i,
                    cfg,
                )
        } else {
            spec_ghost_splits_ok(dead.drop_last(), out, cfg)
        }
    }
}

/// Copy a weapon loadout.
fn copy_weapons(ws: &Vec<WeaponType>) -> (r: Vec<WeaponType>)
    ensures
        r@ == ws@,
{
    let mut r: Vec<WeaponType> = Vec::new();
    let mut i: usize = 0;
    while i < ws.len()
        invariant
            0 <= i <= ws@.len(),
            r@ == ws@.take(i as int),
        decreases ws@.len() - i,
    {
        r.push(ws[i]);
        proof {
            assert(ws@.take(i + 1) =~= ws@.take(i as int).push(ws@[i as int]));
        }
        i += 1;
    }
    proof {
        assert(ws@.take(ws@.len() as int) =~= ws@);
    }
    r
}

/// Build the split children of one defeated splitter enemy: exactly
/// `split_count` of them, child `i` standing at offset `i` of the line.
pub fn build_enemy_children(e: &Enemy, cfg: &SplitterStats) -> (r: Vec<Enemy>)
    requires
        e.wf(),
        e.entity_type is Splitter,
        cfg.wf(),
    ensures
        r@.len() == cfg.split_count,
        forall|i: int| 0 <= i < r@.len() ==> is_enemy_child_of(#[trigger] r@[i], *e, i, *cfg),
        forall|i: int| 0 <= i < r@.len() ==> (#[trigger] r@[i]).wf(),
        forall|i: int| 0 <= i < r@.len() ==> (#[trigger] r@[i]).entity_type is BasicFighter,
{
    let count: usize = cfg.split_count;
    proof {
        assert(0 <= e.stats.max_health * cfg.split_health_ratio <= e.stats.max_health * 1000 && (
        e.stats.max_health * cfg.split_health_ratio) / 1000 <= e.stats.max_health)
            by (nonlinear_arith)
            requires
                0 <= e.stats.max_health,
                0 <= cfg.split_health_ratio <= 1000,
        ;
    }
    let hp: i64 = (e.stats.max_health * cfg.split_health_ratio) / 1000;
    let mut r: Vec<Enemy> = Vec::new();
    let mut i: usize = 0;
    while i < count
        invariant
            0 <= i <= count,
            count == cfg.split_count,
            0 < count <= 100,
            e.wf(),
            e.entity_type is Splitter,
            cfg.wf(),
            hp == spec_split_health(e.stats.max_health as int, cfg.split_health_ratio as int),
            0 <= hp <= e.stats.max_health,
            r@.len() == i,
            forall|j: int| 0 <= j < i ==> is_enemy_child_of(#[trigger] r@[j], *e, j, *cfg),
            forall|j: int| 0 <= j < i ==> (#[trigger] r@[j]).wf(),
            forall|j: int| 0 <= j < i ==> (#[trigger] r@[j]).entity_type is BasicFighter,
        decreases count - i,
    {
        proof {
            assert(-4_000_000 <= (2 * (i as int) - (count as int - 1)) * 20_000 <= 4_000_000)
                by (nonlinear_arith)
                requires
                    0 <= i < count <= 100,
            ;
        }
        let x_offset: i64 = (2 * (i as i64) - ((count as i64) - 1)) * (SPLIT_SPACING / 2);
        let child = Enemy {
            pos: Position {
                x: crate::geom::clamp_i64(e.pos.x + x_offset, -POS_LIMIT, POS_LIMIT),
                y: e.pos.y,
            },
            stats: Stats { health: hp, max_health: hp, damage: e.stats.damage },
            weapon: copy_weapons(&e.weapon),
            entity_type: EntityType::BasicFighter,
            anim: EntityAnimState {
                spawn_timer: 0,
                despawn_timer: 0,
                is_spawning: false,
                is_despawning: false,
                scale: 1_000,
                rotation: 0,
                alpha: 1_000,
                hit_flash_timer: 0,
            },
            movement_state: EnemyMovementState::FreeMovement,
            fire_timer: 0,
        };
        r.push(child);
        i += 1;
    }
    r
}

/// Compute the split children of the defeated enemies handed in: each
/// defeated splitter contributes exactly `split_count` children, every one
/// a plain fighter derived from its parent by the splitting rule; defeated
/// enemies of other kinds contribute nothing.
pub fn handle_enemy_splits(dead_enemies: &Vec<Enemy>, config: &GameConfig) -> (r: Vec<Enemy>)
    requires
        config.wf(),
        forall|i: int| 0 <= i < dead_enemies@.len() ==> (#[trigger] dead_enemies@[i]).wf(),
    ensures
        r@.len() == spec_num_splitters(dead_enemies@) * config.entities.splitter.split_count,
        forall|k: int| 0 <= k < r@.len() ==> (#[trigger] r@[k]).wf(),
        forall|k: int| 0 <= k < r@.len() ==> (#[trigger] r@[k]).entity_type is BasicFighter,
        spec_splits_ok(dead_enemies@, r@, config.entities.splitter),
{
    let ghost cfg = config.entities.splitter;
    let mut r: Vec<Enemy> = Vec::new();
    let mut k: usize = 0;
    while k < dead_enemies.len()
        invariant
            0 <= k <= dead_enemies@.len(),
            config.wf(),
            cfg == config.entities.splitter,
            forall|i: int| 0 <= i < dead_enemies@.len() ==> (#[trigger] dead_enemies@[i]).wf(),
            r@.len() == spec_num_splitters(dead_enemies@.take(k as int)) * cfg.split_count,
            0 <= spec_num_splitters(dead_enemies@.take(k as int)) <= k,
            forall|j: int| 0 <= j < r@.len() ==> (#[trigger] r@[j]).wf(),
            forall|j: int| 0 <= j < r@.len() ==> (#[trigger] r@[j]).entity_type is BasicFighter,
            spec_splits_ok(dead_enemies@.take(k as int), r@, cfg),
        decreases dead_enemies@.len() - k,
    {
        proof {
            assert(dead_enemies@.take(k + 1).drop_last() =~= dead_enemies@.take(k as int));
            assert(dead_enemies@.take(k + 1).last() == dead_enemies@[k as int]);
        }
        let is_splitter: bool = match dead_enemies[k].entity_type {
            EntityType::Splitter => true,
            _ => false,
        };
        if is_splitter {
            let mut children = build_enemy_children(&dead_enemies[k], &config.entities.splitter);
            let ghost prev = r@;
            let ghost built = children@;
            let ghost prev_n = spec_num_splitters(dead_enemies@.take(k as int));
            r.append(&mut children);
            proof {
                assert(r@ == prev + built);
                assert(spec_num_splitters(dead_enemies@.take(k + 1)) == prev_n + 1);
                assert((prev_n + 1) * cfg.split_count == prev_n * cfg.split_count
                    + cfg.split_count) by (nonlinear_arith);
                assert(r@.take(r@.len() - cfg.split_count) =~= prev);
                assert forall|i: int| 0 <= i < cfg.split_count implies is_enemy_child_of(
                    #[trigger] r@[r@.len() - cfg.split_count + i],
                    dead_enemies@.take(k + 1).last(),
                    i,
                    cfg,
                ) by {
                    assert(r@[r@.len() - cfg.split_count + i] == built[i]);
                }
                assert(spec_splits_ok(dead_enemies@.take(k + 1), r@, cfg));
            }
        } else {
            proof {
                assert(spec_num_splitters(dead_enemies@.take(k + 1)) == spec_num_splitters(
                    dead_enemies@.take(k as int),
                ));
                assert(spec_splits_ok(dead_enemies@.take(k + 1), r@, cfg));
            }
        }
        k += 1;
    }
    proof {
        assert(dead_enemies@.take(dead_enemies@.len() as int) =~= dead_enemies@);
    }
    r
}

/// No child of a split can itself split: a list of defeated enemies none of
/// which is a splitter contributes no children at all, so killing the
/// children of a splitter immediately can never trigger another split.
pub proof fn lemma_split_children_never_split(dead: Seq<Enemy>, cfg: SplitterStats)
    requires
        forall|i: int| 0 <= i < dead.len() ==> !((#[trigger] dead[i]).entity_type is Splitter),
    ensures
        spec_num_splitters(dead) == 0,
    decreases dead.len(),
{
    if dead.len() == 0 {
    } else {
        assert(!(dead[dead.len() - 1].entity_type is Splitter));
        lemma_split_children_never_split(dead.drop_last(), cfg);
    }
}

/// Whether `c` is split child number `i` of the defeated splitter ghost
/// `g`, mirroring the enemy rule; ghost children keep the parent's energy
/// drain and enter with a short spawn animation.
pub open spec fn is_ghost_child_of(c: GhostUnit, g: GhostUnit, i: int, cfg: SplitterStats) -> bool {
    let hp = spec_split_health(g.stats.max_health as int, cfg.split_health_ratio as int);
    &&& c.pos.x == clamp_int(
        g.pos.x + spec_split_offset(i, cfg.split_count as int),
        -POS_LIMIT as int,
        POS_LIMIT as int,
    )
    &&& c.pos.y == g.pos.y
    &&& c.stats == Stats { health: hp as i64, max_health: hp as i64, damage: g.stats.damage }
    &&& c.weapon_type@ == g.weapon_type@
    &&& c.entity_type is BasicFighter
    &&& c.energy_drain_per_sec == g.energy_drain_per_sec
    &&& c.anim == EntityAnimState {
        spawn_timer: 400i64,
        despawn_timer: 0i64,
        is_spawning: true,
        is_despawning: false,
        scale: 300i64,
        rotation: 0i64,
        alpha: 0i64,
        hit_flash_timer: 0i64,
    }
    &&& c.fire_timer == 0
}

/// How many of these ghosts are splitters.
pub open spec fn spec_num_ghost_splitters(dead: Seq<GhostUnit>) -> int
    decreases dead.len(),
{
    if dead.len() == 0 {
        0int
    } else {
        spec_num_ghost_splitters(dead.drop_last()) + (if dead.last().entity_type is Splitter {
            1int
        } else {
            0int
        })
    }
}

/// Build the split children of one defeated splitter ghost.
pub fn build_ghost_children(g: &GhostUnit, cfg: &SplitterStats) -> (r: Vec<GhostUnit>)
    requires
        g.wf(),
        g.entity_type is Splitter,
        cfg.wf(),
    ensures
        r@.len() == cfg.split_count,
        forall|i: int| 0 <= i < r@.len() ==> is_ghost_child_of(#[trigger] r@[i], *g, i, *cfg),
        forall|i: int| 0 <= i < r@.len() ==> (#[trigger] r@[i]).wf(),
        forall|i: int| 0 <= i < r@.len() ==> (#[trigger] r@[i]).entity_type is BasicFighter,
{
    let count: usize = cfg.split_count;
    proof {
        assert(0 <= g.stats.max_health * cfg.split_health_ratio <= g.stats.max_health * 1000 && (
        g.stats.max_health * cfg.split_health_ratio) / 1000 <= g.stats.max_health)
            by (nonlinear_arith)
            requires
                0 <= g.stats.max_health,
                0 <= cfg.split_health_ratio <= 1000,
        ;
    }
    let hp: i64 = (g.stats.max_health * cfg.split_health_ratio) / 1000;
    let mut r: Vec<GhostUnit> = Vec::new();
    let mut i: usize = 0;
    while i < count
        invariant
            0 <= i <= count,
            count == cfg.split_count,
            0 < count <= 100,
            g.wf(),
            g.entity_type is Splitter,
            cfg.wf(),
            hp == spec_split_health(g.stats.max_health as int, cfg.split_health_ratio as int),
            0 <= hp <= g.stats.max_health,
            r@.len() == i,
            forall|j: int| 0 <= j < i ==> is_ghost_child_of(#[trigger] r@[j], *g, j, *cfg),
            forall|j: int| 0 <= j < i ==> (#[trigger] r@[j]).wf(),
            forall|j: int| 0 <= j < i ==> (#[trigger] r@[j]).entity_type is BasicFighter,
        decreases count - i,
    {
        proof {
            assert(-4_000_000 <= (2 * (i as int) - (count as int - 1)) * 20_000 <= 4_000_000)
                by (nonlinear_arith)
                requires
                    0 <= i < count <= 100,
            ;
        }
        let x_offset: i64 = (2 * (i as i64) - ((count as i64) - 1)) * (SPLIT_SPACING / 2);
        let child = GhostUnit {
            pos: Position {
                x: crate::geom::clamp_i64(g.pos.x + x_offset, -POS_LIMIT, POS_LIMIT),
                y: g.pos.y,
            },
            stats: Stats { health: hp, max_health: hp, damage: g.stats.damage },
            weapon_type: copy_weapons(&g.weapon_type),
            entity_type: EntityType::BasicFighter,
            energy_drain_per_sec: g.energy_drain_per_sec,
            anim: EntityAnimState {
                spawn_timer: 400,
                despawn_timer: 0,
                is_spawning: true,
                is_despawning: false,
                scale: 300,
                rotation: 0,
                alpha: 0,
                hit_flash_timer: 0,
            },
            fire_timer: 0,
        };
        r.push(child);
        i += 1;
    }
    r
}

/// Compute the split children of the defeated ghosts handed in, by the same
/// rule as enemies; the caller passes only newly dead ghosts that are not
/// already despawning, which is what stops re-entrant splitting during a
/// scripted despawn.
pub fn handle_ghost_splits(dead_ghosts: &Vec<GhostUnit>, config: &GameConfig) -> (r: Vec<GhostUnit>)
    requires
        config.wf(),
        forall|i: int| 0 <= i < dead_ghosts@.len() ==> (#[trigger] dead_ghosts@[i]).wf(),
    ensures
        r@.len() == spec_num_ghost_splitters(dead_ghosts@) * config.entities.splitter.split_count,
        forall|k: int| 0 <= k < r@.len() ==> (#[trigger] r@[k]).wf(),
        forall|k: int| 0 <= k < r@.len() ==> (#[trigger] r@[k]).entity_type is BasicFighter,
        spec_ghost_splits_ok(dead_ghosts@, r@, config.entities.splitter),
{
    let ghost cfg = config.entities.splitter;
    let mut r: Vec<GhostUnit> = Vec::new();
    let mut k: usize = 0;
    while k < dead_ghosts.len()
        invariant
            0 <= k <= dead_ghosts@.len(),
            config.wf(),
            cfg == config.entities.splitter,
            forall|i: int| 0 <= i < dead_ghosts@.len() ==> (#[trigger] dead_ghosts@[i]).wf(),
            r@.len() == spec_num_ghost_splitters(dead_ghosts@.take(k as int)) * cfg.split_count,
            0 <= spec_num_ghost_splitters(dead_ghosts@.take(k as int)) <= k,
            forall|j: int| 0 <= j < r@.len() ==> (#[trigger] r@[j]).wf(),
            forall|j: int| 0 <= j < r@.len() ==> (#[trigger] r@[j]).entity_type is BasicFighter,
            spec_ghost_splits_ok(dead_ghosts@.take(k as int), r@, cfg),
        decreases dead_ghosts@.len() - k,
    {
        proof {
            assert(dead_ghosts@.take(k + 1).drop_last() =~= dead_ghosts@.take(k as int));
            assert(dead_ghosts@.take(k + 1).last() == dead_ghosts@[k as int]);
        }
        let is_splitter: bool = match dead_ghosts[k].entity_type {
            EntityType::Splitter => true,
            _ => false,
        };
        if is_splitter {
            let mut children = build_ghost_children(&dead_ghosts[k], &config.entities.splitter);
            let ghost prev = r@;
            let ghost built = children@;
            let ghost prev_n = spec_num_ghost_splitters(dead_ghosts@.take(k as int));
            r.append(&mut children);
            proof {
                assert(r@ == prev + built);
                assert(spec_num_ghost_splitters(dead_ghosts@.take(k + 1)) == prev_n + 1);
                assert((prev_n + 1) * cfg.split_count == prev_n * cfg.split_count
                    + cfg.split_count) by (nonlinear_arith);
                assert(r@.take(r@.len() - cfg.split_count) =~= prev);
                assert forall|i: int| 0 <= i < cfg.split_count implies is_ghost_child_of(
                    #[trigger] r@[r@.len() - cfg.split_count + i],
                    dead_ghosts@.take(k + 1).last(),
                    i,
                    cfg,
                ) by {
                    assert(r@[r@.len() - cfg.split_count + i] == built[i]);
                }
                assert(spec_ghost_splits_ok(dead_ghosts@.take(k + 1), r@, cfg));
            }
        } else {
            proof {
                assert(spec_num_ghost_splitters(dead_ghosts@.take(k + 1))
                    == spec_num_ghost_splitters(dead_ghosts@.take(k as int)));
                assert(spec_ghost_splits_ok(dead_ghosts@.take(k + 1), r@, cfg));
            }
        }
        k += 1;
    }
    proof {
        assert(dead_ghosts@.take(dead_ghosts@.len() as int) =~= dead_ghosts@);
    }
    r
}

} // verus!
