//! Enemy spawning: centre-biased spawn positions, randomized scripted
//! entry paths per kind, the classic random spawn mode, and the
//! construction of wave enemies.

use vstd::prelude::*;
use crate::geom::{Position, pos_wf, POS_LIMIT};
use crate::models::{Enemy, EntityType, EnemyMovementState, BezierPath, EntityAnimState};
use crate::config::{GameConfig, TIME_LIMIT, DT_LIMIT};

verus! {

/// A centre-biased random horizontal position: the average of two uniform
/// draws over the range, a triangular distribution peaking at the middle.
/// Whatever the draws, the result lies within the range.
pub fn biased_random_x(min: i64, max: i64) -> (x: i64)
    requires
        -POS_LIMIT <= min <= max <= POS_LIMIT,
    ensures
        min <= x <= max,
{
    let r1: i64 = crate::rng::gen_range_i64(min, max);
    let r2: i64 = crate::rng::gen_range_i64(min, max);
    proof {
        crate::geom::lemma_div_t_bound(r1 + r2 - 2 * min, 2, max - min);
    }
    min + crate::geom::div_toward_zero(r1 + r2 - 2 * min, 2)
}

/// Where each kind's scripted entry begins, whatever the random draws:
/// the centre-spawned kinds start at the biased horizontal position just
/// above the top edge, snipers and tanks swoop in from one of the two
/// sides, and elites dive down the middle.
pub open spec fn spec_entry_start(p0: Position, kind: EntityType, spawn_x: int, play_width: int) -> bool {
    match kind {
        EntityType::BasicFighter => {
            &&& p0.x == crate::geom::clamp_int(spawn_x, -POS_LIMIT as int, POS_LIMIT as int)
            &&& -30_000 <= p0.y <= -10_000
        },
        EntityType::Healer | EntityType::Splitter => {
            &&& p0.x == crate::geom::clamp_int(spawn_x, -POS_LIMIT as int, POS_LIMIT as int)
            &&& p0.y == -30_000
        },
        EntityType::Sniper => {
            &&& (p0.x == -50_000 || p0.x == crate::geom::clamp_int(
                play_width + 50_000,
                -POS_LIMIT as int,
                POS_LIMIT as int,
            ))
            &&& 40_000 <= p0.y <= 120_000
        },
        EntityType::Tank => {
            &&& (p0.x == -50_000 || p0.x == crate::geom::clamp_int(
                play_width + 50_000,
                -POS_LIMIT as int,
                POS_LIMIT as int,
            ))
            &&& p0.y == -50_000
        },
        EntityType::Elite => {
            &&& p0.x == play_width / 2
            &&& p0.y == -50_000
        },
    }
}

/// Create a randomized scripted entry for a freshly spawned enemy of the
/// given kind, starting at the kind's entry point near the given
/// horizontal position. The curve shapes and timings are drawn at random
/// per kind; whatever the draws, the result is a well-formed cubic path,
/// begun at its start, and the start is the kind's entry point.
pub fn create_wave_enemy_path(entity_type: EntityType, spawn_x: i64, play_width: i64) -> (m: EnemyMovementState)
    requires
        -POS_LIMIT <= spawn_x <= POS_LIMIT,
        0 <= play_width <= POS_LIMIT,
    ensures
        m is FollowingPath,
        m.wf(),
        match m {
            EnemyMovementState::FollowingPath { path, progress, elapsed_time } => {
                &&& progress == 0
                &&& elapsed_time == 0
                &&& path.use_cubic
                &&& 0 < path.duration <= 3_000
                &&& spec_entry_start(path.p0, entity_type, spawn_x as int, play_width as int)
            },
            EnemyMovementState::FreeMovement => false,
        },
{
    let half: i64 = play_width / 2;
    let path: BezierPath = match entity_type {
        EntityType::BasicFighter => {
            let p0y: i64 = crate::rng::gen_range_i64(-30_000, -10_000);
            let p1x: i64 = crate::rng::gen_range_i64(-80_000, 80_000);
            let p1y: i64 = crate::rng::gen_range_i64(30_000, 45_000);
            let p2x: i64 = crate::rng::gen_range_i64(-40_000, 40_000);
            let p2y: i64 = crate::rng::gen_range_i64(90_000, 120_000);
            let p3y: i64 = crate::rng::gen_range_i64(100_000, 140_000);
            let duration: i64 = crate::rng::gen_range_i64(1_500, 2_000);
            BezierPath {
                p0: clamped(spawn_x, p0y),
                p1: clamped(spawn_x + p1x, p1y),
                p2: clamped(spawn_x + p2x, p2y),
                p3: clamped(spawn_x, p3y),
                duration,
                use_cubic: true,
            }
        },
        EntityType::Sniper => {
            let from_left: bool = crate::rng::gen_range_i64(0, 1) == 0;
            let e0: i64 = crate::rng::gen_range_i64(40_000, 120_000);
            let e1: i64 = crate::rng::gen_range_i64(20_000, 80_000);
            let e2: i64 = crate::rng::gen_range_i64(100_000, 160_000);
            let e3: i64 = crate::rng::gen_range_i64(130_000, 170_000);
            let duration: i64 = crate::rng::gen_range_i64(1_500, 2_500);
            if from_left {
                BezierPath {
                    p0: clamped(-50_000, e0),
                    p1: clamped(100_000, e1),
                    p2: clamped(120_000, e2),
                    p3: clamped(105_000, e3),
                    duration,
                    use_cubic: true,
                }
            } else {
                BezierPath {
                    p0: clamped(play_width + 50_000, e0),
                    p1: clamped(play_width - 100_000, e1),
                    p2: clamped(play_width - 120_000, e2),
                    p3: clamped(play_width - 105_000, e3),
                    duration,
                    use_cubic: true,
                }
            }
        },
        EntityType::Tank => {
            let from_right: bool = crate::rng::gen_range_i64(0, 1) == 0;
            let landing_y: i64 = crate::rng::gen_range_i64(160_000, 200_000);
            let duration: i64 = crate::rng::gen_range_i64(2_000, 3_000);
            if from_right {
                let landing_x: i64 = crate::rng::gen_range_i64(100_000, 200_000);
                BezierPath {
                    p0: clamped(play_width + 50_000, -50_000),
                    p1: clamped(play_width / 10 * 7, 60_000),
                    p2: clamped(play_width / 10 * 3, 140_000),
                    p3: clamped(landing_x, landing_y),
                    duration,
                    use_cubic: true,
                }
            } else {
                let landing_x: i64 = crate::rng::gen_range_i64(
                    clamp_low(play_width - 200_000),
                    clamp_low(play_width - 100_000) + 1,
                );
                BezierPath {
                    p0: clamped(-50_000, -50_000),
                    p1: clamped(play_width / 10 * 3, 60_000),
                    p2: clamped(play_width / 10 * 7, 140_000),
                    p3: clamped(landing_x, landing_y),
                    duration,
                    use_cubic: true,
                }
            }
        },
        EntityType::Elite => {
            let swing: i64 = crate::rng::gen_range_i64(80_000, 150_000);
            let duration: i64 = crate::rng::gen_range_i64(2_000, 2_500);
            BezierPath {
                p0: clamped(half, -50_000),
                p1: clamped(half + swing, 40_000),
                p2: clamped(half - swing, 120_000),
                p3: clamped(half, 100_000),
                duration,
                use_cubic: true,
            }
        },
        EntityType::Healer | EntityType::Splitter => {
            let strength: i64 = crate::rng::gen_range_i64(30_000, 80_000);
            let dir: i64 = if crate::rng::gen_range_i64(0, 1) == 0 {
                1
            } else {
                -1
            };
            let p1y: i64 = crate::rng::gen_range_i64(50_000, 90_000);
            let p2y: i64 = crate::rng::gen_range_i64(100_000, 130_000);
            let p3y: i64 = crate::rng::gen_range_i64(120_000, 150_000);
            let duration: i64 = crate::rng::gen_range_i64(1_000, 1_500);
            BezierPath {
                p0: clamped(spawn_x, -30_000),
                p1: clamped(spawn_x + dir * strength, p1y),
                p2: clamped(spawn_x - dir * (strength / 2), p2y),
                p3: clamped(spawn_x, p3y),
                duration,
                use_cubic: true,
            }
        },
    };
    EnemyMovementState::FollowingPath { path, progress: 0, elapsed_time: 0 }
}

/// A point with both coordinates held inside the modelled world.
fn clamped(x: i64, y: i64) -> (p: Position)
    requires
        -3 * POS_LIMIT <= x <= 3 * POS_LIMIT,
        -3 * POS_LIMIT <= y <= 3 * POS_LIMIT,
    ensures
        pos_wf(p),
        p.x == crate::geom::clamp_int(x as int, -POS_LIMIT as int, POS_LIMIT as int),
        p.y == crate::geom::clamp_int(y as int, -POS_LIMIT as int, POS_LIMIT as int),
{
    Position {
        x: crate::geom::clamp_i64(x, -POS_LIMIT, POS_LIMIT),
        y: crate::geom::clamp_i64(y, -POS_LIMIT, POS_LIMIT),
    }
}

/// A coordinate floored at zero.
fn clamp_low(x: i64) -> (r: i64)
    requires
        x <= POS_LIMIT,
    ensures
        0 <= r <= POS_LIMIT,
        r == crate::geom::clamp_int(x as int, 0, POS_LIMIT as int),
{
    crate::geom::clamp_i64(x, 0, POS_LIMIT)
}

/// Everything that holds of a freshly built wave enemy, whatever the
/// random draws: its kind, configured stats and loadout (with the
/// standard-shot fallback), and a fresh scripted entry path whose start —
/// where the enemy stands — is the kind's entry point for the given
/// horizontal position.
pub open spec fn spec_wave_arrival(e: Enemy, kind: EntityType, spawn_x: int, play_width: int, config: GameConfig) -> bool {
    &&& e.wf()
    &&& e.entity_type == kind
    &&& e.stats == kind.spec_stats(config.entities)
    &&& e.weapon@ == crate::models::fallback_weapons(
        crate::models::parse_weapons_spec(
            crate::models::spec_weapon_names(kind, config.entities),
        ),
    )
    &&& e.anim.hit_flash_timer == 0
    &&& match e.movement_state {
        EnemyMovementState::FollowingPath { path, progress, elapsed_time } => {
            &&& progress == 0
            &&& elapsed_time == 0
            &&& path.use_cubic
            &&& 0 < path.duration <= 3_000
            &&& e.pos == path.p0
            &&& spec_entry_start(path.p0, kind, spawn_x, play_width)
        },
        EnemyMovementState::FreeMovement => false,
    }
}

/// Build one freshly spawned enemy of the given kind: exactly what
/// `spec_wave_arrival` states, with a randomized first-shot delay.
pub fn spawn_enemy_of_kind(entity_type: EntityType, spawn_x: i64, play_width: i64, config: &GameConfig) -> (e: Enemy)
    requires
        config.wf(),
        -POS_LIMIT <= spawn_x <= POS_LIMIT,
        0 <= play_width <= POS_LIMIT,
    ensures
        spec_wave_arrival(e, entity_type, spawn_x as int, play_width as int, *config),
        e.wf(),
        e.entity_type == entity_type,
        e.stats == entity_type.spec_stats(config.entities),
        e.weapon@ == crate::models::fallback_weapons(
            crate::models::parse_weapons_spec(
                crate::models::spec_weapon_names(entity_type, config.entities),
            ),
        ),
        e.movement_state is FollowingPath,
        e.anim.hit_flash_timer == 0,
{
    let stats = entity_type.get_stats(&config.entities);
    let weapons = crate::models::parse_entity_weapons(entity_type, &config.entities);
    let movement_state = create_wave_enemy_path(entity_type, spawn_x, play_width);
    let fire_timer: i64 = crate::rng::gen_range_i64(1_000, 3_000);
    let start_pos: Position = match &movement_state {
        EnemyMovementState::FollowingPath { path, .. } => path.p0,
        EnemyMovementState::FreeMovement => Position {
            x: crate::geom::clamp_i64(spawn_x, -POS_LIMIT, POS_LIMIT),
            y: -30_000,
        },
    };
    Enemy {
        pos: start_pos,
        stats,
        weapon: weapons,
        entity_type,
        anim: EntityAnimState {
            spawn_timer: 0,
            despawn_timer: 0,
            is_spawning: false,
            is_despawning: false,
            scale: 1_000,
            rotation: 0,
            alpha: 1_000,
            hit_flash_timer: 0,
        },
        movement_state,
        fire_timer,
    }
}

/// Classic random spawning (used when the wave campaign is off): the spawn
/// timer counts down, and at zero one enemy of a kind drawn from the fixed
/// pool appears at a centre-biased horizontal position, and the timer
/// resets to the configured interval.
pub fn spawn_enemies(
    enemies: &mut Vec<Enemy>,
    spawn_timer: &mut i64,
    config: &GameConfig,
    play_width: i64,
    delta: i64,
)
    requires
        config.wf(),
        0 <= delta <= DT_LIMIT,
        -DT_LIMIT <= *old(spawn_timer) <= TIME_LIMIT,
        130_000 <= play_width <= POS_LIMIT,
        forall|i: int| 0 <= i < old(enemies)@.len() ==> (#[trigger] old(enemies)@[i]).wf(),
    ensures
        -DT_LIMIT <= *final(spawn_timer) <= TIME_LIMIT,
        forall|i: int| 0 <= i < final(enemies)@.len() ==> (#[trigger] final(enemies)@[i]).wf(),
        *old(spawn_timer) - delta > 0 ==> final(enemies)@ == old(enemies)@ && *final(spawn_timer)
            == *old(spawn_timer) - delta,
        *old(spawn_timer) - delta <= 0 ==> {
            &&& *final(spawn_timer) == config.spawning.enemy_spawn_interval
            &&& final(enemies)@.len() == old(enemies)@.len() + 1
            &&& (forall|i: int|
                0 <= i < old(enemies)@.len() ==> #[trigger] final(enemies)@[i] == old(enemies)@[i])
        },
{
    *spawn_timer = *spawn_timer - delta;
    if *spawn_timer <= 0 {
        *spawn_timer = config.spawning.enemy_spawn_interval;
        let pool: Vec<EntityType> = make_spawn_pool();
        let idx: usize = crate::rng::gen_range_usize(0, pool.len());
        let entity_type: EntityType = pool[idx];
        let spawn_x: i64 = biased_random_x(50_000, play_width - 50_000);
        let e = spawn_enemy_of_kind(entity_type, spawn_x, play_width, config);
        enemies.push(e);
    }
}

/// The fixed pool the classic mode draws from: plain fighters, splitters,
/// snipers and tanks twice each, and one elite.
fn make_spawn_pool() -> (pool: Vec<EntityType>)
    ensures
        pool@.len() == 9,
{
    let mut pool: Vec<EntityType> = Vec::new();
    pool.push(EntityType::BasicFighter);
    pool.push(EntityType::BasicFighter);
    pool.push(EntityType::Splitter);
    pool.push(EntityType::Splitter);
    pool.push(EntityType::Sniper);
    pool.push(EntityType::Sniper);
    pool.push(EntityType::Tank);
    pool.push(EntityType::Tank);
    pool.push(EntityType::Elite);
    pool
}

} // verus!
