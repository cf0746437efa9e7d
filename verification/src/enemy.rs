//! Enemy behaviour: scripted entry paths and free descent, firing by kind
//! with a randomly drawn weapon from the loadout, and off-screen cleanup.

use vstd::prelude::*;
use crate::geom::{
    Position, pos_wf, vel_wf, dist_sq, velocity_toward, lead_aim_point, clamp_int, div_t,
    POS_LIMIT,
};
use crate::models::{Enemy, EntityType, EnemyMovementState, Projectile, ProjectileOwner, WeaponType};
use crate::config::{GameConfig, WeaponsConfig, EnemyBehaviorConfig, EntitiesConfig, TIME_LIMIT, DT_LIMIT};
use crate::weapons::{spec_new_projectile, spec_final_damage, spec_rotated_velocity, COS_15_TENMIL, SIN_15_TENMIL};

verus! {

/// Enemies deal this share of their weapon's base damage, in thousandths.
pub const ENEMY_DAMAGE_SHARE: i64 = 750;

/// The projectiles one enemy shot emits, for a given weapon choice.
/// Standard shots fly straight down from plain fighters and are aimed
/// (with lead prediction for the precise kinds) otherwise; beams lead and
/// pierce; missiles fly at the player and home on the sentinel index;
/// spread shots fan three ways toward the player unless the player is on
/// top of the shooter; bombs fly at the player with the enemy blast
/// radius.
pub open spec fn spec_enemy_shots(
    weapon: WeaponType,
    e: Enemy,
    player_pos: Position,
    player_vel: Position,
    basic_speed_y: int,
    config: WeaponsConfig,
) -> Seq<Projectile> {
    let ws = weapon.spec_weapon_stats(config);
    let dmg = spec_final_damage(ws.damage as int, ENEMY_DAMAGE_SHARE as int);
    match weapon {
        WeaponType::Bullet => {
            let vel = match e.entity_type {
                EntityType::BasicFighter => Position { x: 0, y: basic_speed_y as i64 },
                EntityType::Tank | EntityType::Sniper | EntityType::Elite => velocity_toward(
                    e.pos,
                    lead_aim_point(e.pos, player_pos, player_vel, basic_speed_y),
                    basic_speed_y,
                ),
                EntityType::Healer | EntityType::Splitter => velocity_toward(
                    e.pos,
                    player_pos,
                    basic_speed_y,
                ),
            };
            seq![
                spec_new_projectile(
                    e.pos,
                    vel,
                    dmg,
                    weapon,
                    ProjectileOwner::Enemy,
                    false,
                    false,
                    0,
                    None,
                ),
            ]
        },
        WeaponType::Laser => seq![
            spec_new_projectile(
                e.pos,
                velocity_toward(
                    e.pos,
                    lead_aim_point(e.pos, player_pos, player_vel, ws.projectile_speed as int),
                    ws.projectile_speed as int,
                ),
                dmg,
                weapon,
                ProjectileOwner::Enemy,
                true,
                false,
                0,
                None,
            ),
        ],
        WeaponType::Missile => seq![
            spec_new_projectile(
                e.pos,
                velocity_toward(e.pos, player_pos, ws.projectile_speed as int),
                dmg,
                weapon,
                ProjectileOwner::Enemy,
                false,
                true,
                0,
                Some(0usize),
            ),
        ],
        WeaponType::Plasma => {
            if dist_sq(e.pos, player_pos) < 10_000 {
                Seq::empty()
            } else {
                seq![
                    spec_new_projectile(
                        e.pos,
                        spec_rotated_velocity(
                            e.pos,
                            player_pos,
                            ws.projectile_speed as int,
                            COS_15_TENMIL as int,
                            -SIN_15_TENMIL as int,
                        ),
                        dmg,
                        weapon,
                        ProjectileOwner::Enemy,
                        false,
                        false,
                        0,
                        None,
                    ),
                    spec_new_projectile(
                        e.pos,
                        spec_rotated_velocity(
                            e.pos,
                            player_pos,
                            ws.projectile_speed as int,
                            10_000,
                            0,
                        ),
                        dmg,
                        weapon,
                        ProjectileOwner::Enemy,
                        false,
                        false,
                        0,
                        None,
                    ),
                    spec_new_projectile(
                        e.pos,
                        spec_rotated_velocity(
                            e.pos,
                            player_pos,
                            ws.projectile_speed as int,
                            COS_15_TENMIL as int,
                            SIN_15_TENMIL as int,
                        ),
                        dmg,
                        weapon,
                        ProjectileOwner::Enemy,
                        false,
                        false,
                        0,
                        None,
                    ),
                ]
            }
        },
        WeaponType::Bombs => seq![
            spec_new_projectile(
                e.pos,
                velocity_toward(e.pos, player_pos, ws.projectile_speed as int),
                dmg,
                weapon,
                ProjectileOwner::Enemy,
                false,
                false,
                60_000,
                None,
            ),
        ],
    }
}

/// Fire one enemy shot at the player: a weapon is drawn at random from the
/// enemy's loadout (an empty loadout fires nothing), and the drawn kind's
/// fixed rule emits the projectiles. Whatever the draw, the emitted
/// projectiles are exactly one loadout entry's rule.
pub fn fire_enemy_weapon(
    enemy: &Enemy,
    player_pos: Position,
    player_velocity: Position,
    projectiles: &mut Vec<Projectile>,
    basic_projectile_speed_y: i64,
    weapons_config: &WeaponsConfig,
)
    requires
        enemy.wf(),
        pos_wf(player_pos),
        vel_wf(player_velocity),
        0 <= basic_projectile_speed_y <= crate::geom::SPEED_LIMIT,
        weapons_config.wf(),
        forall|i: int| 0 <= i < old(projectiles)@.len() ==> (#[trigger] old(projectiles)@[i]).wf(),
    ensures
        forall|i: int| 0 <= i < final(projectiles)@.len() ==> (#[trigger] final(projectiles)@[i]).wf(),
        enemy.weapon@.len() == 0 ==> final(projectiles)@ == old(projectiles)@,
        enemy.weapon@.len() > 0 ==> exists|wi: int|
            0 <= wi < enemy.weapon@.len() && final(projectiles)@ == old(projectiles)@
                + spec_enemy_shots(
                #[trigger] enemy.weapon@[wi],
                *enemy,
                player_pos,
                player_velocity,
                basic_projectile_speed_y as int,
                *weapons_config,
            ),
{
    if enemy.weapon.len() == 0 {
        return ;
    }
    let random_idx: usize = crate::rng::gen_range_usize(0, enemy.weapon.len());
    let weapon: WeaponType = enemy.weapon[random_idx];
    let ws = weapon.get_weapon_stats(weapons_config);
    let dmg = crate::weapons::scaled_damage(ws.damage, ENEMY_DAMAGE_SHARE);
    match weapon {
        WeaponType::Bullet => {
            let velocity: Position = match enemy.entity_type {
                EntityType::BasicFighter => Position { x: 0, y: basic_projectile_speed_y },
                EntityType::Tank | EntityType::Sniper | EntityType::Elite => {
                    crate::geom::calculate_lead_velocity(
                        enemy.pos,
                        player_pos,
                        player_velocity,
                        basic_projectile_speed_y,
                    )
                },
                EntityType::Healer | EntityType::Splitter => {
                    crate::geom::calculate_velocity(enemy.pos, player_pos, basic_projectile_speed_y)
                },
            };
            let p = crate::weapons::create_projectile(
                enemy.pos,
                velocity,
                dmg,
                weapon,
                ProjectileOwner::Enemy,
                false,
                false,
                0,
                None,
            );
            projectiles.push(p);
        },
        WeaponType::Laser => {
            let velocity = crate::geom::calculate_lead_velocity(
                enemy.pos,
                player_pos,
                player_velocity,
                ws.projectile_speed,
            );
            let p = crate::weapons::create_projectile(
                enemy.pos,
                velocity,
                dmg,
                weapon,
                ProjectileOwner::Enemy,
                true,
                false,
                0,
                None,
            );
            projectiles.push(p);
        },
        WeaponType::Missile => {
            let velocity = crate::geom::calculate_velocity(enemy.pos, player_pos, ws.projectile_speed);
            let p = crate::weapons::create_projectile(
                enemy.pos,
                velocity,
                dmg,
                weapon,
                ProjectileOwner::Enemy,
                false,
                true,
                0,
                Some(0),
            );
            projectiles.push(p);
        },
        WeaponType::Plasma => {
            let dd: i64 = crate::geom::distance_sq(enemy.pos, player_pos);
            if dd >= 10_000 {
                let v1 = crate::weapons::calculate_spread_velocity(
                    enemy.pos,
                    player_pos,
                    ws.projectile_speed,
                    COS_15_TENMIL,
                    -SIN_15_TENMIL,
                );
                let v2 = crate::weapons::calculate_spread_velocity(
                    enemy.pos,
                    player_pos,
                    ws.projectile_speed,
                    10_000,
                    0,
                );
                let v3 = crate::weapons::calculate_spread_velocity(
                    enemy.pos,
                    player_pos,
                    ws.projectile_speed,
                    COS_15_TENMIL,
                    SIN_15_TENMIL,
                );
                let p1 = crate::weapons::create_projectile(
                    enemy.pos,
                    v1,
                    dmg,
                    weapon,
                    ProjectileOwner::Enemy,
                    false,
                    false,
                    0,
                    None,
                );
                let p2 = crate::weapons::create_projectile(
                    enemy.pos,
                    v2,
                    dmg,
                    weapon,
                    ProjectileOwner::Enemy,
                    false,
                    false,
                    0,
                    None,
                );
                let p3 = crate::weapons::create_projectile(
                    enemy.pos,
                    v3,
                    dmg,
                    weapon,
                    ProjectileOwner::Enemy,
                    false,
                    false,
                    0,
                    None,
                );
                projectiles.push(p1);
                projectiles.push(p2);
                projectiles.push(p3);
            }
        },
        WeaponType::Bombs => {
            let velocity = crate::geom::calculate_velocity(enemy.pos, player_pos, ws.projectile_speed);
            let p = crate::weapons::create_projectile(
                enemy.pos,
                velocity,
                dmg,
                weapon,
                ProjectileOwner::Enemy,
                false,
                false,
                60_000,
                None,
            );
            projectiles.push(p);
        },
    }
    proof {
        assert(projectiles@ =~= old(projectiles)@ + spec_enemy_shots(
            enemy.weapon@[random_idx as int],
            *enemy,
            player_pos,
            player_velocity,
            basic_projectile_speed_y as int,
            *weapons_config,
        ));
    }
}

/// What one movement tick does to an enemy. On a scripted path, time
/// advances, progress is the elapsed share of the path's duration (capped
/// at the end), the position is the curve point there, and a finished path
/// hands over to free movement. In free movement the enemy descends,
/// quickly above the hover line and slowly below it.
pub open spec fn spec_enemy_moved(o: Enemy, n: Enemy, cfg: EnemyBehaviorConfig, delta: int) -> bool {
    match o.movement_state {
        EnemyMovementState::FollowingPath { path, progress, elapsed_time } => {
            let elapsed = if elapsed_time + delta > TIME_LIMIT {
                TIME_LIMIT as int
            } else {
                elapsed_time + delta
            };
            let prog = if (elapsed * 1000) / (path.duration as int) > 1000 {
                1000int
            } else {
                (elapsed * 1000) / (path.duration as int)
            };
            let moved = if path.use_cubic {
                crate::bezier::cubic_bezier_spec(path.p0, path.p1, path.p2, path.p3, prog)
            } else {
                crate::bezier::quadratic_bezier_spec(path.p0, path.p1, path.p2, prog)
            };
            &&& n.pos == moved
            &&& (prog >= 1000 ==> n.movement_state is FreeMovement)
            &&& (prog < 1000 ==> n.movement_state == EnemyMovementState::FollowingPath {
                path,
                progress: prog as i64,
                elapsed_time: elapsed as i64,
            })
        },
        EnemyMovementState::FreeMovement => {
            let speed = if o.pos.y < cfg.movement_threshold_y {
                cfg.fast_descent_speed as int
            } else {
                cfg.slow_hover_speed as int
            };
            &&& n.pos.x == o.pos.x
            &&& n.pos.y == clamp_int(
                o.pos.y + div_t(speed * delta, 1000),
                -POS_LIMIT as int,
                POS_LIMIT as int,
            )
            &&& n.movement_state is FreeMovement
        },
    }
}

/// Everything one enemy tick relates, besides firing: movement as above,
/// the hit flash counted down, the fire timer either counted down or reset
/// to the kind's interval, and identity fields untouched.
pub open spec fn spec_enemy_stepped(
    o: Enemy,
    n: Enemy,
    cfg: EnemyBehaviorConfig,
    entities: EntitiesConfig,
    delta: int,
) -> bool {
    &&& spec_enemy_moved(o, n, cfg, delta)
    &&& n.stats == o.stats
    &&& n.weapon@ == o.weapon@
    &&& n.entity_type == o.entity_type
    &&& n.anim.hit_flash_timer as int == (if o.anim.hit_flash_timer > 0 {
        if o.anim.hit_flash_timer - delta < 0 {
            0int
        } else {
            o.anim.hit_flash_timer - delta
        }
    } else {
        o.anim.hit_flash_timer as int
    })
    &&& (n.fire_timer as int == (if o.fire_timer - delta < 0 {
        0int
    } else {
        o.fire_timer - delta
    }) || n.fire_timer == o.entity_type.spec_fire_interval(entities))
    &&& n.wf()
}

/// Advance every enemy one tick: move along its entry path or descend,
/// count its timers down, and let it fire at the player when its cooldown
/// has run out, it is low enough on the field, and it is not in the early
/// part of a scripted entry. Then drop every enemy below the bottom
/// boundary. New projectiles are appended after the existing ones, all of
/// them the enemy side's.
#[verifier::rlimit(100)]
pub fn update_enemies(
    enemies: &mut Vec<Enemy>,
    player_pos: Position,
    player_velocity: Position,
    projectiles: &mut Vec<Projectile>,
    config: &GameConfig,
    delta: i64,
)
    requires
        config.wf(),
        pos_wf(player_pos),
        vel_wf(player_velocity),
        0 <= delta <= DT_LIMIT,
        forall|i: int| 0 <= i < old(enemies)@.len() ==> (#[trigger] old(enemies)@[i]).wf(),
        forall|i: int| 0 <= i < old(projectiles)@.len() ==> (#[trigger] old(projectiles)@[i]).wf(),
    ensures
        forall|i: int| 0 <= i < final(enemies)@.len() ==> (#[trigger] final(enemies)@[i]).wf(),
        forall|i: int| 0 <= i < final(projectiles)@.len() ==> (#[trigger] final(projectiles)@[i]).wf(),
        final(projectiles)@.len() >= old(projectiles)@.len(),
        forall|i: int|
            0 <= i < old(projectiles)@.len() ==> #[trigger] final(projectiles)@[i]
                == old(projectiles)@[i],
        forall|i: int|
            old(projectiles)@.len() <= i < final(projectiles)@.len()
                ==> (#[trigger] final(projectiles)@[i]).owner is Enemy,
        final(enemies)@.len() <= old(enemies)@.len(),
        forall|i: int|
            0 <= i < final(enemies)@.len() ==> (#[trigger] final(enemies)@[i]).pos.y
                < config.enemy_behavior.screen_boundary_bottom,
        exists|mid: Seq<Enemy>|
            {
                &&& mid.len() == old(enemies)@.len()
                &&& (forall|i: int|
                    0 <= i < mid.len() ==> spec_enemy_stepped(
                        (#[trigger] old(enemies)@[i]),
                        mid[i],
                        config.enemy_behavior,
                        config.entities,
                        delta as int,
                    ))
                &&& final(enemies)@ == spec_filter_on_field(mid, config.enemy_behavior)
            },
{
    let n: usize = enemies.len();
    let mut k: usize = 0;
    while k < n
        invariant
            0 <= k <= n,
            n == enemies@.len() == old(enemies)@.len(),
            config.wf(),
            pos_wf(player_pos),
            vel_wf(player_velocity),
            0 <= delta <= DT_LIMIT,
            forall|i: int| k <= i < n ==> enemies@[i] == #[trigger] old(enemies)@[i],
            forall|i: int| 0 <= i < n ==> (#[trigger] enemies@[i]).wf(),
            forall|i: int|
                0 <= i < k ==> spec_enemy_stepped(
                    (#[trigger] old(enemies)@[i]),
                    enemies@[i],
                    config.enemy_behavior,
                    config.entities,
                    delta as int,
                ),
            forall|i: int| 0 <= i < projectiles@.len() ==> (#[trigger] projectiles@[i]).wf(),
            projectiles@.len() >= old(projectiles)@.len(),
            forall|i: int|
                0 <= i < old(projectiles)@.len() ==> #[trigger] projectiles@[i]
                    == old(projectiles)@[i],
            forall|i: int|
                old(projectiles)@.len() <= i < projectiles@.len() ==> (#[trigger] projectiles@[i]).owner is Enemy,
        decreases n - k,
    {
        let e = vstd::std_specs::vec::vec_index_mut(enemies, k);
        if e.fire_timer - delta < 0 {
            e.fire_timer = 0;
        } else {
            e.fire_timer = e.fire_timer - delta;
        }
        let t0: i64 = e.anim.hit_flash_timer;
        if t0 > 0 {
            if t0 - delta < 0 {
                e.anim.hit_flash_timer = 0;
            } else {
                e.anim.hit_flash_timer = t0 - delta;
            }
        }
        let mut can_fire: bool = true;
        match e.movement_state {
            EnemyMovementState::FollowingPath { path, progress: _, elapsed_time } => {
                let elapsed: i64 = if elapsed_time + delta > TIME_LIMIT {
                    TIME_LIMIT
                } else {
                    elapsed_time + delta
                };
                proof {
                    assert(0 <= elapsed * 1000 <= 86_400_000_000_000i64 && (elapsed * 1000) as int
                        / (path.duration as int) >= 0) by (nonlinear_arith)
                        requires
                            0 <= elapsed <= 86_400_000,
                            path.duration > 0,
                    ;
                }
                let raw: i64 = (elapsed * 1000) / path.duration;
                let prog: i64 = if raw > 1000 {
                    1000
                } else {
                    raw
                };
                let moved: Position = if path.use_cubic {
                    crate::bezier::cubic_bezier(path.p0, path.p1, path.p2, path.p3, prog)
                } else {
                    crate::bezier::quadratic_bezier(path.p0, path.p1, path.p2, prog)
                };
                e.pos = moved;
                if prog >= 1000 {
                    e.movement_state = EnemyMovementState::FreeMovement;
                } else {
                    e.movement_state = EnemyMovementState::FollowingPath {
                        path,
                        progress: prog,
                        elapsed_time: elapsed,
                    };
                    can_fire = prog > 700;
                }
            },
            EnemyMovementState::FreeMovement => {
                let speed: i64 = if e.pos.y < config.enemy_behavior.movement_threshold_y {
                    config.enemy_behavior.fast_descent_speed
                } else {
                    config.enemy_behavior.slow_hover_speed
                };
                proof {
                    assert(0 <= speed * delta <= 1_000_000_000i64) by (nonlinear_arith)
                        requires
                            0 <= speed <= 1_000_000,
                            0 <= delta <= 1000,
                    ;
                }
                let dy: i64 = (speed * delta) / 1000;
                e.pos = Position {
                    x: e.pos.x,
                    y: crate::geom::clamp_i64(e.pos.y + dy, -POS_LIMIT, POS_LIMIT),
                };
            },
        }
        if can_fire && e.fire_timer <= 0 && e.pos.y > config.enemy_behavior.fire_threshold_y {
            fire_enemy_weapon(
                e,
                player_pos,
                player_velocity,
                projectiles,
                config.enemy_behavior.basic_projectile_speed_y,
                &config.weapons,
            );
            e.fire_timer = e.entity_type.get_fire_interval(&config.entities);
        }
        k += 1;
    }
    let ghost mid = enemies@;
    let total: usize = enemies.len();
    let mut rev: Vec<Enemy> = Vec::new();
    while enemies.len() > 0
        invariant
            enemies@.len() + rev@.len() == mid.len(),
            enemies@ == mid.take(enemies@.len() as int),
            forall|j: int| 0 <= j < rev@.len() ==> #[trigger] rev@[j] == mid[mid.len() - 1 - j],
            forall|i: int| 0 <= i < mid.len() ==> (#[trigger] mid[i]).wf(),
        decreases enemies@.len(),
    {
        proof {
            assert(enemies@.last() == mid[enemies@.len() - 1]);
            assert(enemies@.take(enemies@.len() as int).drop_last() =~= mid.take(
                enemies@.len() - 1,
            ));
        }
        let g = enemies.pop().unwrap();
        rev.push(g);
    }
    let mut i: usize = 0;
    while rev.len() > 0
        invariant
            i + rev@.len() == total,
            total == mid.len(),
            config.wf(),
            forall|j: int| 0 <= j < rev@.len() ==> #[trigger] rev@[j] == mid[mid.len() - 1 - j],
            enemies@ == spec_filter_on_field(mid.take(i as int), config.enemy_behavior),
            forall|ii: int| 0 <= ii < mid.len() ==> (#[trigger] mid[ii]).wf(),
            forall|ii: int| 0 <= ii < enemies@.len() ==> (#[trigger] enemies@[ii]).wf(),
            forall|ii: int|
                0 <= ii < enemies@.len() ==> (#[trigger] enemies@[ii]).pos.y
                    < config.enemy_behavior.screen_boundary_bottom,
            enemies@.len() <= i,
        decreases rev@.len(),
    {
        proof {
            assert(rev@.last() == mid[i as int]);
            assert(mid.take(i + 1).drop_last() =~= mid.take(i as int));
            assert(mid.take(i + 1).last() == mid[i as int]);
        }
        let g = rev.pop().unwrap();
        if g.pos.y < config.enemy_behavior.screen_boundary_bottom {
            enemies.push(g);
        }
        i += 1;
    }
    proof {
        assert(mid.take(mid.len() as int) =~= mid);
    }
}

/// The enemies that stay on the field: those above the bottom boundary, in
/// order.
pub open spec fn spec_filter_on_field(es: Seq<Enemy>, cfg: EnemyBehaviorConfig) -> Seq<Enemy>
    decreases es.len(),
{
    if es.len() == 0 {
        Seq::empty()
    } else {
        let rest = spec_filter_on_field(es.drop_last(), cfg);
        if es.last().pos.y < cfg.screen_boundary_bottom {
            rest.push(es.last())
        } else {
            rest
        }
    }
}

} // verus!
