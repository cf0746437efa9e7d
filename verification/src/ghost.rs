//! Allied ghost behaviour: drifting toward the active formation slot,
//! auto-firing at the nearest enemy with a randomly drawn weapon at half
//! damage, and off-screen cleanup.

use vstd::prelude::*;
use crate::geom::{
    Position, pos_wf, vel_wf, dist_sq, velocity_toward, clamp_int, div_t, POS_LIMIT,
};
use crate::models::{GhostUnit, Enemy, Projectile, ProjectileOwner, WeaponType};
use crate::config::{GameConfig, WeaponsConfig, GhostBehaviorConfig, TIME_LIMIT, DT_LIMIT};
use crate::weapons::{spec_new_projectile, spec_final_damage, spec_rotated_velocity, COS_15_TENMIL, SIN_15_TENMIL};
use crate::guidance::is_first_nearest_enemy;

verus! {

/// Ghosts deal this share of their weapon's base damage, in thousandths.
pub const GHOST_DAMAGE_SHARE: i64 = 500;

/// Ghosts drift no lower than this (thousandths of a pixel).
pub const GHOST_BOTTOM_LIMIT: i64 = 1_000_000;

/// The projectiles one ghost shot emits for a given weapon choice and
/// missile lock. Standard shots fly at the target at the ghost-behaviour
/// speed; beams pierce; missiles home on the given lock; spread shots fan
/// three ways unless the target is on top of the ghost; bombs carry the
/// ghost blast radius. All at half damage.
pub open spec fn spec_ghost_shots(
    weapon: WeaponType,
    g: GhostUnit,
    target: Position,
    lock: Option<usize>,
    speed_arg: int,
    config: WeaponsConfig,
) -> Seq<Projectile> {
    let ws = weapon.spec_weapon_stats(config);
    let dmg = spec_final_damage(ws.damage as int, GHOST_DAMAGE_SHARE as int);
    match weapon {
        WeaponType::Bullet => seq![
            spec_new_projectile(
                g.pos,
                velocity_toward(g.pos, target, speed_arg),
                dmg,
                weapon,
                ProjectileOwner::Ally,
                false,
                false,
                0,
                None,
            ),
        ],
        WeaponType::Laser => seq![
            spec_new_projectile(
                g.pos,
                velocity_toward(g.pos, target, ws.projectile_speed as int),
                dmg,
                weapon,
                ProjectileOwner::Ally,
                true,
                false,
                0,
                None,
            ),
        ],
        WeaponType::Missile => seq![
            spec_new_projectile(
                g.pos,
                velocity_toward(g.pos, target, ws.projectile_speed as int),
                dmg,
                weapon,
                ProjectileOwner::Ally,
                false,
                true,
                0,
                lock,
            ),
        ],
        WeaponType::Plasma => {
            if dist_sq(g.pos, target) < 10_000 {
                Seq::empty()
            } else {
                seq![
                    spec_new_projectile(
                        g.pos,
                        spec_rotated_velocity(
                            g.pos,
                            target,
                            ws.projectile_speed as int,
                            COS_15_TENMIL as int,
                            -SIN_15_TENMIL as int,
                        ),
                        dmg,
                        weapon,
                        ProjectileOwner::Ally,
                        false,
                        false,
                        0,
                        None,
                    ),
                    spec_new_projectile(
                        g.pos,
                        spec_rotated_velocity(
                            g.pos,
                            target,
                            ws.projectile_speed as int,
                            10_000,
                            0,
                        ),
                        dmg,
                        weapon,
                        ProjectileOwner::Ally,
                        false,
                        false,
                        0,
                        None,
                    ),
                    spec_new_projectile(
                        g.pos,
                        spec_rotated_velocity(
                            g.pos,
                            target,
                            ws.projectile_speed as int,
                            COS_15_TENMIL as int,
                            SIN_15_TENMIL as int,
                        ),
                        dmg,
                        weapon,
                        ProjectileOwner::Ally,
                        false,
                        false,
                        0,
                        None,
                    ),
                ]
            }
        },
        WeaponType::Bombs => seq![
            spec_new_projectile(
                g.pos,
                velocity_toward(g.pos, target, ws.projectile_speed as int),
                dmg,
                weapon,
                ProjectileOwner::Ally,
                false,
                false,
                70_000,
                None,
            ),
        ],
    }
}

/// Fire one ghost shot at the given target: a weapon drawn at random from
/// the ghost's loadout (an empty loadout fires nothing) emits by its fixed
/// rule, at half damage; a missile locks onto the nearest live enemy.
pub fn fire_ghost_weapon(
    ghost_unit: &GhostUnit,
    target: Position,
    projectiles: &mut Vec<Projectile>,
    enemies: &Vec<Enemy>,
    projectile_speed: i64,
    weapons_config: &WeaponsConfig,
)
    requires
        ghost_unit.wf(),
        pos_wf(target),
        0 <= projectile_speed <= crate::geom::SPEED_LIMIT,
        weapons_config.wf(),
        forall|i: int| 0 <= i < enemies@.len() ==> (#[trigger] enemies@[i]).wf(),
        forall|i: int| 0 <= i < old(projectiles)@.len() ==> (#[trigger] old(projectiles)@[i]).wf(),
    ensures
        forall|i: int| 0 <= i < final(projectiles)@.len() ==> (#[trigger] final(projectiles)@[i]).wf(),
        ghost_unit.weapon_type@.len() == 0 ==> final(projectiles)@ == old(projectiles)@,
        ghost_unit.weapon_type@.len() > 0 ==> exists|wi: int, lock: Option<usize>|
            {
                &&& 0 <= wi < ghost_unit.weapon_type@.len()
                &&& (match lock {
                    Some(li) => is_first_nearest_enemy(ghost_unit.pos, enemies@, li as int),
                    None => enemies@.len() == 0,
                })
                &&& final(projectiles)@ == old(projectiles)@ + #[trigger] spec_ghost_shots(
                    ghost_unit.weapon_type@[wi],
                    *ghost_unit,
                    target,
                    lock,
                    projectile_speed as int,
                    *weapons_config,
                )
            },
{
    if ghost_unit.weapon_type.len() == 0 {
        return ;
    }
    let random_idx: usize = crate::rng::gen_range_usize(0, ghost_unit.weapon_type.len());
    let weapon: WeaponType = ghost_unit.weapon_type[random_idx];
    let ws = weapon.get_weapon_stats(weapons_config);
    let dmg = crate::weapons::scaled_damage(ws.damage, GHOST_DAMAGE_SHARE);
    let lock: Option<usize> = crate::guidance::find_nearest_enemy_index(ghost_unit.pos, enemies);
    match weapon {
        WeaponType::Bullet => {
            let velocity = crate::geom::calculate_velocity(ghost_unit.pos, target, projectile_speed);
            let p = crate::weapons::create_projectile(
                ghost_unit.pos,
                velocity,
                dmg,
                weapon,
                ProjectileOwner::Ally,
                false,
                false,
                0,
                None,
            );
            projectiles.push(p);
        },
        WeaponType::Laser => {
            let velocity = crate::geom::calculate_velocity(
                ghost_unit.pos,
                target,
                ws.projectile_speed,
            );
            let p = crate::weapons::create_projectile(
                ghost_unit.pos,
                velocity,
                dmg,
                weapon,
                ProjectileOwner::Ally,
                true,
                false,
                0,
                None,
            );
            projectiles.push(p);
        },
        WeaponType::Missile => {
            let velocity = crate::geom::calculate_velocity(
                ghost_unit.pos,
                target,
                ws.projectile_speed,
            );
            let p = crate::weapons::create_projectile(
                ghost_unit.pos,
                velocity,
                dmg,
                weapon,
                ProjectileOwner::Ally,
                false,
                true,
                0,
                lock,
            );
            projectiles.push(p);
        },
        WeaponType::Plasma => {
            let dd: i64 = crate::geom::distance_sq(ghost_unit.pos, target);
            if dd >= 10_000 {
                let v1 = crate::weapons::calculate_spread_velocity(
                    ghost_unit.pos,
                    target,
                    ws.projectile_speed,
                    COS_15_TENMIL,
                    -SIN_15_TENMIL,
                );
                let v2 = crate::weapons::calculate_spread_velocity(
                    ghost_unit.pos,
                    target,
                    ws.projectile_speed,
                    10_000,
                    0,
                );
                let v3 = crate::weapons::calculate_spread_velocity(
                    ghost_unit.pos,
                    target,
                    ws.projectile_speed,
                    COS_15_TENMIL,
                    SIN_15_TENMIL,
                );
                let p1 = crate::weapons::create_projectile(
                    ghost_unit.pos,
                    v1,
                    dmg,
                    weapon,
                    ProjectileOwner::Ally,
                    false,
                    false,
                    0,
                    None,
                );
                let p2 = crate::weapons::create_projectile(
                    ghost_unit.pos,
                    v2,
                    dmg,
                    weapon,
                    ProjectileOwner::Ally,
                    false,
                    false,
                    0,
                    None,
                );
                let p3 = crate::weapons::create_projectile(
                    ghost_unit.pos,
                    v3,
                    dmg,
                    weapon,
                    ProjectileOwner::Ally,
                    false,
                    false,
                    0,
                    None,
                );
                projectiles.push(p1);
                projectiles.push(p2);
                projectiles.push(p3);
            }
        },
        WeaponType::Bombs => {
            let velocity = crate::geom::calculate_velocity(
                ghost_unit.pos,
                target,
                ws.projectile_speed,
            );
            let p = crate::weapons::create_projectile(
                ghost_unit.pos,
                velocity,
                dmg,
                weapon,
                ProjectileOwner::Ally,
                false,
                false,
                70_000,
                None,
            );
            projectiles.push(p);
        },
    }
    proof {
        assert(projectiles@ =~= old(projectiles)@ + spec_ghost_shots(
            ghost_unit.weapon_type@[random_idx as int],
            *ghost_unit,
            target,
            lock,
            projectile_speed as int,
            *weapons_config,
        ));
    }
}

/// One movement step toward a formation slot: within two pixels of the
/// slot the ghost rests; otherwise it covers the slot-ward difference at
/// the fixed follow rate.
pub open spec fn spec_ghost_follow(o: Position, target: Position, delta: int) -> Position {
    if dist_sq(o, target) <= 4_000_000 {
        o
    } else {
        Position {
            x: clamp_int(
                o.x + div_t((target.x - o.x) * 3 * delta, 1000),
                -POS_LIMIT as int,
                POS_LIMIT as int,
            ) as i64,
            y: clamp_int(
                o.y + div_t((target.y - o.y) * 3 * delta, 1000),
                -POS_LIMIT as int,
                POS_LIMIT as int,
            ) as i64,
        }
    }
}

/// Everything one movement tick relates for ghost `i` of `total`: some
/// target satisfying the deployed formation's slot for that index (the
/// scattered fallback substituting when the requested formation is invalid
/// for the count) is followed at the fixed rate, the fire cooldown counts
/// down, and every other field is untouched.
pub open spec fn spec_ghost_slot_followed(
    g0: GhostUnit,
    g1: GhostUnit,
    player_pos: Position,
    i: int,
    total: usize,
    formation: crate::models::GhostFormation,
    play_width: int,
    spacing: crate::config::FormationSpacingConfig,
    delta: int,
) -> bool {
    exists|target: Position|
        {
            &&& pos_wf(target)
            &&& #[trigger] crate::formation::spec_slot_target(
                target,
                player_pos,
                i,
                total as int,
                crate::formation::spec_deployed_formation(formation, total),
                play_width,
                spacing,
            )
            &&& g1 == GhostUnit {
                pos: spec_ghost_follow(g0.pos, target, delta),
                fire_timer: (if g0.fire_timer - delta < 0 {
                    0i64
                } else {
                    (g0.fire_timer - delta) as i64
                }),
                ..g0
            }
        }
}

/// Advance every ghost one tick: the fire cooldown counts down and the
/// ghost drifts toward its slot in the active formation (the scattered
/// fallback substitutes when the formation is invalid for the count); then
/// ghosts outside the vertical band are dropped.
pub fn update_ghosts(
    ghosts: &mut Vec<GhostUnit>,
    player_pos: Position,
    formation: crate::models::GhostFormation,
    config: &GameConfig,
    play_width: i64,
    delta: i64,
)
    requires
        config.wf(),
        pos_wf(player_pos),
        0 <= delta <= DT_LIMIT,
        30_000 <= play_width <= POS_LIMIT,
        2 * config.formation_spacing.screen_edge_padding <= play_width,
        old(ghosts)@.len() <= 10_000,
        forall|i: int| 0 <= i < old(ghosts)@.len() ==> (#[trigger] old(ghosts)@[i]).wf(),
    ensures
        forall|i: int| 0 <= i < final(ghosts)@.len() ==> (#[trigger] final(ghosts)@[i]).wf(),
        final(ghosts)@.len() <= old(ghosts)@.len(),
        forall|i: int|
            0 <= i < final(ghosts)@.len() ==> (#[trigger] final(ghosts)@[i]).pos.y
                > config.ghost_behavior.screen_boundary_top && final(ghosts)@[i].pos.y
                < GHOST_BOTTOM_LIMIT,
        exists|mid: Seq<GhostUnit>|
            {
                &&& mid.len() == old(ghosts)@.len()
                &&& (forall|i: int|
                    0 <= i < mid.len() ==> #[trigger] spec_ghost_slot_followed(
                        old(ghosts)@[i],
                        mid[i],
                        player_pos,
                        i,
                        old(ghosts)@.len() as usize,
                        formation,
                        play_width as int,
                        config.formation_spacing,
                        delta as int,
                    ))
                &&& final(ghosts)@ == spec_filter_band(mid, config.ghost_behavior)
            },
{
    let n: usize = ghosts.len();
    let total: usize = n;
    let mut k: usize = 0;
    while k < n
        invariant
            0 <= k <= n,
            n == ghosts@.len() == old(ghosts)@.len() == total,
            config.wf(),
            pos_wf(player_pos),
            0 <= delta <= DT_LIMIT,
            30_000 <= play_width <= POS_LIMIT,
            2 * config.formation_spacing.screen_edge_padding <= play_width,
            total <= 10_000,
            forall|i: int| k <= i < n ==> ghosts@[i] == #[trigger] old(ghosts)@[i],
            forall|i: int| 0 <= i < n ==> (#[trigger] ghosts@[i]).wf(),
            forall|i: int|
                0 <= i < k ==> #[trigger] spec_ghost_slot_followed(
                    old(ghosts)@[i],
                    ghosts@[i],
                    player_pos,
                    i,
                    old(ghosts)@.len() as usize,
                    formation,
                    play_width as int,
                    config.formation_spacing,
                    delta as int,
                ),
        decreases n - k,
    {
        let use_formation = crate::formation::deployed_formation(formation, total);
        let target: Position = crate::formation::calculate_formation_position(
            player_pos,
            k,
            total,
            use_formation,
            play_width,
            &config.formation_spacing,
        );
        let g = vstd::std_specs::vec::vec_index_mut(ghosts, k);
        if g.fire_timer - delta < 0 {
            g.fire_timer = 0;
        } else {
            g.fire_timer = g.fire_timer - delta;
        }
        let dd: i64 = crate::geom::distance_sq(g.pos, target);
        if dd > 4_000_000 {
            proof {
                assert(-60_000_000 <= (target.x - g.pos.x) * 3 <= 60_000_000 && -60_000_000_000i64
                    <= (target.x - g.pos.x) * 3 * delta <= 60_000_000_000i64 && -60_000_000 <= (
                target.y - g.pos.y) * 3 <= 60_000_000 && -60_000_000_000i64 <= (target.y - g.pos.y)
                    * 3 * delta <= 60_000_000_000i64) by (nonlinear_arith)
                    requires
                        -20_000_000 <= target.x - g.pos.x <= 20_000_000,
                        -20_000_000 <= target.y - g.pos.y <= 20_000_000,
                        0 <= delta <= 1000,
                ;
                crate::geom::lemma_div_t_magnitude((target.x - g.pos.x) * 3 * delta, 1000);
                crate::geom::lemma_div_t_magnitude((target.y - g.pos.y) * 3 * delta, 1000);
            }
            let sx: i64 = crate::geom::div_toward_zero((target.x - g.pos.x) * 3 * delta, 1000);
            let sy: i64 = crate::geom::div_toward_zero((target.y - g.pos.y) * 3 * delta, 1000);
            g.pos = Position {
                x: crate::geom::clamp_i64(g.pos.x + sx, -POS_LIMIT, POS_LIMIT),
                y: crate::geom::clamp_i64(g.pos.y + sy, -POS_LIMIT, POS_LIMIT),
            };
        }
        proof {
            assert(spec_ghost_slot_followed(
                old(ghosts)@[k as int],
                ghosts@[k as int],
                player_pos,
                k as int,
                old(ghosts)@.len() as usize,
                formation,
                play_width as int,
                config.formation_spacing,
                delta as int,
            )) by {
                assert(pos_wf(target) && crate::formation::spec_slot_target(
                    target,
                    player_pos,
                    k as int,
                    old(ghosts)@.len() as int,
                    crate::formation::spec_deployed_formation(
                        formation,
                        old(ghosts)@.len() as usize,
                    ),
                    play_width as int,
                    config.formation_spacing,
                ) && ghosts@[k as int] == GhostUnit {
                    pos: spec_ghost_follow(old(ghosts)@[k as int].pos, target, delta as int),
                    fire_timer: (if old(ghosts)@[k as int].fire_timer - delta < 0 {
                        0i64
                    } else {
                        (old(ghosts)@[k as int].fire_timer - delta) as i64
                    }),
                    ..old(ghosts)@[k as int]
                });
            }
        }
        k += 1;
    }
    let ghost mid = ghosts@;
    let mut rev: Vec<GhostUnit> = Vec::new();
    while ghosts.len() > 0
        invariant
            ghosts@.len() + rev@.len() == mid.len(),
            ghosts@ == mid.take(ghosts@.len() as int),
            forall|j: int| 0 <= j < rev@.len() ==> #[trigger] rev@[j] == mid[mid.len() - 1 - j],
            forall|i: int| 0 <= i < mid.len() ==> (#[trigger] mid[i]).wf(),
        decreases ghosts@.len(),
    {
        proof {
            assert(ghosts@.last() == mid[ghosts@.len() - 1]);
            assert(ghosts@.take(ghosts@.len() as int).drop_last() =~= mid.take(
                ghosts@.len() - 1,
            ));
        }
        let g = ghosts.pop().unwrap();
        rev.push(g);
    }
    let mut i: usize = 0;
    while rev.len() > 0
        invariant
            i + rev@.len() == total,
            total == mid.len(),
            config.wf(),
            forall|j: int| 0 <= j < rev@.len() ==> #[trigger] rev@[j] == mid[mid.len() - 1 - j],
            ghosts@ == spec_filter_band(mid.take(i as int), config.ghost_behavior),
            forall|ii: int| 0 <= ii < mid.len() ==> (#[trigger] mid[ii]).wf(),
            forall|ii: int| 0 <= ii < ghosts@.len() ==> (#[trigger] ghosts@[ii]).wf(),
            forall|ii: int|
                0 <= ii < ghosts@.len() ==> (#[trigger] ghosts@[ii]).pos.y
                    > config.ghost_behavior.screen_boundary_top && ghosts@[ii].pos.y
                    < GHOST_BOTTOM_LIMIT,
            ghosts@.len() <= i,
        decreases rev@.len(),
    {
        proof {
            assert(rev@.last() == mid[i as int]);
            assert(mid.take(i + 1).drop_last() =~= mid.take(i as int));
            assert(mid.take(i + 1).last() == mid[i as int]);
        }
        let g = rev.pop().unwrap();
        if g.pos.y > config.ghost_behavior.screen_boundary_top && g.pos.y < GHOST_BOTTOM_LIMIT {
            ghosts.push(g);
        }
        i += 1;
    }
    proof {
        assert(mid.take(mid.len() as int) =~= mid);
    }
}

/// The ghosts that stay on the field: those inside the vertical band, in
/// order.
pub open spec fn spec_filter_band(gs: Seq<GhostUnit>, cfg: GhostBehaviorConfig) -> Seq<GhostUnit>
    decreases gs.len(),
{
    if gs.len() == 0 {
        Seq::empty()
    } else {
        let rest = spec_filter_band(gs.drop_last(), cfg);
        if gs.last().pos.y > cfg.screen_boundary_top && gs.last().pos.y < GHOST_BOTTOM_LIMIT {
            rest.push(gs.last())
        } else {
            rest
        }
    }
}

/// Everything one auto-fire tick relates for one ghost, when enemies
/// remain: a ghost whose cooldown has run out emits exactly one random
/// loadout draw's shots at the first nearest enemy (with a missile lock on
/// that same nearest index) and its cooldown resets to the configured
/// interval; any other ghost emits nothing and is untouched.
pub open spec fn spec_ghost_fire_step(
    g0: GhostUnit,
    g1: GhostUnit,
    emitted: Seq<Projectile>,
    enemies: Seq<Enemy>,
    config: GameConfig,
) -> bool {
    if g0.fire_timer <= 0 {
        &&& g1 == GhostUnit { fire_timer: config.ghost_behavior.fire_interval, ..g0 }
        &&& (g0.weapon_type@.len() == 0 ==> emitted == Seq::<Projectile>::empty())
        &&& (g0.weapon_type@.len() > 0 ==> exists|wi: int, ti: int, lock: Option<usize>|
            {
                &&& 0 <= wi < g0.weapon_type@.len()
                &&& is_first_nearest_enemy(g0.pos, enemies, ti)
                &&& (match lock {
                    Some(li) => is_first_nearest_enemy(g0.pos, enemies, li as int),
                    None => false,
                })
                &&& emitted == #[trigger] spec_ghost_shots(
                    g0.weapon_type@[wi],
                    g0,
                    enemies[ti].pos,
                    lock,
                    config.ghost_behavior.projectile_speed as int,
                    config.weapons,
                )
            })
    } else {
        &&& g1 == g0
        &&& emitted == Seq::<Projectile>::empty()
    }
}

/// Auto-fire: every ghost whose cooldown has run out fires at the nearest
/// live enemy (none fire when no enemies remain) and its cooldown resets
/// to the configured interval, exactly as `spec_ghost_fire_step` relates
/// ghost by ghost; the emissions are appended after the existing
/// projectiles, in ghost order, all of them the allied side's.
#[verifier::rlimit(100)]
pub fn update_ghost_firing(
    ghosts: &mut Vec<GhostUnit>,
    enemies: &Vec<Enemy>,
    projectiles: &mut Vec<Projectile>,
    config: &GameConfig,
)
    requires
        config.wf(),
        forall|i: int| 0 <= i < old(ghosts)@.len() ==> (#[trigger] old(ghosts)@[i]).wf(),
        forall|i: int| 0 <= i < enemies@.len() ==> (#[trigger] enemies@[i]).wf(),
        forall|i: int| 0 <= i < old(projectiles)@.len() ==> (#[trigger] old(projectiles)@[i]).wf(),
    ensures
        final(ghosts)@.len() == old(ghosts)@.len(),
        forall|i: int| 0 <= i < final(ghosts)@.len() ==> (#[trigger] final(ghosts)@[i]).wf(),
        forall|i: int| 0 <= i < final(projectiles)@.len() ==> (#[trigger] final(projectiles)@[i]).wf(),
        final(projectiles)@.len() >= old(projectiles)@.len(),
        forall|i: int|
            0 <= i < old(projectiles)@.len() ==> #[trigger] final(projectiles)@[i]
                == old(projectiles)@[i],
        forall|i: int|
            old(projectiles)@.len() <= i < final(projectiles)@.len()
                ==> (#[trigger] final(projectiles)@[i]).owner is Ally,
        enemies@.len() == 0 ==> (final(projectiles)@ == old(projectiles)@ && final(ghosts)@
            == old(ghosts)@),
        enemies@.len() > 0 ==> exists|emitted: Seq<Seq<Projectile>>|
            {
                &&& emitted.len() == old(ghosts)@.len()
                &&& (forall|i: int|
                    0 <= i < old(ghosts)@.len() ==> #[trigger] spec_ghost_fire_step(
                        old(ghosts)@[i],
                        final(ghosts)@[i],
                        emitted[i],
                        enemies@,
                        *config,
                    ))
                &&& final(projectiles)@ == old(projectiles)@
                    + crate::weapons::spec_emissions_flat(emitted)
            },
{
    if enemies.len() == 0 {
        proof {
            assert(ghosts@ =~= old(ghosts)@);
        }
        return ;
    }
    let n: usize = ghosts.len();
    let mut k: usize = 0;
    let ghost mut emitted: Seq<Seq<Projectile>> = Seq::empty();
    proof {
        assert(projectiles@ =~= old(projectiles)@ + crate::weapons::spec_emissions_flat(emitted));
    }
    while k < n
        invariant
            0 <= k <= n,
            n == ghosts@.len() == old(ghosts)@.len(),
            config.wf(),
            enemies@.len() > 0,
            emitted.len() == k,
            forall|i: int| 0 <= i < enemies@.len() ==> (#[trigger] enemies@[i]).wf(),
            forall|i: int| k <= i < n ==> ghosts@[i] == #[trigger] old(ghosts)@[i],
            forall|i: int| 0 <= i < n ==> (#[trigger] ghosts@[i]).wf(),
            forall|i: int|
                0 <= i < k ==> #[trigger] spec_ghost_fire_step(
                    old(ghosts)@[i],
                    ghosts@[i],
                    emitted[i],
                    enemies@,
                    *config,
                ),
            forall|i: int| 0 <= i < projectiles@.len() ==> (#[trigger] projectiles@[i]).wf(),
            projectiles@.len() >= old(projectiles)@.len(),
            forall|i: int|
                0 <= i < old(projectiles)@.len() ==> #[trigger] projectiles@[i]
                    == old(projectiles)@[i],
            forall|i: int|
                old(projectiles)@.len() <= i < projectiles@.len()
                    ==> (#[trigger] projectiles@[i]).owner is Ally,
            projectiles@ == old(projectiles)@ + crate::weapons::spec_emissions_flat(emitted),
        decreases n - k,
    {
        let ghost pbefore = projectiles@;
        let ghost eprev = emitted;
        let ghost g0 = ghosts@[k as int];
        if ghosts[k].fire_timer <= 0 {
            let target_idx = crate::guidance::find_nearest_enemy_index(ghosts[k].pos, enemies);
            match target_idx {
                Some(ti) => {
                    let target: Position = enemies[ti].pos;
                    fire_ghost_weapon(
                        &ghosts[k],
                        target,
                        projectiles,
                        enemies,
                        config.ghost_behavior.projectile_speed,
                        &config.weapons,
                    );
                    let g = vstd::std_specs::vec::vec_index_mut(ghosts, k);
                    g.fire_timer = config.ghost_behavior.fire_interval;
                    proof {
                        let seg = projectiles@.skip(pbefore.len() as int);
                        if g0.weapon_type@.len() == 0 {
                            assert(seg =~= Seq::<Projectile>::empty());
                        } else {
                            let (wi, lock): (int, Option<usize>) = choose|
                                wi: int,
                                lock: Option<usize>,
                            |
                                {
                                    &&& 0 <= wi < g0.weapon_type@.len()
                                    &&& (match lock {
                                        Some(li) => is_first_nearest_enemy(
                                            g0.pos,
                                            enemies@,
                                            li as int,
                                        ),
                                        None => enemies@.len() == 0,
                                    })
                                    &&& projectiles@ == pbefore + #[trigger] spec_ghost_shots(
                                        g0.weapon_type@[wi],
                                        g0,
                                        target,
                                        lock,
                                        config.ghost_behavior.projectile_speed as int,
                                        config.weapons,
                                    )
                                };
                            assert(seg =~= spec_ghost_shots(
                                g0.weapon_type@[wi],
                                g0,
                                enemies@[ti as int].pos,
                                lock,
                                config.ghost_behavior.projectile_speed as int,
                                config.weapons,
                            ));
                            assert(is_first_nearest_enemy(g0.pos, enemies@, ti as int));
                        }
                        emitted = emitted.push(seg);
                        assert(spec_ghost_fire_step(
                            old(ghosts)@[k as int],
                            ghosts@[k as int],
                            seg,
                            enemies@,
                            *config,
                        ));
                        assert(crate::weapons::spec_emissions_flat(emitted)
                            =~= crate::weapons::spec_emissions_flat(eprev) + seg) by {
                            assert(emitted.drop_last() =~= eprev);
                            assert(emitted.last() == seg);
                        }
                        assert(projectiles@ =~= old(projectiles)@
                            + crate::weapons::spec_emissions_flat(emitted));
                    }
                },
                None => {
                    proof {
                        assert(false);
                    }
                },
            }
        } else {
            proof {
                let seg = Seq::<Projectile>::empty();
                emitted = emitted.push(seg);
                assert(spec_ghost_fire_step(
                    old(ghosts)@[k as int],
                    ghosts@[k as int],
                    seg,
                    enemies@,
                    *config,
                ));
                assert(crate::weapons::spec_emissions_flat(emitted)
                    =~= crate::weapons::spec_emissions_flat(eprev) + seg) by {
                    assert(emitted.drop_last() =~= eprev);
                    assert(emitted.last() == seg);
                }
                assert(projectiles@ =~= old(projectiles)@
                    + crate::weapons::spec_emissions_flat(emitted));
            }
        }
        k += 1;
    }
}

} // verus!
