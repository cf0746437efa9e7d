//! The parry: a short active window on a cooldown; while it is open, enemy
//! missiles near the player are deflected, becoming the player's own
//! projectiles flying back the way they came, faster.

use vstd::prelude::*;
use crate::geom::{Position, dist_sq, div_t, clamp_int, VEL_LIMIT};
use crate::models::{Player, Projectile, ProjectileOwner, WeaponType};
use crate::config::{GameConfig, CollisionConfig, AnimationConfig, DT_LIMIT};

verus! {

/// How far beyond the player's hitbox the parry reaches, in thousandths of
/// a pixel.
pub const PARRY_REACH: i64 = 20_000;

/// Attempt to enter the parry stance: refused while the cooldown runs or
/// when energy is short; otherwise the window opens, the energy cost is
/// paid, and the stance glow starts.
pub fn attempt_parry(player: &mut Player, config: &GameConfig) -> (ok: bool)
    requires
        old(player).wf(),
        config.wf(),
    ensures
        final(player).wf(),
        ok == (old(player).parry_cooldown <= 0 && old(player).energy
            >= config.player.parry_energy_cost),
        !ok ==> *final(player) == *old(player),
        ok ==> *final(player) == (Player {
            parry_active: true,
            parry_window: config.player.parry_window,
            energy: (old(player).energy - config.player.parry_energy_cost) as i64,
            parry_stance_glow_timer: config.animations.parry_stance_glow_duration,
            ..*old(player)
        }),
{
    if player.parry_cooldown > 0 {
        return false;
    }
    if player.energy < config.player.parry_energy_cost {
        return false;
    }
    player.parry_active = true;
    player.parry_window = config.player.parry_window;
    player.energy = player.energy - config.player.parry_energy_cost;
    player.parry_stance_glow_timer = config.animations.parry_stance_glow_duration;
    true
}

/// A timer one tick later: counted down, never below zero.
pub open spec fn spec_ticked(t: int, delta: int) -> int {
    if t > 0 {
        if t - delta < 0 {
            0int
        } else {
            t - delta
        }
    } else {
        t
    }
}

/// Advance the parry timers one tick. An open window counts down; when it
/// runs out unused, the stance closes, the cooldown starts, and the missed
/// parry animation plays. The cooldown and the animation timers count
/// down toward zero.
pub fn update_parry(player: &mut Player, config: &GameConfig, delta: i64)
    requires
        old(player).wf(),
        config.wf(),
        0 <= delta <= DT_LIMIT,
    ensures
        final(player).wf(),
        ({
            let missed = old(player).parry_active && old(player).parry_window - delta <= 0;
            &&& final(player).parry_active == (old(player).parry_active && !missed)
            &&& final(player).parry_window as int == (if old(player).parry_active {
                spec_ticked(old(player).parry_window as int, delta as int)
            } else {
                old(player).parry_window as int
            })
            &&& final(player).parry_cooldown as int == (if missed {
                config.player.parry_cooldown as int
            } else {
                spec_ticked(old(player).parry_cooldown as int, delta as int)
            })
            &&& final(player).parry_failed_timer as int == (if missed {
                config.animations.parry_failed_duration as int
            } else {
                spec_ticked(old(player).parry_failed_timer as int, delta as int)
            })
            &&& final(player).parry_success_scale_timer as int == spec_ticked(
                old(player).parry_success_scale_timer as int,
                delta as int,
            )
            &&& final(player).parry_stance_glow_timer as int == spec_ticked(
                old(player).parry_stance_glow_timer as int,
                delta as int,
            )
            &&& *final(player) == (Player {
                parry_active: final(player).parry_active,
                parry_window: final(player).parry_window,
                parry_cooldown: final(player).parry_cooldown,
                parry_failed_timer: final(player).parry_failed_timer,
                parry_success_scale_timer: final(player).parry_success_scale_timer,
                parry_stance_glow_timer: final(player).parry_stance_glow_timer,
                ..*old(player)
            })
        }),
{
    let mut missed: bool = false;
    if player.parry_active {
        let w0: i64 = player.parry_window;
        if w0 - delta < 0 {
            player.parry_window = 0;
        } else {
            player.parry_window = w0 - delta;
        }
        if w0 - delta <= 0 {
            missed = true;
            player.parry_active = false;
        }
    }
    if missed {
        player.parry_cooldown = config.player.parry_cooldown;
        player.parry_failed_timer = config.animations.parry_failed_duration;
    } else {
        if player.parry_cooldown > 0 {
            if player.parry_cooldown - delta < 0 {
                player.parry_cooldown = 0;
            } else {
                player.parry_cooldown = player.parry_cooldown - delta;
            }
        }
        if player.parry_failed_timer > 0 {
            if player.parry_failed_timer - delta < 0 {
                player.parry_failed_timer = 0;
            } else {
                player.parry_failed_timer = player.parry_failed_timer - delta;
            }
        }
    }
    if player.parry_success_scale_timer > 0 {
        if player.parry_success_scale_timer - delta < 0 {
            player.parry_success_scale_timer = 0;
        } else {
            player.parry_success_scale_timer = player.parry_success_scale_timer - delta;
        }
    }
    if player.parry_stance_glow_timer > 0 {
        if player.parry_stance_glow_timer - delta < 0 {
            player.parry_stance_glow_timer = 0;
        } else {
            player.parry_stance_glow_timer = player.parry_stance_glow_timer - delta;
        }
    }
}

/// Whether the open parry catches this projectile: an enemy missile within
/// reach of the player.
pub open spec fn spec_parryable(p: Projectile, player_pos: Position, reach: int) -> bool {
    &&& p.owner is Enemy
    &&& p.weapon_type is Missile
    &&& dist_sq(p.pos, player_pos) < reach * reach
}

/// A deflected projectile: now the player's, flying back the way it came
/// at one and a half times the speed (clamped into the modelled world),
/// homing again with its lock cleared so it finds a fresh target.
pub open spec fn spec_deflected(p: Projectile) -> Projectile {
    Projectile {
        owner: ProjectileOwner::Player,
        velocity: Position {
            x: clamp_int(div_t(p.velocity.x * -3, 2), -VEL_LIMIT as int, VEL_LIMIT as int) as i64,
            y: clamp_int(div_t(p.velocity.y * -3, 2), -VEL_LIMIT as int, VEL_LIMIT as int) as i64,
        },
        homing: true,
        locked_target_index: None,
        ..p
    }
}

/// While the parry window is open, deflect every enemy missile within
/// reach. A successful parry (at least one deflection) closes the stance,
/// starts the cooldown, and plays the success animation, extending the
/// stance glow to at least the bounce duration. With the stance closed,
/// nothing changes.
pub fn check_parry_projectiles(
    player: &mut Player,
    projectiles: &mut Vec<Projectile>,
    collision: &CollisionConfig,
    config: &GameConfig,
) -> (parried: usize)
    requires
        old(player).wf(),
        collision.wf(),
        config.wf(),
        forall|i: int| 0 <= i < old(projectiles)@.len() ==> (#[trigger] old(projectiles)@[i]).wf(),
    ensures
        final(player).wf(),
        final(projectiles)@.len() == old(projectiles)@.len(),
        forall|i: int| 0 <= i < final(projectiles)@.len() ==> (#[trigger] final(projectiles)@[i]).wf(),
        !old(player).parry_active ==> *final(player) == *old(player) && final(projectiles)@ == old(
            projectiles,
        )@ && parried == 0,
        old(player).parry_active ==> {
            &&& forall|i: int|
                0 <= i < final(projectiles)@.len() ==> #[trigger] final(projectiles)@[i] == (
                if spec_parryable(
                    old(projectiles)@[i],
                    old(player).pos,
                    collision.player_radius + PARRY_REACH,
                ) {
                    spec_deflected(old(projectiles)@[i])
                } else {
                    old(projectiles)@[i]
                })
            &&& (parried == 0 ==> *final(player) == *old(player))
            &&& (parried > 0 ==> *final(player) == (Player {
                parry_active: false,
                parry_cooldown: config.player.parry_cooldown,
                parry_success_scale_timer: config.animations.parry_success_duration,
                parry_stance_glow_timer: (if old(player).parry_stance_glow_timer
                    < config.animations.parry_success_duration {
                    config.animations.parry_success_duration
                } else {
                    old(player).parry_stance_glow_timer
                }),
                ..*old(player)
            }))
        },
{
    if !player.parry_active {
        return 0;
    }
    let reach: i64 = collision.player_radius + PARRY_REACH;
    proof {
        assert(0 <= reach * reach <= 200_000_000_000_000i64) by (nonlinear_arith)
            requires
                0 <= reach <= 10_020_000,
        ;
    }
    let rr: i64 = reach * reach;
    let n: usize = projectiles.len();
    let mut parried: usize = 0;
    let mut i: usize = 0;
    while i < n
        invariant
            0 <= i <= n,
            n == projectiles@.len() == old(projectiles)@.len(),
            old(player).wf(),
            *player == *old(player),
            collision.wf(),
            rr == reach * reach,
            reach == collision.player_radius + PARRY_REACH,
            forall|k: int| i <= k < n ==> projectiles@[k] == #[trigger] old(projectiles)@[k],
            forall|k: int| 0 <= k < n ==> (#[trigger] projectiles@[k]).wf(),
            forall|k: int|
                0 <= k < i ==> #[trigger] projectiles@[k] == (if spec_parryable(
                    old(projectiles)@[k],
                    old(player).pos,
                    reach as int,
                ) {
                    spec_deflected(old(projectiles)@[k])
                } else {
                    old(projectiles)@[k]
                }),
            parried <= i,
        decreases n - i,
    {
        let is_enemy_missile: bool = {
            let p = &projectiles[i];
            let owner_enemy = match p.owner {
                ProjectileOwner::Enemy => true,
                _ => false,
            };
            let is_missile = match p.weapon_type {
                WeaponType::Missile => true,
                _ => false,
            };
            owner_enemy && is_missile
        };
        if is_enemy_missile && crate::geom::distance_sq(projectiles[i].pos, player.pos) < rr {
            let p = vstd::std_specs::vec::vec_index_mut(projectiles, i);
            proof {
                assert(-24_000_000 <= p.velocity.x * -3 <= 24_000_000 && -24_000_000 <= p.velocity.y
                    * -3 <= 24_000_000) by (nonlinear_arith)
                    requires
                        -8_000_000 <= p.velocity.x <= 8_000_000,
                        -8_000_000 <= p.velocity.y <= 8_000_000,
                ;
                crate::geom::lemma_div_t_bound(p.velocity.x * -3, 2, 12_000_000);
                crate::geom::lemma_div_t_bound(p.velocity.y * -3, 2, 12_000_000);
            }
            p.owner = ProjectileOwner::Player;
            p.velocity = Position {
                x: crate::geom::clamp_i64(
                    crate::geom::div_toward_zero(p.velocity.x * -3, 2),
                    -VEL_LIMIT,
                    VEL_LIMIT,
                ),
                y: crate::geom::clamp_i64(
                    crate::geom::div_toward_zero(p.velocity.y * -3, 2),
                    -VEL_LIMIT,
                    VEL_LIMIT,
                ),
            };
            p.homing = true;
            p.locked_target_index = None;
            parried = parried + 1;
        }
        i += 1;
    }
    if parried > 0 {
        player.parry_active = false;
        player.parry_cooldown = config.player.parry_cooldown;
        player.parry_success_scale_timer = config.animations.parry_success_duration;
        if player.parry_stance_glow_timer < config.animations.parry_success_duration {
            player.parry_stance_glow_timer = config.animations.parry_success_duration;
        }
    }
    parried
}

} // verus!
