//! Per-tick player state: movement from the input intent, the velocity
//! estimate that enemy lead targeting reads, screen clamping, and the
//! hit-flash countdown.

use vstd::prelude::*;
use crate::geom::{Position, div_t, clamp_int, POS_LIMIT, VEL_LIMIT};
use crate::models::Player;
use crate::config::{GameConfig, DT_LIMIT};

verus! {

/// Advance the player one tick: move by the input intent at the configured
/// speed, clamp onto the playfield (horizontally inside the edges,
/// vertically the bottom half), estimate the velocity from the previous
/// frame's movement for lead targeting, and count the hit flash down.
/// Health is floored at zero.
pub fn update_player(player: &mut Player, config: &GameConfig, play_width: i64, play_height: i64, delta: i64)
    requires
        old(player).wf(),
        config.wf(),
        0 <= delta <= DT_LIMIT,
        30_000 <= play_width <= POS_LIMIT,
        30_000 <= play_height <= POS_LIMIT,
    ensures
        final(player).wf(),
        ({
            let speed = config.player.movement_speed as int;
            let step_x = div_t(old(player).input_direction.x * speed * delta, 1_000_000);
            let step_y = div_t(old(player).input_direction.y * speed * delta, 1_000_000);
            let moved_x = clamp_int(old(player).pos.x + step_x, -POS_LIMIT as int, POS_LIMIT as int);
            let moved_y = clamp_int(old(player).pos.y + step_y, -POS_LIMIT as int, POS_LIMIT as int);
            let nx = clamp_int(moved_x, 15_000, play_width - 15_000);
            let ny = clamp_int(moved_y, play_height as int / 2, play_height - 15_000);
            &&& final(player).pos.x == nx
            &&& final(player).pos.y == ny
            &&& final(player).last_pos == final(player).pos
            &&& (delta > 0 ==> final(player).velocity == Position {
                x: clamp_int(
                    div_t((nx - old(player).last_pos.x) * 1000, delta as int),
                    -VEL_LIMIT as int,
                    VEL_LIMIT as int,
                ) as i64,
                y: clamp_int(
                    div_t((ny - old(player).last_pos.y) * 1000, delta as int),
                    -VEL_LIMIT as int,
                    VEL_LIMIT as int,
                ) as i64,
            })
            &&& (delta == 0 ==> final(player).velocity == old(player).velocity)
            &&& final(player).hit_flash_timer as int == (if old(player).hit_flash_timer > 0 {
                if old(player).hit_flash_timer - delta < 0 {
                    0int
                } else {
                    old(player).hit_flash_timer - delta
                }
            } else {
                old(player).hit_flash_timer as int
            })
            &&& final(player).stats.health == (if old(player).stats.health <= 0 {
                0i64
            } else {
                old(player).stats.health
            })
            &&& *final(player) == (Player {
                pos: final(player).pos,
                last_pos: final(player).last_pos,
                velocity: final(player).velocity,
                hit_flash_timer: final(player).hit_flash_timer,
                stats: final(player).stats,
                ..*old(player)
            })
            &&& final(player).stats == (crate::models::Stats {
                health: final(player).stats.health,
                ..old(player).stats
            })
        }),
{
    let speed: i64 = config.player.movement_speed;
    proof {
        assert(-1_000_000_000 <= player.input_direction.x * speed <= 1_000_000_000
            && -1_000_000_000_000i64 <= player.input_direction.x * speed * delta
            <= 1_000_000_000_000i64 && -1_000_000_000 <= player.input_direction.y * speed
            <= 1_000_000_000 && -1_000_000_000_000i64 <= player.input_direction.y * speed * delta
            <= 1_000_000_000_000i64) by (nonlinear_arith)
            requires
                -1000 <= player.input_direction.x <= 1000,
                -1000 <= player.input_direction.y <= 1000,
                0 <= speed <= 1_000_000,
                0 <= delta <= 1000,
        ;
        crate::geom::lemma_div_t_bound(
            player.input_direction.x * speed * delta,
            1_000_000,
            1_000_000,
        );
        crate::geom::lemma_div_t_bound(
            player.input_direction.y * speed * delta,
            1_000_000,
            1_000_000,
        );
    }
    let step_x: i64 = crate::geom::div_toward_zero(
        player.input_direction.x * speed * delta,
        1_000_000,
    );
    let step_y: i64 = crate::geom::div_toward_zero(
        player.input_direction.y * speed * delta,
        1_000_000,
    );
    let moved_x: i64 = crate::geom::clamp_i64(player.pos.x + step_x, -POS_LIMIT, POS_LIMIT);
    let moved_y: i64 = crate::geom::clamp_i64(player.pos.y + step_y, -POS_LIMIT, POS_LIMIT);
    let nx: i64 = crate::geom::clamp_i64(moved_x, 15_000, play_width - 15_000);
    let ny: i64 = crate::geom::clamp_i64(moved_y, play_height / 2, play_height - 15_000);
    let old_last: Position = player.last_pos;
    player.pos = Position { x: nx, y: ny };
    player.last_pos = player.pos;
    if delta > 0 {
        proof {
            assert(-20_000_000_000i64 <= (nx - old_last.x) * 1000 <= 20_000_000_000i64
                && -20_000_000_000i64 <= (ny - old_last.y) * 1000 <= 20_000_000_000i64)
                by (nonlinear_arith)
                requires
                    -20_000_000 <= nx - old_last.x <= 20_000_000,
                    -20_000_000 <= ny - old_last.y <= 20_000_000,
            ;
            crate::geom::lemma_div_t_magnitude((nx - old_last.x) * 1000, delta as int);
            crate::geom::lemma_div_t_magnitude((ny - old_last.y) * 1000, delta as int);
        }
        let vx: i64 = crate::geom::div_toward_zero((nx - old_last.x) * 1000, delta);
        let vy: i64 = crate::geom::div_toward_zero((ny - old_last.y) * 1000, delta);
        player.velocity = Position {
            x: crate::geom::clamp_i64(vx, -VEL_LIMIT, VEL_LIMIT),
            y: crate::geom::clamp_i64(vy, -VEL_LIMIT, VEL_LIMIT),
        };
    }
    if player.hit_flash_timer > 0 {
        if player.hit_flash_timer - delta < 0 {
            player.hit_flash_timer = 0;
        } else {
            player.hit_flash_timer = player.hit_flash_timer - delta;
        }
    }
    if player.stats.health <= 0 {
        player.stats.health = 0;
    }
}

} // verus!
