//! The formation geometry engine: target positions for allied units in a
//! named layout. A layout may only be evaluated when the unit count
//! reaches its minimum; deployment substitutes the scattered fallback
//! otherwise, so degenerate geometry can never be requested.

use vstd::prelude::*;
use crate::geom::{Position, pos_wf, div_t, clamp_int, POS_LIMIT};
use crate::models::GhostFormation;
use crate::config::FormationSpacingConfig;

verus! {

/// An approximation of the sine of half a turn: `x` runs from 0 to 1000
/// over the half turn, the result is in thousandths.
pub open spec fn spec_sin_half_turn(x: int) -> int {
    (16_000 * x * (1000 - x)) / (5_000_000 - 4 * x * (1000 - x))
}

/// The sine of `phase` thousandths of a full turn, in thousandths.
pub open spec fn spec_sin_turn(phase: int) -> int {
    let p = if 0 <= phase < 1000 {
        phase
    } else {
        0int
    };
    if p <= 500 {
        spec_sin_half_turn(2 * p)
    } else {
        -spec_sin_half_turn(2 * (p - 500))
    }
}

/// The cosine of `phase` thousandths of a full turn: the sine a quarter
/// turn ahead.
pub open spec fn spec_cos_turn(phase: int) -> int {
    spec_sin_turn((phase + 250) % 1000)
}

/// Sine over a half turn by rational approximation; exact at both ends and
/// at the crest.
fn sin_half_turn(x: i64) -> (r: i64)
    requires
        0 <= x <= 1000,
    ensures
        r == spec_sin_half_turn(x as int),
        0 <= r <= 1000,
{
    proof {
        assert(0 <= 16_000 * x * (1000 - x) <= 4_000_000_000i64 && 0 <= 4 * x * (1000 - x)
            <= 1_000_000 && 16_000 * x * (1000 - x) <= 1000 * (5_000_000 - 4 * x * (1000 - x)))
            by (nonlinear_arith)
            requires
                0 <= x <= 1000,
        ;
        crate::geom::lemma_div_t_bound(
            16_000 * x * (1000 - x),
            5_000_000 - 4 * x * (1000 - x),
            1000,
        );
    }
    let num: i64 = 16_000 * x * (1000 - x);
    let den: i64 = 5_000_000 - 4 * x * (1000 - x);
    proof {
        assert(num / den >= 0) by (nonlinear_arith)
            requires
                num >= 0,
                den > 0,
        ;
    }
    num / den
}

/// The sine of `phase` thousandths of a full turn, in thousandths.
pub fn sin_turn(phase: i64) -> (r: i64)
    requires
        0 <= phase < 1000,
    ensures
        r == spec_sin_turn(phase as int),
        -1000 <= r <= 1000,
{
    if phase <= 500 {
        sin_half_turn(2 * phase)
    } else {
        -sin_half_turn(2 * (phase - 500))
    }
}

/// The cosine of `phase` thousandths of a full turn, in thousandths.
pub fn cos_turn(phase: i64) -> (r: i64)
    requires
        0 <= phase < 1000,
    ensures
        r == spec_cos_turn(phase as int),
        -1000 <= r <= 1000,
{
    let p: i64 = (phase + 250) % 1000;
    sin_turn(p)
}

/// The V-shape slot: sides alternate by index parity, each pair one rank
/// further out and higher up.
pub open spec fn spec_v_formation(player: Position, index: int, cfg: FormationSpacingConfig) -> Position {
    let side = if index % 2 == 0 {
        -1int
    } else {
        1int
    };
    let offset = index / 2 + 1;
    Position {
        x: clamp_int(
            player.x + side * offset * cfg.v_shape_spacing,
            -POS_LIMIT as int,
            POS_LIMIT as int,
        ) as i64,
        y: clamp_int(
            player.y - div_t(offset * cfg.v_shape_spacing * cfg.v_shape_vertical_factor, 1000),
            -POS_LIMIT as int,
            POS_LIMIT as int,
        ) as i64,
    }
}

/// The line slot: evenly spaced along the horizontal, centred on the
/// anchor, clamped inside the padded playfield, a fixed height above.
pub open spec fn spec_line_formation(
    player: Position,
    index: int,
    total: int,
    play_width: int,
    cfg: FormationSpacingConfig,
) -> Position {
    let x_offset = (2 * index - (total - 1)) * (cfg.line_spacing as int / 2);
    Position {
        x: clamp_int(
            clamp_int(player.x + x_offset, -POS_LIMIT as int, POS_LIMIT as int),
            cfg.screen_edge_padding as int,
            play_width - cfg.screen_edge_padding,
        ) as i64,
        y: clamp_int(player.y - cfg.line_height_offset, -POS_LIMIT as int, POS_LIMIT as int) as i64,
    }
}

/// The circle slot: evenly spaced by angle around the anchor at the
/// configured radius.
pub open spec fn spec_circle_formation(
    player: Position,
    index: int,
    total: int,
    cfg: FormationSpacingConfig,
) -> Position {
    let phase = (index * 1000) / total;
    Position {
        x: clamp_int(
            player.x + div_t(spec_cos_turn(phase) * cfg.circle_radius, 1000),
            -POS_LIMIT as int,
            POS_LIMIT as int,
        ) as i64,
        y: clamp_int(
            player.y + div_t(spec_sin_turn(phase) * cfg.circle_radius, 1000),
            -POS_LIMIT as int,
            POS_LIMIT as int,
        ) as i64,
    }
}

/// The box the scattered fallback draws its offsets from, relative to the
/// anchor: this far to either side, and between these two heights above.
pub const SCATTER_SPREAD_X: i64 = 100_000;

pub const SCATTER_MIN_ABOVE: i64 = 50_000;

pub const SCATTER_MAX_ABOVE: i64 = 150_000;

/// Compute the target position of ally `index` of `total` in the given
/// formation. The layout kinds are deterministic and exact; the scattered
/// fallback draws a pseudo-random offset within its bounded box above the
/// anchor, and only its box is promised.
///
/// A shaped layout must never be evaluated below its minimum unit count:
/// that is a precondition, and deployment satisfies it by substituting the
/// scattered fallback.
pub fn calculate_formation_position(
    player_pos: Position,
    ghost_index: usize,
    total_ghosts: usize,
    formation: GhostFormation,
    play_width: i64,
    config: &FormationSpacingConfig,
) -> (p: Position)
    requires
        pos_wf(player_pos),
        config.wf(),
        ghost_index < total_ghosts,
        total_ghosts <= 10_000,
        0 <= play_width <= POS_LIMIT,
        2 * config.screen_edge_padding <= play_width,
        formation is Scattered || total_ghosts >= formation.spec_min_ghost_count(),
    ensures
        pos_wf(p),
        spec_slot_target(
            p,
            player_pos,
            ghost_index as int,
            total_ghosts as int,
            formation,
            play_width as int,
            *config,
        ),
        formation is VShape ==> p == spec_v_formation(player_pos, ghost_index as int, *config),
        formation is Line ==> p == spec_line_formation(
            player_pos,
            ghost_index as int,
            total_ghosts as int,
            play_width as int,
            *config,
        ),
        formation is Circle ==> p == spec_circle_formation(
            player_pos,
            ghost_index as int,
            total_ghosts as int,
            *config,
        ),
        formation is Scattered ==> exists|dx: int, dy: int|
            {
                &&& -SCATTER_SPREAD_X <= dx <= SCATTER_SPREAD_X
                &&& SCATTER_MIN_ABOVE <= dy <= SCATTER_MAX_ABOVE
                &&& p.x == #[trigger] clamp_int(player_pos.x + dx, -POS_LIMIT as int, POS_LIMIT as int)
                &&& p.y == #[trigger] clamp_int(player_pos.y - dy, -POS_LIMIT as int, POS_LIMIT as int)
            },
{
    match formation {
        GhostFormation::VShape => {
            let side: i64 = if ghost_index % 2 == 0 {
                -1
            } else {
                1
            };
            let offset: i64 = (ghost_index as i64) / 2 + 1;
            proof {
                assert(-5_001_000_000i64 <= side * offset * config.v_shape_spacing
                    <= 5_001_000_000i64 && side * offset * config.v_shape_spacing == side * (offset
                    * config.v_shape_spacing) && 0 <= offset * config.v_shape_spacing
                    <= 5_001_000_000i64 && 0 <= offset * config.v_shape_spacing
                    * config.v_shape_vertical_factor <= 50_010_000_000_000i64)
                    by (nonlinear_arith)
                    requires
                        side == 1 || side == -1,
                        1 <= offset <= 5_001,
                        0 <= config.v_shape_spacing <= 1_000_000,
                        0 <= config.v_shape_vertical_factor <= 10_000,
                ;
                crate::geom::lemma_div_t_bound(
                    offset * config.v_shape_spacing * config.v_shape_vertical_factor,
                    1000,
                    50_010_000_000i64 as int,
                );
            }
            let vx: i64 = side * (offset * config.v_shape_spacing);
            let vy: i64 = crate::geom::div_toward_zero(
                offset * config.v_shape_spacing * config.v_shape_vertical_factor,
                1000,
            );
            proof {
                assert(side * (offset * config.v_shape_spacing) == side * offset
                    * config.v_shape_spacing) by (nonlinear_arith);
            }
            Position {
                x: crate::geom::clamp_i64(player_pos.x + vx, -POS_LIMIT, POS_LIMIT),
                y: crate::geom::clamp_i64(player_pos.y - vy, -POS_LIMIT, POS_LIMIT),
            }
        },
        GhostFormation::Line => {
            proof {
                assert(-10_000_000_000i64 <= (2 * (ghost_index as int) - (total_ghosts as int - 1))
                    * (config.line_spacing as int / 2) <= 10_000_000_000i64) by (nonlinear_arith)
                    requires
                        0 <= ghost_index < total_ghosts <= 10_000,
                        0 <= config.line_spacing as int / 2 <= 500_000,
                ;
            }
            let x_offset: i64 = (2 * (ghost_index as i64) - ((total_ghosts as i64) - 1))
                * (config.line_spacing / 2);
            Position {
                x: crate::geom::clamp_i64(
                    crate::geom::clamp_i64(player_pos.x + x_offset, -POS_LIMIT, POS_LIMIT),
                    config.screen_edge_padding,
                    play_width - config.screen_edge_padding,
                ),
                y: crate::geom::clamp_i64(
                    player_pos.y - config.line_height_offset,
                    -POS_LIMIT,
                    POS_LIMIT,
                ),
            }
        },
        GhostFormation::Circle => {
            let phase: i64 = ((ghost_index as i64) * 1000) / (total_ghosts as i64);
            proof {
                assert(0 <= (ghost_index as int * 1000) / (total_ghosts as int) < 1000)
                    by (nonlinear_arith)
                    requires
                        0 <= ghost_index < total_ghosts <= 10_000,
                ;
            }
            let c: i64 = cos_turn(phase);
            let s: i64 = sin_turn(phase);
            proof {
                assert(-1_000_000_000 <= c * config.circle_radius <= 1_000_000_000
                    && -1_000_000_000 <= s * config.circle_radius <= 1_000_000_000)
                    by (nonlinear_arith)
                    requires
                        -1000 <= c <= 1000,
                        -1000 <= s <= 1000,
                        0 <= config.circle_radius <= 1_000_000,
                ;
                crate::geom::lemma_div_t_bound(c * config.circle_radius, 1000, 1_000_000);
                crate::geom::lemma_div_t_bound(s * config.circle_radius, 1000, 1_000_000);
            }
            Position {
                x: crate::geom::clamp_i64(
                    player_pos.x + crate::geom::div_toward_zero(c * config.circle_radius, 1000),
                    -POS_LIMIT,
                    POS_LIMIT,
                ),
                y: crate::geom::clamp_i64(
                    player_pos.y + crate::geom::div_toward_zero(s * config.circle_radius, 1000),
                    -POS_LIMIT,
                    POS_LIMIT,
                ),
            }
        },
        GhostFormation::Scattered => {
            let dx: i64 = crate::rng::gen_range_i64(-SCATTER_SPREAD_X, SCATTER_SPREAD_X);
            let dy: i64 = crate::rng::gen_range_i64(SCATTER_MIN_ABOVE, SCATTER_MAX_ABOVE);
            let p = Position {
                x: crate::geom::clamp_i64(player_pos.x + dx, -POS_LIMIT, POS_LIMIT),
                y: crate::geom::clamp_i64(player_pos.y - dy, -POS_LIMIT, POS_LIMIT),
            };
            proof {
                assert(p.x == clamp_int(player_pos.x + dx as int, -POS_LIMIT as int, POS_LIMIT as int)
                    && p.y == clamp_int(
                    player_pos.y - dy as int,
                    -POS_LIMIT as int,
                    POS_LIMIT as int,
                ));
            }
            p
        },
    }
}

/// Everything a slot target of the given formation satisfies: the slot
/// point itself for each shaped layout, and for the scattered fallback a
/// point of its bounded box above the anchor.
pub open spec fn spec_slot_target(
    target: Position,
    player: Position,
    index: int,
    total: int,
    formation: GhostFormation,
    play_width: int,
    cfg: FormationSpacingConfig,
) -> bool {
    match formation {
        GhostFormation::VShape => target == spec_v_formation(player, index, cfg),
        GhostFormation::Line => target == spec_line_formation(player, index, total, play_width, cfg),
        GhostFormation::Circle => target == spec_circle_formation(player, index, total, cfg),
        GhostFormation::Scattered => exists|dx: int, dy: int|
            {
                &&& -SCATTER_SPREAD_X <= dx <= SCATTER_SPREAD_X
                &&& SCATTER_MIN_ABOVE <= dy <= SCATTER_MAX_ABOVE
                &&& target.x == #[trigger] clamp_int(player.x + dx, -POS_LIMIT as int, POS_LIMIT as int)
                &&& target.y == #[trigger] clamp_int(player.y - dy, -POS_LIMIT as int, POS_LIMIT as int)
            },
    }
}

/// The formation deployment actually uses for a unit count: the requested
/// one when it is valid for that count, the scattered fallback otherwise.
/// This substitution is a hard policy: it is what keeps a shaped layout
/// from ever being evaluated below its minimum count.
pub open spec fn spec_deployed_formation(requested: GhostFormation, count: usize) -> GhostFormation {
    if requested.spec_is_valid_for_count(count) {
        requested
    } else {
        GhostFormation::Scattered
    }
}

/// Pick the formation to deploy with: the requested one if valid for the
/// unit count, else the scattered fallback.
pub fn deployed_formation(requested: GhostFormation, count: usize) -> (f: GhostFormation)
    ensures
        f == spec_deployed_formation(requested, count),
        f is Scattered || count >= f.spec_min_ghost_count(),
{
    if requested.is_valid_for_count(count) {
        requested
    } else {
        GhostFormation::Scattered
    }
}

} // verus!
