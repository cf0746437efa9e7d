//! The unified weapon firing system: every combatant fires through one
//! entry point, which aims by a chosen strategy and emits projectiles by
//! the fixed per-weapon-kind rules.

use vstd::prelude::*;
use crate::geom::{
    Position, pos_wf, vel_wf, dist_sq, sqrt_floor, div_t, velocity_toward, lead_aim_point,
    calculate_velocity, calculate_lead_velocity, SPEED_LIMIT, POS_LIMIT,
};
use crate::models::{Projectile, ProjectileOwner, WeaponType, WeaponStats};
use crate::config::WeaponsConfig;

verus! {

/// Cosine of fifteen degrees, in ten-thousandths.
pub const COS_15_TENMIL: i64 = 9_659;

/// Sine of fifteen degrees, in ten-thousandths.
pub const SIN_15_TENMIL: i64 = 2_588;

/// The projectiles of these per-shooter emissions, in shooter order.
pub open spec fn spec_emissions_flat(parts: Seq<Seq<Projectile>>) -> Seq<Projectile>
    decreases parts.len(),
{
    if parts.len() == 0 {
        Seq::empty()
    } else {
        spec_emissions_flat(parts.drop_last()) + parts.last()
    }
}

/// Aiming strategy for a single firing event.
#[derive(Clone, Copy, PartialEq, Eq, Structural, Debug)]
pub enum FiringDirection {
    /// Fire straight up (the player's default).
    Up,
    /// Fire straight down (a basic enemy's default).
    Down,
    /// Fire directly at a point.
    AtTarget(Position),
    /// Predict an intercept from the target's position and velocity.
    LeadTarget { target_pos: Position, target_vel: Position },
}

impl FiringDirection {
    pub open spec fn wf(self) -> bool {
        match self {
            FiringDirection::Up => true,
            FiringDirection::Down => true,
            FiringDirection::AtTarget(t) => pos_wf(t),
            FiringDirection::LeadTarget { target_pos, target_vel } => pos_wf(target_pos)
                && vel_wf(target_vel),
        }
    }
}

/// Everything one firing event needs.
pub struct FireWeaponParams {
    pub shooter_pos: Position,
    pub owner: ProjectileOwner,
    pub weapon: WeaponType,
    pub direction: FiringDirection,
    /// Share of the weapon's base damage actually dealt, in thousandths.
    pub damage_multiplier: i64,
    /// Enemy positions for missile target locking (none for enemy shooters).
    pub enemies: Option<Vec<Position>>,
}

impl FireWeaponParams {
    pub open spec fn wf(self) -> bool {
        &&& pos_wf(self.shooter_pos)
        &&& self.direction.wf()
        &&& 0 <= self.damage_multiplier <= 1000
        &&& match self.enemies {
            Some(ps) => forall|i: int| 0 <= i < ps@.len() ==> pos_wf(#[trigger] ps@[i]),
            None => true,
        }
    }
}

/// The base velocity of a firing event: straight along an axis, direct aim,
/// or lead-target aim with its mandatory direct-aim fallback.
pub open spec fn spec_base_velocity(
    shooter: Position,
    direction: FiringDirection,
    speed: int,
) -> Position {
    match direction {
        FiringDirection::Up => Position { x: 0, y: -speed as i64 },
        FiringDirection::Down => Position { x: 0, y: speed as i64 },
        FiringDirection::AtTarget(t) => velocity_toward(shooter, t, speed),
        FiringDirection::LeadTarget { target_pos, target_vel } => velocity_toward(
            shooter,
            lead_aim_point(shooter, target_pos, target_vel, speed),
            speed,
        ),
    }
}

/// The point spread shots fan out toward: a fixed distance along the axis
/// for axis firing, else the aim target itself.
pub open spec fn spec_aim_target(shooter: Position, direction: FiringDirection) -> Position {
    match direction {
        FiringDirection::Up => Position {
            x: shooter.x,
            y: crate::geom::clamp_int(shooter.y - 100_000, -POS_LIMIT as int, POS_LIMIT as int) as i64,
        },
        FiringDirection::Down => Position {
            x: shooter.x,
            y: crate::geom::clamp_int(shooter.y + 100_000, -POS_LIMIT as int, POS_LIMIT as int) as i64,
        },
        FiringDirection::AtTarget(t) => t,
        FiringDirection::LeadTarget { target_pos, .. } => target_pos,
    }
}

/// Whether index `i` is the first position of `ps` at minimal squared
/// distance from `from` (ties break to the first minimum found).
pub open spec fn is_first_nearest(from: Position, ps: Seq<Position>, i: int) -> bool {
    &&& 0 <= i < ps.len()
    &&& forall|j: int| 0 <= j < ps.len() ==> dist_sq(from, ps[i]) <= dist_sq(from, #[trigger] ps[j])
    &&& forall|j: int| 0 <= j < i ==> dist_sq(from, #[trigger] ps[j]) > dist_sq(from, ps[i])
}

/// Find the position nearest to `from` (by squared distance, first minimum
/// wins) and return its index; nothing when the list is empty.
pub fn find_nearest_position_index(from: Position, positions: &Vec<Position>) -> (r: Option<usize>)
    requires
        pos_wf(from),
        forall|i: int| 0 <= i < positions@.len() ==> pos_wf(#[trigger] positions@[i]),
    ensures
        match r {
            None => positions@.len() == 0,
            Some(i) => is_first_nearest(from, positions@, i as int),
        },
{
    if positions.len() == 0 {
        return None;
    }
    let mut best: usize = 0;
    let mut best_d: i64 = crate::geom::distance_sq(from, positions[0]);
    let mut k: usize = 1;
    while k < positions.len()
        invariant
            1 <= k <= positions@.len(),
            0 <= best < k,
            pos_wf(from),
            forall|i: int| 0 <= i < positions@.len() ==> pos_wf(#[trigger] positions@[i]),
            best_d == dist_sq(from, positions@[best as int]),
            forall|j: int| 0 <= j < k ==> best_d <= dist_sq(from, #[trigger] positions@[j]),
            forall|j: int| 0 <= j < best ==> dist_sq(from, #[trigger] positions@[j]) > best_d,
        decreases positions@.len() - k,
    {
        let d: i64 = crate::geom::distance_sq(from, positions[k]);
        if d < best_d {
            best = k;
            best_d = d;
        }
        k += 1;
    }
    Some(best)
}

/// The damage a firing event deals: the weapon's base damage scaled by the
/// firer's multiplier (thousandths, rounded down).
pub open spec fn spec_final_damage(base: int, multiplier: int) -> int {
    (base * multiplier) / 1000
}

/// Base damage scaled by the firer's multiplier.
pub fn scaled_damage(base: i64, multiplier: i64) -> (d: i64)
    requires
        0 <= base <= crate::config::DMG_LIMIT,
        0 <= multiplier <= 1000,
    ensures
        d == spec_final_damage(base as int, multiplier as int),
        0 <= d <= base,
{
    proof {
        assert(0 <= base * multiplier <= base * 1000 && (base * multiplier) / 1000 <= base
            && (base * multiplier) / 1000 >= 0) by (nonlinear_arith)
            requires
                0 <= base,
                0 <= multiplier <= 1000,
        ;
    }
    (base * multiplier) / 1000
}

/// The velocity of one spread-shot projectile: the direction from `from` to
/// `to`, rotated by the angle whose cosine and sine are given in
/// ten-thousandths, scaled to `speed`.
pub open spec fn spec_rotated_velocity(
    from: Position,
    to: Position,
    speed: int,
    cos_tm: int,
    sin_tm: int,
) -> Position {
    let dx = to.x - from.x;
    let dy = to.y - from.y;
    let len = sqrt_floor(dist_sq(from, to));
    Position {
        x: div_t((dx * cos_tm - dy * sin_tm) * speed, len * 10_000) as i64,
        y: div_t((dx * sin_tm + dy * cos_tm) * speed, len * 10_000) as i64,
    }
}

/// Compute one spread-shot velocity; the aim target must be at least a
/// tenth of a pixel away.
pub fn calculate_spread_velocity(from: Position, to: Position, speed: i64, cos_tm: i64, sin_tm: i64) -> (v: Position)
    requires
        pos_wf(from),
        pos_wf(to),
        0 <= speed <= SPEED_LIMIT,
        -10_000 <= cos_tm <= 10_000,
        -10_000 <= sin_tm <= 10_000,
        dist_sq(from, to) >= 10_000,
    ensures
        v == spec_rotated_velocity(from, to, speed as int, cos_tm as int, sin_tm as int),
        -2 * speed <= v.x <= 2 * speed,
        -2 * speed <= v.y <= 2 * speed,
        vel_wf(v),
{
    let dx: i64 = to.x - from.x;
    let dy: i64 = to.y - from.y;
    let len: i64 = crate::geom::distance(from, to);
    proof {
        crate::geom::lemma_sqrt_floor_props(dist_sq(from, to));
        assert(len >= 100) by (nonlinear_arith)
            requires
                len == sqrt_floor(dist_sq(from, to)),
                len >= 0,
                (len + 1) * (len + 1) > dist_sq(from, to) >= 10_000,
        ;
        crate::geom::lemma_delta_le_distance(from, to);
        assert(-2 * (len * 10_000) <= dx * cos_tm - dy * sin_tm <= 2 * (len * 10_000) && -2 * (len
            * 10_000) <= dx * sin_tm + dy * cos_tm <= 2 * (len * 10_000) && -600_000_000_000i64
            <= dx * cos_tm - dy * sin_tm <= 600_000_000_000i64 && -600_000_000_000i64 <= dx
            * sin_tm + dy * cos_tm <= 600_000_000_000i64 && -300_000_000_000i64 <= dx * cos_tm
            <= 300_000_000_000i64 && -300_000_000_000i64 <= dy * sin_tm <= 300_000_000_000i64
            && -300_000_000_000i64 <= dx * sin_tm <= 300_000_000_000i64 && -300_000_000_000i64
            <= dy * cos_tm <= 300_000_000_000i64) by (nonlinear_arith)
            requires
                -len <= dx <= len,
                -len <= dy <= len,
                -10_000 <= cos_tm <= 10_000,
                -10_000 <= sin_tm <= 10_000,
                0 < len <= 30_000_000,
        ;
        assert(-2 * speed * (len * 10_000) <= (dx * cos_tm - dy * sin_tm) * speed <= 2 * speed
            * (len * 10_000) && -2 * speed * (len * 10_000) <= (dx * sin_tm + dy * cos_tm) * speed
            <= 2 * speed * (len * 10_000) && -600_000_000_000_000_000i64 <= (dx * cos_tm - dy
            * sin_tm) * speed <= 600_000_000_000_000_000i64 && -600_000_000_000_000_000i64 <= (dx
            * sin_tm + dy * cos_tm) * speed <= 600_000_000_000_000_000i64 && 0 < len * 10_000
            <= 300_000_000_000i64) by (nonlinear_arith)
            requires
                -2 * (len * 10_000) <= dx * cos_tm - dy * sin_tm <= 2 * (len * 10_000),
                -2 * (len * 10_000) <= dx * sin_tm + dy * cos_tm <= 2 * (len * 10_000),
                -600_000_000_000i64 <= dx * cos_tm - dy * sin_tm <= 600_000_000_000i64,
                -600_000_000_000i64 <= dx * sin_tm + dy * cos_tm <= 600_000_000_000i64,
                0 <= speed <= 1_000_000,
                0 < len <= 30_000_000,
        ;
        crate::geom::lemma_div_t_bound(
            (dx * cos_tm - dy * sin_tm) * speed,
            len * 10_000,
            2 * speed,
        );
        crate::geom::lemma_div_t_bound(
            (dx * sin_tm + dy * cos_tm) * speed,
            len * 10_000,
            2 * speed,
        );
    }
    let vx: i64 = crate::geom::div_toward_zero((dx * cos_tm - dy * sin_tm) * speed, len * 10_000);
    let vy: i64 = crate::geom::div_toward_zero((dx * sin_tm + dy * cos_tm) * speed, len * 10_000);
    Position { x: vx, y: vy }
}

/// A newly created projectile, before any tick has aged it.
pub open spec fn spec_new_projectile(
    pos: Position,
    velocity: Position,
    damage: int,
    weapon_type: WeaponType,
    owner: ProjectileOwner,
    piercing: bool,
    homing: bool,
    explosion_radius: int,
    locked_target_index: Option<usize>,
) -> Projectile {
    Projectile {
        pos,
        velocity,
        damage: damage as i64,
        weapon_type,
        owner,
        piercing,
        homing,
        explosion_radius: explosion_radius as i64,
        locked_target_index,
        lifetime: 0,
        trail_timer: 0,
    }
}

/// Build a projectile with every flag spelled out; age starts at zero.
pub fn create_projectile(
    pos: Position,
    velocity: Position,
    damage: i64,
    weapon_type: WeaponType,
    owner: ProjectileOwner,
    piercing: bool,
    homing: bool,
    explosion_radius: i64,
    locked_target_index: Option<usize>,
) -> (p: Projectile)
    requires
        pos_wf(pos),
        vel_wf(velocity),
        0 <= damage <= crate::config::DMG_LIMIT,
        0 <= explosion_radius <= POS_LIMIT,
        !(piercing && explosion_radius > 0),
    ensures
        p == spec_new_projectile(
            pos,
            velocity,
            damage as int,
            weapon_type,
            owner,
            piercing,
            homing,
            explosion_radius as int,
            locked_target_index,
        ),
        p.wf(),
{
    Projectile {
        pos,
        velocity,
        damage,
        weapon_type,
        owner,
        piercing,
        homing,
        explosion_radius,
        locked_target_index,
        lifetime: 0,
        trail_timer: 0,
    }
}

/// The explosion radius a bomb carries, by firer: the player's is widest,
/// an allied ghost's smaller, an enemy's smallest.
pub open spec fn spec_bomb_radius(owner: ProjectileOwner) -> int {
    match owner {
        ProjectileOwner::Player => 80_000int,
        ProjectileOwner::Ally => 70_000int,
        ProjectileOwner::Enemy => 60_000int,
    }
}

/// The homing lock a missile resolves at fire time: the nearest enemy by
/// squared distance for the player and allies (none without enemies); the
/// player's sentinel index for enemy missiles.
pub open spec fn spec_missile_lock(
    shooter: Position,
    owner: ProjectileOwner,
    enemies: Option<Vec<Position>>,
) -> Option<usize> {
    match owner {
        ProjectileOwner::Enemy => Some(0usize),
        _ => match enemies {
            None => None,
            Some(ps) => if ps@.len() == 0 {
                None
            } else {
                Some(choose|i: usize| is_first_nearest(shooter, ps@, i as int))
            },
        },
    }
}

/// The projectiles one firing event emits, in order. Standard shots, beams,
/// missiles and bombs emit one projectile each with their flags; spread
/// shots emit three rotated copies, or none when the aim direction is
/// degenerate (under a tenth of a pixel).
pub open spec fn spec_fired_projectiles(params: FireWeaponParams, config: WeaponsConfig) -> Seq<Projectile> {
    let ws = params.weapon.spec_weapon_stats(config);
    let speed = ws.projectile_speed as int;
    let vel = spec_base_velocity(params.shooter_pos, params.direction, speed);
    let aim = spec_aim_target(params.shooter_pos, params.direction);
    let dmg = spec_final_damage(ws.damage as int, params.damage_multiplier as int);
    match params.weapon {
        WeaponType::Bullet => seq![
            spec_new_projectile(
                params.shooter_pos,
                vel,
                dmg,
                params.weapon,
                params.owner,
                false,
                false,
                0,
                None,
            ),
        ],
        WeaponType::Laser => seq![
            spec_new_projectile(
                params.shooter_pos,
                vel,
                dmg,
                params.weapon,
                params.owner,
                true,
                false,
                0,
                None,
            ),
        ],
        WeaponType::Missile => seq![
            spec_new_projectile(
                params.shooter_pos,
                vel,
                dmg,
                params.weapon,
                params.owner,
                false,
                true,
                0,
                spec_missile_lock(params.shooter_pos, params.owner, params.enemies),
            ),
        ],
        WeaponType::Plasma => {
            if dist_sq(params.shooter_pos, aim) < 10_000 {
                Seq::empty()
            } else {
                seq![
                    spec_new_projectile(
                        params.shooter_pos,
                        spec_rotated_velocity(params.shooter_pos, aim, speed, COS_15_TENMIL as int, -SIN_15_TENMIL as int),
                        dmg,
                        params.weapon,
                        params.owner,
                        false,
                        false,
                        0,
                        None,
                    ),
                    spec_new_projectile(
                        params.shooter_pos,
                        spec_rotated_velocity(params.shooter_pos, aim, speed, 10_000, 0),
                        dmg,
                        params.weapon,
                        params.owner,
                        false,
                        false,
                        0,
                        None,
                    ),
                    spec_new_projectile(
                        params.shooter_pos,
                        spec_rotated_velocity(params.shooter_pos, aim, speed, COS_15_TENMIL as int, SIN_15_TENMIL as int),
                        dmg,
                        params.weapon,
                        params.owner,
                        false,
                        false,
                        0,
                        None,
                    ),
                ]
            }
        },
        WeaponType::Bombs => seq![
            spec_new_projectile(
                params.shooter_pos,
                vel,
                dmg,
                params.weapon,
                params.owner,
                false,
                false,
                spec_bomb_radius(params.owner),
                None,
            ),
        ],
    }
}

/// Fire one weapon: aim by the chosen strategy, then emit projectiles into
/// the shared list by the weapon kind's fixed rule. Every emitted
/// projectile is well formed, starts at the shooter, and carries the scaled
/// damage.
#[verifier::rlimit(60)]
pub fn fire_weapon(params: FireWeaponParams, projectiles: &mut Vec<Projectile>, config: &WeaponsConfig)
    requires
        params.wf(),
        config.wf(),
        forall|i: int| 0 <= i < old(projectiles)@.len() ==> (#[trigger] old(projectiles)@[i]).wf(),
    ensures
        final(projectiles)@ == old(projectiles)@ + spec_fired_projectiles(params, *config),
        forall|i: int| 0 <= i < final(projectiles)@.len() ==> (#[trigger] final(projectiles)@[i]).wf(),
{
    let ws: WeaponStats = params.weapon.get_weapon_stats(config);
    let speed: i64 = ws.projectile_speed;
    let base_velocity: Position = match params.direction {
        FiringDirection::Up => Position { x: 0, y: -speed },
        FiringDirection::Down => Position { x: 0, y: speed },
        FiringDirection::AtTarget(target) => calculate_velocity(params.shooter_pos, target, speed),
        FiringDirection::LeadTarget { target_pos, target_vel } => calculate_lead_velocity(
            params.shooter_pos,
            target_pos,
            target_vel,
            speed,
        ),
    };
    let target_pos: Position = match params.direction {
        FiringDirection::Up => Position {
            x: params.shooter_pos.x,
            y: crate::geom::clamp_i64(params.shooter_pos.y - 100_000, -POS_LIMIT, POS_LIMIT),
        },
        FiringDirection::Down => Position {
            x: params.shooter_pos.x,
            y: crate::geom::clamp_i64(params.shooter_pos.y + 100_000, -POS_LIMIT, POS_LIMIT),
        },
        FiringDirection::AtTarget(t) => t,
        FiringDirection::LeadTarget { target_pos, .. } => target_pos,
    };
    let final_damage: i64 = scaled_damage(ws.damage, params.damage_multiplier);
    match params.weapon {
        WeaponType::Bullet => {
            let p = create_projectile(
                params.shooter_pos,
                base_velocity,
                final_damage,
                params.weapon,
                params.owner,
                false,
                false,
                0,
                None,
            );
            projectiles.push(p);
        },
        WeaponType::Laser => {
            let p = create_projectile(
                params.shooter_pos,
                base_velocity,
                final_damage,
                params.weapon,
                params.owner,
                true,
                false,
                0,
                None,
            );
            projectiles.push(p);
        },
        WeaponType::Missile => {
            let locked_target: Option<usize> = match params.owner {
                ProjectileOwner::Player | ProjectileOwner::Ally => {
                    match &params.enemies {
                        Some(enemies) => {
                            let r = find_nearest_position_index(params.shooter_pos, enemies);
                            proof {
                                match r {
                                    Some(i) => {
                                        lemma_first_nearest_unique(
                                            params.shooter_pos,
                                            enemies@,
                                            i,
                                        );
                                    },
                                    None => {},
                                }
                            }
                            r
                        },
                        None => None,
                    }
                },
                ProjectileOwner::Enemy => Some(0),
            };
            let p = create_projectile(
                params.shooter_pos,
                base_velocity,
                final_damage,
                params.weapon,
                params.owner,
                false,
                true,
                0,
                locked_target,
            );
            projectiles.push(p);
        },
        WeaponType::Plasma => {
            let dd: i64 = crate::geom::distance_sq(params.shooter_pos, target_pos);
            if dd >= 10_000 {
                let v1 = calculate_spread_velocity(
                    params.shooter_pos,
                    target_pos,
                    speed,
                    COS_15_TENMIL,
                    -SIN_15_TENMIL,
                );
                let v2 = calculate_spread_velocity(params.shooter_pos, target_pos, speed, 10_000, 0);
                let v3 = calculate_spread_velocity(
                    params.shooter_pos,
                    target_pos,
                    speed,
                    COS_15_TENMIL,
                    SIN_15_TENMIL,
                );
                let p1 = create_projectile(
                    params.shooter_pos,
                    v1,
                    final_damage,
                    params.weapon,
                    params.owner,
                    false,
                    false,
                    0,
                    None,
                );
                let p2 = create_projectile(
                    params.shooter_pos,
                    v2,
                    final_damage,
                    params.weapon,
                    params.owner,
                    false,
                    false,
                    0,
                    None,
                );
                let p3 = create_projectile(
                    params.shooter_pos,
                    v3,
                    final_damage,
                    params.weapon,
                    params.owner,
                    false,
                    false,
                    0,
                    None,
                );
                projectiles.push(p1);
                projectiles.push(p2);
                projectiles.push(p3);
            }
        },
        WeaponType::Bombs => {
            let explosion_radius: i64 = match params.owner {
                ProjectileOwner::Player => 80_000,
                ProjectileOwner::Ally => 70_000,
                ProjectileOwner::Enemy => 60_000,
            };
            let p = create_projectile(
                params.shooter_pos,
                base_velocity,
                final_damage,
                params.weapon,
                params.owner,
                false,
                false,
                explosion_radius,
                None,
            );
            projectiles.push(p);
        },
    }
    proof {
        assert(projectiles@ =~= old(projectiles)@ + spec_fired_projectiles(params, *config));
    }
}

/// Only one index can be the first nearest position.
pub proof fn lemma_first_nearest_unique(from: Position, ps: Seq<Position>, i: usize)
    requires
        is_first_nearest(from, ps, i as int),
    ensures
        forall|j: int| is_first_nearest(from, ps, j) ==> j == i as int,
        (choose|k: usize| is_first_nearest(from, ps, k as int)) == i,
{
    assert forall|j: int| is_first_nearest(from, ps, j) implies j == i as int by {
        if j < i as int {
            assert(dist_sq(from, ps[j]) > dist_sq(from, ps[i as int]));
            assert(dist_sq(from, ps[j]) <= dist_sq(from, ps[i as int]));
        }
        if j > i as int {
            assert(dist_sq(from, ps[i as int]) > dist_sq(from, ps[j]));
            assert(dist_sq(from, ps[i as int]) <= dist_sq(from, ps[j]));
        }
    }
    let k = choose|k: usize| is_first_nearest(from, ps, k as int);
    assert(is_first_nearest(from, ps, k as int));
}

} // verus!
