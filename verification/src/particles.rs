//! Visual-effect particles: per-tick integration and decay, and the
//! bursts that hits, deaths, parries, splits and projectile trails emit.
//! The renderer only draws them; the simulation owns their lifecycle.

use vstd::prelude::*;
use crate::geom::{Position, pos_wf, vel_wf, clamp_int, div_t, POS_LIMIT};
use crate::models::{Particle, ColorTint, Projectile, WeaponType, ProjectileOwner};
use crate::config::{ParticleConfig, TIME_LIMIT, DT_LIMIT};
use crate::formation::{sin_turn, cos_turn};

verus! {

/// What one particle tick relates: position integrated, lifetime counted
/// down, size shrunk by the decay rate (never below zero), velocity
/// scaled by the per-frame friction, colour untouched.
pub open spec fn spec_particle_stepped(o: Particle, n: Particle, cfg: ParticleConfig, delta: int) -> bool {
    &&& n.pos == crate::guidance::spec_integrate(o.pos, o.velocity, delta)
    &&& n.lifetime as int == (if o.lifetime - delta < 0 {
        0int
    } else {
        o.lifetime - delta
    })
    &&& n.max_lifetime == o.max_lifetime
    &&& n.color == o.color
    &&& n.size as int == (if o.size - div_t(o.size_decay * delta, 1000) < 0 {
        0int
    } else {
        o.size - div_t(o.size_decay * delta, 1000)
    })
    &&& n.size_decay == o.size_decay
    &&& n.velocity == Position {
        x: div_t(o.velocity.x * cfg.friction, 1000) as i64,
        y: div_t(o.velocity.y * cfg.friction, 1000) as i64,
    }
    &&& n.wf()
}

/// The particles that survive a tick: those with life left, in order.
pub open spec fn spec_filter_alive(ps: Seq<Particle>) -> Seq<Particle>
    decreases ps.len(),
{
    if ps.len() == 0 {
        Seq::empty()
    } else {
        let rest = spec_filter_alive(ps.drop_last());
        if ps.last().lifetime > 0 {
            rest.push(ps.last())
        } else {
            rest
        }
    }
}

/// Advance every particle one tick — drift with friction, shrink, burn
/// down — then drop the burnt-out ones.
pub fn update_particles(particles: &mut Vec<Particle>, config: &ParticleConfig, delta: i64)
    requires
        config.wf(),
        0 <= delta <= DT_LIMIT,
        forall|i: int| 0 <= i < old(particles)@.len() ==> (#[trigger] old(particles)@[i]).wf(),
    ensures
        final(particles)@.len() <= old(particles)@.len(),
        forall|i: int| 0 <= i < final(particles)@.len() ==> (#[trigger] final(particles)@[i]).wf(),
        forall|i: int| 0 <= i < final(particles)@.len() ==> (#[trigger] final(particles)@[i]).lifetime > 0,
        exists|mid: Seq<Particle>|
            {
                &&& mid.len() == old(particles)@.len()
                &&& (forall|i: int|
                    0 <= i < mid.len() ==> spec_particle_stepped(
                        (#[trigger] old(particles)@[i]),
                        mid[i],
                        *config,
                        delta as int,
                    ))
                &&& final(particles)@ == spec_filter_alive(mid)
            },
{
    let n: usize = particles.len();
    let total: usize = n;
    let mut k: usize = 0;
    while k < n
        invariant
            0 <= k <= n,
            n == particles@.len() == old(particles)@.len(),
            config.wf(),
            0 <= delta <= DT_LIMIT,
            forall|i: int| k <= i < n ==> particles@[i] == #[trigger] old(particles)@[i],
            forall|i: int| 0 <= i < n ==> (#[trigger] particles@[i]).wf(),
            forall|i: int|
                0 <= i < k ==> spec_particle_stepped(
                    (#[trigger] old(particles)@[i]),
                    particles@[i],
                    *config,
                    delta as int,
                ),
        decreases n - k,
    {
        let p = vstd::std_specs::vec::vec_index_mut(particles, k);
        p.pos = crate::guidance::integrate_position(p.pos, p.velocity, delta);
        if p.lifetime - delta < 0 {
            p.lifetime = 0;
        } else {
            p.lifetime = p.lifetime - delta;
        }
        proof {
            assert(0 <= p.size_decay * delta <= 10_000_000_000i64) by (nonlinear_arith)
                requires
                    0 <= p.size_decay <= 10_000_000,
                    0 <= delta <= 1000,
            ;
        }
        let shrink: i64 = (p.size_decay * delta) / 1000;
        if p.size - shrink < 0 {
            p.size = 0;
        } else {
            p.size = p.size - shrink;
        }
        proof {
            assert(-8_000_000_000i64 <= p.velocity.x * config.friction <= 8_000_000_000i64
                && -8_000_000_000i64 <= p.velocity.y * config.friction <= 8_000_000_000i64)
                by (nonlinear_arith)
                requires
                    -8_000_000 <= p.velocity.x <= 8_000_000,
                    -8_000_000 <= p.velocity.y <= 8_000_000,
                    0 <= config.friction <= 1000,
            ;
            crate::geom::lemma_div_t_bound(p.velocity.x * config.friction, 1000, 8_000_000);
            crate::geom::lemma_div_t_bound(p.velocity.y * config.friction, 1000, 8_000_000);
        }
        p.velocity = Position {
            x: crate::geom::div_toward_zero(p.velocity.x * config.friction, 1000),
            y: crate::geom::div_toward_zero(p.velocity.y * config.friction, 1000),
        };
        k += 1;
    }
    let ghost mid = particles@;
    let mut rev: Vec<Particle> = Vec::new();
    while particles.len() > 0
        invariant
            particles@.len() + rev@.len() == mid.len(),
            particles@ == mid.take(particles@.len() as int),
            forall|j: int| 0 <= j < rev@.len() ==> #[trigger] rev@[j] == mid[mid.len() - 1 - j],
            forall|i: int| 0 <= i < mid.len() ==> (#[trigger] mid[i]).wf(),
        decreases particles@.len(),
    {
        proof {
            assert(particles@.last() == mid[particles@.len() - 1]);
            assert(particles@.take(particles@.len() as int).drop_last() =~= mid.take(
                particles@.len() - 1,
            ));
        }
        let g = particles.pop().unwrap();
        rev.push(g);
    }
    let mut i: usize = 0;
    while rev.len() > 0
        invariant
            i + rev@.len() == total,
            total == mid.len(),
            forall|j: int| 0 <= j < rev@.len() ==> #[trigger] rev@[j] == mid[mid.len() - 1 - j],
            particles@ == spec_filter_alive(mid.take(i as int)),
            forall|ii: int| 0 <= ii < mid.len() ==> (#[trigger] mid[ii]).wf(),
            forall|ii: int| 0 <= ii < particles@.len() ==> (#[trigger] particles@[ii]).wf(),
            forall|ii: int| 0 <= ii < particles@.len() ==> (#[trigger] particles@[ii]).lifetime > 0,
            particles@.len() <= i,
        decreases rev@.len(),
    {
        proof {
            assert(rev@.last() == mid[i as int]);
            assert(mid.take(i + 1).drop_last() =~= mid.take(i as int));
            assert(mid.take(i + 1).last() == mid[i as int]);
        }
        let g = rev.pop().unwrap();
        if g.lifetime > 0 {
            particles.push(g);
        }
        i += 1;
    }
    proof {
        assert(mid.take(mid.len() as int) =~= mid);
    }
}

/// Emit a radial burst: `count` particles at `pos`, flying outward at
/// random angles with speeds, lifetimes and sizes drawn from the given
/// ranges. Whatever the draws, exactly `count` well-formed particles are
/// appended and nothing else changes.
pub fn spawn_radial_burst(
    particles: &mut Vec<Particle>,
    pos: Position,
    count: usize,
    speed_min: i64,
    speed_max: i64,
    lifetime_min: i64,
    lifetime_max: i64,
    size_min: i64,
    size_max: i64,
    color: ColorTint,
)
    requires
        pos_wf(pos),
        0 <= speed_min <= speed_max <= crate::geom::SPEED_LIMIT,
        0 < lifetime_min <= lifetime_max <= TIME_LIMIT,
        0 <= size_min <= size_max <= POS_LIMIT,
        count <= 10_000,
        forall|i: int| 0 <= i < old(particles)@.len() ==> (#[trigger] old(particles)@[i]).wf(),
    ensures
        final(particles)@.len() == old(particles)@.len() + count,
        forall|i: int|
            0 <= i < old(particles)@.len() ==> #[trigger] final(particles)@[i]
                == old(particles)@[i],
        forall|i: int| 0 <= i < final(particles)@.len() ==> (#[trigger] final(particles)@[i]).wf(),
        forall|i: int|
            old(particles)@.len() <= i < final(particles)@.len()
                ==> (#[trigger] final(particles)@[i]).pos == pos,
{
    let mut j: usize = 0;
    while j < count
        invariant
            0 <= j <= count,
            pos_wf(pos),
            0 <= speed_min <= speed_max <= crate::geom::SPEED_LIMIT,
            0 < lifetime_min <= lifetime_max <= TIME_LIMIT,
            0 <= size_min <= size_max <= POS_LIMIT,
            particles@.len() == old(particles)@.len() + j,
            forall|i: int|
                0 <= i < old(particles)@.len() ==> #[trigger] particles@[i]
                    == old(particles)@[i],
            forall|i: int| 0 <= i < particles@.len() ==> (#[trigger] particles@[i]).wf(),
            forall|i: int|
                old(particles)@.len() <= i < particles@.len() ==> (#[trigger] particles@[i]).pos
                    == pos,
        decreases count - j,
    {
        let phase: i64 = crate::rng::gen_range_i64(0, 999);
        let speed: i64 = crate::rng::gen_range_i64(speed_min, speed_max);
        let lifetime: i64 = crate::rng::gen_range_i64(lifetime_min, lifetime_max);
        let size: i64 = crate::rng::gen_range_i64(size_min, size_max);
        let c: i64 = cos_turn(phase);
        let s: i64 = sin_turn(phase);
        proof {
            assert(-1_000_000_000 <= c * speed <= 1_000_000_000 && -1_000_000_000 <= s * speed
                <= 1_000_000_000) by (nonlinear_arith)
                requires
                    -1000 <= c <= 1000,
                    -1000 <= s <= 1000,
                    0 <= speed <= 1_000_000,
            ;
            crate::geom::lemma_div_t_bound(c * speed, 1000, 1_000_000);
            crate::geom::lemma_div_t_bound(s * speed, 1000, 1_000_000);
        }
        let p = Particle {
            pos,
            velocity: Position {
                x: crate::geom::div_toward_zero(c * speed, 1000),
                y: crate::geom::div_toward_zero(s * speed, 1000),
            },
            lifetime,
            max_lifetime: lifetime,
            color,
            size,
            size_decay: 0,
        };
        particles.push(p);
        j += 1;
    }
}

/// The death burst an enemy leaves behind: three colour layers of radial
/// debris at the death position.
pub fn spawn_death_explosion(particles: &mut Vec<Particle>, pos: Position, config: &ParticleConfig)
    requires
        pos_wf(pos),
        config.wf(),
        config.death_red_count + config.death_orange_count + config.death_yellow_count <= 10_000,
        forall|i: int| 0 <= i < old(particles)@.len() ==> (#[trigger] old(particles)@[i]).wf(),
    ensures
        final(particles)@.len() == old(particles)@.len() + config.death_red_count
            + config.death_orange_count + config.death_yellow_count,
        forall|i: int| 0 <= i < final(particles)@.len() ==> (#[trigger] final(particles)@[i]).wf(),
        forall|i: int|
            0 <= i < old(particles)@.len() ==> #[trigger] final(particles)@[i]
                == old(particles)@[i],
{
    spawn_radial_burst(
        particles,
        pos,
        config.death_red_count,
        config.explosion_speed_min,
        config.explosion_speed_max,
        config.explosion_lifetime_min,
        config.explosion_lifetime_max,
        config.explosion_size_min,
        config.explosion_size_max,
        ColorTint { r: 1000, g: 200, b: 100, a: 1000 },
    );
    spawn_radial_burst(
        particles,
        pos,
        config.death_orange_count,
        config.explosion_speed_min,
        config.explosion_speed_max,
        config.explosion_lifetime_min,
        config.explosion_lifetime_max,
        config.explosion_size_min,
        config.explosion_size_max,
        ColorTint { r: 1000, g: 600, b: 100, a: 1000 },
    );
    spawn_radial_burst(
        particles,
        pos,
        config.death_yellow_count,
        config.explosion_speed_min,
        config.explosion_speed_max,
        config.explosion_lifetime_min,
        config.explosion_lifetime_max,
        config.explosion_size_min,
        config.explosion_size_max,
        ColorTint { r: 1000, g: 1000, b: 300, a: 1000 },
    );
}

/// The spark burst of a weapon hit, coloured and sized by the weapon kind.
pub fn spawn_weapon_particles(
    particles: &mut Vec<Particle>,
    pos: Position,
    weapon: WeaponType,
    config: &ParticleConfig,
)
    requires
        pos_wf(pos),
        config.wf(),
        forall|i: int| 0 <= i < old(particles)@.len() ==> (#[trigger] old(particles)@[i]).wf(),
    ensures
        forall|i: int| 0 <= i < final(particles)@.len() ==> (#[trigger] final(particles)@[i]).wf(),
        forall|i: int|
            0 <= i < old(particles)@.len() ==> #[trigger] final(particles)@[i]
                == old(particles)@[i],
        final(particles)@.len() == old(particles)@.len() + spec_weapon_particle_count(
            weapon,
            *config,
        ),
{
    let (count, color): (usize, ColorTint) = match weapon {
        WeaponType::Bullet => (
            config.bullet_particle_count,
            ColorTint { r: 1000, g: 1000, b: 600, a: 800 },
        ),
        WeaponType::Laser => (
            config.laser_particle_count,
            ColorTint { r: 200, g: 800, b: 1000, a: 900 },
        ),
        WeaponType::Missile => (
            config.missile_particle_count,
            ColorTint { r: 1000, g: 600, b: 200, a: 800 },
        ),
        WeaponType::Plasma => (
            config.plasma_particle_count,
            ColorTint { r: 800, g: 200, b: 1000, a: 800 },
        ),
        WeaponType::Bombs => (
            config.bomb_red_particle_count,
            ColorTint { r: 1000, g: 300, b: 0, a: 700 },
        ),
    };
    spawn_radial_burst(
        particles,
        pos,
        count,
        config.spark_speed_min,
        config.spark_speed_max,
        config.spark_lifetime_min,
        config.spark_lifetime_max,
        config.spark_size_min,
        config.spark_size_max,
        color,
    );
}

/// How many particles a weapon hit emits.
pub open spec fn spec_weapon_particle_count(weapon: WeaponType, config: ParticleConfig) -> usize {
    match weapon {
        WeaponType::Bullet => config.bullet_particle_count,
        WeaponType::Laser => config.laser_particle_count,
        WeaponType::Missile => config.missile_particle_count,
        WeaponType::Plasma => config.plasma_particle_count,
        WeaponType::Bombs => config.bomb_red_particle_count,
    }
}

/// The burst marking a hit on the player.
pub fn spawn_player_hit_effect(particles: &mut Vec<Particle>, pos: Position, config: &ParticleConfig)
    requires
        pos_wf(pos),
        config.wf(),
        forall|i: int| 0 <= i < old(particles)@.len() ==> (#[trigger] old(particles)@[i]).wf(),
    ensures
        forall|i: int| 0 <= i < final(particles)@.len() ==> (#[trigger] final(particles)@[i]).wf(),
        forall|i: int|
            0 <= i < old(particles)@.len() ==> #[trigger] final(particles)@[i]
                == old(particles)@[i],
        final(particles)@.len() == old(particles)@.len() + config.spark_count,
{
    spawn_radial_burst(
        particles,
        pos,
        config.spark_count,
        config.spark_speed_min,
        config.spark_speed_max,
        config.spark_lifetime_min,
        config.spark_lifetime_max,
        config.spark_size_min,
        config.spark_size_max,
        ColorTint { r: 1000, g: 200, b: 200, a: 900 },
    );
}

/// The blue-and-white flash of a successful parry.
pub fn spawn_parry_effect(particles: &mut Vec<Particle>, pos: Position, config: &ParticleConfig)
    requires
        pos_wf(pos),
        config.wf(),
        config.parry_blue_count + config.parry_white_count <= 10_000,
        forall|i: int| 0 <= i < old(particles)@.len() ==> (#[trigger] old(particles)@[i]).wf(),
    ensures
        forall|i: int| 0 <= i < final(particles)@.len() ==> (#[trigger] final(particles)@[i]).wf(),
        forall|i: int|
            0 <= i < old(particles)@.len() ==> #[trigger] final(particles)@[i]
                == old(particles)@[i],
        final(particles)@.len() == old(particles)@.len() + config.parry_blue_count
            + config.parry_white_count,
{
    spawn_radial_burst(
        particles,
        pos,
        config.parry_blue_count,
        config.spark_speed_min,
        config.spark_speed_max,
        config.spark_lifetime_min,
        config.spark_lifetime_max,
        config.spark_size_min,
        config.spark_size_max,
        ColorTint { r: 300, g: 600, b: 1000, a: 900 },
    );
    spawn_radial_burst(
        particles,
        pos,
        config.parry_white_count,
        config.spark_speed_min,
        config.spark_speed_max,
        config.spark_lifetime_min,
        config.spark_lifetime_max,
        config.spark_size_min,
        config.spark_size_max,
        ColorTint { r: 1000, g: 1000, b: 1000, a: 1000 },
    );
}

/// The burst shown when a splitter breaks apart; green for ghosts, orange
/// for enemies.
pub fn spawn_split_particles(
    particles: &mut Vec<Particle>,
    pos: Position,
    split_count: usize,
    is_ghost: bool,
    config: &ParticleConfig,
)
    requires
        pos_wf(pos),
        config.wf(),
        split_count <= 100,
        forall|i: int| 0 <= i < old(particles)@.len() ==> (#[trigger] old(particles)@[i]).wf(),
    ensures
        forall|i: int| 0 <= i < final(particles)@.len() ==> (#[trigger] final(particles)@[i]).wf(),
        forall|i: int|
            0 <= i < old(particles)@.len() ==> #[trigger] final(particles)@[i]
                == old(particles)@[i],
        final(particles)@.len() == old(particles)@.len() + split_count * 8 + 15,
{
    let color: ColorTint = if is_ghost {
        ColorTint { r: 200, g: 1000, b: 300, a: 900 }
    } else {
        ColorTint { r: 1000, g: 600, b: 100, a: 900 }
    };
    proof {
        assert(split_count * 8 <= 800) by (nonlinear_arith)
            requires
                split_count <= 100,
        ;
    }
    spawn_radial_burst(
        particles,
        pos,
        split_count * 8,
        20_000,
        120_000,
        500,
        800,
        3_000,
        6_000,
        color,
    );
    spawn_radial_burst(particles, pos, 15, 50_000, 120_000, 300, 600, 4_000, 8_000, color);
}

/// Advance projectile trails: every projectile whose trail timer has
/// passed the weapon kind's spawn interval sheds a few particles of its
/// kind's colour at its position and resets the timer. Appended particles
/// are well formed; projectiles change at most in their trail timers.
pub fn spawn_projectile_trails(
    projectiles: &mut Vec<Projectile>,
    particles: &mut Vec<Particle>,
    config: &ParticleConfig,
)
    requires
        config.wf(),
        forall|i: int| 0 <= i < old(projectiles)@.len() ==> (#[trigger] old(projectiles)@[i]).wf(),
        forall|i: int| 0 <= i < old(particles)@.len() ==> (#[trigger] old(particles)@[i]).wf(),
    ensures
        final(projectiles)@.len() == old(projectiles)@.len(),
        forall|i: int| 0 <= i < final(projectiles)@.len() ==> (#[trigger] final(projectiles)@[i]).wf(),
        forall|i: int|
            0 <= i < final(projectiles)@.len() ==> #[trigger] final(projectiles)@[i]
                == old(projectiles)@[i] || final(projectiles)@[i] == (Projectile {
                trail_timer: 0i64,
                ..old(projectiles)@[i]
            }),
        forall|i: int| 0 <= i < final(particles)@.len() ==> (#[trigger] final(particles)@[i]).wf(),
        forall|i: int|
            0 <= i < old(particles)@.len() ==> #[trigger] final(particles)@[i]
                == old(particles)@[i],
{
    let n: usize = projectiles.len();
    let mut k: usize = 0;
    while k < n
        invariant
            0 <= k <= n,
            n == projectiles@.len() == old(projectiles)@.len(),
            config.wf(),
            forall|i: int| k <= i < n ==> projectiles@[i] == #[trigger] old(projectiles)@[i],
            forall|i: int| 0 <= i < n ==> (#[trigger] projectiles@[i]).wf(),
            forall|i: int|
                0 <= i < k ==> #[trigger] projectiles@[i] == old(projectiles)@[i]
                    || projectiles@[i] == (Projectile {
                    trail_timer: 0i64,
                    ..old(projectiles)@[i]
                }),
            forall|i: int| 0 <= i < particles@.len() ==> (#[trigger] particles@[i]).wf(),
            particles@.len() >= old(particles)@.len(),
            forall|i: int|
                0 <= i < old(particles)@.len() ==> #[trigger] particles@[i]
                    == old(particles)@[i],
        decreases n - k,
    {
        let interval: i64 = match projectiles[k].weapon_type {
            WeaponType::Missile => config.trail_spawn_interval / 2,
            WeaponType::Laser => config.trail_spawn_interval / 100,
            WeaponType::Plasma => config.trail_spawn_interval * 3 / 4,
            WeaponType::Bombs => config.trail_spawn_interval,
            WeaponType::Bullet => config.trail_spawn_interval / 2,
        };
        let trail_count: usize = match projectiles[k].weapon_type {
            WeaponType::Laser => 20,
            WeaponType::Missile => 3,
            WeaponType::Plasma => 3,
            WeaponType::Bombs => 3,
            WeaponType::Bullet => 2,
        };
        if projectiles[k].trail_timer >= interval {
            let color: ColorTint = match projectiles[k].weapon_type {
                WeaponType::Missile => match projectiles[k].owner {
                    ProjectileOwner::Enemy => ColorTint { r: 900, g: 200, b: 200, a: 800 },
                    _ => ColorTint { r: 1000, g: 600, b: 200, a: 800 },
                },
                WeaponType::Laser => ColorTint { r: 200, g: 800, b: 1000, a: 900 },
                WeaponType::Plasma => ColorTint { r: 800, g: 200, b: 1000, a: 800 },
                WeaponType::Bombs => ColorTint { r: 1000, g: 300, b: 0, a: 700 },
                WeaponType::Bullet => ColorTint { r: 1000, g: 1000, b: 600, a: 600 },
            };
            let pos: Position = projectiles[k].pos;
            spawn_radial_burst(
                particles,
                pos,
                trail_count,
                1_000,
                10_000,
                config.trail_lifetime,
                config.trail_lifetime,
                config.trail_size,
                config.trail_size,
                color,
            );
            let pr = vstd::std_specs::vec::vec_index_mut(projectiles, k);
            pr.trail_timer = 0;
        }
        k += 1;
    }
}

} // verus!
