//! Numeric tunables, grouped as the persisted configuration document
//! groups them. All durations are milliseconds, all lengths thousandths of
//! a pixel, all points (health, damage, energy) thousandths of a point,
//! and all dimensionless fractions thousandths.

use vstd::prelude::*;
use crate::geom::{POS_LIMIT, SPEED_LIMIT};
use crate::models::WeaponStats;

verus! {

/// Health and damage values stay within this limit (a million points).
pub const HP_LIMIT: i64 = 1_000_000_000;

/// Damage values stay within this limit.
pub const DMG_LIMIT: i64 = 1_000_000_000;

/// Energy values stay within this limit.
pub const ENERGY_LIMIT: i64 = 1_000_000_000;

/// Timers and configured durations stay within this limit (a day).
pub const TIME_LIMIT: i64 = 86_400_000;

/// A single tick advances time by at most this much (one second).
pub const DT_LIMIT: i64 = 1_000;

/// Spawn counts and particle counts stay within this limit.
pub const COUNT_LIMIT: usize = 100_000;

/// Window parameters consumed by the presentation layer.
#[derive(Clone, Debug)]
pub struct WindowConfig {
    pub title: String,
    pub width: i32,
    pub height: i32,
    pub target_fps: u32,
}

/// Player tunables.
#[derive(Clone, Debug)]
pub struct PlayerConfig {
    pub starting_health: i64,
    pub max_health: i64,
    pub starting_energy: i64,
    pub max_energy: i64,
    pub movement_speed: i64,
    pub starting_weapons: Vec<String>,
    pub parry_cooldown: i64,
    pub parry_window: i64,
    pub parry_energy_cost: i64,
}

impl PlayerConfig {
    pub open spec fn wf(self) -> bool {
        &&& 0 <= self.starting_health <= self.max_health <= HP_LIMIT
        &&& 0 <= self.starting_energy <= self.max_energy <= ENERGY_LIMIT
        &&& 0 <= self.movement_speed <= SPEED_LIMIT
        &&& 0 <= self.parry_cooldown <= TIME_LIMIT
        &&& 0 <= self.parry_window <= TIME_LIMIT
        &&& 0 <= self.parry_energy_cost <= ENERGY_LIMIT
    }
}

/// Energy regeneration rates, in thousandths of a point per second.
#[derive(Clone, Copy, PartialEq, Eq, Structural, Debug)]
pub struct EnergyConfig {
    pub regen_rate_idle: i64,
    pub regen_rate_active: i64,
}

impl EnergyConfig {
    pub open spec fn wf(self) -> bool {
        &&& 0 <= self.regen_rate_idle <= ENERGY_LIMIT
        &&& 0 <= self.regen_rate_active <= ENERGY_LIMIT
    }
}

/// Stats of one ordinary entity kind.
#[derive(Clone, Debug)]
pub struct EntityStats {
    pub health: i64,
    pub damage: i64,
    pub energy_cost: i64,
    pub fire_interval: i64,
    pub weapons: Vec<String>,
}

impl EntityStats {
    pub open spec fn wf(self) -> bool {
        &&& 0 <= self.health <= HP_LIMIT
        &&& 0 <= self.damage <= DMG_LIMIT
        &&& 0 <= self.energy_cost <= ENERGY_LIMIT
        &&& 0 <= self.fire_interval <= TIME_LIMIT
    }
}

/// Stats of the healer kind, with its healing field.
#[derive(Clone, Debug)]
pub struct HealerStats {
    pub health: i64,
    pub damage: i64,
    pub energy_cost: i64,
    pub fire_interval: i64,
    pub weapons: Vec<String>,
    /// Thousandths of a point healed per second.
    pub heal_rate: i64,
    /// Radius of the healing field.
    pub heal_radius: i64,
}

impl HealerStats {
    pub open spec fn wf(self) -> bool {
        &&& 0 <= self.health <= HP_LIMIT
        &&& 0 <= self.damage <= DMG_LIMIT
        &&& 0 <= self.energy_cost <= ENERGY_LIMIT
        &&& 0 <= self.fire_interval <= TIME_LIMIT
        &&& 0 <= self.heal_rate <= HP_LIMIT
        &&& 0 <= self.heal_radius <= POS_LIMIT
    }
}

/// Stats of the splitter kind, with its splitting rule.
#[derive(Clone, Debug)]
pub struct SplitterStats {
    pub health: i64,
    pub damage: i64,
    pub energy_cost: i64,
    pub fire_interval: i64,
    pub weapons: Vec<String>,
    /// How many children a splitter leaves behind.
    pub split_count: usize,
    /// Each child's health as thousandths of the parent's maximum.
    pub split_health_ratio: i64,
    /// Speed boost for children, in thousandths.
    pub split_speed_multiplier: i64,
}

impl SplitterStats {
    pub open spec fn wf(self) -> bool {
        &&& 0 <= self.health <= HP_LIMIT
        &&& 0 <= self.damage <= DMG_LIMIT
        &&& 0 <= self.energy_cost <= ENERGY_LIMIT
        &&& 0 <= self.fire_interval <= TIME_LIMIT
        &&& 0 < self.split_count <= 100
        &&& 0 <= self.split_health_ratio <= 1_000
        &&& 0 <= self.split_speed_multiplier <= 10_000
    }
}

/// Stats for every entity kind.
#[derive(Clone, Debug)]
pub struct EntitiesConfig {
    pub basic_fighter: EntityStats,
    pub sniper: EntityStats,
    pub tank: EntityStats,
    pub elite: EntityStats,
    pub healer: HealerStats,
    pub splitter: SplitterStats,
}

impl EntitiesConfig {
    pub open spec fn wf(self) -> bool {
        &&& self.basic_fighter.wf()
        &&& self.sniper.wf()
        &&& self.tank.wf()
        &&& self.elite.wf()
        &&& self.healer.wf()
        &&& self.splitter.wf()
    }
}

/// Stats for every weapon kind.
#[derive(Clone, Copy, PartialEq, Eq, Structural, Debug)]
pub struct WeaponsConfig {
    pub bullet: WeaponStats,
    pub laser: WeaponStats,
    pub missile: WeaponStats,
    pub plasma: WeaponStats,
    pub bombs: WeaponStats,
}

impl WeaponsConfig {
    pub open spec fn wf(self) -> bool {
        &&& self.bullet.wf()
        &&& self.laser.wf()
        &&& self.missile.wf()
        &&& self.plasma.wf()
        &&& self.bombs.wf()
    }
}

/// Spawning mode and timing.
#[derive(Clone, Debug)]
pub struct SpawningConfig {
    /// True runs the scripted wave campaign; false spawns at random.
    pub wave_mode: bool,
    pub wave_count: usize,
    pub enemy_spawn_interval: i64,
    pub initial_delay: i64,
}

impl SpawningConfig {
    pub open spec fn wf(self) -> bool {
        &&& self.wave_count <= COUNT_LIMIT
        &&& 0 <= self.enemy_spawn_interval <= TIME_LIMIT
        &&& 0 <= self.initial_delay <= TIME_LIMIT
    }
}

/// Configured formation count thresholds.
#[derive(Clone, Copy, PartialEq, Eq, Structural, Debug)]
pub struct FormationsConfig {
    pub v_shape_min: usize,
    pub v_shape_optimal: usize,
    pub line_min: usize,
    pub line_optimal: usize,
    pub circle_min: usize,
    pub circle_optimal: usize,
}

/// Developer toggles.
#[derive(Clone, Copy, PartialEq, Eq, Structural, Debug)]
pub struct DebugConfig {
    pub show_hitboxes: bool,
    pub show_fps: bool,
}

/// Collision radii.
#[derive(Clone, Copy, PartialEq, Eq, Structural, Debug)]
pub struct CollisionConfig {
    pub projectile_radius: i64,
    pub enemy_radius: i64,
    pub player_radius: i64,
    pub ghost_radius: i64,
}

impl CollisionConfig {
    pub open spec fn wf(self) -> bool {
        &&& 0 <= self.projectile_radius <= POS_LIMIT
        &&& 0 <= self.enemy_radius <= POS_LIMIT
        &&& 0 <= self.player_radius <= POS_LIMIT
        &&& 0 <= self.ghost_radius <= POS_LIMIT
    }
}

/// Ghost behaviour tunables.
#[derive(Clone, Copy, PartialEq, Eq, Structural, Debug)]
pub struct GhostBehaviorConfig {
    pub fire_interval: i64,
    pub movement_threshold_y: i64,
    pub fast_ascent_speed: i64,
    pub slow_hover_speed: i64,
    pub projectile_speed: i64,
    pub screen_boundary_top: i64,
}

impl GhostBehaviorConfig {
    pub open spec fn wf(self) -> bool {
        &&& 0 <= self.fire_interval <= TIME_LIMIT
        &&& -POS_LIMIT <= self.movement_threshold_y <= POS_LIMIT
        &&& 0 <= self.fast_ascent_speed <= SPEED_LIMIT
        &&& 0 <= self.slow_hover_speed <= SPEED_LIMIT
        &&& 0 <= self.projectile_speed <= SPEED_LIMIT
        &&& -POS_LIMIT <= self.screen_boundary_top <= POS_LIMIT
    }
}

/// Enemy behaviour tunables.
#[derive(Clone, Copy, PartialEq, Eq, Structural, Debug)]
pub struct EnemyBehaviorConfig {
    pub movement_threshold_y: i64,
    pub fast_descent_speed: i64,
    pub slow_hover_speed: i64,
    pub fire_threshold_y: i64,
    pub screen_boundary_bottom: i64,
    pub basic_projectile_speed_y: i64,
}

impl EnemyBehaviorConfig {
    pub open spec fn wf(self) -> bool {
        &&& -POS_LIMIT <= self.movement_threshold_y <= POS_LIMIT
        &&& 0 <= self.fast_descent_speed <= SPEED_LIMIT
        &&& 0 <= self.slow_hover_speed <= SPEED_LIMIT
        &&& -POS_LIMIT <= self.fire_threshold_y <= POS_LIMIT
        &&& -POS_LIMIT <= self.screen_boundary_bottom <= POS_LIMIT
        &&& 0 <= self.basic_projectile_speed_y <= SPEED_LIMIT
    }
}

/// Spacing of the formation layouts.
#[derive(Clone, Copy, PartialEq, Eq, Structural, Debug)]
pub struct FormationSpacingConfig {
    pub v_shape_spacing: i64,
    /// Vertical step per rank as thousandths of the horizontal spacing.
    pub v_shape_vertical_factor: i64,
    pub line_spacing: i64,
    pub line_height_offset: i64,
    pub circle_radius: i64,
    pub screen_edge_padding: i64,
}

impl FormationSpacingConfig {
    pub open spec fn wf(self) -> bool {
        &&& 0 <= self.v_shape_spacing <= 1_000_000
        &&& 0 <= self.v_shape_vertical_factor <= 10_000
        &&& 0 <= self.line_spacing <= 1_000_000
        &&& 0 <= self.line_height_offset <= 1_000_000
        &&& 0 <= self.circle_radius <= 1_000_000
        &&& 0 <= self.screen_edge_padding <= 1_000_000
    }
}

/// Projectile bounds and the player's default shot speed.
#[derive(Clone, Copy, PartialEq, Eq, Structural, Debug)]
pub struct ProjectileBoundsConfig {
    pub off_screen_padding: i64,
    pub player_projectile_speed_y: i64,
}

impl ProjectileBoundsConfig {
    pub open spec fn wf(self) -> bool {
        &&& 0 <= self.off_screen_padding <= 1_000_000
        &&& -SPEED_LIMIT <= self.player_projectile_speed_y <= SPEED_LIMIT
    }
}

/// Screen-shake intensities (thousandths of a pixel) and durations.
#[derive(Clone, Copy, PartialEq, Eq, Structural, Debug)]
pub struct ScreenShakeConfig {
    pub bullet_hit_intensity: i64,
    pub laser_hit_intensity: i64,
    pub missile_hit_intensity: i64,
    pub plasma_hit_intensity: i64,
    pub bomb_hit_intensity: i64,
    pub weapon_hit_duration: i64,
    pub enemy_death_duration: i64,
    pub enemy_death_intensity: i64,
    pub parry_duration: i64,
    pub parry_intensity: i64,
    pub player_hit_duration: i64,
    pub player_hit_intensity: i64,
}

impl ScreenShakeConfig {
    pub open spec fn wf(self) -> bool {
        &&& 0 <= self.bullet_hit_intensity <= POS_LIMIT
        &&& 0 <= self.laser_hit_intensity <= POS_LIMIT
        &&& 0 <= self.missile_hit_intensity <= POS_LIMIT
        &&& 0 <= self.plasma_hit_intensity <= POS_LIMIT
        &&& 0 <= self.bomb_hit_intensity <= POS_LIMIT
        &&& 0 <= self.weapon_hit_duration <= TIME_LIMIT
        &&& 0 <= self.enemy_death_duration <= TIME_LIMIT
        &&& 0 <= self.enemy_death_intensity <= POS_LIMIT
        &&& 0 <= self.parry_duration <= TIME_LIMIT
        &&& 0 <= self.parry_intensity <= POS_LIMIT
        &&& 0 <= self.player_hit_duration <= TIME_LIMIT
        &&& 0 <= self.player_hit_intensity <= POS_LIMIT
    }
}

/// Particle-system tunables.
#[derive(Clone, Copy, PartialEq, Eq, Structural, Debug)]
pub struct ParticleConfig {
    pub explosion_count_min: usize,
    pub explosion_count_max: usize,
    pub explosion_lifetime_min: i64,
    pub explosion_lifetime_max: i64,
    pub explosion_size_min: i64,
    pub explosion_size_max: i64,
    pub explosion_speed_min: i64,
    pub explosion_speed_max: i64,
    pub spark_count: usize,
    pub spark_lifetime_min: i64,
    pub spark_lifetime_max: i64,
    pub spark_size_min: i64,
    pub spark_size_max: i64,
    pub spark_speed_min: i64,
    pub spark_speed_max: i64,
    pub bullet_particle_count: usize,
    pub laser_particle_count: usize,
    pub missile_particle_count: usize,
    pub plasma_particle_count: usize,
    pub bomb_red_particle_count: usize,
    pub bomb_orange_particle_count: usize,
    pub death_red_count: usize,
    pub death_orange_count: usize,
    pub death_yellow_count: usize,
    pub parry_blue_count: usize,
    pub parry_white_count: usize,
    /// Velocity kept per frame, in thousandths.
    pub friction: i64,
    pub size_decay: i64,
    pub trails_enabled: bool,
    pub trail_spawn_interval: i64,
    pub trail_lifetime: i64,
    pub trail_size: i64,
}

impl ParticleConfig {
    pub open spec fn wf(self) -> bool {
        &&& self.explosion_count_min <= self.explosion_count_max <= 10_000
        &&& 0 < self.explosion_lifetime_min <= self.explosion_lifetime_max <= TIME_LIMIT
        &&& 0 <= self.explosion_size_min <= self.explosion_size_max <= POS_LIMIT
        &&& 0 <= self.explosion_speed_min <= self.explosion_speed_max <= SPEED_LIMIT
        &&& self.spark_count <= 10_000
        &&& 0 < self.spark_lifetime_min <= self.spark_lifetime_max <= TIME_LIMIT
        &&& 0 <= self.spark_size_min <= self.spark_size_max <= POS_LIMIT
        &&& 0 <= self.spark_speed_min <= self.spark_speed_max <= SPEED_LIMIT
        &&& self.bullet_particle_count <= 10_000
        &&& self.laser_particle_count <= 10_000
        &&& self.missile_particle_count <= 10_000
        &&& self.plasma_particle_count <= 10_000
        &&& self.bomb_red_particle_count <= 10_000
        &&& self.bomb_orange_particle_count <= 10_000
        &&& self.death_red_count <= 10_000
        &&& self.death_orange_count <= 10_000
        &&& self.death_yellow_count <= 10_000
        &&& self.parry_blue_count <= 10_000
        &&& self.parry_white_count <= 10_000
        &&& self.death_red_count + self.death_orange_count + self.death_yellow_count <= 10_000
        &&& self.parry_blue_count + self.parry_white_count <= 10_000
        &&& 0 <= self.friction <= 1_000
        &&& 0 <= self.size_decay <= POS_LIMIT
        &&& 0 < self.trail_spawn_interval <= TIME_LIMIT
        &&& 0 < self.trail_lifetime <= TIME_LIMIT
        &&& 0 <= self.trail_size <= POS_LIMIT
    }
}

/// Background scroll speed, consumed by the presentation layer.
#[derive(Clone, Copy, PartialEq, Eq, Structural, Debug)]
pub struct BackgroundConfig {
    pub scroll_speed: i64,
}

/// Animation timings; scales and intensities in thousandths, rotation
/// speeds in thousandths of a radian per second.
#[derive(Clone, Copy, PartialEq, Eq, Structural, Debug)]
pub struct AnimationConfig {
    pub ghost_spawn_duration: i64,
    pub ghost_spawn_scale_start: i64,
    pub ghost_spawn_rotation_speed: i64,
    pub ghost_despawn_duration: i64,
    pub ghost_despawn_rotation_speed: i64,
    pub hit_flash_duration: i64,
    pub hit_flash_intensity: i64,
    pub parry_stance_glow_intensity: i64,
    pub parry_stance_pulse_speed: i64,
    pub parry_stance_glow_duration: i64,
    pub parry_success_glow_burst: i64,
    pub parry_success_duration: i64,
    pub parry_success_scale_max: i64,
    pub parry_failed_duration: i64,
    pub parry_failed_scale_min: i64,
}

impl AnimationConfig {
    pub open spec fn wf(self) -> bool {
        &&& 0 < self.ghost_spawn_duration <= TIME_LIMIT
        &&& 0 <= self.ghost_spawn_scale_start <= 1_000
        &&& 0 <= self.ghost_spawn_rotation_speed <= 1_000_000
        &&& 0 < self.ghost_despawn_duration <= TIME_LIMIT
        &&& 0 <= self.ghost_despawn_rotation_speed <= 1_000_000
        &&& 0 < self.hit_flash_duration <= TIME_LIMIT
        &&& 0 <= self.hit_flash_intensity <= 1_000
        &&& 0 <= self.parry_stance_glow_intensity <= 1_000
        &&& 0 <= self.parry_stance_pulse_speed <= 1_000_000
        &&& 0 <= self.parry_stance_glow_duration <= TIME_LIMIT
        &&& 0 <= self.parry_success_glow_burst <= 10_000
        &&& 0 <= self.parry_success_duration <= TIME_LIMIT
        &&& 0 <= self.parry_success_scale_max <= 2_000
        &&& 0 <= self.parry_failed_duration <= TIME_LIMIT
        &&& 0 <= self.parry_failed_scale_min <= 1_000
    }
}

/// The whole configuration document.
#[derive(Clone, Debug)]
pub struct GameConfig {
    pub window: WindowConfig,
    pub player: PlayerConfig,
    pub energy: EnergyConfig,
    pub entities: EntitiesConfig,
    pub weapons: WeaponsConfig,
    pub spawning: SpawningConfig,
    pub formations: FormationsConfig,
    pub debug: DebugConfig,
    pub collision: CollisionConfig,
    pub ghost_behavior: GhostBehaviorConfig,
    pub enemy_behavior: EnemyBehaviorConfig,
    pub formation_spacing: FormationSpacingConfig,
    pub projectile_bounds: ProjectileBoundsConfig,
    pub screen_shake: ScreenShakeConfig,
    pub particles: ParticleConfig,
    pub background: BackgroundConfig,
    pub animations: AnimationConfig,
}

impl GameConfig {
    pub open spec fn wf(self) -> bool {
        &&& self.player.wf()
        &&& self.energy.wf()
        &&& self.entities.wf()
        &&& self.weapons.wf()
        &&& self.spawning.wf()
        &&& self.collision.wf()
        &&& self.ghost_behavior.wf()
        &&& self.enemy_behavior.wf()
        &&& self.formation_spacing.wf()
        &&& self.projectile_bounds.wf()
        &&& self.screen_shake.wf()
        &&& self.particles.wf()
        &&& self.animations.wf()
    }
}

} // verus!
