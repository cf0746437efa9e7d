//! Compiled-in default configuration, always available at startup; a
//! persisted document may replace it later.

use vstd::prelude::*;
use crate::config::{
    AnimationConfig, BackgroundConfig, CollisionConfig, DebugConfig, EnemyBehaviorConfig,
    EnergyConfig, EntitiesConfig, EntityStats, FormationSpacingConfig, FormationsConfig,
    GameConfig, GhostBehaviorConfig, HealerStats, ParticleConfig, PlayerConfig,
    ProjectileBoundsConfig, ScreenShakeConfig, SpawningConfig, SplitterStats, WeaponsConfig,
    WindowConfig,
};
use crate::models::WeaponStats;

verus! {

/// The complete default configuration.
pub fn default_config() -> (c: GameConfig)
    ensures
        c.wf(),
        c.formation_spacing.screen_edge_padding == 30_000,
{
    GameConfig {
        window: default_window(),
        player: default_player(),
        energy: default_energy(),
        entities: default_entities(),
        weapons: default_weapons(),
        spawning: default_spawning(),
        formations: default_formations(),
        debug: default_debug(),
        collision: default_collision(),
        ghost_behavior: default_ghost_behavior(),
        enemy_behavior: default_enemy_behavior(),
        formation_spacing: default_formation_spacing(),
        projectile_bounds: default_projectile_bounds(),
        screen_shake: default_screen_shake(),
        particles: default_particles(),
        background: default_background(),
        animations: default_animations(),
    }
}

pub fn default_window() -> (c: WindowConfig)
    ensures
        c.width == 800,
        c.height == 600,
        c.target_fps == 60,
{
    WindowConfig { title: "Ghost Ally Shooter".to_owned(), width: 800, height: 600, target_fps: 60 }
}

pub fn default_player() -> (c: PlayerConfig)
    ensures
        c.wf(),
        c.starting_health == 100_000,
        c.max_energy == 500_000,
{
    PlayerConfig {
        starting_health: 100_000,
        max_health: 100_000,
        starting_energy: 200_000,
        max_energy: 500_000,
        movement_speed: 250_000,
        starting_weapons: vec![
            "Bullet".to_owned(),
            "Laser".to_owned(),
            "Missile".to_owned(),
            "Plasma".to_owned(),
        ],
        parry_cooldown: 1_500,
        parry_window: 300,
        parry_energy_cost: 5_000,
    }
}

pub fn default_energy() -> (c: EnergyConfig)
    ensures
        c.wf(),
{
    EnergyConfig { regen_rate_idle: 30_000, regen_rate_active: 1_000 }
}

pub fn default_entities() -> (c: EntitiesConfig)
    ensures
        c.wf(),
        c.splitter.split_count == 3,
        c.splitter.split_health_ratio == 300,
{
    EntitiesConfig {
        basic_fighter: EntityStats {
            health: 50_000,
            damage: 10_000,
            energy_cost: 15_000,
            fire_interval: 2_000,
            weapons: vec!["Bullet".to_owned()],
        },
        sniper: EntityStats {
            health: 30_000,
            damage: 25_000,
            energy_cost: 25_000,
            fire_interval: 4_000,
            weapons: vec!["Laser".to_owned()],
        },
        tank: EntityStats {
            health: 150_000,
            damage: 15_000,
            energy_cost: 40_000,
            fire_interval: 1_500,
            weapons: vec!["Missile".to_owned(), "Plasma".to_owned()],
        },
        elite: EntityStats {
            health: 500_000,
            damage: 50_000,
            energy_cost: 80_000,
            fire_interval: 800,
            weapons: vec!["Laser".to_owned(), "Missile".to_owned(), "Plasma".to_owned()],
        },
        healer: HealerStats {
            health: 60_000,
            damage: 5_000,
            energy_cost: 20_000,
            fire_interval: 3_000,
            weapons: vec!["Bullet".to_owned()],
            heal_rate: 15_000,
            heal_radius: 150_000,
        },
        splitter: SplitterStats {
            health: 80_000,
            damage: 12_000,
            energy_cost: 25_000,
            fire_interval: 2_000,
            weapons: vec!["Bullet".to_owned()],
            split_count: 3,
            split_health_ratio: 300,
            split_speed_multiplier: 2_000,
        },
    }
}

pub fn default_weapons() -> (c: WeaponsConfig)
    ensures
        c.wf(),
{
    WeaponsConfig {
        bullet: WeaponStats { damage: 10_000, fire_rate: 100, projectile_speed: 500_000 },
        laser: WeaponStats { damage: 60_000, fire_rate: 1_500, projectile_speed: 800_000 },
        missile: WeaponStats { damage: 30_000, fire_rate: 500, projectile_speed: 250_000 },
        plasma: WeaponStats { damage: 25_000, fire_rate: 400, projectile_speed: 500_000 },
        bombs: WeaponStats { damage: 80_000, fire_rate: 2_000, projectile_speed: 200_000 },
    }
}

pub fn default_spawning() -> (c: SpawningConfig)
    ensures
        c.wf(),
{
    SpawningConfig {
        wave_mode: false,
        wave_count: 5,
        enemy_spawn_interval: 2_200,
        initial_delay: 3_000,
    }
}

pub fn default_formations() -> (c: FormationsConfig)
    ensures
        c == (FormationsConfig {
            v_shape_min: 2usize,
            v_shape_optimal: 6usize,
            line_min: 3usize,
            line_optimal: 5usize,
            circle_min: 4usize,
            circle_optimal: 8usize,
        }),
{
    FormationsConfig {
        v_shape_min: 2,
        v_shape_optimal: 6,
        line_min: 3,
        line_optimal: 5,
        circle_min: 4,
        circle_optimal: 8,
    }
}

pub fn default_debug() -> (c: DebugConfig)
    ensures
        c == (DebugConfig { show_hitboxes: false, show_fps: true }),
{
    DebugConfig { show_hitboxes: false, show_fps: true }
}

pub fn default_collision() -> (c: CollisionConfig)
    ensures
        c.wf(),
{
    CollisionConfig {
        projectile_radius: 5_000,
        enemy_radius: 15_000,
        player_radius: 15_000,
        ghost_radius: 12_000,
    }
}

pub fn default_ghost_behavior() -> (c: GhostBehaviorConfig)
    ensures
        c.wf(),
{
    GhostBehaviorConfig {
        fire_interval: 1_000,
        movement_threshold_y: 200_000,
        fast_ascent_speed: 50_000,
        slow_hover_speed: 100_000,
        projectile_speed: 350_000,
        screen_boundary_top: -50_000,
    }
}

pub fn default_enemy_behavior() -> (c: EnemyBehaviorConfig)
    ensures
        c.wf(),
{
    EnemyBehaviorConfig {
        movement_threshold_y: 200_000,
        fast_descent_speed: 100_000,
        slow_hover_speed: 50_000,
        fire_threshold_y: 50_000,
        screen_boundary_bottom: 650_000,
        basic_projectile_speed_y: 250_000,
    }
}

pub fn default_formation_spacing() -> (c: FormationSpacingConfig)
    ensures
        c.wf(),
        c.screen_edge_padding == 30_000,
{
    FormationSpacingConfig {
        v_shape_spacing: 40_000,
        v_shape_vertical_factor: 800,
        line_spacing: 50_000,
        line_height_offset: 80_000,
        circle_radius: 70_000,
        screen_edge_padding: 30_000,
    }
}

pub fn default_projectile_bounds() -> (c: ProjectileBoundsConfig)
    ensures
        c.wf(),
{
    ProjectileBoundsConfig { off_screen_padding: 50_000, player_projectile_speed_y: -400_000 }
}

pub fn default_screen_shake() -> (c: ScreenShakeConfig)
    ensures
        c.wf(),
{
    ScreenShakeConfig {
        bullet_hit_intensity: 800,
        laser_hit_intensity: 4_000,
        missile_hit_intensity: 2_500,
        plasma_hit_intensity: 1_500,
        bomb_hit_intensity: 5_000,
        weapon_hit_duration: 500,
        enemy_death_duration: 1_000,
        enemy_death_intensity: 1_500,
        parry_duration: 250,
        parry_intensity: 5_000,
        player_hit_duration: 300,
        player_hit_intensity: 5_000,
    }
}

pub fn default_particles() -> (c: ParticleConfig)
    ensures
        c.wf(),
{
    ParticleConfig {
        explosion_count_min: 20,
        explosion_count_max: 50,
        explosion_lifetime_min: 400,
        explosion_lifetime_max: 800,
        explosion_size_min: 3_000,
        explosion_size_max: 6_000,
        explosion_speed_min: 50_000,
        explosion_speed_max: 150_000,
        spark_count: 10,
        spark_lifetime_min: 150,
        spark_lifetime_max: 300,
        spark_size_min: 2_000,
        spark_size_max: 4_000,
        spark_speed_min: 80_000,
        spark_speed_max: 200_000,
        bullet_particle_count: 10,
        laser_particle_count: 18,
        missile_particle_count: 22,
        plasma_particle_count: 16,
        bomb_red_particle_count: 30,
        bomb_orange_particle_count: 25,
        death_red_count: 15,
        death_orange_count: 10,
        death_yellow_count: 5,
        parry_blue_count: 22,
        parry_white_count: 18,
        friction: 950,
        size_decay: 8_000,
        trails_enabled: true,
        trail_spawn_interval: 5,
        trail_lifetime: 300,
        trail_size: 3_500,
    }
}

pub fn default_background() -> (c: BackgroundConfig)
    ensures
        c.scroll_speed == 10_000,
{
    BackgroundConfig { scroll_speed: 10_000 }
}

pub fn default_animations() -> (c: AnimationConfig)
    ensures
        c.wf(),
{
    AnimationConfig {
        ghost_spawn_duration: 500,
        ghost_spawn_scale_start: 300,
        ghost_spawn_rotation_speed: 8_000,
        ghost_despawn_duration: 400,
        ghost_despawn_rotation_speed: 12_000,
        hit_flash_duration: 180,
        hit_flash_intensity: 800,
        parry_stance_glow_intensity: 600,
        parry_stance_pulse_speed: 4_000,
        parry_stance_glow_duration: 500,
        parry_success_glow_burst: 2_000,
        parry_success_duration: 300,
        parry_success_scale_max: 1_300,
        parry_failed_duration: 250,
        parry_failed_scale_min: 850,
    }
}

} // verus!
