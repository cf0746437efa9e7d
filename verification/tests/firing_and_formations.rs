//! The unified weapon firing rules, name parsing, formations with the
//! scattered fallback, and summoning.

use ghost_engine::defaults::default_config;
use ghost_engine::formation::{calculate_formation_position, deployed_formation};
use ghost_engine::geom::Position;
use ghost_engine::models::{
    EntityType, GhostFormation, GhostUnit, Player, ProjectileOwner, Stats, WeaponType,
};
use ghost_engine::weapons::{fire_weapon, FireWeaponParams, FiringDirection};

#[test]
fn weapon_names_parse_and_unknown_names_do_not() {
    assert_eq!(WeaponType::from_string("Bullet"), Some(WeaponType::Bullet));
    assert_eq!(WeaponType::from_string("Laser"), Some(WeaponType::Laser));
    assert_eq!(WeaponType::from_string("Missile"), Some(WeaponType::Missile));
    assert_eq!(WeaponType::from_string("Plasma"), Some(WeaponType::Plasma));
    assert_eq!(WeaponType::from_string("Bombs"), Some(WeaponType::Bombs));
    assert_eq!(WeaponType::from_string("bullet"), None);
    assert_eq!(WeaponType::from_string(""), None);
}

#[test]
fn entity_names_parse_and_unknown_names_do_not() {
    assert_eq!(EntityType::from_string("BasicFighter"), Some(EntityType::BasicFighter));
    assert_eq!(EntityType::from_string("Splitter"), Some(EntityType::Splitter));
    assert_eq!(EntityType::from_string("Healer"), Some(EntityType::Healer));
    assert_eq!(EntityType::from_string("Boss"), None);
}

#[test]
fn formation_minimum_counts() {
    assert_eq!(GhostFormation::VShape.min_ghost_count(), 2);
    assert_eq!(GhostFormation::Line.min_ghost_count(), 3);
    assert_eq!(GhostFormation::Circle.min_ghost_count(), 4);
    assert!(GhostFormation::Circle.is_valid_for_count(4));
    assert!(!GhostFormation::Circle.is_valid_for_count(3));
}

#[test]
fn invalid_formation_deploys_scattered_instead() {
    // A circle wants four units; with two available the deployment must
    // substitute the scattered fallback.
    assert_eq!(deployed_formation(GhostFormation::Circle, 2), GhostFormation::Scattered);
    assert_eq!(deployed_formation(GhostFormation::Circle, 4), GhostFormation::Circle);
}

#[test]
fn spawn_formation_reports_scattered_for_two_ghosts() {
    let config = default_config();
    let mut player = fresh_player();
    player.available_ghosts = vec![EntityType::BasicFighter, EntityType::Sniper];
    player.energy = 500_000;
    let mut ghosts: Vec<GhostUnit> = Vec::new();
    let (spawned, used) = ghost_engine::summon::spawn_formation(
        &mut player,
        &mut ghosts,
        GhostFormation::Circle,
        &config,
        800_000,
    );
    assert_eq!(used, GhostFormation::Scattered);
    assert_eq!(spawned, 2);
    assert_eq!(ghosts.len(), 2);
    assert_eq!(ghosts[0].entity_type, EntityType::BasicFighter);
    assert_eq!(ghosts[1].entity_type, EntityType::Sniper);
    assert!(player.available_ghosts.is_empty());
    // Summon cost: fifteen plus twenty-five points.
    assert_eq!(player.energy, 500_000 - 40_000);
}

#[test]
fn line_formation_positions_are_spaced_and_clamped() {
    let config = default_config();
    let anchor = Position { x: 400_000, y: 500_000 };
    let a = calculate_formation_position(
        anchor,
        0,
        3,
        GhostFormation::Line,
        800_000,
        &config.formation_spacing,
    );
    let b = calculate_formation_position(
        anchor,
        1,
        3,
        GhostFormation::Line,
        800_000,
        &config.formation_spacing,
    );
    let c = calculate_formation_position(
        anchor,
        2,
        3,
        GhostFormation::Line,
        800_000,
        &config.formation_spacing,
    );
    // Spacing of fifty pixels, centred on the anchor, a fixed height above.
    assert_eq!(a, Position { x: 350_000, y: 420_000 });
    assert_eq!(b, Position { x: 400_000, y: 420_000 });
    assert_eq!(c, Position { x: 450_000, y: 420_000 });
}

#[test]
fn spread_shot_emits_three_rotated_projectiles() {
    let config = default_config();
    let mut projectiles = Vec::new();
    fire_weapon(
        FireWeaponParams {
            shooter_pos: Position { x: 400_000, y: 500_000 },
            owner: ProjectileOwner::Player,
            weapon: WeaponType::Plasma,
            direction: FiringDirection::Up,
            damage_multiplier: 1000,
            enemies: None,
        },
        &mut projectiles,
        &config.weapons,
    );
    assert_eq!(projectiles.len(), 3);
    // The middle shot flies straight up; the outer two are rotated copies.
    assert_eq!(projectiles[1].velocity, Position { x: 0, y: -500_000 });
    assert!(projectiles[0].velocity.x != 0);
    assert!(projectiles[2].velocity.x != 0);
    assert_eq!(projectiles[0].velocity.x, -projectiles[2].velocity.x);
    for p in &projectiles {
        assert_eq!(p.damage, 25_000);
        assert!(!p.piercing && !p.homing);
    }
}

#[test]
fn bomb_radius_depends_on_the_firer() {
    let config = default_config();
    for (owner, radius) in [
        (ProjectileOwner::Player, 80_000),
        (ProjectileOwner::Ally, 70_000),
        (ProjectileOwner::Enemy, 60_000),
    ] {
        let mut projectiles = Vec::new();
        fire_weapon(
            FireWeaponParams {
                shooter_pos: Position { x: 400_000, y: 500_000 },
                owner,
                weapon: WeaponType::Bombs,
                direction: FiringDirection::Down,
                damage_multiplier: 1000,
                enemies: None,
            },
            &mut projectiles,
            &config.weapons,
        );
        assert_eq!(projectiles.len(), 1);
        assert_eq!(projectiles[0].explosion_radius, radius);
        assert!(!projectiles[0].piercing);
    }
}

#[test]
fn laser_pierces_and_missile_homes_on_nearest() {
    let config = default_config();
    let mut projectiles = Vec::new();
    fire_weapon(
        FireWeaponParams {
            shooter_pos: Position { x: 0, y: 0 },
            owner: ProjectileOwner::Player,
            weapon: WeaponType::Laser,
            direction: FiringDirection::Up,
            damage_multiplier: 1000,
            enemies: None,
        },
        &mut projectiles,
        &config.weapons,
    );
    assert!(projectiles[0].piercing);
    assert_eq!(projectiles[0].damage, 60_000);

    let mut projectiles = Vec::new();
    fire_weapon(
        FireWeaponParams {
            shooter_pos: Position { x: 0, y: 0 },
            owner: ProjectileOwner::Player,
            weapon: WeaponType::Missile,
            direction: FiringDirection::Up,
            damage_multiplier: 1000,
            enemies: Some(vec![
                Position { x: 200_000, y: 0 },
                Position { x: 50_000, y: 0 },
            ]),
        },
        &mut projectiles,
        &config.weapons,
    );
    assert!(projectiles[0].homing);
    assert_eq!(projectiles[0].locked_target_index, Some(1));

    // An enemy missile always locks the player's sentinel slot.
    let mut projectiles = Vec::new();
    fire_weapon(
        FireWeaponParams {
            shooter_pos: Position { x: 0, y: 0 },
            owner: ProjectileOwner::Enemy,
            weapon: WeaponType::Missile,
            direction: FiringDirection::Down,
            damage_multiplier: 750,
            enemies: None,
        },
        &mut projectiles,
        &config.weapons,
    );
    assert_eq!(projectiles[0].locked_target_index, Some(0));
    // Enemy missiles carry three quarters of the base damage.
    assert_eq!(projectiles[0].damage, 22_500);
}

#[test]
fn ghost_weapons_deal_half_damage() {
    let config = default_config();
    let ghost = GhostUnit::from_entity_type(
        EntityType::BasicFighter,
        Position { x: 100_000, y: 400_000 },
        &config,
    );
    assert_eq!(ghost.stats.health, 50_000);
    assert_eq!(ghost.energy_drain_per_sec, 1_500);
    let mut projectiles = Vec::new();
    ghost_engine::ghost::fire_ghost_weapon(
        &ghost,
        Position { x: 100_000, y: 0 },
        &mut projectiles,
        &Vec::new(),
        config.ghost_behavior.projectile_speed,
        &config.weapons,
    );
    // The basic fighter's loadout is a single standard shot at half damage.
    assert_eq!(projectiles.len(), 1);
    assert_eq!(projectiles[0].damage, 5_000);
    assert_eq!(projectiles[0].owner, ProjectileOwner::Ally);
}

fn fresh_player() -> Player {
    Player {
        pos: Position { x: 400_000, y: 550_000 },
        velocity: Position { x: 0, y: 0 },
        last_pos: Position { x: 400_000, y: 550_000 },
        input_direction: Position { x: 0, y: 0 },
        stats: Stats { health: 100_000, max_health: 100_000, damage: 20_000 },
        energy: 200_000,
        max_energy: 500_000,
        weapon: vec![WeaponType::Bullet],
        available_ghosts: Vec::new(),
        parry_cooldown: 0,
        parry_window: 0,
        parry_active: false,
        parry_success_scale_timer: 0,
        parry_failed_timer: 0,
        parry_stance_glow_timer: 0,
        hit_flash_timer: 0,
    }
}
