//! The combat rules: piercing and area damage semantics, lead-target
//! aiming, homing re-acquisition, projectile expiry, and the parry.

use ghost_engine::collision::{resolve_projectile_against_enemies, resolve_enemy_projectile};
use ghost_engine::config::CollisionConfig;
use ghost_engine::defaults::default_config;
use ghost_engine::geom::{calculate_velocity, calculate_lead_velocity, Position};
use ghost_engine::guidance::{
    resolve_homing_target, guide_projectiles, expire_projectiles,
};
use ghost_engine::models::{
    Enemy, EnemyMovementState, EntityAnimState, EntityType, GhostUnit, Player, Projectile,
    ProjectileOwner, Stats, WeaponType, MAX_PROJECTILE_LIFETIME,
};
use ghost_engine::parry::check_parry_projectiles;

fn enemy_at(x: i64, y: i64, health: i64) -> Enemy {
    Enemy {
        pos: Position { x, y },
        stats: Stats { health, max_health: health, damage: 10_000 },
        weapon: vec![WeaponType::Bullet],
        entity_type: EntityType::BasicFighter,
        anim: resting_anim(),
        movement_state: EnemyMovementState::FreeMovement,
        fire_timer: 0,
    }
}

fn resting_anim() -> EntityAnimState {
    EntityAnimState {
        spawn_timer: 0,
        despawn_timer: 0,
        is_spawning: false,
        is_despawning: false,
        scale: 1000,
        rotation: 0,
        alpha: 1000,
        hit_flash_timer: 0,
    }
}

fn shot(x: i64, y: i64, piercing: bool, radius: i64) -> Projectile {
    Projectile {
        pos: Position { x, y },
        velocity: Position { x: 0, y: 0 },
        damage: 10_000,
        weapon_type: if radius > 0 {
            WeaponType::Bombs
        } else if piercing {
            WeaponType::Laser
        } else {
            WeaponType::Bullet
        },
        owner: ProjectileOwner::Player,
        piercing,
        homing: false,
        explosion_radius: radius,
        locked_target_index: None,
        lifetime: 0,
        trail_timer: 0,
    }
}

fn collision_cfg() -> CollisionConfig {
    CollisionConfig {
        projectile_radius: 5_000,
        enemy_radius: 15_000,
        player_radius: 15_000,
        ghost_radius: 12_000,
    }
}

#[test]
fn piercing_projectile_damages_all_overlapped_and_survives() {
    // Two enemies both overlapping the beam; both take damage, and the
    // projectile is not consumed.
    let mut enemies = vec![enemy_at(0, 0, 50_000), enemy_at(5_000, 0, 50_000)];
    let p = shot(0, 0, true, 0);
    let (hit_any, remove) =
        resolve_projectile_against_enemies(&p, &mut enemies, &collision_cfg(), 180);
    assert!(hit_any);
    assert!(!remove);
    assert_eq!(enemies[0].stats.health, 40_000);
    assert_eq!(enemies[1].stats.health, 40_000);
}

#[test]
fn plain_projectile_damages_only_first_and_is_consumed() {
    let mut enemies = vec![enemy_at(0, 0, 50_000), enemy_at(5_000, 0, 50_000)];
    let p = shot(0, 0, false, 0);
    let (hit_any, remove) =
        resolve_projectile_against_enemies(&p, &mut enemies, &collision_cfg(), 180);
    assert!(hit_any);
    assert!(remove);
    assert_eq!(enemies[0].stats.health, 40_000);
    assert_eq!(enemies[1].stats.health, 50_000);
}

#[test]
fn aoe_damages_exactly_those_in_radius_and_is_consumed_on_any_hit() {
    // Radius 80 pixels: one enemy inside, one exactly at the rim, one out.
    let mut enemies = vec![
        enemy_at(0, 0, 50_000),
        enemy_at(80_000, 0, 50_000),
        enemy_at(81_000, 0, 50_000),
    ];
    let p = shot(0, 0, false, 80_000);
    let (hit_any, remove) =
        resolve_projectile_against_enemies(&p, &mut enemies, &collision_cfg(), 180);
    assert!(hit_any);
    assert!(remove);
    assert_eq!(enemies[0].stats.health, 40_000);
    assert_eq!(enemies[1].stats.health, 40_000);
    assert_eq!(enemies[2].stats.health, 50_000);
}

#[test]
fn aoe_whiff_is_not_consumed() {
    let mut enemies = vec![enemy_at(500_000, 0, 50_000)];
    let p = shot(0, 0, false, 80_000);
    let (hit_any, remove) =
        resolve_projectile_against_enemies(&p, &mut enemies, &collision_cfg(), 180);
    assert!(!hit_any);
    assert!(!remove);
    assert_eq!(enemies[0].stats.health, 50_000);
}

#[test]
fn lead_velocity_on_stationary_target_equals_direct_aim() {
    let from = Position { x: 100_000, y: 600_000 };
    let target = Position { x: 350_000, y: 80_000 };
    let still = Position { x: 0, y: 0 };
    let lead = calculate_lead_velocity(from, target, still, 500_000);
    let direct = calculate_velocity(from, target, 500_000);
    assert_eq!(lead, direct);
}

#[test]
fn homing_reacquires_nearest_after_lock_goes_stale() {
    // The lock points past the end of the list (its target died); the
    // projectile re-targets the nearest survivor.
    let enemies = vec![enemy_at(300_000, 0, 50_000), enemy_at(40_000, 0, 50_000)];
    let mut p = shot(0, 0, false, 0);
    p.homing = true;
    p.locked_target_index = Some(9);
    let t = resolve_homing_target(&mut p, &enemies, Position { x: 0, y: 0 });
    assert_eq!(p.locked_target_index, Some(1));
    assert_eq!(t, Some(Position { x: 40_000, y: 0 }));
}

#[test]
fn homing_with_no_enemies_flies_straight() {
    let enemies: Vec<Enemy> = Vec::new();
    let mut p = shot(0, 0, false, 0);
    p.homing = true;
    p.velocity = Position { x: 7_000, y: -9_000 };
    p.locked_target_index = Some(0);
    let mut ps = vec![p];
    guide_projectiles(&mut ps, &enemies, Position { x: 0, y: 0 }, 16);
    assert_eq!(ps[0].locked_target_index, None);
    assert_eq!(ps[0].velocity, Position { x: 7_000, y: -9_000 });
}

#[test]
fn projectile_past_max_lifetime_expires_even_on_screen() {
    let mut old_shot = shot(100_000, 100_000, false, 0);
    old_shot.lifetime = MAX_PROJECTILE_LIFETIME;
    let young = shot(100_000, 100_000, false, 0);
    let mut ps = vec![old_shot, young];
    expire_projectiles(&mut ps, 800_000, 600_000, 50_000);
    assert_eq!(ps.len(), 1);
    assert_eq!(ps[0].lifetime, 0);
}

#[test]
fn projectile_outside_padded_bounds_expires_even_when_young() {
    let escaped = shot(900_000, 100_000, false, 0);
    let mut ps = vec![escaped];
    expire_projectiles(&mut ps, 800_000, 600_000, 50_000);
    assert_eq!(ps.len(), 0);
}

#[test]
fn parry_deflects_nearby_enemy_missile() {
    let config = default_config();
    let mut player = test_player();
    player.parry_active = true;
    player.parry_window = 200;
    let mut missile = shot(player.pos.x + 10_000, player.pos.y, false, 0);
    missile.owner = ProjectileOwner::Enemy;
    missile.weapon_type = WeaponType::Missile;
    missile.velocity = Position { x: 2_000, y: 4_000 };
    let mut ps = vec![missile];
    let parried = check_parry_projectiles(&mut player, &mut ps, &config.collision, &config);
    assert_eq!(parried, 1);
    assert_eq!(ps[0].owner, ProjectileOwner::Player);
    assert_eq!(ps[0].velocity, Position { x: -3_000, y: -6_000 });
    assert!(ps[0].homing);
    assert_eq!(ps[0].locked_target_index, None);
    assert!(!player.parry_active);
}

#[test]
fn enemy_projectile_hits_player_and_is_consumed() {
    let config = default_config();
    let mut player = test_player();
    let mut ghosts: Vec<GhostUnit> = Vec::new();
    let mut p = shot(player.pos.x, player.pos.y, false, 0);
    p.owner = ProjectileOwner::Enemy;
    let (remove, player_hit) =
        resolve_enemy_projectile(&p, &mut player, &mut ghosts, &config.collision, 180);
    assert!(remove);
    assert!(player_hit);
    assert_eq!(player.stats.health, 90_000);
}

fn test_player() -> Player {
    Player {
        pos: Position { x: 400_000, y: 550_000 },
        velocity: Position { x: 0, y: 0 },
        last_pos: Position { x: 400_000, y: 550_000 },
        input_direction: Position { x: 0, y: 0 },
        stats: Stats { health: 100_000, max_health: 100_000, damage: 20_000 },
        energy: 200_000,
        max_energy: 500_000,
        weapon: vec![WeaponType::Bullet],
        available_ghosts: Vec::new(),
        parry_cooldown: 0,
        parry_window: 0,
        parry_active: false,
        parry_success_scale_timer: 0,
        parry_failed_timer: 0,
        parry_stance_glow_timer: 0,
        hit_flash_timer: 0,
    }
}
