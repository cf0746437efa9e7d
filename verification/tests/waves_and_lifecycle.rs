//! The wave state machine, scripted spawning, splitting, capture, energy
//! and healing.

use ghost_engine::defaults::default_config;
use ghost_engine::geom::Position;
use ghost_engine::lifecycle::cleanup_dead_entities;
use ghost_engine::models::{
    Enemy, EnemyMovementState, EntityAnimState, EntityType, GhostUnit, Player, Stats, WeaponType,
};
use ghost_engine::shake::ScreenShake;
use ghost_engine::splitter::handle_enemy_splits;
use ghost_engine::state::GameState;
use ghost_engine::wave::{
    ScriptSpawn, ScriptWave, WaveDefinition, WaveManager, WaveState,
};

fn resting_anim() -> EntityAnimState {
    EntityAnimState {
        spawn_timer: 0,
        despawn_timer: 0,
        is_spawning: false,
        is_despawning: false,
        scale: 1000,
        rotation: 0,
        alpha: 1000,
        hit_flash_timer: 0,
    }
}

fn enemy_of(kind: EntityType, health: i64) -> Enemy {
    Enemy {
        pos: Position { x: 200_000, y: 100_000 },
        stats: Stats { health, max_health: 80_000, damage: 12_000 },
        weapon: vec![WeaponType::Bullet],
        entity_type: kind,
        anim: resting_anim(),
        movement_state: EnemyMovementState::FreeMovement,
        fire_timer: 0,
    }
}

#[test]
fn splitter_killed_once_produces_exactly_split_count_children() {
    let config = default_config();
    let dead = vec![enemy_of(EntityType::Splitter, 0)];
    let children = handle_enemy_splits(&dead, &config);
    assert_eq!(children.len(), 3);
    for c in &children {
        // Children are plain fighters, so a split can never recurse.
        assert_eq!(c.entity_type, EntityType::BasicFighter);
        // Thirty percent of the parent's maximum health.
        assert_eq!(c.stats.health, 24_000);
        assert_eq!(c.stats.max_health, 24_000);
        assert_eq!(c.stats.damage, 12_000);
        assert_eq!(c.pos.y, 100_000);
    }
    // The children stand in a horizontal line centred on the death position.
    assert_eq!(children[0].pos.x, 160_000);
    assert_eq!(children[1].pos.x, 200_000);
    assert_eq!(children[2].pos.x, 240_000);

    // Killing the children immediately triggers no further split.
    let mut dead_children = children;
    for c in &mut dead_children {
        c.stats.health = 0;
    }
    let grandchildren = handle_enemy_splits(&dead_children, &config);
    assert_eq!(grandchildren.len(), 0);
}

#[test]
fn defeated_enemies_join_the_summonable_queue() {
    let config = default_config();
    let mut player = fresh_player();
    let mut enemies = vec![
        enemy_of(EntityType::Sniper, 0),
        enemy_of(EntityType::Tank, 30_000),
        enemy_of(EntityType::Healer, 0),
    ];
    let mut ghosts: Vec<GhostUnit> = Vec::new();
    let mut particles = Vec::new();
    let mut shake = ScreenShake { duration: 0, intensity: 0 };
    cleanup_dead_entities(
        &mut player,
        &mut enemies,
        &mut ghosts,
        &mut particles,
        &mut shake,
        &config,
    );
    assert_eq!(player.available_ghosts, vec![EntityType::Sniper, EntityType::Healer]);
    assert_eq!(enemies.len(), 1);
    assert_eq!(enemies[0].entity_type, EntityType::Tank);
    // Death feedback fired.
    assert!(particles.len() > 0);
    assert!(shake.duration > 0);
}

#[test]
fn dead_ghosts_despawn_through_their_animation() {
    let config = default_config();
    let mut player = fresh_player();
    let mut enemies: Vec<Enemy> = Vec::new();
    let mut ghost = GhostUnit::from_entity_type(
        EntityType::BasicFighter,
        Position { x: 100_000, y: 400_000 },
        &config,
    );
    ghost.stats.health = 0;
    ghost.anim.is_spawning = false;
    let mut ghosts = vec![ghost];
    let mut particles = Vec::new();
    let mut shake = ScreenShake { duration: 0, intensity: 0 };
    cleanup_dead_entities(
        &mut player,
        &mut enemies,
        &mut ghosts,
        &mut particles,
        &mut shake,
        &config,
    );
    // Not removed: the despawn animation starts instead.
    assert_eq!(ghosts.len(), 1);
    assert!(ghosts[0].anim.is_despawning);
    assert_eq!(ghosts[0].anim.despawn_timer, 400);
}

fn one_group_wave(count: usize) -> ScriptWave {
    ScriptWave {
        wave_number: 1,
        name: String::from("opening wave"),
        prep_time: 1_000,
        spawns: vec![ScriptSpawn {
            enemy_type: String::from("BasicFighter"),
            count,
            interval: 500,
            delay: 0,
        }],
        has_on_start: true,
        has_on_complete: true,
    }
}

#[test]
fn wave_completes_only_when_all_spawned_and_none_alive() {
    let mut manager = WaveManager::new(5);
    assert!(manager.start_next_wave(Some(one_group_wave(3))));
    assert_eq!(manager.state, WaveState::Preparing);

    // The prep countdown runs out: the wave goes active and the start hook
    // fires exactly once.
    let ev = manager.update_state(0, 1_000);
    assert_eq!(manager.state, WaveState::Active);
    assert!(ev.run_on_start);
    let ev2 = manager.update_state(1, 16);
    assert!(!ev2.run_on_start);

    // Spawn all three enemies, one per timer expiry.
    let mut spawned = 0;
    for _ in 0..3 {
        let due = manager.collect_due_spawns(500);
        spawned += due.len();
    }
    assert_eq!(spawned, 3);

    // All spawned but one enemy still alive: the wave stays active.
    manager.update_state(1, 16);
    assert_eq!(manager.state, WaveState::Active);

    // Last enemy dies: only now does the wave complete.
    manager.update_state(0, 16);
    assert_eq!(manager.state, WaveState::Complete);
    let ev3 = manager.update_state(0, 16);
    assert!(ev3.run_on_complete);
    assert_eq!(manager.state, WaveState::Transition);

    // The fixed pause runs out and the machine is ready again.
    manager.update_state(0, 1_000);
    manager.update_state(0, 1_000);
    manager.update_state(0, 1_000);
    assert_eq!(manager.state, WaveState::Ready);
}

#[test]
fn unspawned_groups_keep_a_wave_active_even_with_no_enemies() {
    let mut manager = WaveManager::new(5);
    assert!(manager.start_next_wave(Some(one_group_wave(3))));
    manager.update_state(0, 1_000);
    assert_eq!(manager.state, WaveState::Active);
    // Nothing spawned yet, nothing alive; the wave must not complete.
    manager.update_state(0, 1);
    assert_eq!(manager.state, WaveState::Active);
}

#[test]
fn wave_with_only_unknown_kinds_aborts_the_start() {
    let mut manager = WaveManager::new(5);
    let bad = ScriptWave {
        wave_number: 1,
        name: String::from("nonsense"),
        prep_time: 1_000,
        spawns: vec![ScriptSpawn {
            enemy_type: String::from("Dragon"),
            count: 3,
            interval: 500,
            delay: 0,
        }],
        has_on_start: false,
        has_on_complete: false,
    };
    assert!(!manager.start_next_wave(Some(bad)));
    assert_eq!(manager.state, WaveState::Ready);
    // The wave number advanced, so progression halts rather than crashing.
    assert_eq!(manager.current_wave_number, 1);
}

#[test]
fn campaign_reports_completion_past_the_last_wave() {
    let mut manager = WaveManager::new(1);
    assert!(manager.start_next_wave(Some(one_group_wave(1))));
    assert!(!manager.start_next_wave(Some(one_group_wave(1))));
    // The counter still advances when completion is reported.
    assert_eq!(manager.current_wave_number, 2);
}

#[test]
fn cancel_summon_requeues_every_ghost_and_starts_despawns() {
    let config = default_config();
    let mut player = Player {
        pos: Position { x: 400_000, y: 500_000 },
        velocity: Position { x: 0, y: 0 },
        last_pos: Position { x: 400_000, y: 500_000 },
        input_direction: Position { x: 0, y: 0 },
        stats: Stats { health: 100_000, max_health: 100_000, damage: 20_000 },
        energy: 100_000,
        max_energy: 100_000,
        weapon: vec![WeaponType::Bullet],
        available_ghosts: vec![EntityType::Tank],
        parry_cooldown: 0,
        parry_window: 0,
        parry_active: false,
        parry_success_scale_timer: 0,
        parry_failed_timer: 0,
        parry_stance_glow_timer: 0,
        hit_flash_timer: 0,
    };
    let mut ghosts = vec![
        GhostUnit::from_entity_type(
            EntityType::Sniper,
            Position { x: 100_000, y: 200_000 },
            &config,
        ),
        GhostUnit::from_entity_type(
            EntityType::Splitter,
            Position { x: 150_000, y: 200_000 },
            &config,
        ),
    ];
    ghost_engine::summon::cancel_summon(
        &mut player,
        &mut ghosts,
        config.animations.ghost_despawn_duration,
    );
    assert_eq!(
        player.available_ghosts,
        vec![EntityType::Tank, EntityType::Sniper, EntityType::Splitter]
    );
    assert_eq!(ghosts.len(), 2);
    for g in &ghosts {
        assert!(g.anim.is_despawning);
        assert_eq!(g.anim.despawn_timer, config.animations.ghost_despawn_duration);
    }
}

#[test]
fn unknown_kinds_are_skipped_but_valid_groups_parse() {
    let mixed = ScriptWave {
        wave_number: 2,
        name: String::from("mixed"),
        prep_time: 2_000,
        spawns: vec![
            ScriptSpawn {
                enemy_type: String::from("Dragon"),
                count: 9,
                interval: 100,
                delay: 0,
            },
            ScriptSpawn {
                enemy_type: String::from("Tank"),
                count: 2,
                interval: 700,
                delay: 300,
            },
        ],
        has_on_start: false,
        has_on_complete: false,
    };
    let def = WaveDefinition::from_script(mixed).unwrap();
    assert_eq!(def.spawns.len(), 1);
    assert_eq!(def.spawns[0].enemy_type, EntityType::Tank);
    assert_eq!(def.spawns[0].count, 2);
    assert_eq!(def.spawns[0].timer, 300);
    assert_eq!(def.total_enemy_count(), 2);
}

#[test]
fn energy_drains_per_ghost_and_regenerates_toward_the_cap() {
    let config = default_config();
    let mut player = fresh_player();
    player.energy = 100_000;
    let ghost = GhostUnit::from_entity_type(
        EntityType::Tank,
        Position { x: 100_000, y: 400_000 },
        &config,
    );
    // A tank ghost drains a tenth of its summon cost per second.
    assert_eq!(ghost.energy_drain_per_sec, 4_000);
    let mut ghosts = vec![ghost];
    ghost_engine::energy::manage_energy(
        &mut player,
        &mut ghosts,
        &config.energy,
        &config.animations,
        1_000,
    );
    // One second: four points drained, one point of slow regen back.
    assert_eq!(player.energy, 100_000 - 4_000 + 1_000);
    assert!(!ghosts[0].anim.is_despawning);
}

#[test]
fn exhausted_energy_despawns_every_ghost() {
    let config = default_config();
    let mut player = fresh_player();
    player.energy = 1_000;
    let ghost = GhostUnit::from_entity_type(
        EntityType::Tank,
        Position { x: 100_000, y: 400_000 },
        &config,
    );
    let mut ghosts = vec![ghost];
    ghost_engine::energy::manage_energy(
        &mut player,
        &mut ghosts,
        &config.energy,
        &config.animations,
        1_000,
    );
    assert!(ghosts[0].anim.is_despawning);
}

#[test]
fn healer_enemies_heal_wounded_allies_in_range() {
    let config = default_config();
    let mut healer = enemy_of(EntityType::Healer, 60_000);
    healer.pos = Position { x: 200_000, y: 100_000 };
    let mut wounded = enemy_of(EntityType::BasicFighter, 20_000);
    wounded.pos = Position { x: 260_000, y: 100_000 };
    let mut far = enemy_of(EntityType::BasicFighter, 20_000);
    far.pos = Position { x: 700_000, y: 100_000 };
    let mut enemies = vec![healer, wounded, far];
    ghost_engine::healer::update_healer_healing(&mut enemies, &config.entities.healer, 1_000);
    // Fifteen points per second, within a 150 pixel field; the far one and
    // the healer itself gain nothing.
    assert_eq!(enemies[1].stats.health, 35_000);
    assert_eq!(enemies[2].stats.health, 20_000);
    assert_eq!(enemies[0].stats.health, 60_000);
}

#[test]
fn a_full_tick_keeps_the_simulation_consistent() {
    let mut state = GameState::new(800_000, 600_000);
    state.player_fire_weapon(0);
    assert_eq!(state.projectiles.len(), 1);
    let events = state.update_all_systems(16);
    assert!(!events.wave.run_on_start);
    assert!(!events.campaign_complete);
    // The classic spawn mode eventually produces an enemy.
    for _ in 0..300 {
        state.update_all_systems(16);
    }
    assert!(state.enemies.len() > 0);
}

fn fresh_player() -> Player {
    Player {
        pos: Position { x: 400_000, y: 550_000 },
        velocity: Position { x: 0, y: 0 },
        last_pos: Position { x: 400_000, y: 550_000 },
        input_direction: Position { x: 0, y: 0 },
        stats: Stats { health: 100_000, max_health: 100_000, damage: 20_000 },
        energy: 200_000,
        max_energy: 500_000,
        weapon: vec![WeaponType::Bullet],
        available_ghosts: Vec::new(),
        parry_cooldown: 0,
        parry_window: 0,
        parry_active: false,
        parry_success_scale_timer: 0,
        parry_failed_timer: 0,
        parry_stance_glow_timer: 0,
        hit_flash_timer: 0,
    }
}
