//! The simulation's data model: weapon and entity kinds, combatant and
//! projectile records, formation kinds, and the name parsing used when
//! weapon loadouts arrive as configuration strings.

use vstd::prelude::*;
use vstd::string::*;
use crate::geom::{Position, pos_wf, vel_wf};
use crate::config::{WeaponsConfig, EntitiesConfig, GameConfig, HP_LIMIT, DMG_LIMIT, ENERGY_LIMIT, TIME_LIMIT};

verus! {

/// Which side emitted a projectile; projectiles only damage the opposing
/// side.
#[derive(Clone, Copy, PartialEq, Eq, Structural, Debug)]
pub enum ProjectileOwner {
    Player,
    Enemy,
    Ally,
}

/// The closed set of weapon kinds; each carries a fixed emission rule.
#[derive(Clone, Copy, PartialEq, Eq, Structural, Debug)]
pub enum WeaponType {
    Bullet,
    Laser,
    Missile,
    Plasma,
    Bombs,
}

/// The closed set of combatant kinds.
#[derive(Clone, Copy, PartialEq, Eq, Structural, Debug, Hash)]
pub enum EntityType {
    BasicFighter,
    Sniper,
    Tank,
    Elite,
    Healer,
    Splitter,
}

/// Named layouts for deployed allies, plus the scattered fallback used when
/// a layout is invalid for the unit count at hand.
#[derive(Clone, Copy, PartialEq, Eq, Structural, Debug)]
pub enum GhostFormation {
    VShape,
    Line,
    Circle,
    Scattered,
}

/// Health, health ceiling and contact damage, in thousandths of a point.
#[derive(Clone, Copy, PartialEq, Eq, Structural, Debug)]
pub struct Stats {
    pub health: i64,
    pub max_health: i64,
    pub damage: i64,
}

impl Stats {
    pub open spec fn wf(self) -> bool {
        &&& 0 <= self.health <= self.max_health <= HP_LIMIT
        &&& 0 <= self.damage <= DMG_LIMIT
    }
}

/// Per-weapon tunables: damage in thousandths of a point, cooldown in
/// milliseconds, projectile speed in thousandths of a pixel per second.
#[derive(Clone, Copy, PartialEq, Eq, Structural, Debug)]
pub struct WeaponStats {
    pub damage: i64,
    pub fire_rate: i64,
    pub projectile_speed: i64,
}

impl WeaponStats {
    pub open spec fn wf(self) -> bool {
        &&& 0 <= self.damage <= DMG_LIMIT
        &&& 0 <= self.fire_rate <= TIME_LIMIT
        &&& 0 <= self.projectile_speed <= crate::geom::SPEED_LIMIT
    }
}

/// A projectile lives past this age never; milliseconds.
pub const MAX_PROJECTILE_LIFETIME: i64 = 5_000;

/// A projectile in flight. Created by the weapon firing system, moved every
/// tick by guidance, consumed by the collision resolver or by expiry.
#[derive(Clone, Copy, PartialEq, Eq, Structural, Debug)]
pub struct Projectile {
    pub pos: Position,
    pub velocity: Position,
    pub damage: i64,
    pub weapon_type: WeaponType,
    pub owner: ProjectileOwner,
    pub piercing: bool,
    pub homing: bool,
    /// Zero means no area damage; bombs carry a positive radius.
    pub explosion_radius: i64,
    /// Index of the locked enemy, validated before every use.
    pub locked_target_index: Option<usize>,
    /// Age in milliseconds.
    pub lifetime: i64,
    pub trail_timer: i64,
}

impl Projectile {
    pub open spec fn wf(self) -> bool {
        &&& pos_wf(self.pos)
        &&& vel_wf(self.velocity)
        &&& 0 <= self.damage <= DMG_LIMIT
        &&& 0 <= self.explosion_radius <= crate::geom::POS_LIMIT
        &&& !(self.piercing && self.explosion_radius > 0)
        &&& 0 <= self.lifetime <= MAX_PROJECTILE_LIFETIME
        &&& 0 <= self.trail_timer <= TIME_LIMIT
    }
}

/// A colour, each channel in thousandths.
#[derive(Clone, Copy, PartialEq, Eq, Structural, Debug)]
pub struct ColorTint {
    pub r: u16,
    pub g: u16,
    pub b: u16,
    pub a: u16,
}

/// A short-lived visual-effect particle.
#[derive(Clone, Copy, Debug)]
pub struct Particle {
    pub pos: Position,
    pub velocity: Position,
    /// Remaining life in milliseconds.
    pub lifetime: i64,
    pub max_lifetime: i64,
    pub color: ColorTint,
    /// Size in thousandths of a pixel.
    pub size: i64,
    /// Shrink rate in thousandths of a pixel per second.
    pub size_decay: i64,
}

impl Particle {
    pub open spec fn wf(self) -> bool {
        &&& pos_wf(self.pos)
        &&& vel_wf(self.velocity)
        &&& 0 <= self.lifetime <= TIME_LIMIT
        &&& 0 < self.max_lifetime <= TIME_LIMIT
        &&& 0 <= self.size <= crate::geom::POS_LIMIT
        &&& 0 <= self.size_decay <= crate::geom::POS_LIMIT
    }
}

/// Lifecycle animation timers shared by ghosts and enemies; scales and
/// opacities in thousandths, rotations in thousandths of a radian.
#[derive(Clone, Copy, PartialEq, Eq, Structural, Debug)]
pub struct EntityAnimState {
    pub spawn_timer: i64,
    pub despawn_timer: i64,
    pub is_spawning: bool,
    pub is_despawning: bool,
    pub scale: i64,
    pub rotation: i64,
    pub alpha: i64,
    pub hit_flash_timer: i64,
}

/// One full turn, in thousandths of a radian.
pub const TAU_MILLI: i64 = 6_283;

impl EntityAnimState {
    pub open spec fn wf(self) -> bool {
        &&& 0 <= self.spawn_timer <= TIME_LIMIT
        &&& 0 <= self.despawn_timer <= TIME_LIMIT
        &&& 0 <= self.scale <= 2_000
        &&& 0 <= self.rotation < TAU_MILLI
        &&& 0 <= self.alpha <= 1_000
        &&& 0 <= self.hit_flash_timer <= TIME_LIMIT
    }

    /// Animation state of an entity that spawns animating in: small, fully
    /// transparent, with the spawn timer charged.
    pub fn new_spawning(duration: i64) -> (s: Self)
        requires
            0 <= duration <= TIME_LIMIT,
        ensures
            s == (EntityAnimState {
                spawn_timer: duration,
                despawn_timer: 0,
                is_spawning: true,
                is_despawning: false,
                scale: 300,
                rotation: 0,
                alpha: 0,
                hit_flash_timer: 0,
            }),
            s.wf(),
    {
        EntityAnimState {
            spawn_timer: duration,
            despawn_timer: 0,
            is_spawning: true,
            is_despawning: false,
            scale: 300,
            rotation: 0,
            alpha: 0,
            hit_flash_timer: 0,
        }
    }

    /// Begin the despawn animation; the entity leaves the active list only
    /// once this timer runs out.
    pub fn start_despawn(&mut self, duration: i64)
        requires
            0 <= duration <= TIME_LIMIT,
            old(self).wf(),
        ensures
            *final(self) == (EntityAnimState {
                is_despawning: true,
                despawn_timer: duration,
                ..*old(self)
            }),
            final(self).wf(),
    {
        self.is_despawning = true;
        self.despawn_timer = duration;
    }
}

impl Default for EntityAnimState {
    /// The resting state: full size, fully opaque, no timers running.
    fn default() -> (s: Self)
        ensures
            s == (EntityAnimState {
                spawn_timer: 0,
                despawn_timer: 0,
                is_spawning: false,
                is_despawning: false,
                scale: 1_000,
                rotation: 0,
                alpha: 1_000,
                hit_flash_timer: 0,
            }),
            s.wf(),
    {
        EntityAnimState {
            spawn_timer: 0,
            despawn_timer: 0,
            is_spawning: false,
            is_despawning: false,
            scale: 1_000,
            rotation: 0,
            alpha: 1_000,
            hit_flash_timer: 0,
        }
    }
}

/// A Bezier entry path: four control points (the quadratic form ignores the
/// last), a duration in milliseconds, and the curve degree.
#[derive(Clone, Copy, PartialEq, Eq, Structural, Debug)]
pub struct BezierPath {
    pub p0: Position,
    pub p1: Position,
    pub p2: Position,
    pub p3: Position,
    pub duration: i64,
    pub use_cubic: bool,
}

impl BezierPath {
    pub open spec fn wf(self) -> bool {
        &&& pos_wf(self.p0)
        &&& pos_wf(self.p1)
        &&& pos_wf(self.p2)
        &&& pos_wf(self.p3)
        &&& 0 < self.duration <= TIME_LIMIT
    }
}

/// How a combatant currently moves: scripted entry path or free movement.
#[derive(Clone, Copy, PartialEq, Eq, Structural, Debug)]
pub enum EnemyMovementState {
    FreeMovement,
    FollowingPath {
        path: BezierPath,
        /// Progress along the path in thousandths (0 start, 1000 end).
        progress: i64,
        /// Milliseconds since the path began.
        elapsed_time: i64,
    },
}

impl EnemyMovementState {
    pub open spec fn wf(self) -> bool {
        match self {
            EnemyMovementState::FreeMovement => true,
            EnemyMovementState::FollowingPath { path, progress, elapsed_time } => {
                &&& path.wf()
                &&& 0 <= progress <= 1_000
                &&& 0 <= elapsed_time <= TIME_LIMIT
            },
        }
    }
}

/// An active enemy.
#[verifier::ext_equal]
#[derive(Clone, Debug)]
pub struct Enemy {
    pub pos: Position,
    pub stats: Stats,
    pub weapon: Vec<WeaponType>,
    pub entity_type: EntityType,
    pub anim: EntityAnimState,
    pub movement_state: EnemyMovementState,
    /// Milliseconds until this enemy may fire again.
    pub fire_timer: i64,
}

impl Enemy {
    pub open spec fn wf(self) -> bool {
        &&& pos_wf(self.pos)
        &&& self.stats.wf()
        &&& self.anim.wf()
        &&& self.movement_state.wf()
        &&& 0 <= self.fire_timer <= TIME_LIMIT
    }
}

/// A summoned ally, converted from a defeated enemy; drains energy while
/// active.
#[verifier::ext_equal]
#[derive(Clone, Debug)]
pub struct GhostUnit {
    pub pos: Position,
    pub stats: Stats,
    pub weapon_type: Vec<WeaponType>,
    pub entity_type: EntityType,
    /// Energy drained per second, in thousandths of a point.
    pub energy_drain_per_sec: i64,
    pub anim: EntityAnimState,
    /// Milliseconds until this ghost may fire again.
    pub fire_timer: i64,
}

impl GhostUnit {
    pub open spec fn wf(self) -> bool {
        &&& pos_wf(self.pos)
        &&& self.stats.wf()
        &&& self.anim.wf()
        &&& 0 <= self.energy_drain_per_sec <= ENERGY_LIMIT
        &&& 0 <= self.fire_timer <= TIME_LIMIT
    }
}

/// The player.
#[verifier::ext_equal]
#[derive(Clone, Debug)]
pub struct Player {
    pub pos: Position,
    /// Velocity derived from recent movement, used by enemy lead targeting.
    pub velocity: Position,
    pub last_pos: Position,
    /// Movement intent from input, each axis in thousandths of full
    /// deflection (so between -1000 and 1000).
    pub input_direction: Position,
    pub stats: Stats,
    pub energy: i64,
    pub max_energy: i64,
    pub weapon: Vec<WeaponType>,
    /// Kinds of defeated enemies waiting to be summoned as ghosts.
    pub available_ghosts: Vec<EntityType>,
    pub parry_cooldown: i64,
    pub parry_window: i64,
    pub parry_active: bool,
    pub parry_success_scale_timer: i64,
    pub parry_failed_timer: i64,
    pub parry_stance_glow_timer: i64,
    pub hit_flash_timer: i64,
}

impl Player {
    pub open spec fn wf(self) -> bool {
        &&& pos_wf(self.pos)
        &&& vel_wf(self.velocity)
        &&& pos_wf(self.last_pos)
        &&& -1_000 <= self.input_direction.x <= 1_000
        &&& -1_000 <= self.input_direction.y <= 1_000
        &&& self.stats.wf()
        &&& 0 <= self.energy <= self.max_energy <= ENERGY_LIMIT
        &&& 0 <= self.parry_cooldown <= TIME_LIMIT
        &&& 0 <= self.parry_window <= TIME_LIMIT
        &&& 0 <= self.parry_success_scale_timer <= TIME_LIMIT
        &&& 0 <= self.parry_failed_timer <= TIME_LIMIT
        &&& 0 <= self.parry_stance_glow_timer <= TIME_LIMIT
        &&& 0 <= self.hit_flash_timer <= TIME_LIMIT
    }
}

impl GhostFormation {
    /// How a formation's minimum is specified.
    pub open spec fn spec_min_ghost_count(self) -> usize {
        match self {
            GhostFormation::VShape => 2usize,
            GhostFormation::Line => 3usize,
            GhostFormation::Circle => 4usize,
            GhostFormation::Scattered => 0usize,
        }
    }

    /// Fewest ghosts with which this formation keeps its shape; the
    /// scattered fallback accepts any count.
    pub fn min_ghost_count(&self) -> (n: usize)
        ensures
            n == self.spec_min_ghost_count(),
    {
        match self {
            GhostFormation::VShape => 2,
            GhostFormation::Line => 3,
            GhostFormation::Circle => 4,
            GhostFormation::Scattered => 0,
        }
    }

    /// How a formation's optimal count is specified.
    pub open spec fn spec_optimal_ghost_count(self) -> usize {
        match self {
            GhostFormation::VShape => 6usize,
            GhostFormation::Line => 5usize,
            GhostFormation::Circle => 8usize,
            GhostFormation::Scattered => 6usize,
        }
    }

    /// The count at which this formation looks best; deployment never
    /// places more ghosts than this at once.
    pub fn optimal_ghost_count(&self) -> (n: usize)
        ensures
            n == self.spec_optimal_ghost_count(),
    {
        match self {
            GhostFormation::VShape => 6,
            GhostFormation::Line => 5,
            GhostFormation::Circle => 8,
            GhostFormation::Scattered => 6,
        }
    }

    /// A formation is valid exactly when the unit count reaches its minimum.
    pub open spec fn spec_is_valid_for_count(self, ghost_count: usize) -> bool {
        ghost_count >= self.spec_min_ghost_count()
    }

    /// Whether this formation may be used with the given ghost count.
    pub fn is_valid_for_count(&self, ghost_count: usize) -> (ok: bool)
        ensures
            ok == self.spec_is_valid_for_count(ghost_count),
    {
        ghost_count >= self.min_ghost_count()
    }
}

/// Whether two byte strings are equal.
pub fn bytes_eq(a: &[u8], b: &[u8]) -> (r: bool)
    ensures
        r == (a@ == b@),
{
    if a.len() != b.len() {
        assert(a@ != b@) by {
            assert(a@.len() != b@.len());
        }
        return false;
    }
    let n: usize = a.len();
    let mut i: usize = 0;
    while i < n
        invariant
            0 <= i <= n,
            n == a@.len() == b@.len(),
            forall|j: int| 0 <= j < i ==> a@[j] == b@[j],
        decreases n - i,
    {
        if a[i] != b[i] {
            assert(a@ != b@) by {
                assert(a@[i as int] != b@[i as int]);
            }
            return false;
        }
        i += 1;
    }
    assert(a@ =~= b@);
    true
}

/// Whether two strings hold the same characters, decided by comparing
/// their UTF-8 bytes (UTF-8 encoding is injective).
pub fn str_eq(a: &str, b: &str) -> (r: bool)
    ensures
        r == (a@ == b@),
{
    let r = bytes_eq(a.as_bytes(), b.as_bytes());
    proof {
        broadcast use vstd::utf8::encode_utf8_decode_utf8;
        if a.spec_bytes() == b.spec_bytes() {
            assert(vstd::utf8::decode_utf8(vstd::utf8::encode_utf8(a@))
                == vstd::utf8::decode_utf8(vstd::utf8::encode_utf8(b@)));
        }
    }
    r
}

/// The weapon kind that a configuration name denotes; unknown names denote
/// nothing.
pub open spec fn weapon_from_chars(s: Seq<char>) -> Option<WeaponType> {
    if s == "Bullet"@ {
        Some(WeaponType::Bullet)
    } else if s == "Laser"@ {
        Some(WeaponType::Laser)
    } else if s == "Missile"@ {
        Some(WeaponType::Missile)
    } else if s == "Plasma"@ {
        Some(WeaponType::Plasma)
    } else if s == "Bombs"@ {
        Some(WeaponType::Bombs)
    } else {
        None
    }
}

impl WeaponType {
    /// Parse a weapon kind from its configuration name.
    pub fn from_string(s: &str) -> (r: Option<WeaponType>)
        ensures
            r == weapon_from_chars(s@),
    {
        if str_eq(s, "Bullet") {
            Some(WeaponType::Bullet)
        } else if str_eq(s, "Laser") {
            Some(WeaponType::Laser)
        } else if str_eq(s, "Missile") {
            Some(WeaponType::Missile)
        } else if str_eq(s, "Plasma") {
            Some(WeaponType::Plasma)
        } else if str_eq(s, "Bombs") {
            Some(WeaponType::Bombs)
        } else {
            None
        }
    }

    /// The stats that the configuration table assigns to this weapon kind.
    pub open spec fn spec_weapon_stats(self, config: WeaponsConfig) -> WeaponStats {
        match self {
            WeaponType::Bullet => config.bullet,
            WeaponType::Laser => config.laser,
            WeaponType::Missile => config.missile,
            WeaponType::Plasma => config.plasma,
            WeaponType::Bombs => config.bombs,
        }
    }

    /// Look up this weapon's stats in the configuration table.
    pub fn get_weapon_stats(&self, config: &WeaponsConfig) -> (w: WeaponStats)
        ensures
            w == self.spec_weapon_stats(*config),
    {
        match self {
            WeaponType::Bullet => config.bullet,
            WeaponType::Laser => config.laser,
            WeaponType::Missile => config.missile,
            WeaponType::Plasma => config.plasma,
            WeaponType::Bombs => config.bombs,
        }
    }
}

/// The kind of combatant that a script or configuration name denotes.
pub open spec fn entity_from_chars(s: Seq<char>) -> Option<EntityType> {
    if s == "BasicFighter"@ {
        Some(EntityType::BasicFighter)
    } else if s == "Sniper"@ {
        Some(EntityType::Sniper)
    } else if s == "Tank"@ {
        Some(EntityType::Tank)
    } else if s == "Elite"@ {
        Some(EntityType::Elite)
    } else if s == "Healer"@ {
        Some(EntityType::Healer)
    } else if s == "Splitter"@ {
        Some(EntityType::Splitter)
    } else {
        None
    }
}

impl EntityType {
    /// Parse an entity kind from its script or configuration name.
    pub fn from_string(s: &str) -> (r: Option<EntityType>)
        ensures
            r == entity_from_chars(s@),
    {
        if str_eq(s, "BasicFighter") {
            Some(EntityType::BasicFighter)
        } else if str_eq(s, "Sniper") {
            Some(EntityType::Sniper)
        } else if str_eq(s, "Tank") {
            Some(EntityType::Tank)
        } else if str_eq(s, "Elite") {
            Some(EntityType::Elite)
        } else if str_eq(s, "Healer") {
            Some(EntityType::Healer)
        } else if str_eq(s, "Splitter") {
            Some(EntityType::Splitter)
        } else {
            None
        }
    }

    /// The fresh stats block of this entity kind: full health and the
    /// configured damage.
    pub open spec fn spec_stats(self, config: EntitiesConfig) -> Stats {
        let h = self.spec_base_health(config);
        Stats { health: h, max_health: h, damage: self.spec_base_damage(config) }
    }

    pub open spec fn spec_base_health(self, config: EntitiesConfig) -> i64 {
        match self {
            EntityType::BasicFighter => config.basic_fighter.health,
            EntityType::Sniper => config.sniper.health,
            EntityType::Tank => config.tank.health,
            EntityType::Elite => config.elite.health,
            EntityType::Healer => config.healer.health,
            EntityType::Splitter => config.splitter.health,
        }
    }

    pub open spec fn spec_base_damage(self, config: EntitiesConfig) -> i64 {
        match self {
            EntityType::BasicFighter => config.basic_fighter.damage,
            EntityType::Sniper => config.sniper.damage,
            EntityType::Tank => config.tank.damage,
            EntityType::Elite => config.elite.damage,
            EntityType::Healer => config.healer.damage,
            EntityType::Splitter => config.splitter.damage,
        }
    }

    /// Build this kind's starting stats from the configuration table.
    pub fn get_stats(&self, config: &EntitiesConfig) -> (s: Stats)
        requires
            config.wf(),
        ensures
            s == self.spec_stats(*config),
            s.wf(),
    {
        match self {
            EntityType::BasicFighter => Stats {
                health: config.basic_fighter.health,
                max_health: config.basic_fighter.health,
                damage: config.basic_fighter.damage,
            },
            EntityType::Sniper => Stats {
                health: config.sniper.health,
                max_health: config.sniper.health,
                damage: config.sniper.damage,
            },
            EntityType::Tank => Stats {
                health: config.tank.health,
                max_health: config.tank.health,
                damage: config.tank.damage,
            },
            EntityType::Elite => Stats {
                health: config.elite.health,
                max_health: config.elite.health,
                damage: config.elite.damage,
            },
            EntityType::Healer => Stats {
                health: config.healer.health,
                max_health: config.healer.health,
                damage: config.healer.damage,
            },
            EntityType::Splitter => Stats {
                health: config.splitter.health,
                max_health: config.splitter.health,
                damage: config.splitter.damage,
            },
        }
    }

    pub open spec fn spec_energy_cost(self, config: EntitiesConfig) -> i64 {
        match self {
            EntityType::BasicFighter => config.basic_fighter.energy_cost,
            EntityType::Sniper => config.sniper.energy_cost,
            EntityType::Tank => config.tank.energy_cost,
            EntityType::Elite => config.elite.energy_cost,
            EntityType::Healer => config.healer.energy_cost,
            EntityType::Splitter => config.splitter.energy_cost,
        }
    }

    /// The energy a summon of this kind costs.
    pub fn get_energy_cost(&self, config: &EntitiesConfig) -> (c: i64)
        requires
            config.wf(),
        ensures
            c == self.spec_energy_cost(*config),
            0 <= c <= ENERGY_LIMIT,
    {
        match self {
            EntityType::BasicFighter => config.basic_fighter.energy_cost,
            EntityType::Sniper => config.sniper.energy_cost,
            EntityType::Tank => config.tank.energy_cost,
            EntityType::Elite => config.elite.energy_cost,
            EntityType::Healer => config.healer.energy_cost,
            EntityType::Splitter => config.splitter.energy_cost,
        }
    }

    pub open spec fn spec_fire_interval(self, config: EntitiesConfig) -> i64 {
        match self {
            EntityType::BasicFighter => config.basic_fighter.fire_interval,
            EntityType::Sniper => config.sniper.fire_interval,
            EntityType::Tank => config.tank.fire_interval,
            EntityType::Elite => config.elite.fire_interval,
            EntityType::Healer => config.healer.fire_interval,
            EntityType::Splitter => config.splitter.fire_interval,
        }
    }

    /// How long this kind waits between shots, in milliseconds.
    pub fn get_fire_interval(&self, config: &EntitiesConfig) -> (t: i64)
        requires
            config.wf(),
        ensures
            t == self.spec_fire_interval(*config),
            0 <= t <= TIME_LIMIT,
    {
        match self {
            EntityType::BasicFighter => config.basic_fighter.fire_interval,
            EntityType::Sniper => config.sniper.fire_interval,
            EntityType::Tank => config.tank.fire_interval,
            EntityType::Elite => config.elite.fire_interval,
            EntityType::Healer => config.healer.fire_interval,
            EntityType::Splitter => config.splitter.fire_interval,
        }
    }
}

/// The weapon kinds denoted by a list of configuration names, unknown names
/// skipped.
pub open spec fn parse_weapons_spec(names: Seq<Seq<char>>) -> Seq<WeaponType>
    decreases names.len(),
{
    if names.len() == 0 {
        Seq::empty()
    } else {
        let rest = parse_weapons_spec(names.drop_last());
        match weapon_from_chars(names.last()) {
            Some(w) => rest.push(w),
            None => rest,
        }
    }
}

/// Parse a configured weapon-name list, skipping unknown names.
pub fn parse_weapons(names: &Vec<String>) -> (ws: Vec<WeaponType>)
    ensures
        ws@ == parse_weapons_spec(names@.map_values(|s: String| s@)),
{
    let ghost_names = Ghost(names@.map_values(|s: String| s@));
    let mut ws: Vec<WeaponType> = Vec::new();
    let mut i: usize = 0;
    while i < names.len()
        invariant
            0 <= i <= names@.len(),
            ghost_names@ == names@.map_values(|s: String| s@),
            ws@ == parse_weapons_spec(ghost_names@.take(i as int)),
        decreases names@.len() - i,
    {
        proof {
            assert(ghost_names@.take(i + 1).drop_last() =~= ghost_names@.take(i as int));
            assert(ghost_names@.take(i + 1).last() == names@[i as int]@);
        }
        match WeaponType::from_string(names[i].as_str()) {
            Some(w) => {
                ws.push(w);
            },
            None => {},
        }
        i += 1;
    }
    proof {
        assert(ghost_names@.take(names@.len() as int) =~= ghost_names@);
    }
    ws
}

/// The weapon loadout used when a parsed list comes up empty: a single
/// standard shot.
pub open spec fn fallback_weapons(parsed: Seq<WeaponType>) -> Seq<WeaponType> {
    if parsed.len() == 0 {
        seq![WeaponType::Bullet]
    } else {
        parsed
    }
}

/// The configured weapon-name list of an entity kind.
pub open spec fn spec_weapon_names(ty: EntityType, config: EntitiesConfig) -> Seq<Seq<char>> {
    match ty {
        EntityType::BasicFighter => config.basic_fighter.weapons@.map_values(|s: String| s@),
        EntityType::Sniper => config.sniper.weapons@.map_values(|s: String| s@),
        EntityType::Tank => config.tank.weapons@.map_values(|s: String| s@),
        EntityType::Elite => config.elite.weapons@.map_values(|s: String| s@),
        EntityType::Healer => config.healer.weapons@.map_values(|s: String| s@),
        EntityType::Splitter => config.splitter.weapons@.map_values(|s: String| s@),
    }
}

/// Parse an entity kind's configured loadout, falling back to a single
/// standard shot when the configuration names no known weapon.
pub fn parse_entity_weapons(ty: EntityType, config: &EntitiesConfig) -> (ws: Vec<WeaponType>)
    ensures
        ws@ == fallback_weapons(parse_weapons_spec(spec_weapon_names(ty, *config))),
        ws@.len() > 0,
{
    let names = match ty {
        EntityType::BasicFighter => &config.basic_fighter.weapons,
        EntityType::Sniper => &config.sniper.weapons,
        EntityType::Tank => &config.tank.weapons,
        EntityType::Elite => &config.elite.weapons,
        EntityType::Healer => &config.healer.weapons,
        EntityType::Splitter => &config.splitter.weapons,
    };
    let ws = parse_weapons(names);
    if ws.len() == 0 {
        let mut one: Vec<WeaponType> = Vec::new();
        one.push(WeaponType::Bullet);
        proof {
            assert(one@ =~= seq![WeaponType::Bullet]);
        }
        one
    } else {
        ws
    }
}

impl GhostUnit {
    /// A freshly summoned ghost of the given kind: full configured health,
    /// the kind's configured loadout (or the standard-shot fallback), an
    /// energy drain of a tenth of the kind's summon cost per second, and the
    /// spawn animation charged to half a second.
    pub fn from_entity_type(entity_type: EntityType, spawn_pos: Position, config: &GameConfig) -> (g: GhostUnit)
        requires
            pos_wf(spawn_pos),
            config.wf(),
        ensures
            g.pos == spawn_pos,
            g.stats == entity_type.spec_stats(config.entities),
            g.weapon_type@ == fallback_weapons(
                parse_weapons_spec(spec_weapon_names(entity_type, config.entities)),
            ),
            g.entity_type == entity_type,
            g.energy_drain_per_sec == entity_type.spec_energy_cost(config.entities) / 10,
            g.anim.is_spawning && !g.anim.is_despawning && g.anim.spawn_timer == 500,
            g.fire_timer == 0,
            g.wf(),
    {
        let stats = entity_type.get_stats(&config.entities);
        let weapons = parse_entity_weapons(entity_type, &config.entities);
        let cost = entity_type.get_energy_cost(&config.entities);
        GhostUnit {
            pos: spawn_pos,
            stats,
            weapon_type: weapons,
            entity_type,
            energy_drain_per_sec: cost / 10,
            anim: EntityAnimState::new_spawning(500),
            fire_timer: 0,
        }
    }
}

} // verus!
