//! The simulation context: one explicit state object threaded through
//! every subsystem, and the fixed-order tick that advances them all. The
//! driver around it feeds input intents in, runs the wave script
//! collaborator when asked, and draws the snapshots; the core never calls
//! out.

use vstd::prelude::*;
use crate::geom::{Position, pos_wf, POS_LIMIT};
use crate::models::{
    Player, Enemy, GhostUnit, Projectile, Particle, GhostFormation, WeaponType, ProjectileOwner,
    Stats, EntityAnimState,
};
use crate::config::{GameConfig, TIME_LIMIT, DT_LIMIT};
use crate::shake::ScreenShake;
use crate::wave::{WaveManager, WaveEvents, WaveInfo};

verus! {

/// The whole simulation state for one run.
pub struct GameState {
    pub config: GameConfig,
    pub player: Player,
    pub enemies: Vec<Enemy>,
    pub ghosts: Vec<GhostUnit>,
    pub projectiles: Vec<Projectile>,
    pub particles: Vec<Particle>,
    /// Milliseconds until the player may fire again.
    pub player_fire_timer: i64,
    /// Countdown for classic random spawning.
    pub spawn_timer: i64,
    pub ghost_formation: GhostFormation,
    pub screen_shake: ScreenShake,
    pub wave_manager: WaveManager,
    /// Playfield width, in thousandths of a pixel.
    pub play_width: i64,
    /// Playfield height, in thousandths of a pixel.
    pub play_height: i64,
}

impl GameState {
    pub open spec fn wf(self) -> bool {
        &&& self.config.wf()
        &&& self.player.wf()
        &&& (forall|i: int| 0 <= i < self.enemies@.len() ==> (#[trigger] self.enemies@[i]).wf())
        &&& (forall|i: int| 0 <= i < self.ghosts@.len() ==> (#[trigger] self.ghosts@[i]).wf())
        &&& (forall|i: int|
            0 <= i < self.projectiles@.len() ==> (#[trigger] self.projectiles@[i]).wf())
        &&& (forall|i: int| 0 <= i < self.particles@.len() ==> (#[trigger] self.particles@[i]).wf())
        &&& 0 <= self.player_fire_timer <= TIME_LIMIT
        &&& -DT_LIMIT <= self.spawn_timer <= TIME_LIMIT
        &&& self.screen_shake.wf()
        &&& self.wave_manager.wf()
        &&& 130_000 <= self.play_width <= POS_LIMIT
        &&& 130_000 <= self.play_height <= POS_LIMIT
        &&& 2 * self.config.formation_spacing.screen_edge_padding <= self.play_width
    }

    /// A fresh run on a playfield of the given size: the compiled-in
    /// defaults, the player at the bottom centre with the standard
    /// loadout, everything else empty, the wave manager idle.
    pub fn new(play_width: i64, play_height: i64) -> (s: GameState)
        requires
            130_000 <= play_width <= POS_LIMIT,
            130_000 <= play_height <= POS_LIMIT,
        ensures
            s.wf(),
            s.enemies@.len() == 0,
            s.ghosts@.len() == 0,
            s.projectiles@.len() == 0,
            s.particles@.len() == 0,
            s.player.pos == (Position {
                x: (play_width as int / 2) as i64,
                y: (play_height - 50_000) as i64,
            }),
            s.wave_manager.state is Ready,
            s.wave_manager.current_wave_number == 0,
            s.ghost_formation is Line,
    {
        let config = crate::defaults::default_config();
        let wave_count: usize = if config.spawning.wave_count <= crate::config::COUNT_LIMIT {
            config.spawning.wave_count
        } else {
            crate::config::COUNT_LIMIT
        };
        let player = Player {
            pos: Position { x: play_width / 2, y: play_height - 50_000 },
            velocity: Position { x: 0, y: 0 },
            last_pos: Position { x: play_width / 2, y: play_height - 50_000 },
            input_direction: Position { x: 0, y: 0 },
            stats: Stats {
                health: config.player.starting_health,
                max_health: config.player.max_health,
                damage: 20_000,
            },
            energy: config.player.starting_energy,
            max_energy: config.player.max_energy,
            weapon: standard_loadout(),
            available_ghosts: Vec::new(),
            parry_cooldown: 0,
            parry_window: 0,
            parry_active: false,
            parry_success_scale_timer: 0,
            parry_failed_timer: 0,
            parry_stance_glow_timer: 0,
            hit_flash_timer: 0,
        };
        GameState {
            config,
            player,
            enemies: Vec::new(),
            ghosts: Vec::new(),
            projectiles: Vec::new(),
            particles: Vec::new(),
            player_fire_timer: 0,
            spawn_timer: 0,
            ghost_formation: GhostFormation::Line,
            screen_shake: ScreenShake { duration: 0, intensity: 0 },
            wave_manager: WaveManager::new(wave_count),
            play_width,
            play_height,
        }
    }

    /// Take over a reloaded configuration document; the player's ceilings
    /// follow it at once.
    pub fn apply_config(&mut self, config: GameConfig)
        requires
            old(self).wf(),
            config.wf(),
            2 * config.formation_spacing.screen_edge_padding <= old(self).play_width,
        ensures
            final(self).wf(),
            final(self).config == config,
            final(self).player.stats.max_health == config.player.max_health,
            final(self).player.max_energy == config.player.max_energy,
    {
        let new_max_health = config.player.max_health;
        let new_max_energy = config.player.max_energy;
        self.config = config;
        self.player.stats.max_health = new_max_health;
        if self.player.stats.health > new_max_health {
            self.player.stats.health = new_max_health;
        }
        self.player.max_energy = new_max_energy;
        if self.player.energy > new_max_energy {
            self.player.energy = new_max_energy;
        }
    }
}

/// The player's standard loadout.
fn standard_loadout() -> (ws: Vec<WeaponType>)
    ensures
        ws@ =~= seq![
            WeaponType::Bullet,
            WeaponType::Laser,
            WeaponType::Missile,
            WeaponType::Plasma,
        ],
{
    let mut ws: Vec<WeaponType> = Vec::new();
    ws.push(WeaponType::Bullet);
    ws.push(WeaponType::Laser);
    ws.push(WeaponType::Missile);
    ws.push(WeaponType::Plasma);
    ws
}

/// What one tick hands back to the driver: which script hooks to run, and
/// whether the campaign has run out of waves.
#[derive(Clone, Copy, PartialEq, Eq, Structural, Debug)]
pub struct TickEvents {
    pub wave: WaveEvents,
    pub campaign_complete: bool,
}

/// Whether these sequences record a whole resolution pass over the
/// projectiles: battlefield state `k` is carried to state `k + 1` by
/// resolving projectile `k` as `spec_collision_step` relates, with its
/// consumption, friendly-hit and player-hit outcomes recorded.
pub open spec fn spec_collision_fold(
    ps: Seq<Projectile>,
    es: Seq<Seq<Enemy>>,
    gs: Seq<Seq<GhostUnit>>,
    pl: Seq<Player>,
    removed: Seq<bool>,
    hit: Seq<bool>,
    phit: Seq<bool>,
    collision: crate::config::CollisionConfig,
    flash: int,
) -> bool {
    &&& es.len() == ps.len() + 1
    &&& gs.len() == ps.len() + 1
    &&& pl.len() == ps.len() + 1
    &&& removed.len() == ps.len()
    &&& hit.len() == ps.len()
    &&& phit.len() == ps.len()
    &&& forall|k: int|
        0 <= k < ps.len() ==> #[trigger] crate::collision::spec_collision_step(
            ps[k],
            es[k],
            es[k + 1],
            gs[k],
            gs[k + 1],
            pl[k],
            pl[k + 1],
            removed[k],
            hit[k],
            phit[k],
            collision,
            flash,
        )
}

/// Everything the pass's hit feedback relates: existing particles are
/// kept in place; when any friendly projectile damaged someone this tick,
/// the screen shakes for a single maximal-severity recorded hit and that
/// one hit's sparks are spawned (no shake stacking); otherwise a hit on
/// the player alone leaves the player-hit shake and burst; and with
/// neither, shake and particles are untouched.
pub open spec fn spec_hit_feedback(
    pre: GameState,
    post: GameState,
    hits: Seq<(WeaponType, Position)>,
    anyph: bool,
) -> bool {
    &&& (forall|i: int|
        0 <= i < pre.particles@.len() ==> post.particles@[i] == #[trigger] pre.particles@[i])
    &&& (hits.len() > 0 ==> exists|h: (WeaponType, Position)|
        {
            &&& #[trigger] hits.contains(h)
            &&& (forall|j: int|
                0 <= j < hits.len() ==> crate::collision::spec_weapon_severity(
                    (#[trigger] hits[j]).0,
                ) <= crate::collision::spec_weapon_severity(h.0))
            &&& post.screen_shake == ScreenShake {
                duration: pre.config.screen_shake.weapon_hit_duration,
                intensity: crate::shake::spec_weapon_hit_intensity(h.0, pre.config.screen_shake),
            }
            &&& post.particles@.len() == pre.particles@.len() + (if anyph {
                pre.config.particles.spark_count as int
            } else {
                0int
            }) + crate::particles::spec_weapon_particle_count(h.0, pre.config.particles)
        })
    &&& (hits.len() == 0 && anyph ==> {
        &&& post.screen_shake == ScreenShake {
            duration: pre.config.screen_shake.player_hit_duration,
            intensity: pre.config.screen_shake.player_hit_intensity,
        }
        &&& post.particles@.len() == pre.particles@.len() + pre.config.particles.spark_count
    })
    &&& (hits.len() == 0 && !anyph ==> post.screen_shake == pre.screen_shake && post.particles@
        == pre.particles@)
}

/// Everything one collision pass relates, given the recorded trace: the
/// battlefield is folded projectile by projectile from the pre state, the
/// survivors are exactly the unconsumed projectiles in order, and the hit
/// feedback follows the recorded hits.
pub open spec fn spec_collision_trace(
    pre: GameState,
    post: GameState,
    es: Seq<Seq<Enemy>>,
    gs: Seq<Seq<GhostUnit>>,
    pl: Seq<Player>,
    removed: Seq<bool>,
    hit: Seq<bool>,
    phit: Seq<bool>,
) -> bool {
    let n = pre.projectiles@.len() as int;
    &&& spec_collision_fold(
        pre.projectiles@,
        es,
        gs,
        pl,
        removed,
        hit,
        phit,
        pre.config.collision,
        pre.config.animations.hit_flash_duration as int,
    )
    &&& es[0] == pre.enemies@
    &&& gs[0] == pre.ghosts@
    &&& pl[0] == pre.player
    &&& post.enemies@ == es[n]
    &&& post.ghosts@ == gs[n]
    &&& post.player == pl[n]
    &&& post.projectiles@ == crate::collision::spec_survivors(pre.projectiles@, removed)
    &&& spec_hit_feedback(
        pre,
        post,
        crate::collision::spec_hits_of(pre.projectiles@, hit),
        exists|k: int| 0 <= k < phit.len() && #[trigger] phit[k],
    )
}

/// Everything one collision pass relates: some trace of the pass exists.
/// Because each step only ever touches the opposing side, this carries
/// the side separation — player- and ally-owned projectiles never change
/// the player's or a ghost's health, and enemy-owned ones never change an
/// enemy's.
pub open spec fn spec_collision_pass(pre: GameState, post: GameState) -> bool {
    exists|
        es: Seq<Seq<Enemy>>,
        gs: Seq<Seq<GhostUnit>>,
        pl: Seq<Player>,
        removed: Seq<bool>,
        hit: Seq<bool>,
        phit: Seq<bool>,
    |
        #[trigger] spec_collision_trace(pre, post, es, gs, pl, removed, hit, phit)
}

/// Everything the tick's wave-campaign stage relates, given its trace:
/// the state machine stepped on the live enemy count `alive` it saw and
/// reported the tick's hook events, the stepped manager then collected
/// the kinds due this tick, and exactly one wave enemy per due kind was
/// appended after the other enemies, each built as `spec_wave_arrival`
/// states at a centre-biased horizontal position within the padded
/// playfield.
pub open spec fn spec_wave_tick_trace(
    pre: GameState,
    post: GameState,
    delta: int,
    events: TickEvents,
    alive: int,
    stepped: WaveManager,
    due: Seq<crate::models::EntityType>,
    base: Seq<Enemy>,
    arrivals: Seq<Enemy>,
) -> bool {
    &&& 0 <= alive
    &&& WaveManager::spec_state_stepped(pre.wave_manager, stepped, alive, delta, events.wave)
    &&& WaveManager::spec_due_collected(stepped, post.wave_manager, delta, due)
    &&& arrivals.len() == due.len()
    &&& (forall|d: int|
        0 <= d < due.len() ==> #[trigger] spec_biased_arrival(
            arrivals[d],
            due[d],
            pre.play_width as int,
            pre.config,
        ))
    &&& post.enemies@ == base + arrivals
}

/// Whether this enemy is a wave arrival of the given kind built at some
/// centre-biased horizontal position within the padded playfield.
pub open spec fn spec_biased_arrival(
    e: Enemy,
    kind: crate::models::EntityType,
    play_width: int,
    config: GameConfig,
) -> bool {
    exists|sx: int|
        {
            &&& 50_000 <= sx <= play_width - 50_000
            &&& #[trigger] crate::spawn::spec_wave_arrival(e, kind, sx, play_width, config)
        }
}

/// Everything the tick's wave-campaign stage relates: some trace of it
/// exists.
pub open spec fn spec_wave_tick(pre: GameState, post: GameState, delta: int, events: TickEvents) -> bool {
    exists|
        alive: int,
        stepped: WaveManager,
        due: Seq<crate::models::EntityType>,
        base: Seq<Enemy>,
        arrivals: Seq<Enemy>,
    |
        #[trigger] spec_wave_tick_trace(pre, post, delta, events, alive, stepped, due, base, arrivals)
}

impl GameState {
    /// Fire the player's selected weapon slot if the cooldown allows: the
    /// shot goes straight up at full damage, the cooldown restarts at the
    /// weapon's fire rate, and missiles lock onto the nearest enemy. An
    /// out-of-range slot or a running cooldown fires nothing.
    pub fn player_fire_weapon(&mut self, weapon_index: usize)
        requires
            old(self).wf(),
        ensures
            final(self).wf(),
            weapon_index >= old(self).player.weapon@.len() ==> *final(self) == *old(self),
            old(self).player_fire_timer > 0 ==> *final(self) == *old(self),
            (weapon_index < old(self).player.weapon@.len() && old(self).player_fire_timer <= 0)
                ==> ({
                &&& final(self).player_fire_timer == old(self).player.weapon@[weapon_index as int].spec_weapon_stats(
                    old(self).config.weapons,
                ).fire_rate
                &&& exists|snapshot: Vec<Position>|
                    {
                        &&& snapshot@.len() == old(self).enemies@.len()
                        &&& (forall|k: int|
                            0 <= k < snapshot@.len() ==> #[trigger] snapshot@[k] == old(
                                self,
                            ).enemies@[k].pos)
                        &&& final(self).projectiles@ == old(self).projectiles@
                            + #[trigger] crate::weapons::spec_fired_projectiles(
                            crate::weapons::FireWeaponParams {
                                shooter_pos: old(self).player.pos,
                                owner: ProjectileOwner::Player,
                                weapon: old(self).player.weapon@[weapon_index as int],
                                direction: crate::weapons::FiringDirection::Up,
                                damage_multiplier: 1000,
                                enemies: Some(snapshot),
                            },
                            old(self).config.weapons,
                        )
                    }
            }),
{
        if weapon_index >= self.player.weapon.len() {
            return ;
        }
        if self.player_fire_timer > 0 {
            return ;
        }
        let weapon: WeaponType = self.player.weapon[weapon_index];
        let ws = weapon.get_weapon_stats(&self.config.weapons);
        self.player_fire_timer = ws.fire_rate;
        let mut enemy_positions: Vec<Position> = Vec::new();
        let mut i: usize = 0;
        while i < self.enemies.len()
            invariant
                0 <= i <= self.enemies@.len(),
                enemy_positions@.len() == i,
                forall|k: int| 0 <= k < self.enemies@.len() ==> (#[trigger] self.enemies@[k]).wf(),
                forall|k: int|
                    0 <= k < i ==> #[trigger] enemy_positions@[k] == self.enemies@[k].pos,
                forall|k: int|
                    0 <= k < enemy_positions@.len() ==> pos_wf(#[trigger] enemy_positions@[k]),
            decreases self.enemies@.len() - i,
        {
            enemy_positions.push(self.enemies[i].pos);
            i += 1;
        }
        let params = crate::weapons::FireWeaponParams {
            shooter_pos: self.player.pos,
            owner: ProjectileOwner::Player,
            weapon,
            direction: crate::weapons::FiringDirection::Up,
            damage_multiplier: 1000,
            enemies: Some(enemy_positions),
        };
        crate::weapons::fire_weapon(params, &mut self.projectiles, &self.config.weapons);
    }

    /// Resolve all projectile collisions for this tick, exactly as
    /// `spec_collision_pass` relates: each projectile is held against the
    /// opposing side by its hit rule, consumed projectiles leave the list
    /// and the survivors keep their order, hit feedback fires once for
    /// the strongest weapon kind among this tick's hits, and a hit on the
    /// player shakes the screen and bursts at the impact.
    #[verifier::rlimit(100)]
    pub fn check_projectile_collisions(&mut self)
        requires
            old(self).wf(),
        ensures
            final(self).wf(),
            spec_collision_pass(*old(self), *final(self)),
            final(self).projectiles@.len() <= old(self).projectiles@.len(),
            final(self).enemies@.len() == old(self).enemies@.len(),
            final(self).ghosts@.len() == old(self).ghosts@.len(),
            final(self).config == old(self).config,
            final(self).play_width == old(self).play_width,
            final(self).play_height == old(self).play_height,
            final(self).wave_manager == old(self).wave_manager,
            final(self).player_fire_timer == old(self).player_fire_timer,
            final(self).spawn_timer == old(self).spawn_timer,
            final(self).ghost_formation == old(self).ghost_formation,
    {
        let flash: i64 = self.config.animations.hit_flash_duration;
        let n: usize = self.projectiles.len();
        let mut kept: Vec<Projectile> = Vec::new();
        let mut weapon_hits: Vec<(WeaponType, Position)> = Vec::new();
        let mut player_was_hit: bool = false;
        let mut player_hit_position: Option<Position> = None;
        let mut k: usize = 0;
        let ghost mut ess: Seq<Seq<Enemy>> = seq![old(self).enemies@];
        let ghost mut gss: Seq<Seq<GhostUnit>> = seq![old(self).ghosts@];
        let ghost mut pls: Seq<Player> = seq![old(self).player];
        let ghost mut removeds: Seq<bool> = Seq::empty();
        let ghost mut hits_b: Seq<bool> = Seq::empty();
        let ghost mut phits_b: Seq<bool> = Seq::empty();
        while k < n
            invariant
                0 <= k <= n,
                n == self.projectiles@.len(),
                self.config.wf(),
                self.player.wf(),
                0 < self.config.animations.hit_flash_duration <= TIME_LIMIT,
                flash == self.config.animations.hit_flash_duration,
                forall|i: int|
                    0 <= i < self.projectiles@.len() ==> (#[trigger] self.projectiles@[i]).wf(),
                forall|i: int| 0 <= i < self.enemies@.len() ==> (#[trigger] self.enemies@[i]).wf(),
                forall|i: int| 0 <= i < self.ghosts@.len() ==> (#[trigger] self.ghosts@[i]).wf(),
                forall|i: int| 0 <= i < kept@.len() ==> (#[trigger] kept@[i]).wf(),
                forall|i: int|
                    0 <= i < weapon_hits@.len() ==> pos_wf((#[trigger] weapon_hits@[i]).1),
                match player_hit_position {
                    Some(p) => pos_wf(p),
                    None => true,
                },
                self.enemies@.len() == old(self).enemies@.len(),
                self.ghosts@.len() == old(self).ghosts@.len(),
                kept@.len() <= k,
                self.config == old(self).config,
                self.projectiles@ == old(self).projectiles@,
                self.particles@ == old(self).particles@,
                self.screen_shake == old(self).screen_shake,
                self.wave_manager.current_wave_number
                    == old(self).wave_manager.current_wave_number,
                self.wave_manager.total_waves == old(self).wave_manager.total_waves,
                self.wave_manager.state == old(self).wave_manager.state,
                self.wave_manager.prep_timer == old(self).wave_manager.prep_timer,
                self.wave_manager.transition_timer == old(self).wave_manager.transition_timer,
                self.wave_manager.on_start_pending == old(self).wave_manager.on_start_pending,
                self.wave_manager.on_complete_pending
                    == old(self).wave_manager.on_complete_pending,
                self.wave_manager.current_wave == old(self).wave_manager.current_wave,
                self.wave_manager.wf(),
                self.player_fire_timer == old(self).player_fire_timer,
                self.spawn_timer == old(self).spawn_timer,
                self.ghost_formation == old(self).ghost_formation,
                self.play_width == old(self).play_width,
                self.play_height == old(self).play_height,
                ess.len() == k + 1,
                gss.len() == k + 1,
                pls.len() == k + 1,
                removeds.len() == k,
                hits_b.len() == k,
                phits_b.len() == k,
                ess[0] == old(self).enemies@,
                gss[0] == old(self).ghosts@,
                pls[0] == old(self).player,
                ess[k as int] == self.enemies@,
                gss[k as int] == self.ghosts@,
                pls[k as int] == self.player,
                self.player.pos == old(self).player.pos,
                spec_collision_fold(
                    old(self).projectiles@.take(k as int),
                    ess,
                    gss,
                    pls,
                    removeds,
                    hits_b,
                    phits_b,
                    old(self).config.collision,
                    flash as int,
                ),
                kept@ == crate::collision::spec_survivors(
                    old(self).projectiles@.take(k as int),
                    removeds,
                ),
                weapon_hits@ == crate::collision::spec_hits_of(
                    old(self).projectiles@.take(k as int),
                    hits_b,
                ),
                player_was_hit == exists|j: int| 0 <= j < k && #[trigger] phits_b[j],
                player_was_hit ==> player_hit_position == Some(old(self).player.pos),
                !player_was_hit ==> player_hit_position is None,
            decreases n - k,
        {
            let p: Projectile = self.projectiles[k];
            let mut remove: bool = false;
            let ghost removeds_prev = removeds;
            let ghost hitsb_prev = hits_b;
            let ghost phits_prev = phits_b;
            let ghost kept_prev = kept@;
            let ghost wh_prev = weapon_hits@;
            let ghost pwh_prev = player_was_hit;
            match p.owner {
                ProjectileOwner::Player | ProjectileOwner::Ally => {
                    let (hit_any, rem) = crate::collision::resolve_projectile_against_enemies(
                        &p,
                        &mut self.enemies,
                        &self.config.collision,
                        flash,
                    );
                    if hit_any {
                        weapon_hits.push((p.weapon_type, p.pos));
                    }
                    remove = rem;
                    proof {
                        ess = ess.push(self.enemies@);
                        gss = gss.push(self.ghosts@);
                        pls = pls.push(self.player);
                        removeds = removeds.push(rem);
                        hits_b = hits_b.push(hit_any);
                        phits_b = phits_b.push(false);
                        assert(crate::collision::spec_collision_step(
                            old(self).projectiles@[k as int],
                            ess[k as int],
                            ess[k + 1],
                            gss[k as int],
                            gss[k + 1],
                            pls[k as int],
                            pls[k + 1],
                            removeds[k as int],
                            hits_b[k as int],
                            phits_b[k as int],
                            old(self).config.collision,
                            flash as int,
                        ));
                    }
                },
                ProjectileOwner::Enemy => {
                    let (rem, player_hit) = crate::collision::resolve_enemy_projectile(
                        &p,
                        &mut self.player,
                        &mut self.ghosts,
                        &self.config.collision,
                        flash,
                    );
                    if player_hit {
                        player_was_hit = true;
                        player_hit_position = Some(self.player.pos);
                    }
                    remove = rem;
                    proof {
                        ess = ess.push(self.enemies@);
                        gss = gss.push(self.ghosts@);
                        pls = pls.push(self.player);
                        removeds = removeds.push(rem);
                        hits_b = hits_b.push(false);
                        phits_b = phits_b.push(player_hit);
                        assert(crate::collision::spec_collision_step(
                            old(self).projectiles@[k as int],
                            ess[k as int],
                            ess[k + 1],
                            gss[k as int],
                            gss[k + 1],
                            pls[k as int],
                            pls[k + 1],
                            removeds[k as int],
                            hits_b[k as int],
                            phits_b[k as int],
                            old(self).config.collision,
                            flash as int,
                        ));
                    }
                },
            }
            if !remove {
                kept.push(p);
            }
            proof {
                assert(old(self).projectiles@.take(k + 1).drop_last() =~= old(
                    self,
                ).projectiles@.take(k as int));
                assert(old(self).projectiles@.take(k + 1).last() == old(self).projectiles@[k as int]);
                assert(removeds.drop_last() =~= removeds_prev);
                assert(hits_b.drop_last() =~= hitsb_prev);
                assert(kept@ == (if remove {
                    kept_prev
                } else {
                    kept_prev.push(p)
                }));
                assert(weapon_hits@ == (if hits_b.last() {
                    wh_prev.push((p.weapon_type, p.pos))
                } else {
                    wh_prev
                }));
                assert(kept@ =~= crate::collision::spec_survivors(
                    old(self).projectiles@.take(k + 1),
                    removeds,
                ));
                assert(weapon_hits@ =~= crate::collision::spec_hits_of(
                    old(self).projectiles@.take(k + 1),
                    hits_b,
                ));
                assert(forall|j: int| 0 <= j < k ==> phits_b[j] == #[trigger] phits_prev[j]);
                assert(player_was_hit == (pwh_prev || phits_b[k as int]));
                if player_was_hit {
                    if pwh_prev {
                        let j0 = choose|j: int| 0 <= j < k && #[trigger] phits_prev[j];
                        assert(phits_b[j0]);
                    } else {
                        assert(phits_b[k as int]);
                    }
                } else {
                    assert forall|j: int| 0 <= j < k + 1 implies !(#[trigger] phits_b[j]) by {
                        if j < k {
                            assert(!phits_prev[j]);
                        }
                    }
                }
            }
            k += 1;
        }
        proof {
            assert(old(self).projectiles@.take(n as int) =~= old(self).projectiles@);
        }
        self.projectiles = kept;
        if player_was_hit {
            crate::shake::shake_on_player_hit(&mut self.screen_shake, &self.config.screen_shake);
        }
        match player_hit_position {
            Some(hit_pos) => {
                crate::particles::spawn_player_hit_effect(
                    &mut self.particles,
                    hit_pos,
                    &self.config.particles,
                );
            },
            None => {},
        }
        let strongest = crate::collision::strongest_weapon_hit(&weapon_hits);
        match strongest {
            Some((w, hit_pos)) => {
                crate::shake::shake_on_weapon_hit(
                    &mut self.screen_shake,
                    w,
                    &self.config.screen_shake,
                );
                crate::particles::spawn_weapon_particles(
                    &mut self.particles,
                    hit_pos,
                    w,
                    &self.config.particles,
                );
            },
            None => {},
        }
        proof {
            let hits = crate::collision::spec_hits_of(old(self).projectiles@, hits_b);
            let anyph = exists|j: int| 0 <= j < phits_b.len() && #[trigger] phits_b[j];
            assert(hits == weapon_hits@);
            if hits.len() > 0 {
                let h = strongest->0;
                assert(hits.contains(h));
            }
            assert(spec_hit_feedback(*old(self), *self, hits, anyph));
            assert(spec_collision_trace(
                *old(self),
                *self,
                ess,
                gss,
                pls,
                removeds,
                hits_b,
                phits_b,
            ));
        }
    }

    /// Advance the whole simulation one tick, in the fixed order: parry,
    /// player movement, enemies, ghosts, ghost animations, healing,
    /// projectile guidance and expiry, collisions, energy, deaths and
    /// splits, wave progression and scripted spawning, then visual decay.
    /// Wave starts are the driver's: when the machine reports `Ready`, the
    /// driver loads the next scripted wave and hands it to the manager.
    /// Returns the hook events and whether the campaign is over.
    #[verifier::rlimit(100)]
    pub fn update_all_systems(&mut self, delta: i64) -> (events: TickEvents)
        requires
            old(self).wf(),
            0 <= delta <= DT_LIMIT,
        ensures
            final(self).wf(),
            final(self).play_width == old(self).play_width,
            final(self).play_height == old(self).play_height,
            final(self).config == old(self).config,
            final(self).ghost_formation == old(self).ghost_formation,
            final(self).player_fire_timer as int == (if old(self).player_fire_timer - delta < 0 {
                0int
            } else {
                old(self).player_fire_timer - delta
            }),
            events.campaign_complete == (final(self).wave_manager.current_wave_number
                >= final(self).wave_manager.total_waves
                && final(self).wave_manager.state is Transition),
            !old(self).config.spawning.wave_mode ==> final(self).wave_manager == old(
                self,
            ).wave_manager && events.wave == (WaveEvents {
                run_on_start: false,
                run_on_complete: false,
            }),
            old(self).config.spawning.wave_mode ==> final(self).spawn_timer == old(
                self,
            ).spawn_timer && spec_wave_tick(*old(self), *final(self), delta as int, events),
    {
        crate::parry::update_parry(&mut self.player, &self.config, delta);
        crate::parry::check_parry_projectiles(
            &mut self.player,
            &mut self.projectiles,
            &self.config.collision,
            &self.config,
        );
        crate::player::update_player(
            &mut self.player,
            &self.config,
            self.play_width,
            self.play_height,
            delta,
        );
        crate::enemy::update_enemies(
            &mut self.enemies,
            self.player.pos,
            self.player.velocity,
            &mut self.projectiles,
            &self.config,
            delta,
        );
        if self.ghosts.len() <= 10_000 {
            crate::ghost::update_ghosts(
                &mut self.ghosts,
                self.player.pos,
                self.ghost_formation,
                &self.config,
                self.play_width,
                delta,
            );
        }
        crate::ghost::update_ghost_firing(
            &mut self.ghosts,
            &self.enemies,
            &mut self.projectiles,
            &self.config,
        );
        crate::ghost_animation::update_ghost_animations(
            &mut self.ghosts,
            delta,
            &self.config.animations,
        );
        crate::healer::update_healer_healing(&mut self.enemies, &self.config.entities.healer, delta);
        crate::healer::update_ghost_healer_healing(
            &mut self.player,
            &self.ghosts,
            &self.config.entities.healer,
            delta,
        );
        if self.player_fire_timer - delta < 0 {
            self.player_fire_timer = 0;
        } else {
            self.player_fire_timer = self.player_fire_timer - delta;
        }
        crate::guidance::guide_projectiles(
            &mut self.projectiles,
            &self.enemies,
            self.player.pos,
            delta,
        );
        crate::guidance::expire_projectiles(
            &mut self.projectiles,
            self.play_width,
            self.play_height,
            self.config.projectile_bounds.off_screen_padding,
        );
        if self.config.particles.trails_enabled {
            crate::particles::spawn_projectile_trails(
                &mut self.projectiles,
                &mut self.particles,
                &self.config.particles,
            );
        }
        self.check_projectile_collisions();
        crate::energy::manage_energy(
            &mut self.player,
            &mut self.ghosts,
            &self.config.energy,
            &self.config.animations,
            delta,
        );
        crate::lifecycle::cleanup_dead_entities(
            &mut self.player,
            &mut self.enemies,
            &mut self.ghosts,
            &mut self.particles,
            &mut self.screen_shake,
            &self.config,
        );
        let ghost mut g_alive: int = 0;
        let ghost mut g_stepped: WaveManager = self.wave_manager;
        let ghost mut g_due: Seq<crate::models::EntityType> = Seq::empty();
        let ghost mut g_base: Seq<Enemy> = Seq::empty();
        let ghost mut g_arrivals: Seq<Enemy> = Seq::empty();
        let wave_events: WaveEvents = if self.config.spawning.wave_mode {
            let enemies_alive: usize = self.enemies.len();
            let ev = self.wave_manager.update_state(enemies_alive, delta);
            let ghost stepped = self.wave_manager;
            let due = self.wave_manager.collect_due_spawns(delta);
            let pw: i64 = self.play_width;
            let mut arrivals: Vec<Enemy> = Vec::new();
            let mut d: usize = 0;
            while d < due.len()
                invariant
                    0 <= d <= due@.len(),
                    self.config.wf(),
                    self.config == old(self).config,
                    130_000 <= pw <= POS_LIMIT,
                    pw == old(self).play_width,
                    arrivals@.len() == d,
                    forall|i: int| 0 <= i < arrivals@.len() ==> (#[trigger] arrivals@[i]).wf(),
                    forall|j: int|
                        0 <= j < d ==> #[trigger] spec_biased_arrival(
                            arrivals@[j],
                            due@[j],
                            pw as int,
                            old(self).config,
                        ),
                decreases due@.len() - d,
            {
                let spawn_x: i64 = crate::spawn::biased_random_x(50_000, pw - 50_000);
                let e = crate::spawn::spawn_enemy_of_kind(due[d], spawn_x, pw, &self.config);
                arrivals.push(e);
                proof {
                    assert(50_000 <= spawn_x as int <= pw - 50_000
                        && crate::spawn::spec_wave_arrival(
                        arrivals@[d as int],
                        due@[d as int],
                        spawn_x as int,
                        pw as int,
                        old(self).config,
                    ));
                    assert(spec_biased_arrival(
                        arrivals@[d as int],
                        due@[d as int],
                        pw as int,
                        old(self).config,
                    ));
                }
                d += 1;
            }
            let ghost base = self.enemies@;
            let ghost arrived = arrivals@;
            self.enemies.append(&mut arrivals);
            proof {
                assert(self.enemies@ == base + arrived);
                g_alive = enemies_alive as int;
                g_stepped = stepped;
                g_due = due@;
                g_base = base;
                g_arrivals = arrived;
            }
            ev
        } else {
            crate::spawn::spawn_enemies(
                &mut self.enemies,
                &mut self.spawn_timer,
                &self.config,
                self.play_width,
                delta,
            );
            WaveEvents { run_on_start: false, run_on_complete: false }
        };
        crate::particles::update_particles(&mut self.particles, &self.config.particles, delta);
        crate::shake::update_shake(&mut self.screen_shake, delta);
        let campaign_complete: bool = self.wave_manager.is_game_complete();
        let events = TickEvents { wave: wave_events, campaign_complete };
        proof {
            if old(self).config.spawning.wave_mode {
                assert(spec_wave_tick_trace(
                    *old(self),
                    *self,
                    delta as int,
                    events,
                    g_alive,
                    g_stepped,
                    g_due,
                    g_base,
                    g_arrivals,
                ));
            }
        }
        events
    }

    /// A summary of the current wave for display, when one is loaded.
    pub fn get_wave_info(&self) -> (r: Option<WaveInfo>)
        requires
            self.wf(),
    {
        match &self.wave_manager.current_wave {
            Some(wave) => {
                let spawned = wave.spawned_enemy_count();
                let total = wave.total_enemy_count();
                Some(
                    WaveInfo {
                        wave_number: wave.wave_number,
                        name: clone_string(&wave.name),
                        enemies_spawned: spawned,
                        enemies_total: total,
                    },
                )
            },
            None => None,
        }
    }
}

/// Copy a wave name for display.
fn clone_string(s: &String) -> (r: String)
    ensures
        r@ == s@,
{
    s.as_str().to_owned()
}

} // verus!
