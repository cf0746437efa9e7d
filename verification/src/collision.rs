//! The collision and damage resolver. A projectile only damages the
//! opposing side; a plain hit consumes a non-piercing projectile after its
//! first victim, a piercing projectile damages every overlapped target and
//! flies on, and an area projectile damages every target within its
//! explosion radius and is consumed exactly when it damaged at least one.

use vstd::prelude::*;
use crate::geom::{Position, pos_wf, dist_sq, circles_overlap, POS_LIMIT};
use crate::models::{Projectile, ProjectileOwner, WeaponType, Enemy, GhostUnit, Player, Stats};
use crate::config::{CollisionConfig, TIME_LIMIT, DMG_LIMIT};

verus! {

/// Health after taking a hit: damage is subtracted, and health never goes
/// below zero (zero means dead).
pub open spec fn spec_damaged(health: int, damage: int) -> int {
    if health - damage < 0 {
        0int
    } else {
        health - damage
    }
}

/// Subtract damage from health, stopping at zero.
pub fn apply_damage(health: i64, damage: i64) -> (h: i64)
    requires
        0 <= health,
        0 <= damage,
    ensures
        h == spec_damaged(health as int, damage as int),
        0 <= h <= health,
{
    if health - damage < 0 {
        0
    } else {
        health - damage
    }
}

/// Whether a plain (non-area) projectile overlaps a target of the given
/// radius.
pub open spec fn spec_std_hit(p: Projectile, target: Position, pr: int, tr: int) -> bool {
    circles_overlap(p.pos, target, pr, tr)
}

/// Whether a target sits inside an area projectile's explosion radius
/// (squared comparison; distance at most the radius).
pub open spec fn spec_aoe_hit(p: Projectile, target: Position) -> bool {
    dist_sq(p.pos, target) <= p.explosion_radius * p.explosion_radius
}

/// An enemy after taking one hit: health reduced (never below zero) and the
/// hit flash restarted; everything else untouched.
pub open spec fn spec_enemy_after_hit(e: Enemy, damage: int, flash: int) -> Enemy {
    Enemy {
        stats: Stats { health: spec_damaged(e.stats.health as int, damage) as i64, ..e.stats },
        anim: crate::models::EntityAnimState { hit_flash_timer: flash as i64, ..e.anim },
        ..e
    }
}

/// A ghost after taking one hit, in the same way.
pub open spec fn spec_ghost_after_hit(g: GhostUnit, damage: int, flash: int) -> GhostUnit {
    GhostUnit {
        stats: Stats { health: spec_damaged(g.stats.health as int, damage) as i64, ..g.stats },
        anim: crate::models::EntityAnimState { hit_flash_timer: flash as i64, ..g.anim },
        ..g
    }
}

/// Whether `i` is the first enemy a plain projectile overlaps.
pub open spec fn is_first_std_hit(p: Projectile, es: Seq<Enemy>, pr: int, tr: int, i: int) -> bool {
    &&& 0 <= i < es.len()
    &&& spec_std_hit(p, es[i].pos, pr, tr)
    &&& forall|j: int| 0 <= j < i ==> !spec_std_hit(p, (#[trigger] es[j]).pos, pr, tr)
}

/// Scan for the first enemy a plain projectile overlaps.
fn find_first_std_hit(p: &Projectile, enemies: &Vec<Enemy>, pr: i64, tr: i64) -> (r: Option<usize>)
    requires
        p.wf(),
        forall|i: int| 0 <= i < enemies@.len() ==> (#[trigger] enemies@[i]).wf(),
        0 <= pr <= POS_LIMIT,
        0 <= tr <= POS_LIMIT,
    ensures
        match r {
            None => forall|i: int|
                0 <= i < enemies@.len() ==> !spec_std_hit(*p, (#[trigger] enemies@[i]).pos, pr as int, tr as int),
            Some(i) => is_first_std_hit(*p, enemies@, pr as int, tr as int, i as int),
        },
{
    let n: usize = enemies.len();
    let mut j: usize = 0;
    while j < n
        invariant
            0 <= j <= n,
            n == enemies@.len(),
            p.wf(),
            forall|i: int| 0 <= i < enemies@.len() ==> (#[trigger] enemies@[i]).wf(),
            0 <= pr <= POS_LIMIT,
            0 <= tr <= POS_LIMIT,
            forall|i: int|
                0 <= i < j ==> !spec_std_hit(*p, (#[trigger] enemies@[i]).pos, pr as int, tr as int),
        decreases n - j,
    {
        if crate::geom::circle_collision(p.pos, enemies[j].pos, pr, tr) {
            return Some(j);
        }
        j += 1;
    }
    None
}

/// Everything resolving one player- or ally-owned projectile against the
/// enemy list relates, with `hit_any` saying whether anyone was damaged
/// and `remove` whether the projectile is consumed.
///
/// The piercing invariant and the area invariant are this relation: a
/// piercing projectile damages every overlapped enemy and is never
/// consumed; a non-piercing plain projectile damages exactly its first
/// overlapped enemy and is consumed; an area projectile damages exactly the
/// enemies within its explosion radius and is consumed exactly when that
/// set is nonempty.
pub open spec fn spec_friendly_resolution(
    p: Projectile,
    es0: Seq<Enemy>,
    es1: Seq<Enemy>,
    hit_any: bool,
    remove: bool,
    collision: CollisionConfig,
    flash: int,
) -> bool {
    &&& es1.len() == es0.len()
    &&& (p.explosion_radius > 0 ==> {
        &&& forall|i: int|
            0 <= i < es1.len() ==> es1[i] == (if spec_aoe_hit(p, (#[trigger] es0[i]).pos) {
                spec_enemy_after_hit(es0[i], p.damage as int, flash)
            } else {
                es0[i]
            })
        &&& hit_any == exists|i: int|
            0 <= i < es0.len() && spec_aoe_hit(p, (#[trigger] es0[i]).pos)
        &&& remove == hit_any
    })
    &&& (p.explosion_radius == 0 && p.piercing ==> {
        &&& forall|i: int|
            0 <= i < es1.len() ==> es1[i] == (if spec_std_hit(
                p,
                (#[trigger] es0[i]).pos,
                collision.projectile_radius as int,
                collision.enemy_radius as int,
            ) {
                spec_enemy_after_hit(es0[i], p.damage as int, flash)
            } else {
                es0[i]
            })
        &&& hit_any == exists|i: int|
            0 <= i < es0.len() && spec_std_hit(
                p,
                (#[trigger] es0[i]).pos,
                collision.projectile_radius as int,
                collision.enemy_radius as int,
            )
        &&& remove == false
    })
    &&& (p.explosion_radius == 0 && !p.piercing ==> {
        &&& (exists|i: int|
            0 <= i < es0.len() && spec_std_hit(
                p,
                (#[trigger] es0[i]).pos,
                collision.projectile_radius as int,
                collision.enemy_radius as int,
            )) ==> exists|i: int|
            {
                &&& #[trigger] is_first_std_hit(
                    p,
                    es0,
                    collision.projectile_radius as int,
                    collision.enemy_radius as int,
                    i,
                )
                &&& es1 == es0.update(
                    i,
                    spec_enemy_after_hit(es0[i], p.damage as int, flash),
                )
            }
        &&& !(exists|i: int|
            0 <= i < es0.len() && spec_std_hit(
                p,
                (#[trigger] es0[i]).pos,
                collision.projectile_radius as int,
                collision.enemy_radius as int,
            )) ==> es1 == es0
        &&& hit_any == exists|i: int|
            0 <= i < es0.len() && spec_std_hit(
                p,
                (#[trigger] es0[i]).pos,
                collision.projectile_radius as int,
                collision.enemy_radius as int,
            )
        &&& remove == hit_any
    })
}

/// Resolve one projectile owned by the player or an allied ghost against
/// the enemy list, exactly as `spec_friendly_resolution` relates. Returns
/// `(hit_any, remove)`.
pub fn resolve_projectile_against_enemies(
    p: &Projectile,
    enemies: &mut Vec<Enemy>,
    collision: &CollisionConfig,
    flash: i64,
) -> (r: (bool, bool))
    requires
        p.wf(),
        collision.wf(),
        0 <= flash <= TIME_LIMIT,
        forall|i: int| 0 <= i < old(enemies)@.len() ==> (#[trigger] old(enemies)@[i]).wf(),
    ensures
        final(enemies)@.len() == old(enemies)@.len(),
        forall|i: int| 0 <= i < final(enemies)@.len() ==> (#[trigger] final(enemies)@[i]).wf(),
        spec_friendly_resolution(
            *p,
            old(enemies)@,
            final(enemies)@,
            r.0,
            r.1,
            *collision,
            flash as int,
        ),
{
    let n: usize = enemies.len();
    if p.explosion_radius > 0 {
        let mut hit_any: bool = false;
        let mut j: usize = 0;
        proof {
            assert(0 <= p.explosion_radius * p.explosion_radius <= 100_000_000_000_000i64)
                by (nonlinear_arith)
                requires
                    0 <= p.explosion_radius <= 10_000_000,
            ;
        }
        let rr: i64 = p.explosion_radius * p.explosion_radius;
        while j < n
            invariant
                0 <= j <= n,
                n == enemies@.len() == old(enemies)@.len(),
                p.wf(),
                0 <= flash <= TIME_LIMIT,
                rr == p.explosion_radius * p.explosion_radius,
                forall|i: int| 0 <= i < enemies@.len() ==> (#[trigger] enemies@[i]).wf(),
                forall|i: int| j <= i < enemies@.len() ==> enemies@[i] == old(enemies)@[i],
                forall|i: int|
                    0 <= i < j ==> enemies@[i] == (if spec_aoe_hit(
                        *p,
                        (#[trigger] old(enemies)@[i]).pos,
                    ) {
                        spec_enemy_after_hit(old(enemies)@[i], p.damage as int, flash as int)
                    } else {
                        old(enemies)@[i]
                    }),
                hit_any == exists|i: int|
                    0 <= i < j && spec_aoe_hit(*p, (#[trigger] old(enemies)@[i]).pos),
            decreases n - j,
        {
            let d: i64 = crate::geom::distance_sq(p.pos, enemies[j].pos);
            if d <= rr {
                let e = vstd::std_specs::vec::vec_index_mut(enemies, j);
                e.stats.health = apply_damage(e.stats.health, p.damage);
                e.anim.hit_flash_timer = flash;
                hit_any = true;
                proof {
                    assert(spec_aoe_hit(*p, old(enemies)@[j as int].pos));
                }
            }
            j += 1;
        }
        (hit_any, hit_any)
    } else if p.piercing {
        let mut hit_any: bool = false;
        let mut j: usize = 0;
        while j < n
            invariant
                0 <= j <= n,
                n == enemies@.len() == old(enemies)@.len(),
                p.wf(),
                collision.wf(),
                0 <= flash <= TIME_LIMIT,
                forall|i: int| 0 <= i < enemies@.len() ==> (#[trigger] enemies@[i]).wf(),
                forall|i: int| j <= i < enemies@.len() ==> enemies@[i] == old(enemies)@[i],
                forall|i: int|
                    0 <= i < j ==> enemies@[i] == (if spec_std_hit(
                        *p,
                        (#[trigger] old(enemies)@[i]).pos,
                        collision.projectile_radius as int,
                        collision.enemy_radius as int,
                    ) {
                        spec_enemy_after_hit(old(enemies)@[i], p.damage as int, flash as int)
                    } else {
                        old(enemies)@[i]
                    }),
                hit_any == exists|i: int|
                    0 <= i < j && spec_std_hit(
                        *p,
                        (#[trigger] old(enemies)@[i]).pos,
                        collision.projectile_radius as int,
                        collision.enemy_radius as int,
                    ),
            decreases n - j,
        {
            if crate::geom::circle_collision(
                p.pos,
                enemies[j].pos,
                collision.projectile_radius,
                collision.enemy_radius,
            ) {
                let e = vstd::std_specs::vec::vec_index_mut(enemies, j);
                e.stats.health = apply_damage(e.stats.health, p.damage);
                e.anim.hit_flash_timer = flash;
                hit_any = true;
                proof {
                    assert(spec_std_hit(
                        *p,
                        old(enemies)@[j as int].pos,
                        collision.projectile_radius as int,
                        collision.enemy_radius as int,
                    ));
                }
            }
            j += 1;
        }
        (hit_any, false)
    } else {
        let first = find_first_std_hit(p, enemies, collision.projectile_radius, collision.enemy_radius);
        match first {
            Some(i) => {
                let e = vstd::std_specs::vec::vec_index_mut(enemies, i);
                e.stats.health = apply_damage(e.stats.health, p.damage);
                e.anim.hit_flash_timer = flash;
                proof {
                    assert(enemies@ =~= old(enemies)@.update(
                        i as int,
                        spec_enemy_after_hit(old(enemies)@[i as int], p.damage as int, flash as int),
                    ));
                }
                (true, true)
            },
            None => (false, false),
        }
    }
}

/// Everything resolving one enemy-owned projectile against the player and
/// the allied ghosts relates, with `remove` saying whether the projectile
/// is consumed and `player_hit` whether the player was damaged. An area
/// projectile damages the player and every ghost within its radius and is
/// consumed exactly when it damaged someone; a plain projectile damages
/// the player on overlap and its first overlapped ghost, and is consumed
/// when it damaged either.
pub open spec fn spec_enemy_resolution(
    p: Projectile,
    pl0: Player,
    pl1: Player,
    gs0: Seq<GhostUnit>,
    gs1: Seq<GhostUnit>,
    remove: bool,
    player_hit: bool,
    collision: CollisionConfig,
    flash: int,
) -> bool {
    &&& gs1.len() == gs0.len()
    &&& pl1.pos == pl0.pos
    &&& pl1.stats.max_health == pl0.stats.max_health
    &&& (player_hit ==> pl1 == Player {
        stats: Stats {
            health: spec_damaged(pl0.stats.health as int, p.damage as int) as i64,
            ..pl0.stats
        },
        hit_flash_timer: flash as i64,
        ..pl0
    })
    &&& (!player_hit ==> pl1 == pl0)
    &&& (p.explosion_radius > 0 ==> {
        &&& player_hit == spec_aoe_hit(p, pl0.pos)
        &&& forall|i: int|
            0 <= i < gs1.len() ==> gs1[i] == (if spec_aoe_hit(p, (#[trigger] gs0[i]).pos) {
                spec_ghost_after_hit(gs0[i], p.damage as int, flash)
            } else {
                gs0[i]
            })
        &&& remove == (player_hit || exists|i: int|
            0 <= i < gs0.len() && spec_aoe_hit(p, (#[trigger] gs0[i]).pos))
    })
    &&& (p.explosion_radius == 0 ==> {
        &&& player_hit == spec_std_hit(
            p,
            pl0.pos,
            collision.projectile_radius as int,
            collision.player_radius as int,
        )
        &&& (exists|i: int|
            0 <= i < gs0.len() && spec_std_hit(
                p,
                (#[trigger] gs0[i]).pos,
                collision.projectile_radius as int,
                collision.ghost_radius as int,
            )) ==> exists|i: int|
            {
                &&& #[trigger] is_first_std_ghost_hit(
                    p,
                    gs0,
                    collision.projectile_radius as int,
                    collision.ghost_radius as int,
                    i,
                )
                &&& gs1 == gs0.update(
                    i,
                    spec_ghost_after_hit(gs0[i], p.damage as int, flash),
                )
            }
        &&& !(exists|i: int|
            0 <= i < gs0.len() && spec_std_hit(
                p,
                (#[trigger] gs0[i]).pos,
                collision.projectile_radius as int,
                collision.ghost_radius as int,
            )) ==> gs1 == gs0
        &&& remove == (player_hit || exists|i: int|
            0 <= i < gs0.len() && spec_std_hit(
                p,
                (#[trigger] gs0[i]).pos,
                collision.projectile_radius as int,
                collision.ghost_radius as int,
            ))
    })
}

/// Whether `i` is the first ghost a plain projectile overlaps.
pub open spec fn is_first_std_ghost_hit(p: Projectile, gs: Seq<GhostUnit>, pr: int, tr: int, i: int) -> bool {
    &&& 0 <= i < gs.len()
    &&& spec_std_hit(p, gs[i].pos, pr, tr)
    &&& forall|j: int| 0 <= j < i ==> !spec_std_hit(p, (#[trigger] gs[j]).pos, pr, tr)
}

/// Resolve one enemy-owned projectile against the player and the allied
/// ghosts, exactly as `spec_enemy_resolution` relates. Returns
/// `(remove, player_hit)`.
pub fn resolve_enemy_projectile(
    p: &Projectile,
    player: &mut Player,
    ghosts: &mut Vec<GhostUnit>,
    collision: &CollisionConfig,
    flash: i64,
) -> (r: (bool, bool))
    requires
        p.wf(),
        collision.wf(),
        0 <= flash <= TIME_LIMIT,
        old(player).wf(),
        forall|i: int| 0 <= i < old(ghosts)@.len() ==> (#[trigger] old(ghosts)@[i]).wf(),
    ensures
        final(ghosts)@.len() == old(ghosts)@.len(),
        final(player).wf(),
        forall|i: int| 0 <= i < final(ghosts)@.len() ==> (#[trigger] final(ghosts)@[i]).wf(),
        spec_enemy_resolution(
            *p,
            *old(player),
            *final(player),
            old(ghosts)@,
            final(ghosts)@,
            r.0,
            r.1,
            *collision,
            flash as int,
        ),
{
    let mut remove: bool = false;
    let mut player_hit: bool = false;
    if p.explosion_radius > 0 {
        proof {
            assert(0 <= p.explosion_radius * p.explosion_radius <= 100_000_000_000_000i64)
                by (nonlinear_arith)
                requires
                    0 <= p.explosion_radius <= 10_000_000,
            ;
        }
        let rr: i64 = p.explosion_radius * p.explosion_radius;
        let dp: i64 = crate::geom::distance_sq(p.pos, player.pos);
        if dp <= rr {
            player.stats.health = apply_damage(player.stats.health, p.damage);
            player.hit_flash_timer = flash;
            player_hit = true;
            remove = true;
        }
        let n: usize = ghosts.len();
        let mut j: usize = 0;
        let mut ghost_hit: bool = false;
        while j < n
            invariant
                0 <= j <= n,
                n == ghosts@.len() == old(ghosts)@.len(),
                p.wf(),
                0 <= flash <= TIME_LIMIT,
                rr == p.explosion_radius * p.explosion_radius,
                forall|i: int| 0 <= i < ghosts@.len() ==> (#[trigger] ghosts@[i]).wf(),
                forall|i: int| j <= i < ghosts@.len() ==> ghosts@[i] == old(ghosts)@[i],
                forall|i: int|
                    0 <= i < j ==> ghosts@[i] == (if spec_aoe_hit(
                        *p,
                        (#[trigger] old(ghosts)@[i]).pos,
                    ) {
                        spec_ghost_after_hit(old(ghosts)@[i], p.damage as int, flash as int)
                    } else {
                        old(ghosts)@[i]
                    }),
                ghost_hit == exists|i: int|
                    0 <= i < j && spec_aoe_hit(*p, (#[trigger] old(ghosts)@[i]).pos),
            decreases n - j,
        {
            let d: i64 = crate::geom::distance_sq(p.pos, ghosts[j].pos);
            if d <= rr {
                let g = vstd::std_specs::vec::vec_index_mut(ghosts, j);
                g.stats.health = apply_damage(g.stats.health, p.damage);
                g.anim.hit_flash_timer = flash;
                ghost_hit = true;
                proof {
                    assert(spec_aoe_hit(*p, old(ghosts)@[j as int].pos));
                }
            }
            j += 1;
        }
        if ghost_hit {
            remove = true;
        }
        (remove, player_hit)
    } else {
        if crate::geom::circle_collision(
            p.pos,
            player.pos,
            collision.projectile_radius,
            collision.player_radius,
        ) {
            player.stats.health = apply_damage(player.stats.health, p.damage);
            player.hit_flash_timer = flash;
            player_hit = true;
            remove = true;
        }
        let n: usize = ghosts.len();
        let mut j: usize = 0;
        let mut done: bool = false;
        while j < n
            invariant
                0 <= j <= n,
                n == ghosts@.len() == old(ghosts)@.len(),
                p.wf(),
                collision.wf(),
                0 <= flash <= TIME_LIMIT,
                forall|i: int| 0 <= i < ghosts@.len() ==> (#[trigger] ghosts@[i]).wf(),
                !done ==> ghosts@ == old(ghosts)@,
                !done ==> forall|i: int|
                    0 <= i < j ==> !spec_std_hit(
                        *p,
                        (#[trigger] old(ghosts)@[i]).pos,
                        collision.projectile_radius as int,
                        collision.ghost_radius as int,
                    ),
                done ==> exists|i: int|
                    {
                        &&& #[trigger] is_first_std_ghost_hit(
                            *p,
                            old(ghosts)@,
                            collision.projectile_radius as int,
                            collision.ghost_radius as int,
                            i,
                        )
                        &&& ghosts@ == old(ghosts)@.update(
                            i,
                            spec_ghost_after_hit(old(ghosts)@[i], p.damage as int, flash as int),
                        )
                    },
                done ==> ghosts@.len() == old(ghosts)@.len(),
            decreases n - j,
        {
            if !done {
                if crate::geom::circle_collision(
                    p.pos,
                    ghosts[j].pos,
                    collision.projectile_radius,
                    collision.ghost_radius,
                ) {
                    let g = vstd::std_specs::vec::vec_index_mut(ghosts, j);
                    g.stats.health = apply_damage(g.stats.health, p.damage);
                    g.anim.hit_flash_timer = flash;
                    done = true;
                    proof {
                        assert(is_first_std_ghost_hit(
                            *p,
                            old(ghosts)@,
                            collision.projectile_radius as int,
                            collision.ghost_radius as int,
                            j as int,
                        ));
                        assert(ghosts@ =~= old(ghosts)@.update(
                            j as int,
                            spec_ghost_after_hit(
                                old(ghosts)@[j as int],
                                p.damage as int,
                                flash as int,
                            ),
                        ));
                    }
                }
            }
            j += 1;
        }
        if done {
            remove = true;
        }
        (remove, player_hit)
    }
}

/// Everything resolving one projectile of the pass relates, on the whole
/// battlefield: a player- or ally-owned projectile is resolved against the
/// enemies alone — the player and the ghosts are untouched, so friendly
/// fire never crosses back — and an enemy-owned projectile is resolved
/// against the player and the ghosts alone, the enemies untouched. `hit`
/// records a friendly projectile damaging someone (what the hit feedback
/// collects), `phit` the player being damaged.
pub open spec fn spec_collision_step(
    p: Projectile,
    es0: Seq<Enemy>,
    es1: Seq<Enemy>,
    gs0: Seq<GhostUnit>,
    gs1: Seq<GhostUnit>,
    pl0: Player,
    pl1: Player,
    removed: bool,
    hit: bool,
    phit: bool,
    collision: CollisionConfig,
    flash: int,
) -> bool {
    match p.owner {
        ProjectileOwner::Player | ProjectileOwner::Ally => {
            &&& spec_friendly_resolution(p, es0, es1, hit, removed, collision, flash)
            &&& gs1 == gs0
            &&& pl1 == pl0
            &&& !phit
        },
        ProjectileOwner::Enemy => {
            &&& spec_enemy_resolution(p, pl0, pl1, gs0, gs1, removed, phit, collision, flash)
            &&& es1 == es0
            &&& !hit
        },
    }
}

/// The projectiles that survive the pass: those not consumed, in order.
pub open spec fn spec_survivors(ps: Seq<Projectile>, removed: Seq<bool>) -> Seq<Projectile>
    decreases ps.len(),
{
    if ps.len() == 0 {
        Seq::empty()
    } else {
        let rest = spec_survivors(ps.drop_last(), removed.drop_last());
        if removed.last() {
            rest
        } else {
            rest.push(ps.last())
        }
    }
}

/// The weapon-and-impact records of the friendly projectiles that damaged
/// someone, in pass order: what the hit feedback chooses from.
pub open spec fn spec_hits_of(ps: Seq<Projectile>, hit: Seq<bool>) -> Seq<(WeaponType, Position)>
    decreases ps.len(),
{
    if ps.len() == 0 {
        Seq::empty()
    } else {
        let rest = spec_hits_of(ps.drop_last(), hit.drop_last());
        if hit.last() {
            rest.push((ps.last().weapon_type, ps.last().pos))
        } else {
            rest
        }
    }
}

/// The fixed severity ranking used to pick the single strongest weapon kind
/// among simultaneous hits: area > homing > piercing > spread > standard.
pub open spec fn spec_weapon_severity(w: WeaponType) -> int {
    match w {
        WeaponType::Bombs => 5int,
        WeaponType::Missile => 4int,
        WeaponType::Laser => 3int,
        WeaponType::Plasma => 2int,
        WeaponType::Bullet => 1int,
    }
}

/// Rank a weapon kind for hit-feedback severity.
pub fn weapon_severity(w: WeaponType) -> (s: i64)
    ensures
        s == spec_weapon_severity(w),
{
    match w {
        WeaponType::Bombs => 5,
        WeaponType::Missile => 4,
        WeaponType::Laser => 3,
        WeaponType::Plasma => 2,
        WeaponType::Bullet => 1,
    }
}

/// Pick a hit of maximal severity from the hits recorded this tick; nothing
/// when there were none. The chosen hit is one of the recorded hits, and no
/// recorded hit ranks above it.
pub fn strongest_weapon_hit(hits: &Vec<(WeaponType, Position)>) -> (r: Option<(WeaponType, Position)>)
    ensures
        match r {
            None => hits@.len() == 0,
            Some(h) => {
                &&& exists|i: int| 0 <= i < hits@.len() && #[trigger] hits@[i] == h
                &&& forall|i: int|
                    0 <= i < hits@.len() ==> spec_weapon_severity((#[trigger] hits@[i]).0)
                        <= spec_weapon_severity(h.0)
            },
        },
{
    if hits.len() == 0 {
        return None;
    }
    let mut best: usize = 0;
    let mut k: usize = 1;
    while k < hits.len()
        invariant
            1 <= k <= hits@.len(),
            0 <= best < k,
            forall|i: int|
                0 <= i < k ==> spec_weapon_severity((#[trigger] hits@[i]).0) <= spec_weapon_severity(
                    hits@[best as int].0,
                ),
        decreases hits@.len() - k,
    {
        if weapon_severity(hits[k].0) >= weapon_severity(hits[best].0) {
            best = k;
        }
        k += 1;
    }
    Some(hits[best])
}

} // verus!
