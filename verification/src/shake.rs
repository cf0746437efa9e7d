//! Screen shake: a decaying timer and intensity, with the event-specific
//! triggers, and a random camera offset bounded by the intensity.

use vstd::prelude::*;
use crate::models::WeaponType;
use crate::config::{ScreenShakeConfig, TIME_LIMIT, DT_LIMIT};
use crate::geom::POS_LIMIT;

verus! {

/// The live shake state: how long it still runs and how far it throws the
/// camera (thousandths of a pixel).
#[derive(Clone, Copy, PartialEq, Eq, Structural, Debug)]
pub struct ScreenShake {
    pub duration: i64,
    pub intensity: i64,
}

impl ScreenShake {
    pub open spec fn wf(self) -> bool {
        &&& 0 <= self.duration <= TIME_LIMIT
        &&& 0 <= self.intensity <= POS_LIMIT
    }
}

/// Start a shake with the given duration and intensity, replacing any
/// running one.
pub fn trigger_shake(shake: &mut ScreenShake, duration: i64, intensity: i64)
    requires
        0 <= duration <= TIME_LIMIT,
        0 <= intensity <= POS_LIMIT,
    ensures
        *final(shake) == (ScreenShake { duration, intensity }),
        final(shake).wf(),
{
    shake.duration = duration;
    shake.intensity = intensity;
}

/// Decay the shake: the duration counts down, and both values clear when
/// it runs out.
pub fn update_shake(shake: &mut ScreenShake, delta: i64)
    requires
        old(shake).wf(),
        0 <= delta <= DT_LIMIT,
    ensures
        final(shake).wf(),
        old(shake).duration > 0 && old(shake).duration - delta > 0 ==> *final(shake)
            == (ScreenShake { duration: (old(shake).duration - delta) as i64, ..*old(shake) }),
        old(shake).duration > 0 && old(shake).duration - delta <= 0 ==> *final(shake)
            == (ScreenShake { duration: 0i64, intensity: 0i64 }),
        old(shake).duration <= 0 ==> *final(shake) == *old(shake),
{
    if shake.duration > 0 {
        shake.duration = shake.duration - delta;
        if shake.duration <= 0 {
            shake.duration = 0;
            shake.intensity = 0;
        }
    }
}

/// The camera offset for this frame: zero at rest, else a random offset
/// whose coordinates stay within the current intensity.
pub fn get_shake_offset(shake: &ScreenShake) -> (r: (i64, i64))
    requires
        shake.wf(),
    ensures
        shake.duration <= 0 ==> r == (0i64, 0i64),
        -shake.intensity <= r.0 <= shake.intensity,
        -shake.intensity <= r.1 <= shake.intensity,
{
    if shake.duration <= 0 {
        return (0, 0);
    }
    let ox: i64 = crate::rng::gen_range_i64(-shake.intensity, shake.intensity);
    let oy: i64 = crate::rng::gen_range_i64(-shake.intensity, shake.intensity);
    (ox, oy)
}

/// Shake for an enemy's death.
pub fn shake_on_enemy_death(shake: &mut ScreenShake, cfg: &ScreenShakeConfig)
    requires
        cfg.wf(),
    ensures
        *final(shake) == (ScreenShake {
            duration: cfg.enemy_death_duration,
            intensity: cfg.enemy_death_intensity,
        }),
        final(shake).wf(),
{
    trigger_shake(shake, cfg.enemy_death_duration, cfg.enemy_death_intensity);
}

/// Shake for a successful parry.
pub fn shake_on_parry(shake: &mut ScreenShake, cfg: &ScreenShakeConfig)
    requires
        cfg.wf(),
    ensures
        *final(shake) == (ScreenShake {
            duration: cfg.parry_duration,
            intensity: cfg.parry_intensity,
        }),
        final(shake).wf(),
{
    trigger_shake(shake, cfg.parry_duration, cfg.parry_intensity);
}

/// Shake for the player taking a hit.
pub fn shake_on_player_hit(shake: &mut ScreenShake, cfg: &ScreenShakeConfig)
    requires
        cfg.wf(),
    ensures
        *final(shake) == (ScreenShake {
            duration: cfg.player_hit_duration,
            intensity: cfg.player_hit_intensity,
        }),
        final(shake).wf(),
{
    trigger_shake(shake, cfg.player_hit_duration, cfg.player_hit_intensity);
}

/// The shake intensity a weapon kind's hit carries.
pub open spec fn spec_weapon_hit_intensity(w: WeaponType, cfg: ScreenShakeConfig) -> i64 {
    match w {
        WeaponType::Bullet => cfg.bullet_hit_intensity,
        WeaponType::Laser => cfg.laser_hit_intensity,
        WeaponType::Missile => cfg.missile_hit_intensity,
        WeaponType::Plasma => cfg.plasma_hit_intensity,
        WeaponType::Bombs => cfg.bomb_hit_intensity,
    }
}

/// Weapon-specific shake when the player's side lands a hit.
pub fn shake_on_weapon_hit(shake: &mut ScreenShake, weapon_type: WeaponType, cfg: &ScreenShakeConfig)
    requires
        cfg.wf(),
    ensures
        *final(shake) == (ScreenShake {
            duration: cfg.weapon_hit_duration,
            intensity: spec_weapon_hit_intensity(weapon_type, *cfg),
        }),
        final(shake).wf(),
{
    let intensity: i64 = match weapon_type {
        WeaponType::Bullet => cfg.bullet_hit_intensity,
        WeaponType::Laser => cfg.laser_hit_intensity,
        WeaponType::Missile => cfg.missile_hit_intensity,
        WeaponType::Plasma => cfg.plasma_hit_intensity,
        WeaponType::Bombs => cfg.bomb_hit_intensity,
    };
    trigger_shake(shake, cfg.weapon_hit_duration, intensity);
}

} // verus!
