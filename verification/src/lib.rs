//! Simulation core of a top-down arcade shooter: a player fights scripted
//! waves of enemies and captures defeated foes as temporary allied ghosts.
//!
//! The world is modelled over integers: coordinates and velocities are held
//! in thousandths of a pixel, durations in milliseconds, health, damage and
//! energy in thousandths of a point, and dimensionless fractions in
//! thousandths (per-mille). Every update function states exactly, over that
//! integer model, what it computes.

pub mod animation;
pub mod bezier;
pub mod collision;
pub mod config;
pub mod defaults;
pub mod enemy;
pub mod energy;
pub mod formation;
pub mod geom;
pub mod ghost;
pub mod ghost_animation;
pub mod guidance;
pub mod healer;
pub mod lifecycle;
pub mod models;
pub mod parry;
pub mod particles;
pub mod player;
pub mod rng;
pub mod shake;
pub mod spawn;
pub mod splitter;
pub mod state;
pub mod summon;
pub mod wave;
pub mod weapons;

pub use geom::Position;
