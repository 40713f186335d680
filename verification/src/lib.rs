//! Core rules of a small 2D arcade shooter: enemy spawn scheduling, constant
//! velocity kinematics with bounded bounce, weapon recharge and projectiles,
//! axis-aligned collision detection, and the level / lives / score state
//! machine, all verified.
//!
//! Geometry uses fixed-point integers: positions are in milliunits (1/1000 of
//! a screen unit), velocities in milliunits per millisecond (numerically equal
//! to screen units per second), and time in milliseconds.

pub mod background;
pub mod collide;
pub mod enemy;
pub mod geom;
pub mod laws;
pub mod level;
pub mod player;
mod rng;
pub mod timer;
pub mod ui;
pub mod weapon;
pub mod world;
