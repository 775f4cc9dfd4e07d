//! Kinematics of a tank on a bounded field: which steps and turns the pressed
//! keys ask for, how the tank takes up what its driver computed for them, and
//! which part of the sprite sheet shows each player's turret.
//!
//! The library is generic in the scalar `N` that coordinates and angles are
//! made of. It never computes with a scalar: the driver does that, in the
//! arithmetic of its choice, and hands the values in.

pub mod atlas;
pub mod controls;
pub mod keys;
pub mod tank;
