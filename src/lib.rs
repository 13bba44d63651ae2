//! Simulation core of a small 2D arcade game: a seeded level generator,
//! fixed-point body and force arithmetic, collision layers, the round and
//! menu phase machines, the collision rules for the player's craft, and the
//! torpedo and explosion rules. Rendering and the physics engine stay
//! outside; they hand this crate plain values and apply what it returns.

pub mod glod;
pub mod physics;
pub mod random;
pub mod state;
pub mod unit;
pub mod weapon;
pub mod world;
