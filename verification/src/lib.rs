//! The core of a small real-time simulation of entities: how a hit turns
//! two entities' statistics into damage, and how a body moves from one tick
//! to the next, alone and tethered to others.
//!
//! Quantities that are not whole numbers are fixed-point [`scalar::Scalar`]s.
//! Bodies live in a world, a vector of [`thing::Thing`]s, and name one another
//! by index.
pub mod body;
pub mod combat;
pub mod control;
pub mod element;
pub mod error;
pub mod scalar;
pub mod thing;
pub mod vector;
pub mod world;
