//! Behaviour and locomotion core for a population of soft-bodied creatures.
//!
//! Snakes of many segments and plankton of two live in a shared physics
//! world. Once per tick each creature's attributes age, the creature senses
//! its neighbours in a record made before any creature acts, picks a
//! behavioural state, and turns that state into motor targets and forces.
//! A safety layer keeps the creatures inside the world.
//!
//! The library decides; it does not move anything. Its functions take where
//! the bodies are and return what is to be done to them. The physics world,
//! the clock and the screen belong to the caller, and so do the sines and
//! angles that the library asks for.
//!
//! All quantities are fixed-point numbers, see `fixed`.

pub mod boids;
pub mod bounds;
pub mod creature;
pub mod creature_attributes;
pub mod creature_ui;
pub mod drag;
pub mod fixed;
pub mod follow;
pub mod hysteresis;
pub mod plankton;
pub mod rng;
pub mod safety;
pub mod sensing;
pub mod snake;
pub mod vec2;
pub mod wiggle;
pub mod world;
