//! Combat simulation core for a real-time 2D arena game.
//!
//! A player fights a stream of spawned enemies with projectile attacks.
//! This crate holds the decision logic of that simulation: the entity
//! life-cycle state machine, the typed collision-event resolver, the
//! directional sprite-animation engine, and the timer-driven spawner.
//! Rendering, physics integration, input and audio are external
//! collaborators; they hand the core plain values (elapsed time, contact
//! notifications, orientation vectors) and read plain values back
//! (frame indices, health, score).
//!
//! All quantities are fixed-point integers: time is measured in
//! microseconds, world coordinates and orientation components in
//! thousandths of a world unit.

pub mod animation;
pub mod collision;
pub mod direction;
pub mod lifecycle;
pub mod player;
pub mod spawner;
pub mod timing;
pub mod world;
