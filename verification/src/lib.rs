//! Core simulation of a side-scrolling avoidance game: fixed-timestep
//! physics for a falling, flapping player, procedurally generated gap
//! obstacles with difficulty scaling, collision detection, and the
//! menu / playing / end state machine. Rendering and input polling are
//! left to the host; the library exposes read-only state for them.
//!
//! All physics quantities are scaled integers: positions and velocities
//! are measured in tenths of a world unit, so every step of the
//! simulation is exact integer arithmetic.
//!
//! The `guest` module is a separate small piece: a verified guest list
//! for a console greeter.
pub mod config;
pub mod controller;
pub mod guest;
pub mod obstacle;
pub mod player;
pub mod rng;
pub mod session;
