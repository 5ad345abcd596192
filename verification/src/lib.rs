//! Core simulation of a 2D side-scrolling platformer character.
//!
//! Each simulation tick the library decides what motion the player body
//! performs and which discrete movement state it occupies, from the input
//! keys, ground and wall contact, timed actions (jump, dash, wall climb)
//! and collision notifications.  The rendering and physics host around it
//! supplies the observations (positions, ray casts, collisions) and carries
//! out the decisions (velocity and gravity writes, spawns, camera shake).
//!
//! Lengths are measured in tenths of a world unit, speeds in tenths of a
//! world unit per second, and durations in milliseconds, so that every
//! quantity is an exact integer.

pub mod common;
pub mod level;
pub mod movement;
pub mod player;
pub mod simulation;
pub mod state_machine;
