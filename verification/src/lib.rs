//! Interaction and animation core of a small 2D game: cursor resolution,
//! sprite-atlas animation, picking, collision detection and scoring.
//!
//! Every function here works on plain values. The host engine owns the
//! entities, reads the devices and draws; each tick it hands the values in
//! and carries the decisions out.

pub mod collision;
pub mod cursor;
pub mod geometry;
pub mod movement;
pub mod picking;
pub mod score;
pub mod spawner;
pub mod sprite_animation;
pub mod timer;
