//! The frame core of a small 2D renderer.
//!
//! Clients submit quads, lines, rectangle outlines and circles during a frame.
//! The core keeps one ordered list per primitive kind, lays every pending
//! instance out in dynamically offset uniform buffers, and describes the
//! uploads and draw calls of the frame as plain values that a graphics
//! backend can carry out one by one.
//!
//! Every scalar that ends up on the GPU is carried as an IEEE-754 bit
//! pattern; the core never does arithmetic on it.

pub mod align;
pub mod geometry;
pub mod plan;
pub mod layout;
pub mod pipeline;
pub mod mesh;
pub mod resources;
pub mod jpeg;
pub mod texture;
pub mod registry;
pub mod quad;
pub mod line;
pub mod circle;
pub mod engine;
pub mod gui;
pub mod context;
