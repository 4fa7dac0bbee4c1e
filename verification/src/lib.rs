//! A verified model of a fixed three-pass 2D compositing pipeline.
//!
//! Each frame, a static map layer and a batch of instanced sprites are drawn
//! into two shared offscreen targets (colour and visibility); the visibility
//! target's mip levels are then regenerated, and a final lighting pass
//! modulates the colour buffer by the mip-sampled visibility falloff around a
//! per-frame eye position, writing the presented image.
//!
//! The library models the CPU-side logic of that pipeline over plain integer
//! pixel coordinates: the instance upload/device buffer pair with its
//! at-most-capacity truncation policy, the exact command trace each pass
//! appends, the mandatory pass ordering, the offscreen-target and pixel-buffer
//! validation rules, and the per-frame state machine. Device submission,
//! window and input handling are the process edge and stay outside.

pub mod commands;
pub mod errors;
pub mod frame;
pub mod geometry;
pub mod input;
pub mod instance;
pub mod lighting;
pub mod map;
pub mod pixels;
pub mod sprites;
pub mod target;
