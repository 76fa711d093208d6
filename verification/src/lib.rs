//! A minimal 2D character controller: keyboard-driven movement, screen
//! confinement and sprite-sheet animation for a single player entity.
//!
//! Positions and window sizes are measured in subpixels (millionths of a
//! pixel) and time in microseconds, so every per-frame update is exact
//! integer arithmetic with a proved contract. The engine glue that creates
//! a window, reads the real keyboard and draws the sprite lives outside
//! this crate and hands these functions plain values once per frame.

pub mod camera;
pub mod geometry;
pub mod laws;
pub mod player;
