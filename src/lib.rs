//! Per-tick robot behaviours: geometry on a fixed-point field model, a
//! per-robot command queue, and strategies that turn a world snapshot into
//! commands, with the multi-phase ball placement behaviour as the main one.
//!
//! Units: positions are millimetres, angles are microradians, times are
//! milliseconds of a caller-supplied monotonic clock.

pub mod geometry;
pub mod action;
pub mod world;
pub mod strategy;
pub mod ball_placement;
pub mod single_shot;
