//! Verified core of a tic-tac-toe game: the geometry that maps a square 3x3
//! board onto world coordinates, the reconstruction of a drawable line through
//! a set of winning positions, and the per-tick decisions (move-delay gating,
//! input-to-move translation) that surround the rules engine.
//!
//! World coordinates are fixed-point values: every `i64` coordinate counts a
//! caller-chosen unit (for example thousandths of a world unit), so that all
//! geometry is exact integer arithmetic.

pub mod components;
pub mod environments;
pub mod events;
pub mod file_io;
pub mod grid;
pub mod math;
pub mod rules;
pub mod systems;
