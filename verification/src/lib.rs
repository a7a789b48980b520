//! A tick-driven dungeon simulation: a player moves through a continuous
//! 2D arena, casts cooldown-gated spells that launch projectiles, and has to
//! dodge or destroy roaming monsters before reaching the exit.
//!
//! Positions are fixed-point: one arena cell is `SCALE` micro-cells, so all
//! vector math is integer arithmetic with exact contracts.

pub mod command;
pub mod magic;
pub mod monster;
pub mod player;
pub mod render;
pub mod coord;
pub mod engine;
pub mod input;
pub mod input_tracker;
pub mod math;
pub mod point;

use vstd::prelude::*;

verus! {

/// Number of micro-cells in one arena cell.
pub const SCALE: i64 = 1_000_000;

} // verus!
