//! Simulation core of a side-scrolling arcade shooter.
//!
//! Everything here runs on integers. Lengths and positions are counted in
//! thousandths of a pixel, angles in thousandths of a full turn, and time in
//! milliseconds; one call of a per-tick function stands for one sixtieth of
//! a second.

use vstd::prelude::*;

pub mod gameplay;
pub mod image_assets;
pub mod scenes;
pub mod sprite;

verus! {

/// World units in one pixel.
pub const UNIT: i32 = 1000;

/// Width of the visible area.
pub const SCREEN_WIDTH: i32 = 480_000;

/// Height of the visible area.
pub const SCREEN_HEIGHT: i32 = 240_000;

/// Height of the floor line. The vertical axis grows downwards.
pub const GROUND: i32 = 24_000;

/// Height of the ceiling line.
pub const CEILING: i32 = -168_000;

/// Distance a falling body drops per tick.
pub const GRAVITY: i32 = 4_000;

/// Length of one simulation tick in milliseconds.
pub const ONE_FRAME: u128 = 16;

/// Length of one simulation tick, for the clocks that count in 64 bits.
pub const ONE_FRAME_MS: u64 = 16;

/// A millisecond timer one tick later: it runs down and stops at zero.
pub open spec fn tick_down_spec(timer: u128) -> u128 {
    if timer >= ONE_FRAME {
        (timer - ONE_FRAME) as u128
    } else {
        0
    }
}

/// Counts a millisecond timer down by one tick without going below zero.
#[verifier::when_used_as_spec(tick_down_spec)]
pub fn tick_down(timer: u128) -> (left: u128)
    ensures
        left == tick_down_spec(timer),
{
    timer.saturating_sub(ONE_FRAME)
}

} // verus!
