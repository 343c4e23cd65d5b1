//! Pieces shared by the game variants: velocity arithmetic in tenths of a cell
//! per step, the frame-time gate, modes, inputs and draw cells.

use vstd::prelude::*;

verus! {

/// Velocity gained per physics step, in tenths of a cell per step.
pub const GRAVITY: i32 = 2;

/// Largest downward velocity, in tenths of a cell per step.
pub const TERMINAL_VELOCITY: i32 = 20;

/// Velocity set by a flap or a jump, in tenths of a cell per step.
pub const IMPULSE_VELOCITY: i32 = -20;

/// Which screen the game is on.
#[derive(Clone, Copy, Debug, PartialEq, Eq, Structural)]
pub enum GameMode {
    Menu,
    Playing,
    End,
}

/// A recognised key press: the flap / jump key, "play" or "quit".
#[derive(Clone, Copy, Debug, PartialEq, Eq, Structural)]
pub enum Input {
    Impulse,
    Play,
    Quit,
}

/// One glyph that the host should draw at a screen position.
#[derive(Clone, Copy, Debug, PartialEq, Eq, Structural)]
pub struct Cell {
    pub x: i32,
    pub y: i32,
    pub glyph: u16,
}

/// Velocity after one step of gravity: raised by `GRAVITY` while below the
/// terminal velocity, never raised past it.
pub open spec fn accelerated(v: int) -> int {
    if v < TERMINAL_VELOCITY {
        if v + GRAVITY <= TERMINAL_VELOCITY {
            v + GRAVITY
        } else {
            TERMINAL_VELOCITY as int
        }
    } else {
        v
    }
}

/// Whole cells covered by a velocity given in tenths, rounded toward zero.
pub open spec fn whole_cells_of(v: int) -> int {
    if v >= 0 {
        v / 10
    } else {
        -((-v) / 10)
    }
}

/// A velocity that the physics can hold: between the impulse and terminal
/// velocities.
pub open spec fn velocity_in_range(v: int) -> bool {
    IMPULSE_VELOCITY <= v <= TERMINAL_VELOCITY
}

/// Applies one step of gravity to a velocity.
pub fn accelerate(v: i32) -> (r: i32)
    ensures
        r == accelerated(v as int),
{
    if v < TERMINAL_VELOCITY {
        if v <= TERMINAL_VELOCITY - GRAVITY {
            v + GRAVITY
        } else {
            TERMINAL_VELOCITY
        }
    } else {
        v
    }
}

/// Truncates a velocity in tenths to whole cells, toward zero.
pub fn whole_cells(v: i32) -> (r: i32)
    ensures
        r == whole_cells_of(v as int),
{
    if v >= 0 {
        v / 10
    } else {
        let magnitude: i64 = -(v as i64);
        let q: i64 = magnitude / 10;
        -(q as i32)
    }
}

/// Frame-time accumulator after `elapsed` more microseconds, and whether a
/// physics step is due: a step is due once the total passes `limit`, and the
/// accumulator then starts again from zero.
pub open spec fn clock_after(acc: int, elapsed: int, limit: int) -> (int, bool) {
    if acc + elapsed > limit {
        (0, true)
    } else {
        (acc + elapsed, false)
    }
}

/// Adds `elapsed_us` to the frame-time accumulator and reports whether a
/// physics step is due.
pub fn advance_clock(acc: u64, elapsed_us: u32, limit: u64) -> (r: (u64, bool))
    requires
        acc <= limit,
        limit <= u32::MAX,
    ensures
        (r.0 as int, r.1) == clock_after(acc as int, elapsed_us as int, limit as int),
        r.0 <= limit,
{
    let total: u64 = acc + elapsed_us as u64;
    if total > limit {
        (0, true)
    } else {
        (total, false)
    }
}

/// The code-page-437 glyph index of a character, as bracket-lib's
/// `to_cp437` gives it.
pub uninterp spec fn cp437_of(c: char) -> u16;

/// Relies on `bracket_lib::prelude::to_cp437`: its result is a function of
/// the character alone, and each printable ASCII character (space to `~`)
/// maps to its own code.
#[verifier::external_body]
pub(crate) fn glyph(c: char) -> (r: u16)
    ensures
        r == cp437_of(c),
        ' ' <= c <= '~' ==> r == c as u16,
{
    bracket_lib::prelude::to_cp437(c)
}

} // verus!
