//! Accumulated pointer input, fed to the wave simulation once per frame.
//!
//! Scalar pointer values travel through the renderer untouched, so they are
//! carried as 32-bit IEEE-754 bit patterns; the host converts at the
//! boundary. The force field is edge-triggered: it is set by a press and
//! cleared after the first frame that consumes it.

use vstd::prelude::*;

verus! {

/// Pointer state accumulated between frames.
#[derive(Debug, Clone, Copy, PartialEq, Eq, Structural)]
pub struct Input {
    /// Pointer x position in surface pixels, as an IEEE-754 bit pattern.
    pub pos_x: u32,
    /// Pointer y position in surface pixels, as an IEEE-754 bit pattern.
    pub pos_y: u32,
    /// Pressure of the latest press, as an IEEE-754 bit pattern; cleared
    /// once a rendered frame has consumed it.
    pub force: Option<u32>,
}

impl Input {
    /// Fresh input: pointer at the origin, no pending press.
    pub fn new() -> (r: Self)
        ensures
            r.pos_x == 0,
            r.pos_y == 0,
            r.force is None,
    {
        Input { pos_x: 0, pos_y: 0, force: None }
    }
}

impl Default for Input {
    fn default() -> (r: Self)
        ensures
            r.pos_x == 0,
            r.pos_y == 0,
            r.force is None,
    {
        Input::new()
    }
}

} // verus!
