//! The command protocol between the UI and the renderer.
//!
//! Commands travel one way over a FIFO channel and are drained once per
//! redraw cycle, inside the running state's redraw handling. Scalar
//! payloads are carried as 32-bit IEEE-754 bit patterns; the host
//! converts at the channel boundary and pre-scales pointer positions by
//! the window's device pixel ratio.

use vstd::prelude::*;

use crate::state::Theme;

verus! {

/// A message from the UI to the renderer.
#[derive(Debug, Clone, Copy, PartialEq, Eq)]
pub enum BackgroundCommand {
    /// Attach the render surface to the named UI container.
    CreateCanvas(&'static str),
    /// Detach the surface and end the renderer session.
    Destroy,
    /// Set the window's minimum and current logical size; both payloads
    /// are IEEE-754 bit patterns.
    Resize(u32, u32),
    /// Recolour the post-processing base and the wave logo variant.
    SetTheme(Theme),
    /// Move the simulation stimulus; both payloads are IEEE-754 bit
    /// patterns of positions in surface pixels.
    PointerMove(u32, u32),
    /// Press with the given pressure, an IEEE-754 bit pattern.
    PointerDown(u32),
}

} // verus!
