//! The wave simulation stage, modelled as plain data.
//!
//! The stage keeps a rolling three-frame history of the height field in
//! three textures, used in rotation: each frame writes the slot after the
//! current one and reads the other two as history. Six bind groups — one
//! per (slot, theme) pair — are precomputed by the host; this module owns
//! the arithmetic that picks slots, bind groups and texture sizes.

use vstd::prelude::*;

use crate::state::Theme;

verus! {

/// The number of height-field textures held in rotation.
pub const WAVE_SLOTS: usize = 3;

/// The simulation runs at a fixed fraction of the surface resolution:
/// one texel per `RESOLUTION_DIVISOR` surface pixels on each axis.
pub const RESOLUTION_DIVISOR: u32 = 4;

/// The side of a wave texture for a surface side of `d` pixels:
/// `d / 4` rounded to the nearest whole number, and at least 1.
pub open spec fn spec_wave_dim(d: u32) -> u32 {
    if (d + 2) / 4 >= 1 {
        ((d + 2) / 4) as u32
    } else {
        1u32
    }
}

/// Computes the wave texture side for a surface side of `d` pixels.
pub fn wave_texture_dim(d: u32) -> (r: u32)
    ensures
        r == spec_wave_dim(d),
        1 <= r,
{
    let q64: u64 = (d as u64 + 2) / 4;
    let q: u32 = q64 as u32;
    if q >= 1 {
        q
    } else {
        1
    }
}

/// The index of a theme's variant within each slot's pair of bind groups.
pub open spec fn spec_theme_index(theme: Theme) -> int {
    match theme {
        Theme::Light => 0,
        Theme::Dark => 1,
    }
}

/// The per-frame stimulus handed to the wave shader. The host scales the
/// position by the resolution fraction when it uploads the action buffer.
#[derive(Debug, Clone, Copy, PartialEq, Eq, Structural)]
pub struct WaveAction {
    /// Pointer x position in surface pixels, as an IEEE-754 bit pattern.
    pub x: u32,
    /// Pointer y position in surface pixels, as an IEEE-754 bit pattern.
    pub y: u32,
    /// Press force, as an IEEE-754 bit pattern; zero when no press is
    /// pending.
    pub force: u32,
}

/// The wave simulation stage's own state: the active slot, the theme the
/// bind-group table is consulted with, and the current texture size.
#[derive(Debug, Clone, Copy, PartialEq, Eq, Structural)]
pub struct WaveState {
    /// The slot written by the most recent frame.
    pub curr_wave: usize,
    /// The theme selecting the logo variant in the bind-group table.
    pub curr_theme: Theme,
    /// Width of each height-field texture, in texels.
    pub texture_width: u32,
    /// Height of each height-field texture, in texels.
    pub texture_height: u32,
}

impl WaveState {
    /// The stage's invariant: a live slot and non-empty textures.
    pub open spec fn wf(self) -> bool {
        &&& self.curr_wave < WAVE_SLOTS
        &&& self.texture_width >= 1
        &&& self.texture_height >= 1
    }

    /// A fresh stage for a surface of the given size: slot 0, dark theme,
    /// textures at the reduced resolution.
    pub fn new(surface_width: u32, surface_height: u32) -> (r: Self)
        ensures
            r.wf(),
            r.curr_wave == 0,
            r.curr_theme == Theme::Dark,
            r.texture_width == spec_wave_dim(surface_width),
            r.texture_height == spec_wave_dim(surface_height),
    {
        WaveState {
            curr_wave: 0,
            curr_theme: Theme::Dark,
            texture_width: wave_texture_dim(surface_width),
            texture_height: wave_texture_dim(surface_height),
        }
    }

    /// Recomputes the texture size for a resized surface. The slot and
    /// theme survive; the host recreates the textures and rebuilds every
    /// bind group that referenced them.
    pub fn resize(&mut self, surface_width: u32, surface_height: u32)
        requires
            old(self).wf(),
        ensures
            final(self).wf(),
            final(self).curr_wave == old(self).curr_wave,
            final(self).curr_theme == old(self).curr_theme,
            final(self).texture_width == spec_wave_dim(surface_width),
            final(self).texture_height == spec_wave_dim(surface_height),
    {
        self.texture_width = wave_texture_dim(surface_width);
        self.texture_height = wave_texture_dim(surface_height);
    }

    /// Advances the active slot by one, wrapping around the three-slot
    /// rotation, and returns the index of the bind group to draw with:
    /// the new slot's pair, at the current theme's variant.
    pub fn advance(&mut self) -> (bind_index: usize)
        requires
            old(self).wf(),
        ensures
            final(self).wf(),
            final(self).curr_wave == (old(self).curr_wave + 1) % (WAVE_SLOTS as int),
            final(self).curr_theme == old(self).curr_theme,
            final(self).texture_width == old(self).texture_width,
            final(self).texture_height == old(self).texture_height,
            bind_index == final(self).curr_wave * 2 + spec_theme_index(old(self).curr_theme),
            bind_index < 2 * WAVE_SLOTS,
    {
        self.curr_wave = (self.curr_wave + 1) % WAVE_SLOTS;
        let theme_index: usize = match self.curr_theme {
            Theme::Light => 0,
            Theme::Dark => 1,
        };
        self.curr_wave * 2 + theme_index
    }
}

/// The two history slots read while writing `slot`: the frames one and
/// two rotations ahead, which are the two most recently written.
pub fn wave_history_slots(slot: usize) -> (r: (usize, usize))
    requires
        slot < WAVE_SLOTS,
    ensures
        r.0 == (slot + 1) % (WAVE_SLOTS as int),
        r.1 == (slot + 2) % (WAVE_SLOTS as int),
{
    ((slot + 1) % WAVE_SLOTS, (slot + 2) % WAVE_SLOTS)
}

} // verus!
