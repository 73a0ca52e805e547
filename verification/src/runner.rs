//! Per-frame orchestration: frame-rate gating, resize handling and theme
//! changes, modelled as plain data.
//!
//! The host owns the GPU device, surface and pipelines. It drives a
//! [`RunnerState`]; whenever [`RunnerState::update`] decides that a frame
//! is due, it returns a [`FramePlan`] naming the bind groups to draw with
//! and the action vector to upload, and the host encodes and submits
//! exactly that.

use vstd::prelude::*;

use crate::input::Input;
use crate::state::Theme;
use crate::wave::spec_theme_index;
use crate::wave::spec_wave_dim;
use crate::wave::WaveAction;
use crate::wave::WaveState;

verus! {

/// The shortest time between two rendered frames, in microseconds: one
/// thirtieth of a second, keeping the renderer at 30 frames per second.
pub const FRAME_INTERVAL_MICROS: i64 = 33_333;

/// The largest timestamp the renderer reasons about, in microseconds
/// since the Unix epoch. Keeping timestamps below this bound keeps every
/// interval computation inside `i64`.
pub const MAX_TIMESTAMP_MICROS: i64 = 0x1000_0000_0000_0000;

/// The post-processing stage's own state: the theme base colour held in
/// its uniform buffer, and the wave texture size its three bind groups
/// were built against.
#[derive(Debug, Clone, Copy, PartialEq, Eq, Structural)]
pub struct PostProcessorState {
    /// The base colour uniform, packed as 0xRRGGBB.
    pub base_color: u32,
    /// Width of the wave textures the bind groups reference.
    pub bound_width: u32,
    /// Height of the wave textures the bind groups reference.
    pub bound_height: u32,
}

/// Everything the host needs to render one frame.
#[derive(Debug, Clone, Copy, PartialEq, Eq, Structural)]
pub struct FramePlan {
    /// Index into the wave stage's six-entry bind-group table.
    pub wave_bind_index: usize,
    /// Index of the post-processing bind group: the slot just written.
    pub post_bind_index: usize,
    /// The stimulus to upload to the action buffer before drawing.
    pub action: WaveAction,
}

/// The renderer's orchestration state, one per live surface.
#[derive(Debug, Clone, Copy, PartialEq, Eq, Structural)]
pub struct RunnerState {
    /// Configured surface width, in pixels; always at least 1.
    pub surface_width: u32,
    /// Configured surface height, in pixels; always at least 1.
    pub surface_height: u32,
    /// The wave simulation stage.
    pub wave: WaveState,
    /// The post-processing stage.
    pub post: PostProcessorState,
    /// When the last rendered frame was accepted, in microseconds.
    pub timer: i64,
}

impl RunnerState {
    /// The runner's invariant: the stages are well formed, the wave
    /// textures match the surface at the reduced resolution, and the
    /// post-processing bind groups were rebuilt for the current textures.
    pub open spec fn wf(self) -> bool {
        &&& self.wave.wf()
        &&& self.surface_width >= 1
        &&& self.surface_height >= 1
        &&& self.wave.texture_width == spec_wave_dim(self.surface_width)
        &&& self.wave.texture_height == spec_wave_dim(self.surface_height)
        &&& self.post.bound_width == self.wave.texture_width
        &&& self.post.bound_height == self.wave.texture_height
        &&& 0 <= self.timer <= MAX_TIMESTAMP_MICROS
    }

    /// What `new` returns.
    pub open spec fn spec_new(width: u32, height: u32, now: i64) -> RunnerState {
        let surface_width = if width >= 1 { width as int } else { 1int };
        let surface_height = if height >= 1 { height as int } else { 1int };
        RunnerState {
            surface_width: surface_width as u32,
            surface_height: surface_height as u32,
            wave: WaveState {
                curr_wave: 0,
                curr_theme: Theme::Dark,
                texture_width: spec_wave_dim(surface_width as u32),
                texture_height: spec_wave_dim(surface_height as u32),
            },
            post: PostProcessorState {
                base_color: Theme::Dark.spec_background_color_hex(),
                bound_width: spec_wave_dim(surface_width as u32),
                bound_height: spec_wave_dim(surface_height as u32),
            },
            timer: now,
        }
    }

    /// A fresh runner for a surface of the given size, clamped to at
    /// least one pixel on each axis; the wave stage starts at slot 0 with
    /// the dark theme, and the post-processing base colour is the dark
    /// theme's background.
    pub fn new(width: u32, height: u32, now: i64) -> (r: Self)
        requires
            0 <= now <= MAX_TIMESTAMP_MICROS,
        ensures
            r.wf(),
            r == RunnerState::spec_new(width, height, now),
            r.surface_width == if width >= 1 { width as int } else { 1int },
            r.surface_height == if height >= 1 { height as int } else { 1int },
            r.wave.curr_wave == 0,
            r.wave.curr_theme == Theme::Dark,
            r.post.base_color == Theme::Dark.spec_background_color_hex(),
            r.timer == now,
    {
        let surface_width: u32 = if width >= 1 { width } else { 1 };
        let surface_height: u32 = if height >= 1 { height } else { 1 };
        let wave = WaveState::new(surface_width, surface_height);
        let post = PostProcessorState {
            base_color: Theme::Dark.background_color_hex(),
            bound_width: wave.texture_width,
            bound_height: wave.texture_height,
        };
        RunnerState { surface_width, surface_height, wave, post, timer: now }
    }

    /// What `resize` leaves behind.
    pub open spec fn spec_resize(self, width: u32, height: u32) -> RunnerState {
        if width == 0 || height == 0 {
            self
        } else {
            RunnerState {
                surface_width: width,
                surface_height: height,
                wave: WaveState {
                    texture_width: spec_wave_dim(width),
                    texture_height: spec_wave_dim(height),
                    ..self.wave
                },
                post: PostProcessorState {
                    bound_width: spec_wave_dim(width),
                    bound_height: spec_wave_dim(height),
                    ..self.post
                },
                ..self
            }
        }
    }

    /// Applies a new surface size. A request with a zero width or height
    /// — a minimized or hidden window — is ignored and leaves the runner
    /// untouched. Otherwise the surface is reconfigured, the wave
    /// textures are recreated at the reduced resolution, and both stages'
    /// bind groups are rebuilt against them.
    pub fn resize(&mut self, width: u32, height: u32)
        requires
            old(self).wf(),
        ensures
            final(self).wf(),
            *final(self) == old(self).spec_resize(width, height),
            width == 0 || height == 0 ==> *final(self) == *old(self),
            width >= 1 && height >= 1 ==> {
                &&& final(self).surface_width == width
                &&& final(self).surface_height == height
                &&& final(self).wave.texture_width == spec_wave_dim(width)
                &&& final(self).wave.texture_height == spec_wave_dim(height)
            },
            final(self).wave.curr_wave == old(self).wave.curr_wave,
            final(self).wave.curr_theme == old(self).wave.curr_theme,
            final(self).post.base_color == old(self).post.base_color,
            final(self).timer == old(self).timer,
    {
        if width > 0 && height > 0 {
            self.surface_width = width;
            self.surface_height = height;
            self.wave.resize(width, height);
            self.post.bound_width = self.wave.texture_width;
            self.post.bound_height = self.wave.texture_height;
        }
    }

    /// What `set_theme` leaves behind.
    pub open spec fn spec_set_theme(self, theme: Theme) -> RunnerState {
        RunnerState {
            wave: WaveState { curr_theme: theme, ..self.wave },
            post: PostProcessorState {
                base_color: theme.spec_background_color_hex(),
                ..self.post
            },
            ..self
        }
    }

    /// Switches the theme: the wave stage selects the other logo variant
    /// from its bind-group table, and the post-processing base colour
    /// uniform is rewritten to the theme's background colour.
    pub fn set_theme(&mut self, theme: Theme)
        requires
            old(self).wf(),
        ensures
            final(self).wf(),
            *final(self) == old(self).spec_set_theme(theme),
            final(self).wave.curr_theme == theme,
            final(self).post.base_color == theme.spec_background_color_hex(),
            final(self).wave.curr_wave == old(self).wave.curr_wave,
            final(self).wave.texture_width == old(self).wave.texture_width,
            final(self).wave.texture_height == old(self).wave.texture_height,
            final(self).surface_width == old(self).surface_width,
            final(self).surface_height == old(self).surface_height,
            final(self).post.bound_width == old(self).post.bound_width,
            final(self).post.bound_height == old(self).post.bound_height,
            final(self).timer == old(self).timer,
    {
        self.wave.curr_theme = theme;
        self.post.base_color = theme.background_color_hex();
    }

    /// Whether a call at time `now` renders a frame: at least a frame
    /// interval must have passed since the last accepted frame.
    pub open spec fn spec_renders(self, now: i64) -> bool {
        now - self.timer >= FRAME_INTERVAL_MICROS
    }

    /// What `update` leaves behind.
    pub open spec fn spec_update(self, now: i64) -> RunnerState {
        if self.spec_renders(now) {
            RunnerState {
                wave: WaveState {
                    curr_wave: ((self.wave.curr_wave + 1) % 3) as usize,
                    ..self.wave
                },
                timer: now,
                ..self
            }
        } else {
            self
        }
    }

    /// The frame plan produced by a rendering `update`.
    pub open spec fn spec_frame_plan(self, input: Input) -> FramePlan {
        let slot = (self.wave.curr_wave + 1) % 3;
        FramePlan {
            wave_bind_index: (slot * 2 + spec_theme_index(self.wave.curr_theme)) as usize,
            post_bind_index: slot as usize,
            action: WaveAction {
                x: input.pos_x,
                y: input.pos_y,
                force: match input.force {
                    Some(f) => f,
                    None => 0,
                },
            },
        }
    }

    /// Advances the renderer at time `now`. Within a frame interval of
    /// the last accepted frame this returns `None` and touches nothing.
    /// Otherwise the timer is stamped to `now`, the wave rotation
    /// advances by one slot, and the returned plan names the bind groups
    /// for the new slot under the current theme together with the action
    /// vector built from the accumulated input.
    pub fn update(&mut self, now: i64, input: &Input) -> (plan: Option<FramePlan>)
        requires
            old(self).wf(),
            0 <= now <= MAX_TIMESTAMP_MICROS,
        ensures
            final(self).wf(),
            *final(self) == old(self).spec_update(now),
            plan is Some <==> old(self).spec_renders(now),
            !old(self).spec_renders(now) ==> *final(self) == *old(self),
            old(self).spec_renders(now) ==> {
                &&& plan == Some(old(self).spec_frame_plan(*input))
                &&& final(self).timer == now
                &&& final(self).wave.curr_wave == (old(self).wave.curr_wave + 1) % 3
            },
    {
        if now - self.timer < FRAME_INTERVAL_MICROS {
            return None;
        }
        self.timer = now;
        let bind_index = self.wave.advance();
        Some(
            FramePlan {
                wave_bind_index: bind_index,
                post_bind_index: self.wave.curr_wave,
                action: WaveAction {
                    x: input.pos_x,
                    y: input.pos_y,
                    force: match input.force {
                        Some(f) => f,
                        None => 0,
                    },
                },
            },
        )
    }
}

} // verus!
