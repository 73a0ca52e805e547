//! The application lifecycle state machine.
//!
//! The host event loop owns the window, the command channel and the GPU
//! resources; this machine owns every decision. The host reports each
//! lifecycle or input event together with the drained commands and, while
//! device construction is pending, whether the runner is ready; the
//! machine returns the list of [`Effect`]s for the host to carry out, in
//! order.
//!
//! The lifecycle runs one way: uninitialized, then window created while
//! the device is constructed asynchronously, then running. A second
//! resume signal is a no-op, and the running state only loops back into
//! itself.

use vstd::prelude::*;

use crate::command::BackgroundCommand;
use crate::input::Input;
use crate::runner::FramePlan;
use crate::runner::RunnerState;
use crate::runner::FRAME_INTERVAL_MICROS;
use crate::runner::MAX_TIMESTAMP_MICROS;

verus! {

/// The force recorded for a raw window mouse press, which reports no
/// pressure of its own: the IEEE-754 bit pattern of one half.
pub const PRESS_FORCE_BITS: u32 = 0x3F00_0000;

/// A window or lifecycle event reported by the host event loop.
/// Positions are IEEE-754 bit patterns; sizes are physical pixels.
#[derive(Debug, Clone, Copy, PartialEq, Eq)]
pub enum WindowEvent {
    /// The host asked the window to close.
    CloseRequested,
    /// The window is gone.
    Destroyed,
    /// The surface was resized to the given physical size.
    Resized(u32, u32),
    /// The pointer moved to the given surface position.
    CursorMoved(u32, u32),
    /// A mouse button was pressed.
    MousePressed,
    /// The host delivered the redraw the machine asked for.
    RedrawRequested,
}

/// An action the host must carry out, in list order.
#[derive(Debug, Clone, Copy, PartialEq, Eq)]
pub enum Effect {
    /// Append the render surface to the named UI container.
    AttachCanvas(&'static str),
    /// Log that this platform has no container to attach to.
    WarnAttachUnsupported(&'static str),
    /// Set the window's minimum and current logical size; both payloads
    /// are IEEE-754 bit patterns.
    SetWindowSize(u32, u32),
    /// Empty the named UI container, detaching the surface.
    DetachCanvas(&'static str),
    /// Log that this platform has no surface to detach.
    WarnDetachUnsupported,
    /// Rewrite the post-processing base-colour uniform to this colour,
    /// packed as 0xRRGGBB.
    UpdateBaseColor(u32),
    /// End the event loop.
    Exit,
    /// Upload the plan's action vector and render one frame: the wave
    /// pass, then the post-processing pass, then present.
    RenderFrame(FramePlan),
    /// Ask the host for another redraw at once.
    RequestRedraw,
    /// Ask the host for another redraw after this many microseconds.
    ScheduleRedraw(i64),
}

/// The state carried while the renderer is live.
#[derive(Debug, Clone, Copy, PartialEq, Eq)]
pub struct RunningState {
    /// The UI container the surface was attached to, if any.
    pub canvas_id: Option<&'static str>,
    /// The per-frame orchestration state.
    pub runner: RunnerState,
    /// Pointer input accumulated since the last rendered frame.
    pub input: Input,
    /// When the last redraw was handled, in microseconds.
    pub frame_timer: i64,
}

/// Where the lifecycle stands.
#[derive(Debug, Clone, Copy, PartialEq, Eq)]
pub enum Phase {
    /// Nothing exists yet but the command channel.
    Uninit,
    /// The window exists; the device and runner are being constructed
    /// asynchronously and are polled on every redraw.
    Init,
    /// The renderer is live.
    Running(RunningState),
}

/// The application state machine.
#[derive(Debug, Clone, Copy, PartialEq, Eq)]
pub struct BackgroundApp {
    /// Whether this platform has a UI container to attach the surface
    /// to (a browser canvas has one; a native window has not).
    pub attach_supported: bool,
    /// Whether the event loop has been asked to end; once set, events
    /// mutate nothing further.
    pub exiting: bool,
    /// Where the lifecycle stands.
    pub phase: Phase,
}

impl BackgroundApp {
    /// The machine's invariant: a live runner is well formed and the
    /// frame timer holds a usable timestamp.
    pub open spec fn wf(self) -> bool {
        self.phase matches Phase::Running(rs) ==> {
            &&& rs.runner.wf()
            &&& 0 <= rs.frame_timer <= MAX_TIMESTAMP_MICROS
        }
    }

    /// A machine that has not seen any event yet.
    pub fn new(attach_supported: bool) -> (r: Self)
        ensures
            r.wf(),
            r.phase is Uninit,
            !r.exiting,
            r.attach_supported == attach_supported,
    {
        BackgroundApp { attach_supported, exiting: false, phase: Phase::Uninit }
    }

    /// Whether the machine is in the running phase, where commands are
    /// drained.
    pub fn is_running(&self) -> (r: bool)
        ensures
            r == (self.phase is Running),
    {
        match self.phase {
            Phase::Running(_) => true,
            _ => false,
        }
    }

    /// What `resumed` leaves behind.
    pub open spec fn spec_resumed(self) -> BackgroundApp {
        if self.phase is Uninit {
            BackgroundApp { phase: Phase::Init, ..self }
        } else {
            self
        }
    }

    /// The host's resume signal. On the first resume the machine moves
    /// out of the uninitialized phase and returns true: the host must
    /// then create the window and start constructing the device and
    /// runner asynchronously. Any later resume is a no-op.
    pub fn resumed(&mut self) -> (create: bool)
        requires
            old(self).wf(),
        ensures
            final(self).wf(),
            *final(self) == old(self).spec_resumed(),
            create == (old(self).phase is Uninit),
    {
        match self.phase {
            Phase::Uninit => {
                self.phase = Phase::Init;
                true
            },
            _ => false,
        }
    }

    /// What one command does to a running machine, and the effects it
    /// asks of the host.
    pub open spec fn spec_command_step(self, c: BackgroundCommand) -> (BackgroundApp, Seq<
        Effect,
    >)
        recommends
            self.phase is Running,
    {
        match self.phase {
            Phase::Running(rs) => match c {
                BackgroundCommand::CreateCanvas(id) => {
                    if self.attach_supported {
                        (
                            BackgroundApp {
                                phase: Phase::Running(
                                    RunningState { canvas_id: Some(id), ..rs },
                                ),
                                ..self
                            },
                            seq![Effect::AttachCanvas(id)],
                        )
                    } else {
                        (self, seq![Effect::WarnAttachUnsupported(id)])
                    }
                },
                BackgroundCommand::Destroy => {
                    if !self.attach_supported {
                        (self, seq![Effect::WarnDetachUnsupported])
                    } else {
                        match rs.canvas_id {
                            Some(id) => (
                                BackgroundApp { exiting: true, ..self },
                                seq![Effect::DetachCanvas(id), Effect::Exit],
                            ),
                            None => (self, Seq::empty()),
                        }
                    }
                },
                BackgroundCommand::Resize(w, h) => (self, seq![Effect::SetWindowSize(w, h)]),
                BackgroundCommand::SetTheme(t) => (
                    BackgroundApp {
                        phase: Phase::Running(
                            RunningState { runner: rs.runner.spec_set_theme(t), ..rs },
                        ),
                        ..self
                    },
                    seq![Effect::UpdateBaseColor(t.spec_background_color_hex())],
                ),
                BackgroundCommand::PointerMove(x, y) => (
                    BackgroundApp {
                        phase: Phase::Running(
                            RunningState { input: Input { pos_x: x, pos_y: y, ..rs.input }, ..rs },
                        ),
                        ..self
                    },
                    Seq::empty(),
                ),
                BackgroundCommand::PointerDown(f) => (
                    BackgroundApp {
                        phase: Phase::Running(
                            RunningState { input: Input { force: Some(f), ..rs.input }, ..rs },
                        ),
                        ..self
                    },
                    Seq::empty(),
                ),
            },
            _ => (self, Seq::empty()),
        }
    }

    /// What draining a whole command queue does: each command in turn,
    /// first in first out, with the effects concatenated in the same
    /// order.
    pub open spec fn spec_drain(self, cmds: Seq<BackgroundCommand>) -> (BackgroundApp, Seq<
        Effect,
    >)
        decreases cmds.len(),
    {
        if cmds.len() == 0 {
            (self, Seq::empty())
        } else {
            let (m1, e1) = self.spec_command_step(cmds[0]);
            let (m2, e2) = m1.spec_drain(cmds.drop_first());
            (m2, e1 + e2)
        }
    }

    /// Applies one drained command.
    fn apply_command(&mut self, c: BackgroundCommand) -> (effects: Vec<Effect>)
        requires
            old(self).wf(),
            old(self).phase is Running,
        ensures
            final(self).wf(),
            final(self).phase is Running,
            (*final(self), effects@) == old(self).spec_command_step(c),
    {
        let mut effects: Vec<Effect> = Vec::new();
        if let Phase::Running(mut rs) = self.phase {
            match c {
                BackgroundCommand::CreateCanvas(id) => {
                    if self.attach_supported {
                        rs.canvas_id = Some(id);
                        self.phase = Phase::Running(rs);
                        effects.push(Effect::AttachCanvas(id));
                    } else {
                        effects.push(Effect::WarnAttachUnsupported(id));
                    }
                },
                BackgroundCommand::Destroy => {
                    if !self.attach_supported {
                        effects.push(Effect::WarnDetachUnsupported);
                    } else {
                        if let Some(id) = rs.canvas_id {
                            self.exiting = true;
                            effects.push(Effect::DetachCanvas(id));
                            effects.push(Effect::Exit);
                        }
                    }
                },
                BackgroundCommand::Resize(w, h) => {
                    effects.push(Effect::SetWindowSize(w, h));
                },
                BackgroundCommand::SetTheme(t) => {
                    rs.runner.set_theme(t);
                    self.phase = Phase::Running(rs);
                    effects.push(Effect::UpdateBaseColor(t.background_color_hex()));
                },
                BackgroundCommand::PointerMove(x, y) => {
                    rs.input.pos_x = x;
                    rs.input.pos_y = y;
                    self.phase = Phase::Running(rs);
                },
                BackgroundCommand::PointerDown(f) => {
                    rs.input.force = Some(f);
                    self.phase = Phase::Running(rs);
                },
            }
        }
        effects
    }

    /// Drains the pending commands, first in first out, applying each to
    /// the machine and collecting the effects for the host in order.
    pub fn handle_commands(&mut self, commands: Vec<BackgroundCommand>) -> (effects: Vec<
        Effect,
    >)
        requires
            old(self).wf(),
            old(self).phase is Running,
        ensures
            final(self).wf(),
            final(self).phase is Running,
            (*final(self), effects@) == old(self).spec_drain(commands@),
    {
        let mut effects: Vec<Effect> = Vec::new();
        let n = commands.len();
        assert(commands@.skip(0) == commands@);
        for i in 0..n
            invariant
                n == commands@.len(),
                self.wf(),
                self.phase is Running,
                old(self).spec_drain(commands@).0 == self.spec_drain(commands@.skip(i as int)).0,
                old(self).spec_drain(commands@).1 == effects@ + self.spec_drain(
                    commands@.skip(i as int),
                ).1,
        {
            let mut step_effects = self.apply_command(commands[i]);
            effects.append(&mut step_effects);
            proof {
                assert(commands@.skip(i as int).drop_first() =~= commands@.skip(i + 1));
                assert(old(self).spec_drain(commands@).1 == effects@ + self.spec_drain(
                    commands@.skip(i + 1),
                ).1);
            }
        }
        proof {
            assert(commands@.skip(n as int) =~= Seq::<BackgroundCommand>::empty());
            assert(effects@ + Seq::<Effect>::empty() =~= effects@);
        }
        effects
    }

    /// What the redraw step does once the commands are drained and the
    /// machine is not exiting.
    pub open spec fn spec_redraw_step(self, now: i64, ready: Option<(u32, u32)>) -> (
        BackgroundApp,
        Seq<Effect>,
    ) {
        match self.phase {
            Phase::Uninit => (self, Seq::empty()),
            Phase::Init => match ready {
                Some((width, height)) => (
                    BackgroundApp {
                        phase: Phase::Running(
                            RunningState {
                                canvas_id: None,
                                runner: RunnerState::spec_new(width, height, now),
                                input: Input { pos_x: 0, pos_y: 0, force: None },
                                frame_timer: now,
                            },
                        ),
                        ..self
                    },
                    seq![Effect::RequestRedraw],
                ),
                None => (self, seq![Effect::RequestRedraw]),
            },
            Phase::Running(rs) => {
                let rendered = rs.runner.spec_renders(now);
                let render_effects: Seq<Effect> = if rendered {
                    seq![Effect::RenderFrame(rs.runner.spec_frame_plan(rs.input))]
                } else {
                    Seq::empty()
                };
                let elapsed = now - rs.frame_timer;
                let schedule: Effect = if elapsed < FRAME_INTERVAL_MICROS {
                    Effect::ScheduleRedraw((FRAME_INTERVAL_MICROS - elapsed) as i64)
                } else {
                    Effect::RequestRedraw
                };
                (
                    BackgroundApp {
                        phase: Phase::Running(
                            RunningState {
                                runner: rs.runner.spec_update(now),
                                input: if rendered {
                                    Input { force: None, ..rs.input }
                                } else {
                                    rs.input
                                },
                                frame_timer: now,
                                ..rs
                            },
                        ),
                        ..self
                    },
                    render_effects.push(schedule),
                )
            },
        }
    }

    /// What a whole window event does: a redraw first drains the command
    /// queue; once the machine is exiting nothing further happens; then
    /// the event itself is handled.
    pub open spec fn spec_window_event(
        self,
        now: i64,
        cmds: Seq<BackgroundCommand>,
        ready: Option<(u32, u32)>,
        event: WindowEvent,
    ) -> (BackgroundApp, Seq<Effect>) {
        let (m1, drained) = if self.phase is Running && event is RedrawRequested {
            self.spec_drain(cmds)
        } else {
            (self, Seq::<Effect>::empty())
        };
        if m1.exiting {
            (m1, drained)
        } else {
            match event {
                WindowEvent::CloseRequested | WindowEvent::Destroyed => (
                    BackgroundApp { exiting: true, ..m1 },
                    drained.push(Effect::Exit),
                ),
                WindowEvent::Resized(width, height) => match m1.phase {
                    Phase::Running(rs) => (
                        BackgroundApp {
                            phase: Phase::Running(
                                RunningState { runner: rs.runner.spec_resize(width, height), ..rs },
                            ),
                            ..m1
                        },
                        drained,
                    ),
                    _ => (m1, drained),
                },
                WindowEvent::CursorMoved(x, y) => match m1.phase {
                    Phase::Running(rs) => (
                        BackgroundApp {
                            phase: Phase::Running(
                                RunningState {
                                    input: Input { pos_x: x, pos_y: y, ..rs.input },
                                    ..rs
                                },
                            ),
                            ..m1
                        },
                        drained,
                    ),
                    _ => (m1, drained),
                },
                WindowEvent::MousePressed => match m1.phase {
                    Phase::Running(rs) => (
                        BackgroundApp {
                            phase: Phase::Running(
                                RunningState {
                                    input: Input { force: Some(PRESS_FORCE_BITS), ..rs.input },
                                    ..rs
                                },
                            ),
                            ..m1
                        },
                        drained,
                    ),
                    _ => (m1, drained),
                },
                WindowEvent::RedrawRequested => {
                    let (m2, stepped) = m1.spec_redraw_step(now, ready);
                    (m2, drained + stepped)
                },
            }
        }
    }

    /// Handles one window event at time `now`.
    ///
    /// A redraw in the running phase first drains `commands` (the host
    /// passes the queue's pending contents then, and an empty vector
    /// otherwise). Close and destroy end the event loop unconditionally.
    /// A resize reaches the runner, which ignores zero-area sizes; a
    /// pointer move updates the accumulated position; a raw press
    /// records the default force. A redraw in the init phase polls
    /// `ready` — the surface size once the asynchronous device
    /// construction has finished — and either enters the running phase
    /// or busy-polls with another redraw request. A redraw while running
    /// renders when a frame is due, clears the consumed force, and asks
    /// for the next redraw: at once if a whole frame interval has
    /// already passed since the last redraw, otherwise after the
    /// remainder.
    pub fn window_event(
        &mut self,
        now: i64,
        commands: Vec<BackgroundCommand>,
        ready: Option<(u32, u32)>,
        event: WindowEvent,
    ) -> (effects: Vec<Effect>)
        requires
            old(self).wf(),
            0 <= now <= MAX_TIMESTAMP_MICROS,
        ensures
            final(self).wf(),
            (*final(self), effects@) == old(self).spec_window_event(
                now,
                commands@,
                ready,
                event,
            ),
    {
        let mut effects: Vec<Effect> = if self.is_running() && matches!(
            event,
            WindowEvent::RedrawRequested,
        ) {
            self.handle_commands(commands)
        } else {
            Vec::new()
        };
        if self.exiting {
            return effects;
        }
        match event {
            WindowEvent::CloseRequested | WindowEvent::Destroyed => {
                self.exiting = true;
                effects.push(Effect::Exit);
            },
            WindowEvent::Resized(width, height) => {
                if let Phase::Running(mut rs) = self.phase {
                    rs.runner.resize(width, height);
                    self.phase = Phase::Running(rs);
                }
            },
            WindowEvent::CursorMoved(x, y) => {
                if let Phase::Running(mut rs) = self.phase {
                    rs.input.pos_x = x;
                    rs.input.pos_y = y;
                    self.phase = Phase::Running(rs);
                }
            },
            WindowEvent::MousePressed => {
                if let Phase::Running(mut rs) = self.phase {
                    rs.input.force = Some(PRESS_FORCE_BITS);
                    self.phase = Phase::Running(rs);
                }
            },
            WindowEvent::RedrawRequested => {
                match self.phase {
                    Phase::Uninit => {},
                    Phase::Init => {
                        match ready {
                            Some((width, height)) => {
                                let runner = RunnerState::new(width, height, now);
                                self.phase = Phase::Running(
                                    RunningState {
                                        canvas_id: None,
                                        runner,
                                        input: Input::new(),
                                        frame_timer: now,
                                    },
                                );
                                effects.push(Effect::RequestRedraw);
                            },
                            None => {
                                effects.push(Effect::RequestRedraw);
                            },
                        }
                    },
                    Phase::Running(mut rs) => {
                        let plan = rs.runner.update(now, &rs.input);
                        if let Some(p) = plan {
                            rs.input.force = None;
                            effects.push(Effect::RenderFrame(p));
                        }
                        let elapsed = now - rs.frame_timer;
                        if elapsed < FRAME_INTERVAL_MICROS {
                            effects.push(Effect::ScheduleRedraw(FRAME_INTERVAL_MICROS - elapsed));
                        } else {
                            effects.push(Effect::RequestRedraw);
                        }
                        rs.frame_timer = now;
                        self.phase = Phase::Running(rs);
                    },
                }
            },
        }
        effects
    }

    /// Handles one window event at the current wall-clock time, clamped
    /// into the renderer's timestamp range.
    pub fn window_event_now(
        &mut self,
        commands: Vec<BackgroundCommand>,
        ready: Option<(u32, u32)>,
        event: WindowEvent,
    ) -> (effects: Vec<Effect>)
        requires
            old(self).wf(),
        ensures
            final(self).wf(),
            exists|t: i64|
                0 <= t <= MAX_TIMESTAMP_MICROS && (*final(self), effects@) == old(
                    self,
                ).spec_window_event(t, commands@, ready, event),
    {
        let now_raw = now_timestamp_micros();
        let now = if now_raw < 0 {
            0
        } else if now_raw > MAX_TIMESTAMP_MICROS {
            MAX_TIMESTAMP_MICROS
        } else {
            now_raw
        };
        let ghost pre = *old(self);
        let effects = self.window_event(now, commands, ready, event);
        proof {
            assert(0 <= now <= MAX_TIMESTAMP_MICROS && (*self, effects@)
                == pre.spec_window_event(now, commands@, ready, event));
        }
        effects
    }
}

/// Relies on `chrono::Local::now` for the current wall-clock time,
/// reported through `DateTime::timestamp_micros` as microseconds since
/// the Unix epoch. Nothing is promised of the clock's reading.
#[verifier::external_body]
fn now_timestamp_micros() -> i64 {
    chrono::Local::now().timestamp_micros()
}

} // verus!
