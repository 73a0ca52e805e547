//! Core of an interactive GPU background renderer: a wave simulation
//! composited behind a page, driven by a command channel from the UI.
//!
//! This crate holds the verified logic: the application lifecycle state
//! machine, command dispatch, frame pacing, the wave stage's buffer
//! rotation and sizing rules, and the theme model. The host process owns
//! the actual window, event loop and GPU resources; it drives the types
//! here with plain values and carries out the effects they return.

pub mod command;
pub mod device;
pub mod input;
pub mod laws;
pub mod machine;
pub mod runner;
pub mod state;
pub mod wave;

pub use command::BackgroundCommand;
pub use input::Input;
pub use machine::BackgroundApp;
pub use machine::Effect;
pub use machine::Phase;
pub use machine::RunningState;
pub use machine::WindowEvent;
pub use machine::PRESS_FORCE_BITS;
pub use runner::FramePlan;
pub use runner::PostProcessorState;
pub use runner::RunnerState;
pub use runner::FRAME_INTERVAL_MICROS;
pub use runner::MAX_TIMESTAMP_MICROS;
pub use state::AppState;
pub use state::BackgroundSimulated;
pub use state::Theme;
pub use wave::WaveAction;
pub use wave::WaveState;
