//! Tests of the application state machine: lifecycle, command dispatch
//! and end-to-end scenarios.

use lioqing::command::BackgroundCommand;
use lioqing::machine::BackgroundApp;
use lioqing::machine::Effect;
use lioqing::machine::Phase;
use lioqing::machine::RunningState;
use lioqing::machine::WindowEvent;
use lioqing::machine::PRESS_FORCE_BITS;
use lioqing::runner::FRAME_INTERVAL_MICROS;
use lioqing::state::Theme;

/// Brings a machine into the running phase at time 0 with a surface of
/// the given size.
fn running_machine(attach_supported: bool, width: u32, height: u32) -> BackgroundApp {
    let mut m = BackgroundApp::new(attach_supported);
    assert!(m.resumed());
    // The device is not ready yet: the machine busy-polls.
    let polled = m.window_event(0, Vec::new(), None, WindowEvent::RedrawRequested);
    assert_eq!(polled, vec![Effect::RequestRedraw]);
    assert!(!m.is_running());
    let entered = m.window_event(0, Vec::new(), Some((width, height)), WindowEvent::RedrawRequested);
    assert_eq!(entered, vec![Effect::RequestRedraw]);
    assert!(m.is_running());
    m
}

fn running_state(m: &BackgroundApp) -> &RunningState {
    match &m.phase {
        Phase::Running(rs) => rs,
        _ => panic!("machine is not running"),
    }
}

#[test]
fn resume_is_idempotent() {
    let mut m = BackgroundApp::new(false);
    assert!(m.resumed());
    assert!(!m.resumed());
    assert!(!m.resumed());
}

#[test]
fn close_exits_in_any_phase() {
    let mut m = BackgroundApp::new(false);
    let effects = m.window_event(0, Vec::new(), None, WindowEvent::CloseRequested);
    assert_eq!(effects, vec![Effect::Exit]);
    assert!(m.exiting);
    let mut r = running_machine(false, 800, 600);
    let effects = r.window_event(1000, Vec::new(), None, WindowEvent::Destroyed);
    assert_eq!(effects, vec![Effect::Exit]);
    assert!(r.exiting);
}

#[test]
fn commands_drain_in_fifo_order() {
    let mut m = running_machine(false, 800, 600);
    let w1 = 10.0f32.to_bits();
    let w2 = 20.0f32.to_bits();
    let cmds = vec![
        BackgroundCommand::Resize(w1, w1),
        BackgroundCommand::Resize(w2, w2),
    ];
    let effects = m.window_event(1000, cmds, None, WindowEvent::RedrawRequested);
    // Both requests are forwarded, oldest first: the window ends up at
    // the size of the later one.
    assert_eq!(effects[0], Effect::SetWindowSize(w1, w1));
    assert_eq!(effects[1], Effect::SetWindowSize(w2, w2));
    let mut last_size = None;
    for e in &effects {
        if let Effect::SetWindowSize(w, h) = e {
            last_size = Some((*w, *h));
        }
    }
    assert_eq!(last_size, Some((w2, w2)));
}

#[test]
fn pointer_down_records_pressure_until_rendered() {
    let mut m = running_machine(false, 800, 600);
    let p = 0.8f32.to_bits();
    let cmds = vec![BackgroundCommand::PointerDown(p)];
    // Drained within the frame interval: no frame renders, the press stays.
    let effects = m.window_event(1000, cmds, None, WindowEvent::RedrawRequested);
    assert!(!effects.iter().any(|e| matches!(e, Effect::RenderFrame(_))));
    assert_eq!(running_state(&m).input.force, Some(p));
    // Still pending a whole interval later, when a frame finally renders…
    let effects = m.window_event(40_000, Vec::new(), None, WindowEvent::RedrawRequested);
    let plan = effects
        .iter()
        .find_map(|e| match e {
            Effect::RenderFrame(plan) => Some(*plan),
            _ => None,
        })
        .expect("a frame was due");
    // …the frame consumes it and it is gone.
    assert_eq!(plan.action.force, p);
    assert_eq!(running_state(&m).input.force, None);
}

#[test]
fn raw_mouse_press_records_default_force() {
    let mut m = running_machine(false, 800, 600);
    assert_eq!(running_state(&m).input.force, None);
    let effects = m.window_event(1000, Vec::new(), None, WindowEvent::MousePressed);
    assert!(effects.is_empty());
    assert_eq!(running_state(&m).input.force, Some(PRESS_FORCE_BITS));
    assert_eq!(running_state(&m).input.force, Some(0.5f32.to_bits()));
}

#[test]
fn pointer_move_updates_position() {
    let mut m = running_machine(false, 800, 600);
    let x = 400.0f32.to_bits();
    let y = 300.0f32.to_bits();
    let cmds = vec![BackgroundCommand::PointerMove(x, y)];
    m.window_event(1000, cmds, None, WindowEvent::RedrawRequested);
    assert_eq!(running_state(&m).input.pos_x, x);
    assert_eq!(running_state(&m).input.pos_y, y);
    // A raw cursor event updates it too.
    let x2 = 7.0f32.to_bits();
    let y2 = 9.0f32.to_bits();
    m.window_event(2000, Vec::new(), None, WindowEvent::CursorMoved(x2, y2));
    assert_eq!(running_state(&m).input.pos_x, x2);
    assert_eq!(running_state(&m).input.pos_y, y2);
}

#[test]
fn set_theme_command_recolors_runner() {
    let mut m = running_machine(false, 800, 600);
    let cmds = vec![BackgroundCommand::SetTheme(Theme::Light)];
    let effects = m.window_event(1000, cmds, None, WindowEvent::RedrawRequested);
    assert_eq!(effects[0], Effect::UpdateBaseColor(0xf0f0f0));
    let rs = running_state(&m);
    assert_eq!(rs.runner.wave.curr_theme, Theme::Light);
    assert_eq!(rs.runner.post.base_color, Theme::Light.background_color_hex());
}

#[test]
fn window_resize_reaches_runner_and_ignores_zero() {
    let mut m = running_machine(false, 800, 600);
    m.window_event(1000, Vec::new(), None, WindowEvent::Resized(1024, 768));
    assert_eq!(running_state(&m).runner.wave.texture_width, 256);
    assert_eq!(running_state(&m).runner.wave.texture_height, 192);
    let before = *running_state(&m);
    m.window_event(2000, Vec::new(), None, WindowEvent::Resized(0, 768));
    assert_eq!(*running_state(&m), before);
}

#[test]
fn create_canvas_attaches_where_supported() {
    let mut m = running_machine(true, 800, 600);
    let cmds = vec![BackgroundCommand::CreateCanvas("bg")];
    let effects = m.window_event(1000, cmds, None, WindowEvent::RedrawRequested);
    assert_eq!(effects[0], Effect::AttachCanvas("bg"));
    assert_eq!(running_state(&m).canvas_id, Some("bg"));
    // Destroy then detaches that container and ends the loop.
    let cmds = vec![BackgroundCommand::Destroy];
    let effects = m.window_event(2000, cmds, None, WindowEvent::RedrawRequested);
    assert_eq!(effects[0], Effect::DetachCanvas("bg"));
    assert_eq!(effects[1], Effect::Exit);
    assert!(m.exiting);
}

#[test]
fn create_canvas_warns_without_attach_support() {
    let mut m = running_machine(false, 800, 600);
    let cmds = vec![BackgroundCommand::CreateCanvas("bg")];
    let effects = m.window_event(1000, cmds, None, WindowEvent::RedrawRequested);
    assert_eq!(effects[0], Effect::WarnAttachUnsupported("bg"));
    assert_eq!(running_state(&m).canvas_id, None);
}

#[test]
fn destroy_before_create_warns_and_continues() {
    // A platform without attach support: the destroy is a warning, not
    // an error, and the machine keeps running.
    let mut m = running_machine(false, 800, 600);
    let cmds = vec![BackgroundCommand::Destroy];
    let effects = m.window_event(1000, cmds, None, WindowEvent::RedrawRequested);
    assert!(effects.contains(&Effect::WarnDetachUnsupported));
    assert!(!effects.contains(&Effect::Exit));
    assert!(!m.exiting);
    assert!(m.is_running());
    // With attach support but no canvas attached yet, it is silently
    // ignored.
    let mut m = running_machine(true, 800, 600);
    let cmds = vec![BackgroundCommand::Destroy];
    let effects = m.window_event(1000, cmds, None, WindowEvent::RedrawRequested);
    assert!(!effects.iter().any(|e| matches!(
        e,
        Effect::DetachCanvas(_) | Effect::Exit | Effect::WarnDetachUnsupported
    )));
    assert!(!m.exiting);
}

#[test]
fn redraw_schedules_remainder_of_frame_interval() {
    let mut m = running_machine(false, 800, 600);
    // Redraw 10 000 µs after the last one: sleep out the remainder.
    let effects = m.window_event(10_000, Vec::new(), None, WindowEvent::RedrawRequested);
    assert_eq!(effects, vec![Effect::ScheduleRedraw(FRAME_INTERVAL_MICROS - 10_000)]);
    // A redraw arriving a whole interval late asks again at once.
    let effects = m.window_event(10_000 + FRAME_INTERVAL_MICROS, Vec::new(), None, WindowEvent::RedrawRequested);
    assert!(effects.contains(&Effect::RequestRedraw));
}

#[test]
fn full_session_renders_at_half_tick_rate() {
    // Ticks arrive at 60 per second; the renderer is capped at 30.
    let mut m = running_machine(true, 800, 600);
    let cmds = vec![
        BackgroundCommand::CreateCanvas("bg"),
        BackgroundCommand::Resize(800.0f32.to_bits(), 600.0f32.to_bits()),
        BackgroundCommand::PointerMove(400.0f32.to_bits(), 300.0f32.to_bits()),
        BackgroundCommand::PointerDown(0.5f32.to_bits()),
    ];
    let mut rendered = 0u32;
    let mut t: i64 = 0;
    let effects = m.window_event(t, cmds, None, WindowEvent::RedrawRequested);
    assert_eq!(effects[0], Effect::AttachCanvas("bg"));
    assert_eq!(
        effects[1],
        Effect::SetWindowSize(800.0f32.to_bits(), 600.0f32.to_bits())
    );
    m.window_event(t, Vec::new(), None, WindowEvent::Resized(800, 600));
    for _ in 0..40 {
        t += 16_667;
        let effects = m.window_event(t, Vec::new(), None, WindowEvent::RedrawRequested);
        for e in &effects {
            if let Effect::RenderFrame(plan) = e {
                rendered += 1;
                assert_eq!(plan.action.x, 400.0f32.to_bits());
                assert_eq!(plan.action.y, 300.0f32.to_bits());
            }
        }
    }
    assert_eq!(rendered, 20);
    assert_eq!(running_state(&m).runner.wave.curr_wave, 2);
    // The press was consumed by the first rendered frame.
    assert_eq!(running_state(&m).input.force, None);
}

#[test]
fn commands_wait_while_initializing() {
    // Nothing is drained before the running phase: the host keeps the
    // queue until the machine asks for it.
    let mut m = BackgroundApp::new(false);
    m.resumed();
    assert!(!m.is_running());
    let effects = m.window_event(0, Vec::new(), None, WindowEvent::RedrawRequested);
    assert_eq!(effects, vec![Effect::RequestRedraw]);
}
