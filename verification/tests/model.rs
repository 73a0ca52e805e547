//! Tests of the theme model, the wave stage arithmetic and the runner.

use lioqing::device::srgb_format_index;
use lioqing::runner::RunnerState;
use lioqing::runner::FRAME_INTERVAL_MICROS;
use lioqing::state::AppState;
use lioqing::state::BackgroundSimulated;
use lioqing::state::Theme;
use lioqing::wave::wave_history_slots;
use lioqing::wave::wave_texture_dim;
use lioqing::wave::WaveState;

#[test]
fn theme_names_and_toggle() {
    assert_eq!(Theme::Light.as_str(), "Light");
    assert_eq!(Theme::Dark.as_str(), "Dark");
    assert_eq!(Theme::Light.toggle(), Theme::Dark);
    assert_eq!(Theme::Dark.toggle(), Theme::Light);
    assert_eq!(Theme::default(), Theme::Dark);
}

#[test]
fn theme_colors() {
    assert_eq!(Theme::Light.background_color(), "#f0f0f0");
    assert_eq!(Theme::Dark.background_color(), "#151515");
    assert_eq!(Theme::Light.background_color_hex(), 0xf0f0f0);
    assert_eq!(Theme::Dark.background_color_hex(), 0x151515);
    assert_eq!(Theme::Light.foreground_color(), "#151515");
    assert_eq!(Theme::Dark.foreground_color(), "#f0f0f0");
}

#[test]
fn background_simulated_round_trip() {
    let b = BackgroundSimulated::new(true);
    assert!(b.is_simulated());
    assert!(!b.toggle().is_simulated());
    assert!(!BackgroundSimulated::default().is_simulated());
    assert!(bool::from(b));
    assert!(BackgroundSimulated::from(true).is_simulated());
    let a = AppState::default();
    assert_eq!(a.theme, Theme::Dark);
    assert!(!a.background_simulated.is_simulated());
}

#[test]
fn wave_dim_matches_rounded_quarter() {
    for d in 0u32..5000 {
        let expect = ((d as f32) * 0.25).round().max(1.0) as u32;
        assert_eq!(wave_texture_dim(d), expect, "surface side {d}");
    }
    assert_eq!(wave_texture_dim(0), 1);
    assert_eq!(wave_texture_dim(1), 1);
    assert_eq!(wave_texture_dim(2), 1);
    assert_eq!(wave_texture_dim(6), 2);
    assert_eq!(wave_texture_dim(800), 200);
    assert_eq!(wave_texture_dim(u32::MAX), 0x4000_0000);
}

#[test]
fn history_slots_rotate() {
    assert_eq!(wave_history_slots(0), (1, 2));
    assert_eq!(wave_history_slots(1), (2, 0));
    assert_eq!(wave_history_slots(2), (0, 1));
}

#[test]
fn advance_walks_bind_group_table() {
    let mut w = WaveState::new(800, 600);
    assert_eq!(w.curr_wave, 0);
    assert_eq!(w.curr_theme, Theme::Dark);
    // Dark variants sit at odd table entries.
    assert_eq!(w.advance(), 3);
    assert_eq!(w.advance(), 5);
    assert_eq!(w.advance(), 1);
    w.curr_theme = Theme::Light;
    assert_eq!(w.advance(), 2);
    assert_eq!(w.curr_wave, 1);
}

#[test]
fn runner_resize_sets_reduced_resolution() {
    let mut r = RunnerState::new(800, 600, 0);
    assert_eq!(r.wave.texture_width, 200);
    assert_eq!(r.wave.texture_height, 150);
    r.resize(1024, 777);
    assert_eq!(r.surface_width, 1024);
    assert_eq!(r.surface_height, 777);
    assert_eq!(r.wave.texture_width, 256);
    assert_eq!(r.wave.texture_height, 194);
    assert_eq!(r.post.bound_width, 256);
    assert_eq!(r.post.bound_height, 194);
    r.resize(10, 10);
    r.resize(20, 21);
    assert_eq!(r.wave.texture_width, 5);
    assert_eq!(r.wave.texture_height, 5);
}

#[test]
fn runner_ignores_zero_area_resize() {
    let mut r = RunnerState::new(800, 600, 0);
    let before = r;
    r.resize(0, 600);
    assert_eq!(r, before);
    r.resize(800, 0);
    assert_eq!(r, before);
    r.resize(0, 0);
    assert_eq!(r, before);
}

#[test]
fn update_is_rate_limited_to_thirty_fps() {
    let mut r = RunnerState::new(800, 600, 0);
    let input = lioqing::input::Input::new();
    let before = r;
    // Too soon after construction: no frame, nothing changes.
    assert!(r.update(FRAME_INTERVAL_MICROS - 1, &input).is_none());
    assert_eq!(r, before);
    // A whole interval later: a frame renders and the timer restamps.
    let plan = r.update(FRAME_INTERVAL_MICROS, &input);
    assert!(plan.is_some());
    assert_eq!(r.timer, FRAME_INTERVAL_MICROS);
    assert_eq!(r.wave.curr_wave, 1);
    // And again too soon: rejected.
    assert!(r.update(FRAME_INTERVAL_MICROS + 10, &input).is_none());
    assert_eq!(r.wave.curr_wave, 1);
}

#[test]
fn slot_cycles_with_each_rendered_frame() {
    let mut r = RunnerState::new(320, 240, 0);
    let input = lioqing::input::Input::new();
    let mut rendered = 0u32;
    let mut t = 0i64;
    for _ in 0..25 {
        t += FRAME_INTERVAL_MICROS;
        if r.update(t, &input).is_some() {
            rendered += 1;
        }
        assert_eq!(r.wave.curr_wave as u32, rendered % 3);
    }
    assert_eq!(rendered, 25);
}

#[test]
fn set_theme_recolors_both_stages() {
    let mut r = RunnerState::new(800, 600, 0);
    assert_eq!(r.post.base_color, 0x151515);
    r.set_theme(Theme::Light);
    assert_eq!(r.wave.curr_theme, Theme::Light);
    assert_eq!(r.post.base_color, 0xf0f0f0);
    r.set_theme(Theme::Dark);
    assert_eq!(r.wave.curr_theme, Theme::Dark);
    assert_eq!(r.post.base_color, 0x151515);
}

#[test]
fn frame_plan_carries_input_action() {
    let mut r = RunnerState::new(800, 600, 0);
    let input = lioqing::input::Input {
        pos_x: 400.0f32.to_bits(),
        pos_y: 300.0f32.to_bits(),
        force: Some(0.75f32.to_bits()),
    };
    let plan = r.update(FRAME_INTERVAL_MICROS, &input).expect("frame due");
    assert_eq!(plan.action.x, 400.0f32.to_bits());
    assert_eq!(plan.action.y, 300.0f32.to_bits());
    assert_eq!(plan.action.force, 0.75f32.to_bits());
    assert_eq!(plan.post_bind_index, 1);
    assert_eq!(plan.wave_bind_index, 3);
    // Without a pending press the action carries zero force.
    let plan2 = r.update(2 * FRAME_INTERVAL_MICROS, &lioqing::input::Input::new()).expect("frame due");
    assert_eq!(plan2.action.force, 0.0f32.to_bits());
    assert_eq!(plan2.post_bind_index, 2);
}

#[test]
fn first_srgb_format_wins() {
    assert_eq!(srgb_format_index(&vec![false, true, true]), 1);
    assert_eq!(srgb_format_index(&vec![true, false]), 0);
    assert_eq!(srgb_format_index(&vec![false, false, false]), 0);
    assert_eq!(srgb_format_index(&vec![false]), 0);
}
