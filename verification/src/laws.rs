//! Properties of the renderer that hold across whole runs, stated over
//! the spec-level transition functions and proved once and for all.

use vstd::prelude::*;

use vstd::arithmetic::div_mod::lemma_add_mod_noop;
use vstd::arithmetic::div_mod::lemma_add_mod_noop_right;

use crate::command::BackgroundCommand;
use crate::machine::BackgroundApp;
use crate::machine::Effect;
use crate::machine::Phase;
use crate::machine::WindowEvent;
use crate::machine::PRESS_FORCE_BITS;
use crate::runner::RunnerState;
use crate::wave::spec_wave_dim;

verus! {

/// The runner after a whole sequence of resize requests, applied in
/// order.
pub open spec fn spec_apply_resizes(r: RunnerState, sizes: Seq<(u32, u32)>) -> RunnerState
    decreases sizes.len(),
{
    if sizes.len() == 0 {
        r
    } else {
        spec_apply_resizes(r.spec_resize(sizes[0].0, sizes[0].1), sizes.drop_first())
    }
}

/// After any sequence of resizes with positive dimensions, the wave
/// textures measure the last surface size at the reduced resolution:
/// each side is the surface side over four, rounded to the nearest
/// whole number and at least 1.
pub proof fn lemma_wave_resolution_after_resizes(r: RunnerState, sizes: Seq<(u32, u32)>)
    requires
        sizes.len() > 0,
        forall|i: int| 0 <= i < sizes.len() ==> (#[trigger] sizes[i]).0 >= 1 && sizes[i].1 >= 1,
    ensures
        spec_apply_resizes(r, sizes).wave.texture_width == spec_wave_dim(sizes.last().0),
        spec_apply_resizes(r, sizes).wave.texture_height == spec_wave_dim(sizes.last().1),
    decreases sizes.len(),
{
    assert(sizes[0].0 >= 1 && sizes[0].1 >= 1);
    let r1 = r.spec_resize(sizes[0].0, sizes[0].1);
    assert(spec_apply_resizes(r, sizes) == spec_apply_resizes(r1, sizes.drop_first()));
    if sizes.len() == 1 {
        assert(spec_apply_resizes(r1, sizes.drop_first()) == r1);
        assert(sizes.last() == sizes[0]);
    } else {
        assert(forall|i: int|
            0 <= i < sizes.drop_first().len() ==> (#[trigger] sizes.drop_first()[i]) == sizes[i
                + 1]);
        lemma_wave_resolution_after_resizes(r1, sizes.drop_first());
        assert(sizes.drop_first().last() == sizes.last());
    }
}

/// The runner after a whole sequence of update calls, one at each of
/// the given times, applied in order.
pub open spec fn spec_run_updates(r: RunnerState, times: Seq<i64>) -> RunnerState
    decreases times.len(),
{
    if times.len() == 0 {
        r
    } else {
        spec_run_updates(r.spec_update(times[0]), times.drop_first())
    }
}

/// How many of those update calls render a frame.
pub open spec fn spec_frames_rendered(r: RunnerState, times: Seq<i64>) -> nat
    decreases times.len(),
{
    if times.len() == 0 {
        0nat
    } else {
        (if r.spec_renders(times[0]) {
            1nat
        } else {
            0nat
        }) + spec_frames_rendered(r.spec_update(times[0]), times.drop_first())
    }
}

/// The active wave slot cycles 0, 1, 2, 0, … with exactly one advance
/// per rendered frame: after any sequence of update calls of which `k`
/// render, the slot is the starting slot plus `k`, modulo 3. Started at
/// slot 0, after `k` rendered frames the slot is `k % 3`.
pub proof fn lemma_slot_cycles_per_rendered_frame(r: RunnerState, times: Seq<i64>)
    requires
        r.wave.curr_wave < 3,
    ensures
        spec_run_updates(r, times).wave.curr_wave == (r.wave.curr_wave + spec_frames_rendered(
            r,
            times,
        )) % 3,
    decreases times.len(),
{
    if times.len() > 0 {
        let r1 = r.spec_update(times[0]);
        let k = spec_frames_rendered(r1, times.drop_first());
        lemma_slot_cycles_per_rendered_frame(r1, times.drop_first());
        if r.spec_renders(times[0]) {
            let c = r.wave.curr_wave as int;
            lemma_add_mod_noop_right((c + 1) % 3, k as int, 3);
            lemma_add_mod_noop(c + 1, k as int, 3);
            assert(((c + 1) % 3 + k) % 3 == (c + 1 + k) % 3);
        }
    }
}

/// A press is recorded with its own pressure and consumed by the first
/// rendered frame: after a PointerDown command with pressure `p`, the
/// accumulated force is `p`; a redraw that renders no frame leaves it
/// in place, while a redraw that renders a frame feeds `p` into the
/// frame's action vector and clears it.
pub proof fn lemma_press_force_lifecycle(m: BackgroundApp, now: i64, p: u32)
    requires
        m.wf(),
        !m.exiting,
        m.phase is Running,
    ensures
        ({
            let m1 = m.spec_command_step(BackgroundCommand::PointerDown(p)).0;
            &&& m1.phase matches Phase::Running(rs1) && rs1.input.force == Some(p)
            &&& {
                let rs1 = m1.phase->0;
                let (m2, effects) = m1.spec_window_event(
                    now,
                    Seq::empty(),
                    None,
                    WindowEvent::RedrawRequested,
                );
                &&& !rs1.runner.spec_renders(now) ==> (m2.phase matches Phase::Running(rs2)
                    && rs2.input.force == Some(p))
                &&& rs1.runner.spec_renders(now) ==> (m2.phase matches Phase::Running(rs2)
                    && rs2.input.force is None && effects[0] == Effect::RenderFrame(
                    rs1.runner.spec_frame_plan(rs1.input),
                ) && rs1.runner.spec_frame_plan(rs1.input).action.force == p)
            }
        }),
{
    let m1 = m.spec_command_step(BackgroundCommand::PointerDown(p)).0;
    assert(m1.spec_drain(Seq::empty()) == (m1, Seq::<Effect>::empty()));
}

/// A raw window mouse press, which reports no pressure, records the
/// default force: the bit pattern of one half.
pub proof fn lemma_raw_press_records_default_force(m: BackgroundApp, now: i64)
    requires
        m.wf(),
        !m.exiting,
        m.phase is Running,
    ensures
        ({
            let (m1, effects) = m.spec_window_event(
                now,
                Seq::empty(),
                None,
                WindowEvent::MousePressed,
            );
            &&& m1.phase matches Phase::Running(rs1) && rs1.input.force == Some(PRESS_FORCE_BITS)
            &&& effects == Seq::<Effect>::empty()
        }),
{
}

/// Command draining is first in, first out: draining a queue split in
/// two parts equals draining the first part and then the second, with
/// the effects concatenated in the same order. Later commands therefore
/// act on the state the earlier ones left behind.
pub proof fn lemma_drain_fifo(m: BackgroundApp, first: Seq<BackgroundCommand>, second: Seq<
    BackgroundCommand,
>)
    ensures
        ({
            let (ma, ea) = m.spec_drain(first);
            let (mb, eb) = ma.spec_drain(second);
            m.spec_drain(first + second) == (mb, ea + eb)
        }),
    decreases first.len(),
{
    let (ma, ea) = m.spec_drain(first);
    let (mb, eb) = ma.spec_drain(second);
    if first.len() == 0 {
        assert(first + second =~= second);
        assert(ea + eb =~= eb);
    } else {
        let (m1, e1) = m.spec_command_step(first[0]);
        assert((first + second)[0] == first[0]);
        assert((first + second).drop_first() =~= first.drop_first() + second);
        lemma_drain_fifo(m1, first.drop_first(), second);
        let ea2 = m1.spec_drain(first.drop_first()).1;
        assert((e1 + ea2) + eb =~= e1 + (ea2 + eb));
    }
}

} // verus!
