//! System-wide properties of the simulation loop, stated and proved over
//! the abstract state and the transition function [`step`].

use vstd::prelude::*;
use crate::angle::{lemma_wrap_add, lemma_wrap_in_range, wrap_spec};
use crate::instance::INSTANCE_COUNT;
use crate::sim::{
    integrate_insts, render_model_wf, state_wf, step, Key, SimEvent, SimState, MICROS_PER_SEC,
};

verus! {

/// An input event: anything the host may deliver ahead of the idle tick
/// that feeds state into the simulation without ending the loop or drawing
/// a frame.
pub open spec fn is_input_event(e: SimEvent) -> bool {
    match e {
        SimEvent::WindowKey { key, pressed } => !(key is Escape),
        SimEvent::RawKey { key, pressed } => !(key is Escape),
        SimEvent::RawMotion { dx, dy } => true,
        SimEvent::CursorMoved { x, y } => true,
        _ => false,
    }
}

/// The state after a whole sequence of events, applied in order.
pub open spec fn step_events(s: SimState, es: Seq<SimEvent>) -> SimState
    decreases es.len(),
{
    if es.len() == 0 {
        s
    } else {
        step_events(step(s, es.first()), es.drop_first())
    }
}

/// Every step preserves well-formedness of the abstract state — in
/// particular, after an idle tick (and after every other event) each
/// tracked rotation still lies in `[0, 2*pi)`.
pub proof fn lemma_step_wf(s: SimState, e: SimEvent)
    requires
        state_wf(s),
    ensures
        state_wf(step(s, e)),
{
    let s2 = step(s, e);
    if s.phase is Running {
        match e {
            SimEvent::RawMotion { dx, dy } => {
                let rm = s.renderer.unwrap();
                lemma_wrap_in_range(rm.insts[2].rotation + per_hundred_of(dx));
                assert(render_model_wf(s2.renderer.unwrap()));
            },
            SimEvent::CursorMoved { x, y } => {
                let rm = s.renderer.unwrap();
                lemma_wrap_in_range(per_hundred_of(x));
                assert(render_model_wf(s2.renderer.unwrap()));
            },
            SimEvent::IdleTick { dt_us } => {
                let rm = s.renderer.unwrap();
                let after = integrate_insts(rm.insts, s.rates, dt_us);
                assert forall|i: int| 0 <= i < after.len() implies (#[trigger] after[i]).inv() by {
                    lemma_wrap_in_range(
                        rm.insts[i].rotation + (s.rates[i] as int) * (dt_us as int) / (
                        MICROS_PER_SEC as int),
                    );
                }
                assert(render_model_wf(s2.renderer.unwrap()));
            },
            _ => {},
        }
    }
}

/// Shorthand for the pointer-to-angle scaling used by the transition
/// function.
pub open spec fn per_hundred_of(v: i64) -> int {
    crate::angle::per_hundred_spec(v as int)
}

/// An input event keeps the loop running, keeps the state well formed, and
/// renders nothing: the buffer is untouched.
pub proof fn lemma_input_event_step(s: SimState, e: SimEvent)
    requires
        state_wf(s),
        s.phase is Running,
        is_input_event(e),
    ensures
        step(s, e).phase is Running,
        state_wf(step(s, e)),
        step(s, e).renderer is Some,
        step(s, e).renderer.unwrap().buf == s.renderer.unwrap().buf,
{
    lemma_step_wf(s, e);
}

/// A sequence of input events keeps the loop running and well formed and
/// leaves the rendered buffer exactly as it was.
pub proof fn lemma_input_events_run(s: SimState, es: Seq<SimEvent>)
    requires
        state_wf(s),
        s.phase is Running,
        forall|i: int| 0 <= i < es.len() ==> is_input_event(#[trigger] es[i]),
    ensures
        step_events(s, es).phase is Running,
        state_wf(step_events(s, es)),
        step_events(s, es).renderer is Some,
        step_events(s, es).renderer.unwrap().buf == s.renderer.unwrap().buf,
    decreases es.len(),
{
    if es.len() == 0 {
    } else {
        lemma_input_event_step(s, es.first());
        assert forall|i: int| 0 <= i < es.drop_first().len() implies is_input_event(
            #[trigger] es.drop_first()[i],
        ) by {
            assert(es.drop_first()[i] == es[i + 1]);
        }
        lemma_input_events_run(step(s, es.first()), es.drop_first());
    }
}

/// Ordering within one loop iteration: when any number of input events is
/// followed by exactly one idle tick and then one redraw, the rendered
/// buffer is precisely the instance list obtained by first applying every
/// event once, in order, and then integrating once over the elapsed time —
/// no event is dropped, none is applied twice, and nothing is rendered
/// before integration.
pub proof fn lemma_events_before_integration(s: SimState, es: Seq<SimEvent>, dt_us: u64)
    requires
        state_wf(s),
        s.phase is Running,
        forall|i: int| 0 <= i < es.len() ==> is_input_event(#[trigger] es[i]),
    ensures
        ({
            let after_events = step_events(s, es);
            let after_tick = step(after_events, SimEvent::IdleTick { dt_us });
            let rendered = step(after_tick, SimEvent::RedrawRequested);
            &&& after_events.phase is Running
            &&& state_wf(after_events)
            &&& after_events.renderer.unwrap().buf == s.renderer.unwrap().buf
            &&& after_tick.renderer.unwrap().insts == integrate_insts(
                after_events.renderer.unwrap().insts,
                after_events.rates,
                dt_us,
            )
            &&& rendered.renderer.unwrap().buf == after_tick.renderer.unwrap().insts
        }),
{
    lemma_input_events_run(s, es);
}

/// Axis independence for key events: a raw device-level key event never
/// changes the window axis (instance 1's rate), a window-focused key event
/// never changes the raw axis (instance 0's rate), and neither kind touches
/// any instance state at all.
pub proof fn lemma_axis_independence(s: SimState, key: Key, pressed: bool)
    requires
        state_wf(s),
        s.phase is Running,
    ensures
        step(s, SimEvent::RawKey { key, pressed }).rates[1] == s.rates[1],
        step(s, SimEvent::RawKey { key, pressed }).renderer == s.renderer,
        step(s, SimEvent::WindowKey { key, pressed }).rates[0] == s.rates[0],
        step(s, SimEvent::WindowKey { key, pressed }).renderer == s.renderer,
{
}

/// Axis independence through integration: what the idle tick does to one
/// instance depends only on that instance's own state and its own rate, so
/// the two key axes can never influence each other's instance.
pub proof fn lemma_tick_axis_local(s: SimState, t: SimState, i: int, dt_us: u64)
    requires
        state_wf(s),
        state_wf(t),
        s.phase is Running,
        t.phase is Running,
        0 <= i < INSTANCE_COUNT,
        s.renderer.unwrap().insts[i] == t.renderer.unwrap().insts[i],
        s.rates[i] == t.rates[i],
    ensures
        step(s, SimEvent::IdleTick { dt_us }).renderer.unwrap().insts[i] == step(
            t,
            SimEvent::IdleTick { dt_us },
        ).renderer.unwrap().insts[i],
{
}

/// Raw motion events accumulate: two consecutive motion events add the sum
/// of their (scaled) horizontal deltas to instance 2's rotation, modulo one
/// turn, and the vertical deltas play no part at all.
pub proof fn lemma_motion_accumulates(s: SimState, dx1: i64, dy1: i64, dx2: i64, dy2: i64)
    requires
        state_wf(s),
        s.phase is Running,
    ensures
        ({
            let s2 = step(
                step(s, SimEvent::RawMotion { dx: dx1, dy: dy1 }),
                SimEvent::RawMotion { dx: dx2, dy: dy2 },
            );
            s2.renderer.unwrap().insts[2].rotation == wrap_spec(
                s.renderer.unwrap().insts[2].rotation + per_hundred_of(dx1) + per_hundred_of(dx2),
            ) as i64
        }),
{
    let r0 = s.renderer.unwrap().insts[2].rotation as int;
    let d1 = per_hundred_of(dx1);
    let d2 = per_hundred_of(dx2);
    lemma_wrap_in_range(r0 + d1);
    lemma_wrap_add(r0 + d1, d2);
}

/// Upload idempotence: rendering is re-upload of the unchanged mirror, so
/// two consecutive frames write identical buffer contents both times.
pub proof fn lemma_upload_idempotent(s: SimState)
    requires
        state_wf(s),
        s.phase is Running,
    ensures
        ({
            let s1 = step(s, SimEvent::RedrawRequested);
            let s2 = step(s1, SimEvent::RedrawRequested);
            &&& s1.renderer.unwrap().buf == s.renderer.unwrap().insts
            &&& s2.renderer.unwrap().buf == s1.renderer.unwrap().buf
        }),
{
}

} // verus!
