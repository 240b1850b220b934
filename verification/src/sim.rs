//! The input-driven simulation loop.
//!
//! `SimulationLoop` is the single mutable controller. The host pump hands it
//! one event at a time as a closed tagged union (`SimEvent`); a single
//! transition function consumes the event, mutates rotation-rate and
//! instance state, and answers with the `Action` the shell must perform.
//! Within one loop iteration the host delivers all pending input events,
//! then exactly one idle tick (`SimEvent::IdleTick`), and only then any
//! redraw, so integration always sees the cumulative effect of every event
//! of the iteration exactly once.
//!
//! The loop starts `Uninitialized`; the host's resume signal constructs the
//! GPU device and renderer (deferred initialization) and moves it to
//! `Running`; a close request or an escape key moves it to the terminal
//! `Exiting` state, in which every further event is ignored and no further
//! redraw is requested.

use vstd::prelude::*;
use vstd::pervasive::VecAdditionalExecFns;
use vstd::arithmetic::div_mod::{lemma_div_is_ordered, lemma_div_multiples_vanish, lemma_div_of0};
use crate::angle::{per_hundred, per_hundred_spec, wrap_angle, wrap_spec};
use crate::device::{InitError, PresentMode, RenderContext, RenderSurface, SurfaceConfig, spec_surface_config};
use crate::instance::{TriInstance, INSTANCE_COUNT, spec_default_instances};
use crate::renderer::{FrameSubmission, RenderModel, SimpleRender, spec_submission};

verus! {

/// A key-driven rotation rate of one radian per second, in microradians.
pub const RATE_POS_URAD: i64 = 1_000_000;

/// A key-driven rotation rate of minus one radian per second.
pub const RATE_NEG_URAD: i64 = -1_000_000;

/// Microseconds per second: the scale between rates (per second) and tick
/// deltas (in microseconds).
pub const MICROS_PER_SEC: i64 = 1_000_000;

/// Largest accepted time delta for one idle tick, in microseconds; the
/// bound keeps every integration step inside machine integers.
pub const MAX_TICK_US: u64 = 9_000_000_000_000_000_000;

/// Lifecycle of the simulation loop. `Exiting` is terminal.
#[derive(Clone, Copy, Debug, PartialEq, Eq, Structural)]
pub enum Phase {
    Uninitialized,
    Running,
    Exiting,
}

/// The keys the harness reacts to; everything else is `Other`.
#[derive(Clone, Copy, Debug, PartialEq, Eq, Structural)]
pub enum Key {
    Escape,
    ArrowLeft,
    ArrowRight,
    Other,
}

/// One host-delivered notification, as a closed tagged union.
///
/// Coordinates and deltas are in micropixels (millionths of a pixel), time
/// deltas in microseconds.
#[derive(Clone, Copy, Debug, PartialEq, Eq, Structural)]
pub enum SimEvent {
    /// The window was asked to close.
    CloseRequested,
    /// A window-focused keyboard event.
    WindowKey { key: Key, pressed: bool },
    /// A raw device-level keyboard event, a distinct axis from `WindowKey`.
    RawKey { key: Key, pressed: bool },
    /// Raw pointer motion with signed deltas in micropixels.
    RawMotion { dx: i64, dy: i64 },
    /// Absolute cursor position in micropixels.
    CursorMoved { x: i64, y: i64 },
    /// The once-per-iteration idle tick with the wall-clock delta since the
    /// previous tick, in microseconds.
    IdleTick { dt_us: u64 },
    /// The host asks for a frame.
    RedrawRequested,
}

/// What the shell must do after an event is consumed.
#[derive(Clone, Copy, Debug, PartialEq, Eq, Structural)]
pub enum Action {
    /// Nothing to do.
    Ignore,
    /// Tell the host pump that the process should exit.
    Exit,
    /// Submit the described frame to the queue, present it, and then
    /// immediately request another redraw (continuous-redraw policy).
    SubmitFrame(FrameSubmission),
}

/// Abstract state of the whole harness.
#[verifier::ext_equal]
pub ghost struct SimState {
    pub phase: Phase,
    /// Signed rotation rate per instance, in microradians per second.
    pub rates: Seq<i64>,
    /// Whether adapter, device and queue have been populated.
    pub device_ready: bool,
    /// Configuration of the window surface, once one exists.
    pub surface: Option<SurfaceConfig>,
    /// Renderer state, once the resume signal constructed it.
    pub renderer: Option<RenderModel>,
}

/// A rate is either idle or exactly one radian per second in either
/// direction, as set by arrow-key press/release edges.
pub open spec fn rate_valid(r: i64) -> bool {
    r == RATE_NEG_URAD || r == 0 || r == RATE_POS_URAD
}

/// The rate an arrow key edge selects: left is negative, right is positive,
/// release clears.
pub open spec fn arrow_rate(key: Key, pressed: bool) -> i64 {
    if !pressed {
        0
    } else if key is ArrowLeft {
        RATE_NEG_URAD
    } else {
        RATE_POS_URAD
    }
}

/// Well-formed renderer state: the mirror and buffer hold exactly the fixed
/// instance count and every tracked rotation is normalized.
pub open spec fn render_model_wf(rm: RenderModel) -> bool {
    &&& rm.insts.len() == INSTANCE_COUNT
    &&& rm.buf.len() == INSTANCE_COUNT
    &&& forall|i: int| 0 <= i < rm.insts.len() ==> (#[trigger] rm.insts[i]).inv()
}

/// Well-formed harness state: one rate per instance, each set by a key
/// edge; device, surface and renderer exist exactly from the resume signal
/// on; and the renderer is well formed.
pub open spec fn state_wf(s: SimState) -> bool {
    &&& s.rates.len() == INSTANCE_COUNT
    &&& forall|i: int| 0 <= i < s.rates.len() ==> rate_valid(#[trigger] s.rates[i])
    &&& (s.phase is Uninitialized <==> s.renderer is None)
    &&& (s.phase is Uninitialized <==> s.surface is None)
    &&& (s.phase is Uninitialized <==> !s.device_ready)
    &&& match s.renderer {
        Some(rm) => render_model_wf(rm),
        None => true,
    }
}

/// The state before the host's resume signal.
pub open spec fn spec_initial_state() -> SimState {
    SimState {
        phase: Phase::Uninitialized,
        rates: seq![0i64, 0i64, 0i64, 0i64],
        device_ready: false,
        surface: None,
        renderer: None,
    }
}

/// The state right after a successful resume: device ready, surface
/// configured, renderer holding the default instances, loop running.
pub open spec fn spec_resume(
    s: SimState,
    format: u32,
    width: u32,
    height: u32,
    present_mode: PresentMode,
) -> SimState {
    SimState {
        phase: Phase::Running,
        rates: s.rates,
        device_ready: true,
        surface: Some(spec_surface_config(format, width, height, present_mode)),
        renderer: Some(RenderModel {
            format,
            insts: spec_default_instances(),
            buf: spec_default_instances(),
        }),
    }
}

/// `s` with instance `i`'s rotation replaced by the (already normalized)
/// angle `rot`.
pub open spec fn with_rotation(s: SimState, i: int, rot: int) -> SimState {
    match s.renderer {
        Some(rm) => SimState {
            renderer: Some(RenderModel {
                insts: rm.insts.update(i, (TriInstance { rotation: rot as i64, ..rm.insts[i] })),
                ..rm
            }),
            ..s
        },
        None => s,
    }
}

/// One integration step: every instance's rotation advances by its own rate
/// times the elapsed time, then wraps into `[0, 2*pi)`. Positions and
/// scales never change.
pub open spec fn integrate_insts(insts: Seq<TriInstance>, rates: Seq<i64>, dt_us: u64) -> Seq<
    TriInstance,
> {
    Seq::new(
        insts.len(),
        |i: int| (TriInstance {
            rotation: wrap_spec(
                insts[i].rotation + (rates[i] as int) * (dt_us as int) / (MICROS_PER_SEC as int),
            ) as i64,
            ..insts[i]
        }),
    )
}

/// `s` after one idle tick of `dt_us` microseconds.
pub open spec fn spec_tick(s: SimState, dt_us: u64) -> SimState {
    match s.renderer {
        Some(rm) => SimState {
            renderer: Some(RenderModel { insts: integrate_insts(rm.insts, s.rates, dt_us), ..rm }),
            ..s
        },
        None => s,
    }
}

/// `s` after one frame: the whole instance mirror is re-uploaded into the
/// buffer; nothing else moves.
pub open spec fn spec_render(s: SimState) -> SimState {
    match s.renderer {
        Some(rm) => SimState { renderer: Some(RenderModel { buf: rm.insts, ..rm }), ..s },
        None => s,
    }
}

/// The state-transition function: what one event does to the state.
///
/// While `Running`: a close request or an escape key (at either granularity)
/// moves the loop to `Exiting`; window-level arrow keys set the rate of
/// instance 1 and raw arrow keys the rate of instance 0; raw motion adds
/// `dx/100` to instance 2's rotation; an absolute cursor position sets
/// instance 3's rotation to `x/100` directly; the idle tick integrates every
/// instance by its own rate; a redraw re-uploads the mirror. In `Exiting`
/// every event is ignored.
pub open spec fn step(s: SimState, e: SimEvent) -> SimState {
    if !(s.phase is Running) {
        s
    } else {
        match e {
            SimEvent::CloseRequested => SimState { phase: Phase::Exiting, ..s },
            SimEvent::WindowKey { key, pressed } => {
                if key is Escape {
                    SimState { phase: Phase::Exiting, ..s }
                } else if key is ArrowLeft || key is ArrowRight {
                    SimState { rates: s.rates.update(1, arrow_rate(key, pressed)), ..s }
                } else {
                    s
                }
            },
            SimEvent::RawKey { key, pressed } => {
                if key is Escape {
                    SimState { phase: Phase::Exiting, ..s }
                } else if key is ArrowLeft || key is ArrowRight {
                    SimState { rates: s.rates.update(0, arrow_rate(key, pressed)), ..s }
                } else {
                    s
                }
            },
            SimEvent::RawMotion { dx, dy } => {
                match s.renderer {
                    Some(rm) => with_rotation(
                        s,
                        2,
                        wrap_spec(rm.insts[2].rotation + per_hundred_spec(dx as int)),
                    ),
                    None => s,
                }
            },
            SimEvent::CursorMoved { x, y } => with_rotation(
                s,
                3,
                wrap_spec(per_hundred_spec(x as int)),
            ),
            SimEvent::IdleTick { dt_us } => spec_tick(s, dt_us),
            SimEvent::RedrawRequested => spec_render(s),
        }
    }
}

/// The action one event provokes: exit on close or escape, a frame
/// submission (followed by a fresh redraw request) on a redraw, nothing
/// otherwise — and nothing at all once the loop is `Exiting`.
pub open spec fn step_action(s: SimState, e: SimEvent) -> Action {
    if !(s.phase is Running) {
        Action::Ignore
    } else {
        match e {
            SimEvent::CloseRequested => Action::Exit,
            SimEvent::WindowKey { key, pressed } => if key is Escape {
                Action::Exit
            } else {
                Action::Ignore
            },
            SimEvent::RawKey { key, pressed } => if key is Escape {
                Action::Exit
            } else {
                Action::Ignore
            },
            SimEvent::RedrawRequested => if s.renderer is Some {
                Action::SubmitFrame(spec_submission())
            } else {
                Action::Ignore
            },
            _ => Action::Ignore,
        }
    }
}

/// Machine bounds on event payloads: pointer values must be negatable and a
/// tick delta must keep the integration step inside `i64`.
pub open spec fn event_ok(e: SimEvent) -> bool {
    match e {
        SimEvent::RawMotion { dx, dy } => dx > i64::MIN,
        SimEvent::CursorMoved { x, y } => x > i64::MIN,
        SimEvent::IdleTick { dt_us } => dt_us <= MAX_TICK_US,
        _ => true,
    }
}

/// The single mutable controller: owns the device layer, the surface, the
/// renderer and the per-instance rotation rates.
pub struct SimulationLoop {
    pub phase: Phase,
    /// Signed rotation rate per instance, in microradians per second.
    pub rates: Vec<i64>,
    /// The device layer.
    pub device: RenderContext,
    /// The window surface, once created.
    pub surface: Option<RenderSurface>,
    /// The renderer, once the resume signal constructed it.
    pub renderer: Option<SimpleRender>,
}

impl View for SimulationLoop {
    type V = SimState;

    open spec fn view(&self) -> SimState {
        SimState {
            phase: self.phase,
            rates: self.rates@,
            device_ready: self.device.phase is Ready,
            surface: match self.surface {
                Some(s) => Some(s.config),
                None => None,
            },
            renderer: match self.renderer {
                Some(r) => Some(r@),
                None => None,
            },
        }
    }
}

impl SimulationLoop {
    /// Abstract well-formedness, plus the surface's own invariant.
    pub open spec fn inv(self) -> bool {
        &&& state_wf(self@)
        &&& match self.surface {
            Some(s) => s.inv(),
            None => true,
        }
    }

    /// A fresh, still uninitialized loop: all rates idle, no window-bound
    /// device allocated yet.
    pub fn new() -> (s: SimulationLoop)
        ensures
            s.inv(),
            s@ == spec_initial_state(),
    {
        let rates: Vec<i64> = vec![0i64, 0i64, 0i64, 0i64];
        let s = SimulationLoop {
            phase: Phase::Uninitialized,
            rates,
            device: RenderContext::new(),
            surface: Option::None,
            renderer: Option::None,
        };
        proof {
            assert(s@ =~~= spec_initial_state());
        }
        s
    }

    /// The host's resume signal: negotiate the device against the new
    /// window's surface and construct the renderer, all-or-nothing.
    ///
    /// `formats` is the outcome of the shell's adapter/device negotiation,
    /// as for [`RenderContext::create_surface`]. On success the loop is
    /// `Running`; on failure (fatal for the process) it is left exactly as
    /// it was.
    pub fn on_resumed(
        &mut self,
        formats: Option<Vec<u32>>,
        width: u32,
        height: u32,
        present_mode: PresentMode,
    ) -> (r: Result<(), InitError>)
        requires
            old(self).inv(),
            old(self)@.phase is Uninitialized,
        ensures
            final(self).inv(),
            r is Ok <==> (formats matches Some(f) && f@.len() > 0),
            r is Ok ==> final(self)@ == spec_resume(
                old(self)@,
                formats.unwrap()@[0],
                width,
                height,
                present_mode,
            ),
            r is Err ==> final(self)@ == old(self)@,
    {
        match self.device.create_surface(formats, width, height, present_mode) {
            Result::Ok(surf) => {
                self.renderer = Option::Some(SimpleRender::new(surf.format));
                self.surface = Option::Some(surf);
                self.phase = Phase::Running;
                proof {
                    assert(self@ =~~= spec_resume(
                        old(self)@,
                        surf.format,
                        width,
                        height,
                        present_mode,
                    ));
                }
                Result::Ok(())
            },
            Result::Err(e) => {
                proof {
                    assert(self@ =~~= old(self)@);
                }
                Result::Err(e)
            },
        }
    }

    /// Consume one host event: apply [`step`] to the state and answer with
    /// the [`step_action`] the shell must perform. The host delivers the
    /// resume signal first, so the loop is never `Uninitialized` here.
    pub fn handle_event(&mut self, e: &SimEvent) -> (a: Action)
        requires
            old(self).inv(),
            !(old(self)@.phase is Uninitialized),
            event_ok(*e),
        ensures
            final(self).inv(),
            final(self)@ == step(old(self)@, *e),
            a == step_action(old(self)@, *e),
    {
        match self.phase {
            Phase::Running => {},
            _ => {
                return Action::Ignore;
            },
        }
        match *e {
            SimEvent::CloseRequested => {
                self.phase = Phase::Exiting;
                proof {
                    assert(self@ =~~= step(old(self)@, *e));
                }
                Action::Exit
            },
            SimEvent::WindowKey { key, pressed } => {
                let a = self.apply_key(key, pressed, 1);
                proof {
                    assert(self@ =~~= step(old(self)@, *e));
                }
                a
            },
            SimEvent::RawKey { key, pressed } => {
                let a = self.apply_key(key, pressed, 0);
                proof {
                    assert(self@ =~~= step(old(self)@, *e));
                }
                a
            },
            SimEvent::RawMotion { dx, dy } => {
                let delta = per_hundred(dx);
                proof {
                    lemma_div_is_ordered((i64::MIN + 1) as int, dx as int, 100);
                    lemma_div_is_ordered(dx as int, i64::MAX as int, 100);
                }
                match &mut self.renderer {
                    Option::Some(r) => {
                        r.add_rotation(2, delta);
                    },
                    Option::None => {},
                }
                proof {
                    assert(self@ =~~= step(old(self)@, *e));
                }
                Action::Ignore
            },
            SimEvent::CursorMoved { x, y } => {
                let scaled = per_hundred(x);
                proof {
                    lemma_div_is_ordered((i64::MIN + 1) as int, x as int, 100);
                }
                let rot = wrap_angle(scaled);
                match &mut self.renderer {
                    Option::Some(r) => {
                        r.set_rotation(3, rot);
                    },
                    Option::None => {},
                }
                proof {
                    assert(self@ =~~= step(old(self)@, *e));
                }
                Action::Ignore
            },
            SimEvent::IdleTick { dt_us } => {
                let rates = copy_rates(&self.rates);
                match &mut self.renderer {
                    Option::Some(r) => {
                        integrate_renderer(r, &rates, dt_us);
                    },
                    Option::None => {},
                }
                proof {
                    assert(self@ =~~= step(old(self)@, *e));
                }
                Action::Ignore
            },
            SimEvent::RedrawRequested => {
                match &mut self.renderer {
                    Option::Some(r) => {
                        let sub = r.render();
                        proof {
                            assert(self@ =~~= step(old(self)@, *e));
                        }
                        Action::SubmitFrame(sub)
                    },
                    Option::None => {
                        proof {
                            assert(self@ =~~= step(old(self)@, *e));
                        }
                        Action::Ignore
                    },
                }
            },
        }
    }

    /// Apply an arrow/escape key edge for the axis (rate index) it drives.
    fn apply_key(&mut self, key: Key, pressed: bool, axis: usize) -> (a: Action)
        requires
            old(self).inv(),
            old(self)@.phase is Running,
            axis < INSTANCE_COUNT,
        ensures
            final(self).inv(),
            final(self)@ == (if key is Escape {
                SimState { phase: Phase::Exiting, ..old(self)@ }
            } else if key is ArrowLeft || key is ArrowRight {
                SimState { rates: old(self)@.rates.update(axis as int, arrow_rate(key, pressed)), ..old(self)@ }
            } else {
                old(self)@
            }),
            a == (if key is Escape {
                Action::Exit
            } else {
                Action::Ignore
            }),
    {
        match key {
            Key::Escape => {
                self.phase = Phase::Exiting;
                Action::Exit
            },
            Key::ArrowLeft => {
                let rate: i64 = if pressed {
                    RATE_NEG_URAD
                } else {
                    0
                };
                self.rates.set(axis, rate);
                Action::Ignore
            },
            Key::ArrowRight => {
                let rate: i64 = if pressed {
                    RATE_POS_URAD
                } else {
                    0
                };
                self.rates.set(axis, rate);
                Action::Ignore
            },
            Key::Other => Action::Ignore,
        }
    }
}

/// Integrate every instance of the renderer by its own rate over `dt_us`.
fn integrate_renderer(r: &mut SimpleRender, rates: &Vec<i64>, dt_us: u64)
    requires
        old(r).wf(),
        rates@.len() == INSTANCE_COUNT,
        forall|i: int| 0 <= i < rates@.len() ==> rate_valid(#[trigger] rates@[i]),
        dt_us <= MAX_TICK_US,
    ensures
        final(r).wf(),
        final(r)@ == (RenderModel {
            insts: integrate_insts(old(r)@.insts, rates@, dt_us),
            ..old(r)@
        }),
{
    let ghost orig = r.instances@;
    let mut i: usize = 0;
    while i < INSTANCE_COUNT
        invariant
            i <= INSTANCE_COUNT,
            r.wf(),
            rates@.len() == INSTANCE_COUNT,
            forall|k: int| 0 <= k < rates@.len() ==> rate_valid(#[trigger] rates@[k]),
            dt_us <= MAX_TICK_US,
            orig.len() == INSTANCE_COUNT,
            forall|k: int| 0 <= k < orig.len() ==> (#[trigger] orig[k]).inv(),
            r.buffer@ == old(r)@.buf,
            r.format == old(r)@.format,
            forall|k: int|
                0 <= k < i ==> r.instances@[k] == (#[trigger] integrate_insts(
                    orig,
                    rates@,
                    dt_us,
                )[k]),
            forall|k: int| i <= k < INSTANCE_COUNT ==> (#[trigger] r.instances@[k]) == orig[k],
        decreases
            INSTANCE_COUNT - i,
    {
        let rate = rates[i];
        let delta: i64 = if rate > 0 {
            dt_us as i64
        } else if rate < 0 {
            -(dt_us as i64)
        } else {
            0
        };
        proof {
            let rt = rate as int;
            let d = dt_us as int;
            if rate > 0 {
                assert(rt * d == (MICROS_PER_SEC as int) * d) by (nonlinear_arith)
                    requires
                        rt == MICROS_PER_SEC as int,
                ;
                lemma_div_multiples_vanish(d, MICROS_PER_SEC as int);
            } else if rate < 0 {
                assert(rt * d == (MICROS_PER_SEC as int) * (-d)) by (nonlinear_arith)
                    requires
                        rt == -(MICROS_PER_SEC as int),
                ;
                lemma_div_multiples_vanish(-d, MICROS_PER_SEC as int);
            } else {
                assert(rt * d == 0) by (nonlinear_arith)
                    requires
                        rt == 0,
                ;
                lemma_div_of0(MICROS_PER_SEC as int);
            }
            assert(delta == rt * d / (MICROS_PER_SEC as int));
        }
        r.add_rotation(i, delta);
        proof {
            assert(r.instances@[i as int] == integrate_insts(orig, rates@, dt_us)[i as int]);
        }
        i = i + 1;
    }
    proof {
        assert(r.instances@ =~= integrate_insts(orig, rates@, dt_us));
        assert(r@ =~~= (RenderModel {
            insts: integrate_insts(old(r)@.insts, rates@, dt_us),
            ..old(r)@
        }));
    }
}

/// Copy the rate list so integration can read it while the renderer is
/// borrowed.
fn copy_rates(src: &Vec<i64>) -> (r: Vec<i64>)
    ensures
        r@ == src@,
{
    let mut r: Vec<i64> = Vec::new();
    let mut i: usize = 0;
    while i < src.len()
        invariant
            i <= src.len(),
            r@ == src@.take(i as int),
        decreases
            src.len() - i,
    {
        r.push(src[i]);
        proof {
            assert(r@ =~= src@.take(i as int + 1));
        }
        i = i + 1;
    }
    proof {
        assert(r@ =~= src@);
    }
    r
}

} // verus!
