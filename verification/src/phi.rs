//! The per-frame environment and the fixed-cadence frame scheduler.
//!
//! `Phi` is the shared per-frame context: it owns the input aggregator, the
//! current output size, and the frame's queued draw commands. The host
//! executes the queued commands on the real render target and presents the
//! frame; the scheduler functions here decide, from plain tick values, when
//! a frame may run and what to do with a screen's transition directive.

pub mod events;

use crate::geometry::DrawRect;
use crate::phi::events::Events;
use crate::views::AnyScreen;
use vstd::prelude::*;

verus! {

/// Upper bound on either output dimension, in pixels. Keeps every subunit
/// coordinate derived from the output size well inside the geometry's
/// `COORD_LIMIT` and the pixel form inside `i32`.
pub const MAX_DIM: u32 = 1_000_000;

/// The fixed frame interval the loop enforces, in milliseconds.
pub const FRAME_INTERVAL_MS: u32 = 1000 / 60;

/// The constant elapsed time handed to a screen each frame, in milliseconds.
/// By design the scheduler clamps frequency, not duration, and screens see
/// this fixed tick rather than the measured delta.
pub const FRAME_TICK_MS: u64 = 10;

/// A flat RGB draw color.
#[derive(Clone, Copy, Debug, PartialEq, Eq, Structural)]
pub struct Color {
    pub r: u8,
    pub g: u8,
    pub b: u8,
}

/// One draw call a screen issues through the context; the host replays them
/// against the real render target in order.
#[derive(Clone, Copy, Debug, PartialEq, Eq, Structural)]
pub enum DrawCommand {
    Clear(Color),
    FillRect(Color, DrawRect),
}

/// The shared per-frame environment: input aggregator, current output size,
/// and the frame's draw queue. One instance lives for the whole run.
pub struct Phi {
    pub events: Events,
    pub out_w: u32,
    pub out_h: u32,
    pub draws: Vec<DrawCommand>,
}

impl Phi {
    /// Both output dimensions are within `MAX_DIM`.
    pub open spec fn wf(self) -> bool {
        self.out_w <= MAX_DIM && self.out_h <= MAX_DIM
    }

    pub fn new(out_w: u32, out_h: u32) -> (p: Phi)
        requires
            out_w <= MAX_DIM,
            out_h <= MAX_DIM,
        ensures
            p.wf(),
            p.out_w == out_w,
            p.out_h == out_h,
            p.events == Events::init(),
            p.draws@ == Seq::<DrawCommand>::empty(),
    {
        let p = Phi { events: Events::new(), out_w, out_h, draws: Vec::new() };
        proof {
            assert(p.draws@ =~= Seq::<DrawCommand>::empty());
        }
        p
    }

    /// The current output dimensions, in pixels.
    pub fn output_size(&self) -> (s: (u32, u32))
        ensures
            s == (self.out_w, self.out_h),
    {
        (self.out_w, self.out_h)
    }

    /// Records a new output size, as queried from the render target.
    pub fn set_output_size(&mut self, w: u32, h: u32)
        requires
            w <= MAX_DIM,
            h <= MAX_DIM,
        ensures
            final(self).out_w == w,
            final(self).out_h == h,
            final(self).events == old(self).events,
            final(self).draws == old(self).draws,
            final(self).wf(),
    {
        self.out_w = w;
        self.out_h = h;
    }
}

/// True when this frame demands termination: a quit request or the cancel
/// key's just-pressed edge. Screens check this first, before anything else.
pub open spec fn exit_requested(phi: Phi) -> bool {
    phi.events.now.quit || phi.events.now.key_escape == Some(true)
}

/// A screen's transition directive, produced once per frame and consumed
/// immediately by the loop: keep going and present the frame, terminate the
/// interactive phase, or replace the active screen (ownership of the new
/// screen transfers to the loop; the previous one is dropped at once).
#[derive(Clone, Copy, Debug, PartialEq, Eq, Structural)]
pub enum ViewAction {
    Continue,
    Quit,
    ChangeView(AnyScreen),
}

/// The unit of interactive behavior: consumes one frame's context and the
/// elapsed time, mutates only its own entities, queues whatever draw calls
/// it needs through the context, and returns exactly one directive.
///
/// The spec functions pin each implementation's behavior: `render` must
/// leave the input state and output size alone, may only append to the draw
/// queue, and must return the directive and successor state its own spec
/// functions describe. A screen must treat a quit request or the cancel
/// key's just-pressed edge as an unconditional request to terminate,
/// checked before any other logic.
pub trait Screen: Sized {
    /// What `render` is allowed to assume of its inputs.
    spec fn req(self, phi: Phi, elapsed_ms: u64) -> bool;

    /// The screen's state after one frame.
    spec fn next(self, phi: Phi, elapsed_ms: u64) -> Self;

    /// The directive one frame produces.
    spec fn directive(self, phi: Phi, elapsed_ms: u64) -> ViewAction;

    /// The draw calls one frame appends to the queue, in order.
    spec fn drawn(self, phi: Phi, elapsed_ms: u64) -> Seq<DrawCommand>;

    fn render(&mut self, phi: &mut Phi, elapsed_ms: u64) -> (action: ViewAction)
        requires
            old(self).req(*old(phi), elapsed_ms),
        ensures
            *final(self) == old(self).next(*old(phi), elapsed_ms),
            action == old(self).directive(*old(phi), elapsed_ms),
            final(phi).events == old(phi).events,
            final(phi).out_w == old(phi).out_w,
            final(phi).out_h == old(phi).out_h,
            final(phi).draws@ == old(phi).draws@ + old(self).drawn(*old(phi), elapsed_ms),
    ;
}

/// What the loop does with the frame after applying a directive.
#[derive(Clone, Copy, Debug, PartialEq, Eq, Structural)]
pub enum FrameOutcome {
    Present,
    Stop,
    Swap,
}

/// Applies one frame's directive to the active screen: `Continue` keeps it
/// and presents the frame, `Quit` keeps it and stops the loop, `ChangeView`
/// installs the new screen, dropping the previous one, and presents nothing
/// this iteration (the replacement renders fresh from the next frame on).
pub fn apply_action(current: &mut AnyScreen, action: ViewAction) -> (o: FrameOutcome)
    ensures
        action is Continue ==> o == FrameOutcome::Present && *final(current) == *old(current),
        action is Quit ==> o == FrameOutcome::Stop && *final(current) == *old(current),
        action matches ViewAction::ChangeView(v) ==> o == FrameOutcome::Swap && *final(current)
            == v,
{
    match action {
        ViewAction::Continue => FrameOutcome::Present,
        ViewAction::Quit => FrameOutcome::Stop,
        ViewAction::ChangeView(v) => {
            *current = v;
            FrameOutcome::Swap
        },
    }
}

/// The scheduler's answer for one loop iteration: either delay for the given
/// number of milliseconds and retry without advancing any state, or proceed
/// with the frame.
#[derive(Clone, Copy, Debug, PartialEq, Eq, Structural)]
pub enum FrameDecision {
    Wait(u32),
    Proceed,
}

/// Whether enough time has passed since `before` for the next frame. Below
/// the fixed interval the loop must wait out exactly the remainder; this
/// caps the frame rate without spinning the processor.
pub fn frame_decision(before: u32, now: u32) -> (d: FrameDecision)
    requires
        before <= now,
    ensures
        now - before < FRAME_INTERVAL_MS ==> d == FrameDecision::Wait(
            (FRAME_INTERVAL_MS - (now - before)) as u32,
        ),
        now - before >= FRAME_INTERVAL_MS ==> d == FrameDecision::Proceed,
{
    let dt = now - before;
    if dt < FRAME_INTERVAL_MS {
        FrameDecision::Wait(FRAME_INTERVAL_MS - dt)
    } else {
        FrameDecision::Proceed
    }
}

/// The loop's per-iteration bookkeeping: the wall-clock reference point of
/// the previous frame, plus a rolling one-second window and frame counter
/// used only for instrumentation.
#[derive(Clone, Copy, Debug, PartialEq, Eq, Structural)]
pub struct FrameClock {
    pub before: u32,
    pub last_second: u32,
    pub fps: u16,
}

impl FrameClock {
    pub fn new(now: u32) -> (c: FrameClock)
        ensures
            c == (FrameClock { before: now, last_second: now, fps: 0u16 }),
    {
        FrameClock { before: now, last_second: now, fps: 0 }
    }

    /// Advances the reference point to `now` and counts the frame. When the
    /// rolling window exceeds one second, reports the frame count and starts
    /// a fresh window at `now`.
    pub fn advance(&mut self, now: u32) -> (report: Option<u16>)
        requires
            old(self).last_second <= now,
            old(self).fps < u16::MAX,
        ensures
            final(self).before == now,
            now - old(self).last_second > 1000 ==> {
                &&& report == Some((old(self).fps + 1) as u16)
                &&& final(self).fps == 0
                &&& final(self).last_second == now
            },
            now - old(self).last_second <= 1000 ==> {
                &&& report is None
                &&& final(self).fps == old(self).fps + 1
                &&& final(self).last_second == old(self).last_second
            },
    {
        self.before = now;
        self.fps = self.fps + 1;
        if now - self.last_second > 1000 {
            let f = self.fps;
            self.last_second = now;
            self.fps = 0;
            Some(f)
        } else {
            None
        }
    }
}

} // verus!
