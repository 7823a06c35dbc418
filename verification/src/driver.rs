//! The loop protocol: what to do next, given what just happened.
//!
//! The driver never touches a window, a clock or a surface. Whoever pumps
//! the platform's events tells it what happened with a [`Signal`] and does
//! what the returned [`Action`] says. One real frame runs
//! idle, accumulating, ticking (zero or more updates), then the render step
//! (resize if asked, render, present), and idle again.

use crate::buttons::Button;
use crate::context::{Context, ContextView};
use crate::input::{InputEvent, InputView, Vec2};
use crate::pacer::{
    lemma_drained_within_tick, lemma_frame_conserves_time, lemma_no_tick, lemma_tick_step,
    time_limit, Blend, FramePacer, PacerState,
};
use vstd::prelude::*;

verus! {

/// A size in pixels.
#[derive(Clone, Copy, Debug, PartialEq, Eq, Hash, Structural)]
pub struct Size {
    /// Width in pixels.
    pub width: u32,
    /// Height in pixels.
    pub height: u32,
}

/// What happened to a window.
#[derive(Clone, Copy, Debug, PartialEq, Eq, Hash, Structural)]
pub enum WindowEvent {
    /// The user asked to close the window.
    CloseRequested,
    /// The window has a new size.
    Resized(Size),
    /// The window wants to be drawn.
    RedrawRequested,
    /// Keyboard, mouse or wheel input.
    Input(InputEvent),
    /// Anything else.
    Other,
}

/// One event of the platform.
#[derive(Clone, Copy, Debug, PartialEq, Eq, Hash, Structural)]
pub enum Event {
    /// Something happened to the window with this identity.
    Window { window: u64, event: WindowEvent },
    /// A pointing device moved, whichever window has the focus.
    DeviceMotion(Vec2),
    /// All events that were due have been delivered.
    AboutToWait,
    /// Anything else.
    Other,
}

/// What the pump reports to the driver.
#[derive(Clone, Copy, Debug, PartialEq, Eq, Hash, Structural)]
pub enum Signal {
    /// The platform delivered `event`, and the application's own handler
    /// has seen it; `handled` is false where that handler failed.
    Event { event: Event, handled: bool },
    /// The real time since the previous redraw, in nanoseconds.
    Elapsed(u64),
    /// The update callback returned; `ok` is false where it failed.
    Updated { ok: bool },
    /// The surface was resized; `ok` is false where that failed.
    Resized { ok: bool },
    /// The render callback returned; `ok` is false where it failed.
    Rendered { ok: bool },
    /// The frame was presented; `ok` is false where that failed.
    Presented { ok: bool },
}

/// What the pump has to do next.
#[derive(Clone, Copy, Debug, PartialEq, Eq, Hash, Structural)]
pub enum Action {
    /// Nothing: go on pumping events.
    Wait,
    /// Measure the real time since the previous redraw and report it.
    Measure,
    /// Run the update callback once and report how it ended.
    Update,
    /// Resize the surface to this size and report how it ended.
    Resize(Size),
    /// Run the render callback once with this blending factor and report
    /// how it ended.
    Render(Blend),
    /// Present the frame and report how it ended.
    Present,
    /// Ask the window for the next redraw; there is nothing to report.
    RequestRedraw,
    /// Stop pumping events.
    Exit,
}

/// Where the driver stands in the frame.
#[derive(Clone, Copy, Debug, PartialEq, Eq, Hash, Structural)]
pub enum Phase {
    /// Between frames.
    Idle,
    /// A redraw was asked for; the real time is being measured.
    Accumulating,
    /// An update is running.
    Ticking,
    /// Render step: the surface is being resized to this size.
    Resizing(Size),
    /// Render step: the render callback is running.
    Rendering,
    /// Render step: the frame is being presented.
    Presenting,
    /// The loop has ended.
    Stopped,
}

/// Mathematical state of a [`LoopDriver`].
pub struct DriverState {
    /// Where the driver stands in the frame.
    pub phase: Phase,
    /// Identity of the window the loop serves.
    pub window: u64,
    /// Size of the surface, as far as the driver asked for it.
    pub surface: Size,
    /// A resize that waits for the next render step.
    pub pending_resize: Option<Size>,
    /// The frame pacer.
    pub pacer: PacerState,
    /// The update context.
    pub context: ContextView,
}

impl DriverState {
    /// The state a new driver starts in.
    pub open spec fn initial(window: u64, surface: Size, target: nat, max: nat) -> DriverState {
        DriverState {
            phase: Phase::Idle,
            window,
            surface,
            pending_resize: None,
            pacer: PacerState { target, max, accumulated: 0 },
            context: ContextView {
                target,
                max,
                delta_time: 0,
                exit: false,
                input: InputView::empty(),
            },
        }
    }

    /// What holds of the state of every driver: a tick has a size, the
    /// times fit the machine word that holds them, and while an update runs
    /// the accumulator is not empty.
    pub open spec fn inv(self) -> bool {
        &&& 0 < self.context.target <= u64::MAX
        &&& 0 < self.pacer.target <= u64::MAX
        &&& self.pacer.accumulated <= u64::MAX
        &&& self.phase is Ticking ==> self.pacer.accumulated > 0
    }

    /// The loop has ended.
    pub open spec fn stopped(self) -> DriverState {
        DriverState { phase: Phase::Stopped, ..self }
    }

    /// The pacer takes over the pacing settings of the context. Time already
    /// accumulated stays as it is.
    pub open spec fn synced(self) -> DriverState {
        DriverState {
            pacer: PacerState {
                target: self.context.target,
                max: self.context.max,
                accumulated: self.pacer.accumulated,
            },
            ..self
        }
    }

    /// The blending factor of the frame: leftover over tick size.
    pub open spec fn blend(self) -> Blend {
        Blend {
            numerator: self.pacer.accumulated as u64,
            denominator: self.pacer.target as u64,
        }
    }

    /// Start of the render step. The input frame is committed. A resize
    /// that waited is taken up now, and goes on waiting until it is reported
    /// done; else render runs at once.
    pub open spec fn enter_render(self) -> (DriverState, Action) {
        let context = ContextView { input: self.context.input.commit(), ..self.context };
        match self.pending_resize {
            Some(size) => (
                DriverState { phase: Phase::Resizing(size), context, ..self },
                Action::Resize(size),
            ),
            None => (
                DriverState { phase: Phase::Rendering, context, ..self },
                Action::Render(self.blend()),
            ),
        }
    }

    /// One look at the accumulator: another update if a tick is due, else
    /// the render step.
    pub open spec fn next_tick(self) -> (DriverState, Action) {
        if self.pacer.tick_due() {
            (
                DriverState {
                    phase: Phase::Ticking,
                    context: self.context.begin_tick(),
                    ..self
                },
                Action::Update,
            )
        } else {
            self.enter_render()
        }
    }

    /// The resize that still waits once a resize to `size` is done: none,
    /// unless another size was asked for in the meantime.
    pub open spec fn resize_left(self, size: Size) -> Option<Size> {
        if self.pending_resize == Some(size) {
            None
        } else {
            self.pending_resize
        }
    }

    /// A platform event that the application's handler accepted.
    pub open spec fn accept(self, event: Event) -> (DriverState, Action) {
        match event {
            Event::Window { window, event } => if window != self.window {
                (self, Action::Wait)
            } else {
                match event {
                    WindowEvent::CloseRequested => (self.stopped(), Action::Exit),
                    WindowEvent::Resized(size) => (
                        DriverState { pending_resize: Some(size), ..self },
                        Action::Wait,
                    ),
                    WindowEvent::RedrawRequested => if self.phase is Idle {
                        (DriverState { phase: Phase::Accumulating, ..self }, Action::Measure)
                    } else {
                        (self, Action::Wait)
                    },
                    WindowEvent::Input(input) => (self.with_input(input), Action::Wait),
                    WindowEvent::Other => (self, Action::Wait),
                }
            },
            Event::DeviceMotion(delta) => (
                self.with_input(InputEvent::Moved(delta)),
                Action::Wait,
            ),
            Event::AboutToWait => (self, Action::RequestRedraw),
            Event::Other => (self, Action::Wait),
        }
    }

    /// The state after the input tracker took in one raw event.
    pub open spec fn with_input(self, input: InputEvent) -> DriverState {
        DriverState {
            context: ContextView { input: self.context.input.process(input), ..self.context },
            ..self
        }
    }

    /// The next state and the action for one signal.
    ///
    /// A stopped driver stays stopped and answers `Exit`. A failure of the
    /// handler, of a callback or of the surface stops the driver and changes
    /// nothing else: a resize that failed still waits. A report that does
    /// not belong to the phase changes nothing.
    pub open spec fn step(self, signal: Signal) -> (DriverState, Action) {
        if self.phase is Stopped {
            (self, Action::Exit)
        } else {
            match signal {
                Signal::Event { event, handled } => if handled {
                    self.accept(event)
                } else {
                    (self.stopped(), Action::Exit)
                },
                Signal::Elapsed(elapsed) => if self.phase is Accumulating {
                    let synced = self.synced();
                    (DriverState {
                        pacer: synced.pacer.accumulate(elapsed as nat),
                        ..synced
                    }).next_tick()
                } else {
                    (self, Action::Wait)
                },
                Signal::Updated { ok } => if self.phase is Ticking {
                    if !ok || self.context.exit {
                        (self.stopped(), Action::Exit)
                    } else {
                        let synced = self.synced();
                        (DriverState { pacer: synced.pacer.consume_tick(), ..synced }).next_tick()
                    }
                } else {
                    (self, Action::Wait)
                },
                Signal::Resized { ok } => match self.phase {
                    Phase::Resizing(size) => if ok {
                        (
                            DriverState {
                                phase: Phase::Rendering,
                                surface: size,
                                pending_resize: self.resize_left(size),
                                ..self
                            },
                            Action::Render(self.blend()),
                        )
                    } else {
                        (self.stopped(), Action::Exit)
                    },
                    _ => (self, Action::Wait),
                },
                Signal::Rendered { ok } => if self.phase is Rendering {
                    if ok {
                        (DriverState { phase: Phase::Presenting, ..self }, Action::Present)
                    } else {
                        (self.stopped(), Action::Exit)
                    }
                } else {
                    (self, Action::Wait)
                },
                Signal::Presented { ok } => if self.phase is Presenting {
                    if ok {
                        (DriverState { phase: Phase::Idle, ..self }, Action::Wait)
                    } else {
                        (self.stopped(), Action::Exit)
                    }
                } else {
                    (self, Action::Wait)
                },
            }
        }
    }
}

impl DriverState {
    /// The state after the signals of `signals`, one after the other.
    pub open spec fn after(self, signals: Seq<Signal>) -> DriverState
        decreases signals.len(),
    {
        if signals.len() == 0 {
            self
        } else {
            self.after(signals.drop_last()).step(signals.last()).0
        }
    }

    /// The state after `n` updates in a row reported success.
    pub open spec fn updated(self, n: nat) -> DriverState
        decreases n,
    {
        if n == 0 {
            self
        } else {
            self.step(Signal::Updated { ok: true }).0.updated((n - 1) as nat)
        }
    }

    /// Whether the driver is in the render step.
    pub open spec fn in_render_step(self) -> bool {
        self.phase is Resizing || self.phase is Rendering || self.phase is Presenting
    }

    /// Whether `signal` reports a failure that the driver waits for.
    pub open spec fn fails(self, signal: Signal) -> bool {
        match signal {
            Signal::Event { event, handled } => !handled,
            Signal::Elapsed(elapsed) => false,
            Signal::Updated { ok } => self.phase is Ticking && !ok,
            Signal::Resized { ok } => self.phase is Resizing && !ok,
            Signal::Rendered { ok } => self.phase is Rendering && !ok,
            Signal::Presented { ok } => self.phase is Presenting && !ok,
        }
    }

    /// Whether `signal` is the one that takes the driver from the ticks
    /// into the render step.
    pub open spec fn enters_render(self, signal: Signal) -> bool {
        &&& self.phase is Accumulating || self.phase is Ticking
        &&& self.step(signal).0.in_render_step()
    }
}

/// No signal breaks what holds of the state of every driver.
pub proof fn lemma_step_keeps_inv(s: DriverState, signal: Signal)
    requires
        s.inv(),
    ensures
        s.step(signal).0.inv(),
{
}

/// Once stopped, the driver stays as it is and answers `Exit`, whatever
/// comes.
pub proof fn lemma_stopped_is_final(s: DriverState, signals: Seq<Signal>, signal: Signal)
    requires
        s.phase is Stopped,
    ensures
        s.after(signals) == s,
        s.after(signals).step(signal) == (s, Action::Exit),
    decreases signals.len(),
{
    if signals.len() > 0 {
        lemma_stopped_is_final(s, signals.drop_last(), signals.last());
    }
}

/// Fail fast: any reported failure stops the loop at once. Nothing else
/// changes: the input frame is not committed, the surface keeps its size,
/// the accumulator keeps its time, and a resize that failed still waits.
pub proof fn lemma_failure_stops(s: DriverState, signal: Signal)
    requires
        !(s.phase is Stopped),
        s.fails(signal),
    ensures
        s.step(signal) == (s.stopped(), Action::Exit),
{
}

/// An update that fails, or that asks to exit, ends the frame: no further
/// update, no commit of the input frame and no render follow, whatever is
/// reported afterwards.
pub proof fn lemma_failed_update_ends_frame(
    s: DriverState,
    ok: bool,
    later: Seq<Signal>,
    signal: Signal,
)
    requires
        s.phase is Ticking,
        !ok || s.context.exit,
    ensures
        s.step(Signal::Updated { ok }) == (s.stopped(), Action::Exit),
        s.stopped().context == s.context,
        s.stopped().after(later) == s.stopped(),
        s.stopped().after(later).step(signal).1 == Action::Exit,
{
    lemma_stopped_is_final(s.stopped(), later, signal);
}

/// A resize asked for during a frame is only recorded: the surface keeps
/// its size and the frame goes on as it was.
pub proof fn lemma_resize_is_deferred(s: DriverState, size: Size)
    requires
        !(s.phase is Stopped),
    ensures
        s.step(
            Signal::Event {
                event: Event::Window { window: s.window, event: WindowEvent::Resized(size) },
                handled: true,
            },
        ) == (DriverState { pending_resize: Some(size), ..s }, Action::Wait),
{
}

/// The surface changes size only when a resize that the render step asked
/// for is reported done, and then to the size asked for. The request is
/// forgotten then, and not before.
pub proof fn lemma_surface_changes_in_render_step(s: DriverState, signal: Signal)
    ensures
        s.step(signal).0.surface != s.surface ==> s.phase is Resizing && signal
            == (Signal::Resized { ok: true }),
        s.phase matches Phase::Resizing(size) ==> s.step(Signal::Resized { ok: true }) == (
            DriverState {
                phase: Phase::Rendering,
                surface: size,
                pending_resize: s.resize_left(size),
                ..s
            },
            Action::Render(s.blend()),
        ),
        s.phase matches Phase::Resizing(size) ==> s.step(Signal::Resized { ok: false }) == (
            s.stopped(),
            Action::Exit,
        ),
{
}

/// The render step takes up a waiting resize once. It asks for the resize
/// before render; the size waits until the resize is reported done, and is
/// forgotten then, so that the render step of the next frame renders at
/// once unless a new resize was asked for. A resize that failed still
/// waits.
pub proof fn lemma_resize_applied_once(s: DriverState)
    ensures
        s.pending_resize matches Some(size) ==> {
            let asked = s.enter_render().0;
            &&& s.enter_render().1 == Action::Resize(size)
            &&& asked.phase == Phase::Resizing(size)
            &&& asked.pending_resize == Some(size)
            &&& asked.surface == s.surface
            &&& asked.step(Signal::Resized { ok: true }).0.surface == size
            &&& asked.step(Signal::Resized { ok: true }).0.pending_resize is None
            &&& asked.step(Signal::Resized { ok: true }).1 == Action::Render(s.blend())
            &&& asked.step(Signal::Resized { ok: false }).0.pending_resize == Some(size)
            &&& asked.step(Signal::Resized { ok: false }).0.surface == s.surface
        },
        s.pending_resize is None ==> {
            &&& s.enter_render().1 == Action::Render(s.blend())
            &&& s.enter_render().0.phase is Rendering
            &&& s.enter_render().0.surface == s.surface
            &&& s.enter_render().0.pending_resize is None
        },
{
}

/// The waiting resize changes in two ways only: the window reports a new
/// size, or a resize is reported done.
pub proof fn lemma_resize_only_on_request(s: DriverState, signal: Signal)
    ensures
        ({
            let next = s.step(signal).0;
            ||| next.pending_resize == s.pending_resize
            ||| next.pending_resize is None && s.phase is Resizing && signal
                == (Signal::Resized { ok: true })
            ||| exists|size: Size|
                next.pending_resize == Some(size) && signal == (Signal::Event {
                    event: Event::Window {
                        window: s.window,
                        event: WindowEvent::Resized(size),
                    },
                    handled: true,
                })
        }),
{
}

/// The two parts of the blending factor are the leftover of the accumulator
/// and the size of a tick, and once no tick is due the factor is at most
/// one.
pub proof fn lemma_blend_parts(s: DriverState)
    requires
        s.inv(),
    ensures
        s.blend().numerator == s.pacer.accumulated,
        s.blend().denominator == s.pacer.target,
        s.blend().denominator > 0,
        !s.pacer.tick_due() ==> s.blend().numerator <= s.blend().denominator,
{
}

/// The input frame is committed by the signal that enters the render step,
/// and by no other: every other signal leaves what the queries report as
/// it is.
pub proof fn lemma_commit_once_per_frame(s: DriverState, signal: Signal, button: Button)
    ensures
        s.enters_render(signal) ==> s.step(signal).0.context.input
            == s.context.input.commit(),
        !s.enters_render(signal) ==> {
            &&& s.step(signal).0.context.input.state(button) == s.context.input.state(button)
            &&& s.step(signal).0.context.input.cursor == s.context.input.cursor
            &&& s.step(signal).0.context.input.scroll == s.context.input.scroll
            &&& s.step(signal).0.context.input.motion == s.context.input.motion
            &&& s.step(signal).0.context.input.mods == s.context.input.mods
        },
        s.in_render_step() ==> !s.enters_render(signal),
{
}

impl DriverState {
    /// What a run of updates leaves alone: everything but the phase, the
    /// pacer, the input and the time of the tick.
    pub open spec fn same_settings(self, other: DriverState) -> bool {
        &&& self.window == other.window
        &&& self.surface == other.surface
        &&& self.pending_resize == other.pending_resize
        &&& self.context.target == other.context.target
        &&& self.context.max == other.context.max
        &&& self.context.exit == other.context.exit
    }

    /// The request of the driver's own window to be drawn, accepted by the
    /// application's handler.
    pub open spec fn redraw_request(self) -> Signal {
        Signal::Event {
            event: Event::Window { window: self.window, event: WindowEvent::RedrawRequested },
            handled: true,
        }
    }

    /// How many updates a frame of `elapsed` real time runs.
    pub open spec fn updates_in(self, elapsed: u64) -> nat {
        self.synced().pacer.ticks_for(elapsed as nat)
    }

    /// The state after one whole frame of `elapsed` real time in which
    /// nothing fails: the redraw is asked for, the time is reported, every
    /// due update succeeds, a resize that waited is done, render and present
    /// succeed.
    pub open spec fn redrawn(self, elapsed: u64) -> DriverState {
        let begun = self.step(self.redraw_request()).0;
        let ticking = begun.step(Signal::Elapsed(elapsed)).0;
        let in_render = ticking.updated(self.updates_in(elapsed));
        let resized = in_render.step(Signal::Resized { ok: true }).0;
        let rendered = resized.step(Signal::Rendered { ok: true }).0;
        rendered.step(Signal::Presented { ok: true }).0
    }

    /// The state after the frames of `frames`, one after the other.
    pub open spec fn redrawn_all(self, frames: Seq<u64>) -> DriverState
        decreases frames.len(),
    {
        if frames.len() == 0 {
            self
        } else {
            self.redrawn_all(frames.drop_last()).redrawn(frames.last())
        }
    }

    /// How many updates the frames of `frames` run together.
    pub open spec fn updates_in_all(self, frames: Seq<u64>) -> nat
        decreases frames.len(),
    {
        if frames.len() == 0 {
            0
        } else {
            self.updates_in_all(frames.drop_last()) + self.redrawn_all(
                frames.drop_last(),
            ).updates_in(frames.last())
        }
    }

    /// The real time admitted over the frames of `frames`: each cut down
    /// to the ceiling of the context.
    pub open spec fn admitted_in_all(self, frames: Seq<u64>) -> nat
        decreases frames.len(),
    {
        if frames.len() == 0 {
            0
        } else {
            self.admitted_in_all(frames.drop_last()) + self.synced().pacer.admitted(
                frames.last() as nat,
            )
        }
    }
}

/// While ticks are due and the updates succeed, change no pacing setting and
/// do not ask to exit, the driver asks for exactly as many updates as are
/// due, then enters the render step with the drained accumulator and the
/// input frame committed once.
proof fn lemma_due_ticks_run(s: DriverState)
    requires
        s.phase is Ticking,
        s.pacer.target > 0,
        s.pacer.target == s.context.target,
        s.pacer.max == s.context.max,
        !s.context.exit,
        s.pacer.tick_due(),
    ensures
        s.pacer.ticks_due() > 0,
        forall|j: nat| j < s.pacer.ticks_due() ==> (#[trigger] s.updated(j)).phase is Ticking,
        s.updated(s.pacer.ticks_due()).phase == s.enter_render().0.phase,
        s.updated(s.pacer.ticks_due()).pacer == s.pacer.drained(),
        s.updated(s.pacer.ticks_due()).context.input == s.context.input.commit(),
        s.updated(s.pacer.ticks_due()).same_settings(s),
    decreases s.pacer.ticks_due(),
{
    lemma_tick_step(s.pacer);
    let n = s.pacer.ticks_due();
    let next = s.step(Signal::Updated { ok: true }).0;
    if next.pacer.tick_due() {
        lemma_due_ticks_run(next);
        assert forall|j: nat| j < n implies (#[trigger] s.updated(j)).phase is Ticking by {
            if j > 0 {
                assert(s.updated(j) == next.updated((j - 1) as nat));
            }
        }
    } else {
        lemma_no_tick(next.pacer);
    }
}

/// A whole frame of the driver is a whole frame of the pacer. Given the
/// real time of a frame, and updates that succeed, change no pacing setting
/// and do not ask to exit, the driver asks for exactly the updates that the
/// pacer counts for that time, then enters the render step with the
/// accumulator that the pacer leaves, the input frame committed once.
pub proof fn lemma_frame_follows_pacer(s: DriverState, elapsed: u64)
    requires
        s.phase is Accumulating,
        s.context.target > 0,
        !s.context.exit,
    ensures
        ({
            let pacer = s.synced().pacer;
            let ticks = pacer.ticks_for(elapsed as nat);
            let start = s.step(Signal::Elapsed(elapsed)).0;
            &&& ticks > 0 ==> s.step(Signal::Elapsed(elapsed)).1 == Action::Update
            &&& forall|j: nat| j < ticks ==> (#[trigger] start.updated(j)).phase is Ticking
            &&& start.updated(ticks).in_render_step()
            &&& start.updated(ticks).phase == s.enter_render().0.phase
            &&& start.updated(ticks).pacer == pacer.advance(elapsed as nat)
            &&& start.updated(ticks).context.input == s.context.input.commit()
            &&& start.updated(ticks).same_settings(s)
        }),
{
    let fed = s.synced().pacer.accumulate(elapsed as nat);
    if fed.tick_due() {
        lemma_due_ticks_run(s.step(Signal::Elapsed(elapsed)).0);
    } else {
        lemma_no_tick(fed);
    }
}

/// A whole frame of the driver in which nothing fails ends between frames
/// again. The accumulator is what a whole frame of the pacer leaves, the
/// input frame is committed once, a resize that waited is done, and the
/// pacing settings are as they were.
pub proof fn lemma_redraw_is_a_pacer_frame(s: DriverState, elapsed: u64)
    requires
        s.phase is Idle,
        s.inv(),
        !s.context.exit,
    ensures
        s.redrawn(elapsed).phase is Idle,
        s.redrawn(elapsed).inv(),
        s.redrawn(elapsed).pacer == s.synced().pacer.advance(elapsed as nat),
        s.redrawn(elapsed).context.input == s.context.input.commit(),
        s.redrawn(elapsed).context.target == s.context.target,
        s.redrawn(elapsed).context.max == s.context.max,
        !s.redrawn(elapsed).context.exit,
        s.redrawn(elapsed).window == s.window,
        s.redrawn(elapsed).pending_resize is None,
        s.redrawn(elapsed).surface == match s.pending_resize {
            Some(size) => size,
            None => s.surface,
        },
{
    let begun = s.step(s.redraw_request()).0;
    lemma_frame_follows_pacer(begun, elapsed);
    lemma_drained_within_tick(s.synced().pacer.accumulate(elapsed as nat));
}

/// Conservation at the driver: over any run of frames in which nothing
/// fails and no pacing setting changes, the number of updates run times the
/// tick size, plus the leftover in the accumulator, is the leftover at the
/// start plus all the real time admitted, as long as that sum stays within
/// the time limit.
pub proof fn lemma_driver_conserves_time(s: DriverState, frames: Seq<u64>)
    requires
        s.phase is Idle,
        s.inv(),
        !s.context.exit,
        s.pacer.accumulated + s.admitted_in_all(frames) <= time_limit(),
    ensures
        s.updates_in_all(frames) * s.context.target + s.redrawn_all(frames).pacer.accumulated
            == s.pacer.accumulated + s.admitted_in_all(frames),
        s.redrawn_all(frames).phase is Idle,
        s.redrawn_all(frames).inv(),
        s.redrawn_all(frames).context.target == s.context.target,
        s.redrawn_all(frames).context.max == s.context.max,
        !s.redrawn_all(frames).context.exit,
    decreases frames.len(),
{
    if frames.len() > 0 {
        let before = frames.drop_last();
        let mid = s.redrawn_all(before);
        lemma_driver_conserves_time(s, before);
        lemma_redraw_is_a_pacer_frame(mid, frames.last());
        let k1 = s.updates_in_all(before) as int;
        let k2 = mid.updates_in(frames.last()) as int;
        let t = s.context.target as int;
        assert(k1 * t >= 0) by (nonlinear_arith)
            requires
                k1 >= 0,
                t >= 0,
        ;
        lemma_frame_conserves_time(mid.synced().pacer, frames.last() as nat);
        assert((k1 + k2) * t == k1 * t + k2 * t) by (nonlinear_arith);
    } else {
        assert(s.updates_in_all(frames) == 0);
    }
}

/// Driver of the loop: owns the context and the pacer, and decides.
pub struct LoopDriver {
    phase: Phase,
    window: u64,
    surface: Size,
    pending_resize: Option<Size>,
    pacer: FramePacer,
    context: Context,
}

impl View for LoopDriver {
    type V = DriverState;

    closed spec fn view(&self) -> DriverState {
        DriverState {
            phase: self.phase,
            window: self.window,
            surface: self.surface,
            pending_resize: self.pending_resize,
            pacer: self.pacer@,
            context: self.context@,
        }
    }
}

impl LoopDriver {
    /// Well-formedness: that of the context and of the pacer, and while an
    /// update runs the accumulator is not empty.
    pub closed spec fn wf(&self) -> bool {
        &&& self.parts_wf()
        &&& self.phase is Ticking ==> self.pacer@.accumulated > 0
    }

    /// Well-formedness of the parts: the context is well formed, the pacer
    /// has a tick size, and its times fit the machine word.
    closed spec fn parts_wf(&self) -> bool {
        &&& self.context.wf()
        &&& 0 < self.pacer@.target <= u64::MAX
        &&& self.pacer@.accumulated <= u64::MAX
    }

    /// What well-formedness says of the state.
    pub proof fn lemma_wf(&self)
        requires
            self.wf(),
        ensures
            self@.inv(),
    {
        self.context.lemma_wf();
    }

    /// A driver between frames, for the window `window` and a surface of
    /// size `surface`.
    pub fn new(window: u64, surface: Size, target_frame_time: u64, max_frame_time: u64) -> (driver:
        LoopDriver)
        requires
            target_frame_time > 0,
        ensures
            driver.wf(),
            driver@ == DriverState::initial(
                window,
                surface,
                target_frame_time as nat,
                max_frame_time as nat,
            ),
    {
        LoopDriver {
            phase: Phase::Idle,
            window,
            surface,
            pending_resize: None,
            pacer: FramePacer::new(target_frame_time, max_frame_time),
            context: Context::new(target_frame_time, max_frame_time),
        }
    }

    /// Where the driver stands in the frame.
    pub fn phase(&self) -> (phase: Phase)
        ensures
            phase == self@.phase,
    {
        self.phase
    }

    /// Whether the loop has ended.
    pub fn is_stopped(&self) -> (stopped: bool)
        ensures
            stopped == (self@.phase is Stopped),
    {
        matches!(self.phase, Phase::Stopped)
    }

    /// Identity of the window the loop serves.
    pub fn window(&self) -> (window: u64)
        ensures
            window == self@.window,
    {
        self.window
    }

    /// Size of the surface, as far as the driver asked for it.
    pub fn surface_size(&self) -> (size: Size)
        ensures
            size == self@.surface,
    {
        self.surface
    }

    /// A resize that waits for the next render step.
    pub fn pending_resize(&self) -> (size: Option<Size>)
        ensures
            size == self@.pending_resize,
    {
        self.pending_resize
    }

    /// Real time not yet consumed by a tick.
    pub fn accumulated_time(&self) -> (time: u64)
        ensures
            time == self@.pacer.accumulated,
    {
        self.pacer.accumulated_time()
    }

    /// The blending factor of the frame: leftover over tick size. Once no
    /// tick is due the numerator is at most the denominator.
    pub fn blending(&self) -> (blend: Blend)
        ensures
            blend == self@.blend(),
            blend.denominator > 0,
            !self@.pacer.tick_due() ==> blend.numerator <= blend.denominator,
    {
        self.pacer.blending()
    }

    /// The update context.
    pub fn context(&self) -> (ctx: &Context)
        requires
            self.wf(),
        ensures
            ctx.wf(),
            ctx@ == self@.context,
    {
        &self.context
    }

    /// The update context, for the update callback to change.
    pub fn context_mut(&mut self) -> (ctx: &mut Context)
        requires
            old(self).wf(),
        ensures
            ctx.wf(),
            ctx@ == old(self)@.context,
            final(self)@ == (DriverState { context: final(ctx)@, ..old(self)@ }),
            final(ctx).wf() ==> final(self).wf(),
    {
        &mut self.context
    }

    fn stop(&mut self) -> (action: Action)
        requires
            old(self).parts_wf(),
        ensures
            final(self).parts_wf(),
            final(self)@ == old(self)@.stopped(),
            action == Action::Exit,
    {
        self.phase = Phase::Stopped;
        Action::Exit
    }

    fn sync(&mut self)
        requires
            old(self).parts_wf(),
        ensures
            final(self).parts_wf(),
            final(self)@ == old(self)@.synced(),
    {
        let target: u64 = self.context.target_frame_time();
        let max: u64 = self.context.max_frame_time();
        self.pacer.set_target_frame_time(target);
        self.pacer.set_max_frame_time(max);
    }

    fn enter_render(&mut self) -> (action: Action)
        requires
            old(self).parts_wf(),
        ensures
            final(self).parts_wf(),
            (final(self)@, action) == old(self)@.enter_render(),
    {
        self.context.commit_input();
        match self.pending_resize {
            Some(size) => {
                self.phase = Phase::Resizing(size);
                Action::Resize(size)
            },
            None => {
                self.phase = Phase::Rendering;
                Action::Render(self.pacer.blending())
            },
        }
    }

    fn next_tick(&mut self) -> (action: Action)
        requires
            old(self).parts_wf(),
        ensures
            final(self).parts_wf(),
            (final(self)@, action) == old(self)@.next_tick(),
    {
        if self.pacer.tick_due() {
            self.context.begin_tick();
            self.phase = Phase::Ticking;
            Action::Update
        } else {
            self.enter_render()
        }
    }

    fn accept(&mut self, event: Event) -> (action: Action)
        requires
            old(self).parts_wf(),
        ensures
            final(self).parts_wf(),
            (final(self)@, action) == old(self)@.accept(event),
    {
        match event {
            Event::Window { window, event } => {
                if window != self.window {
                    Action::Wait
                } else {
                    match event {
                        WindowEvent::CloseRequested => self.stop(),
                        WindowEvent::Resized(size) => {
                            self.pending_resize = Some(size);
                            Action::Wait
                        },
                        WindowEvent::RedrawRequested => {
                            if matches!(self.phase, Phase::Idle) {
                                self.phase = Phase::Accumulating;
                                Action::Measure
                            } else {
                                Action::Wait
                            }
                        },
                        WindowEvent::Input(input) => {
                            self.context.process_input(input);
                            Action::Wait
                        },
                        WindowEvent::Other => Action::Wait,
                    }
                }
            },
            Event::DeviceMotion(delta) => {
                self.context.process_input(InputEvent::Moved(delta));
                Action::Wait
            },
            Event::AboutToWait => Action::RequestRedraw,
            Event::Other => Action::Wait,
        }
    }

    /// Takes one signal and says what to do next.
    pub fn step(&mut self, signal: Signal) -> (action: Action)
        requires
            old(self).wf(),
        ensures
            final(self).wf(),
            (final(self)@, action) == old(self)@.step(signal),
    {
        if matches!(self.phase, Phase::Stopped) {
            return Action::Exit;
        }
        match signal {
            Signal::Event { event, handled } => {
                if handled {
                    self.accept(event)
                } else {
                    self.stop()
                }
            },
            Signal::Elapsed(elapsed) => {
                if matches!(self.phase, Phase::Accumulating) {
                    self.sync();
                    self.pacer.accumulate(elapsed);
                    self.next_tick()
                } else {
                    Action::Wait
                }
            },
            Signal::Updated { ok } => {
                if matches!(self.phase, Phase::Ticking) {
                    if !ok || self.context.exit_requested() {
                        self.stop()
                    } else {
                        self.sync();
                        self.pacer.consume_tick();
                        self.next_tick()
                    }
                } else {
                    Action::Wait
                }
            },
            Signal::Resized { ok } => {
                match self.phase {
                    Phase::Resizing(size) => {
                        if ok {
                            self.surface = size;
                            match self.pending_resize {
                                Some(waiting) => {
                                    if waiting == size {
                                        self.pending_resize = None;
                                    }
                                },
                                None => {},
                            }
                            self.phase = Phase::Rendering;
                            Action::Render(self.pacer.blending())
                        } else {
                            self.stop()
                        }
                    },
                    _ => Action::Wait,
                }
            },
            Signal::Rendered { ok } => {
                if matches!(self.phase, Phase::Rendering) {
                    if ok {
                        self.phase = Phase::Presenting;
                        Action::Present
                    } else {
                        self.stop()
                    }
                } else {
                    Action::Wait
                }
            },
            Signal::Presented { ok } => {
                if matches!(self.phase, Phase::Presenting) {
                    if ok {
                        self.phase = Phase::Idle;
                        Action::Wait
                    } else {
                        self.stop()
                    }
                } else {
                    Action::Wait
                }
            },
        }
    }
}

} // verus!
