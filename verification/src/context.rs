//! What an update sees and may change: pacing settings, the time of the
//! tick, the request to exit, and the input snapshot.

use crate::input::{InputEvent, InputTracker, InputView};
use vstd::prelude::*;

verus! {

/// Mathematical state of a [`Context`].
pub struct ContextView {
    /// Wanted size of one update tick.
    pub target: nat,
    /// Ceiling on the real time admitted for one frame.
    pub max: nat,
    /// Size of the tick that runs, or ran last.
    pub delta_time: nat,
    /// Whether the application asked to exit.
    pub exit: bool,
    /// The input snapshot.
    pub input: InputView,
}

impl ContextView {
    /// The state as a tick begins: the tick lasts one target frame time.
    pub open spec fn begin_tick(self) -> ContextView {
        ContextView { delta_time: self.target, ..self }
    }
}

/// Update context.
pub struct Context {
    target_frame_time: u64,
    max_frame_time: u64,
    delta_time: u64,
    exit: bool,
    input: InputTracker,
}

impl View for Context {
    type V = ContextView;

    closed spec fn view(&self) -> ContextView {
        ContextView {
            target: self.target_frame_time as nat,
            max: self.max_frame_time as nat,
            delta_time: self.delta_time as nat,
            exit: self.exit,
            input: self.input@,
        }
    }
}

impl Context {
    /// Well-formedness: the target frame time is not zero, and the input
    /// tracker is well formed.
    pub closed spec fn wf(&self) -> bool {
        &&& self.target_frame_time > 0
        &&& self.input.wf()
    }

    /// A well-formed context has a target frame time that is not zero and
    /// fits the machine word.
    pub proof fn lemma_wf(&self)
        requires
            self.wf(),
        ensures
            0 < self@.target <= u64::MAX,
    {
    }

    /// A context with the given pacing, no tick run yet and no input seen.
    pub fn new(target_frame_time: u64, max_frame_time: u64) -> (ctx: Context)
        requires
            target_frame_time > 0,
        ensures
            ctx.wf(),
            ctx@ == (ContextView {
                target: target_frame_time as nat,
                max: max_frame_time as nat,
                delta_time: 0,
                exit: false,
                input: InputView::empty(),
            }),
    {
        Context {
            target_frame_time,
            max_frame_time,
            delta_time: 0,
            exit: false,
            input: InputTracker::new(),
        }
    }

    /// Time between the previous update and this one.
    pub fn frame_time(&self) -> (time: u64)
        ensures
            time == self@.delta_time,
    {
        self.delta_time
    }

    /// The wanted time between updates; never zero.
    pub fn target_frame_time(&self) -> (time: u64)
        requires
            self.wf(),
        ensures
            time == self@.target,
            time > 0,
    {
        self.target_frame_time
    }

    /// The ceiling on the real time admitted for one frame.
    pub fn max_frame_time(&self) -> (time: u64)
        ensures
            time == self@.max,
    {
        self.max_frame_time
    }

    /// Sets the wanted time between updates. It holds from the next look at
    /// the accumulator on; time already gathered is not rescaled.
    pub fn set_target_frame_time(&mut self, time: u64)
        requires
            old(self).wf(),
            time > 0,
        ensures
            final(self).wf(),
            final(self)@ == (ContextView { target: time as nat, ..old(self)@ }),
    {
        self.target_frame_time = time;
    }

    /// Sets the ceiling on the real time admitted for one frame.
    pub fn set_max_frame_time(&mut self, time: u64)
        requires
            old(self).wf(),
        ensures
            final(self).wf(),
            final(self)@ == (ContextView { max: time as nat, ..old(self)@ }),
    {
        self.max_frame_time = time;
    }

    /// Asks the loop to end once the running update has returned.
    pub fn exit(&mut self)
        requires
            old(self).wf(),
        ensures
            final(self).wf(),
            final(self)@ == (ContextView { exit: true, ..old(self)@ }),
    {
        self.exit = true;
    }

    /// Whether the application asked to exit.
    pub fn exit_requested(&self) -> (asked: bool)
        ensures
            asked == self@.exit,
    {
        self.exit
    }

    /// The input snapshot.
    pub fn input(&self) -> (input: &InputTracker)
        requires
            self.wf(),
        ensures
            input.wf(),
            input@ == self@.input,
    {
        &self.input
    }

    /// Marks the start of a tick: it lasts one target frame time.
    pub(crate) fn begin_tick(&mut self)
        requires
            old(self).wf(),
        ensures
            final(self).wf(),
            final(self)@ == old(self)@.begin_tick(),
    {
        self.delta_time = self.target_frame_time;
    }

    /// Hands one raw event to the input tracker.
    pub(crate) fn process_input(&mut self, event: InputEvent)
        requires
            old(self).wf(),
        ensures
            final(self).wf(),
            final(self)@ == (ContextView {
                input: old(self)@.input.process(event),
                ..old(self)@
            }),
    {
        self.input.process_event(event);
    }

    /// Ends the frame for the input tracker.
    pub(crate) fn commit_input(&mut self)
        requires
            old(self).wf(),
        ensures
            final(self).wf(),
            final(self)@ == (ContextView { input: old(self)@.input.commit(), ..old(self)@ }),
    {
        self.input.commit_frame();
    }
}

} // verus!
