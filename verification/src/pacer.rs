//! Fixed-timestep frame pacing: real frame times go into an accumulator and
//! come out as update ticks of one constant size.
//!
//! All times are whole nanoseconds.

use vstd::prelude::*;

verus! {

/// Largest time the accumulator can hold; sums beyond it stop here.
pub open spec fn time_limit() -> nat {
    u64::MAX as nat
}

/// Mathematical state of a [`FramePacer`].
pub struct PacerState {
    /// Size of one update tick.
    pub target: nat,
    /// Ceiling on the real time admitted for one frame.
    pub max: nat,
    /// Real time not yet consumed by a tick.
    pub accumulated: nat,
}

impl PacerState {
    /// The part of `elapsed` that is admitted: at most `max`.
    pub open spec fn admitted(self, elapsed: nat) -> nat {
        if elapsed > self.max {
            self.max
        } else {
            elapsed
        }
    }

    /// The state after a frame of `elapsed` real time was taken in.
    pub open spec fn accumulate(self, elapsed: nat) -> PacerState {
        let sum = self.accumulated + self.admitted(elapsed);
        PacerState { accumulated: if sum > time_limit() { time_limit() } else { sum }, ..self }
    }

    /// Whether the accumulator holds more than one tick.
    pub open spec fn tick_due(self) -> bool {
        self.accumulated > self.target
    }

    /// The state after one tick was taken out of the accumulator.
    pub open spec fn consume_tick(self) -> PacerState {
        PacerState {
            accumulated: if self.accumulated >= self.target {
                (self.accumulated - self.target) as nat
            } else {
                0
            },
            ..self
        }
    }

    /// How many ticks come out before no tick is due any more.
    pub open spec fn ticks_due(self) -> nat
        recommends
            self.target > 0,
    {
        if self.accumulated == 0 {
            0
        } else {
            ((self.accumulated - 1) / (self.target as int)) as nat
        }
    }

    /// The state once every due tick was taken out.
    pub open spec fn drained(self) -> PacerState
        recommends
            self.target > 0,
    {
        PacerState {
            accumulated: (self.accumulated - self.ticks_due() * self.target) as nat,
            ..self
        }
    }

    /// The state after a whole frame: `elapsed` taken in, due ticks taken out.
    pub open spec fn advance(self, elapsed: nat) -> PacerState
        recommends
            self.target > 0,
    {
        self.accumulate(elapsed).drained()
    }

    /// How many ticks a frame of `elapsed` real time emits.
    pub open spec fn ticks_for(self, elapsed: nat) -> nat
        recommends
            self.target > 0,
    {
        self.accumulate(elapsed).ticks_due()
    }

    /// The state after the frames of `frames` ran one after the other.
    pub open spec fn advance_all(self, frames: Seq<nat>) -> PacerState
        recommends
            self.target > 0,
        decreases frames.len(),
    {
        if frames.len() == 0 {
            self
        } else {
            self.advance_all(frames.drop_last()).advance(frames.last())
        }
    }

    /// How many ticks the frames of `frames` emit together.
    pub open spec fn ticks_for_all(self, frames: Seq<nat>) -> nat
        recommends
            self.target > 0,
        decreases frames.len(),
    {
        if frames.len() == 0 {
            0
        } else {
            self.ticks_for_all(frames.drop_last()) + self.advance_all(
                frames.drop_last(),
            ).ticks_for(frames.last())
        }
    }

    /// The real time admitted over the frames of `frames`.
    pub open spec fn admitted_total(self, frames: Seq<nat>) -> nat
        decreases frames.len(),
    {
        if frames.len() == 0 {
            0
        } else {
            self.admitted_total(frames.drop_last()) + self.admitted(frames.last())
        }
    }
}

/// How far render is into the tick that has not run yet: the leftover of the
/// accumulator over the size of a tick.
#[derive(Clone, Copy, Debug, PartialEq, Eq, Hash, Structural)]
pub struct Blend {
    /// Leftover of the accumulator.
    pub numerator: u64,
    /// Size of one tick; never zero.
    pub denominator: u64,
}

/// Taking one due tick out lowers the count of due ticks by one.
pub proof fn lemma_tick_step(s: PacerState)
    requires
        s.target > 0,
        s.tick_due(),
    ensures
        s.ticks_due() == s.consume_tick().ticks_due() + 1,
        s.consume_tick().accumulated == s.accumulated - s.target,
        s.consume_tick().drained() == s.drained(),
{
    let a = s.accumulated as int;
    let t = s.target as int;
    let k = s.consume_tick().ticks_due() as int;
    assert((k + 1) * t == k * t + t) by (nonlinear_arith);
    assert((a - 1) / t == (a - t - 1) / t + 1) by (nonlinear_arith)
        requires
            t > 0,
            a > t,
    ;
    assert((a - t - 1) / t >= 0) by (nonlinear_arith)
        requires
            t > 0,
            a > t,
    ;
}

/// With no tick due, the count of due ticks is zero.
pub proof fn lemma_no_tick(s: PacerState)
    requires
        s.target > 0,
        !s.tick_due(),
    ensures
        s.ticks_due() == 0,
        s.drained() == s,
{
    let a = s.accumulated as int;
    let t = s.target as int;
    if a > 0 {
        assert((a - 1) / t == 0) by (nonlinear_arith)
            requires
                t > 0,
                0 < a <= t,
        ;
    }
}

/// Draining leaves at most one tick in the accumulator and no tick due. A
/// whole tick is left exactly when the accumulator held a positive multiple
/// of the tick size.
pub proof fn lemma_drained_within_tick(s: PacerState)
    requires
        s.target > 0,
    ensures
        !s.drained().tick_due(),
        s.drained().accumulated <= s.target,
        s.ticks_due() * s.target + s.drained().accumulated == s.accumulated,
        s.drained().accumulated == s.target <==> s.accumulated > 0 && s.accumulated % s.target
            == 0,
{
    let a = s.accumulated as int;
    let t = s.target as int;
    let k = s.ticks_due() as int;
    if a > 0 {
        assert(k * t <= a - 1 < k * t + t && k >= 0) by (nonlinear_arith)
            requires
                t > 0,
                a > 0,
                k == (a - 1) / t,
        ;
        assert(a - k * t == t <==> a % t == 0) by (nonlinear_arith)
            requires
                t > 0,
                k * t <= a - 1 < k * t + t,
        ;
    } else {
        assert(0int % t == 0) by (nonlinear_arith)
            requires
                t > 0,
        ;
    }
}

/// One frame conserves time: the ticks it emits, each one tick long, and the
/// leftover in the accumulator add up to the earlier leftover and the time
/// admitted, as long as that sum stays within the time limit.
pub proof fn lemma_frame_conserves_time(s: PacerState, elapsed: nat)
    requires
        s.target > 0,
        s.accumulated + s.admitted(elapsed) <= time_limit(),
    ensures
        s.ticks_for(elapsed) * s.target + s.advance(elapsed).accumulated == s.accumulated
            + s.admitted(elapsed),
        s.advance(elapsed).target == s.target,
        s.advance(elapsed).max == s.max,
        s.advance(elapsed).accumulated <= s.accumulated + s.admitted(elapsed),
{
    lemma_drained_within_tick(s.accumulate(elapsed));
}

/// Conservation over any run of frames at one tick size: the number of ticks
/// emitted times the tick size, plus the final leftover, is the leftover at
/// the start plus all the time admitted, as long as that sum stays within the
/// time limit.
pub proof fn lemma_time_is_conserved(s: PacerState, frames: Seq<nat>)
    requires
        s.target > 0,
        s.accumulated + s.admitted_total(frames) <= time_limit(),
    ensures
        s.ticks_for_all(frames) * s.target + s.advance_all(frames).accumulated == s.accumulated
            + s.admitted_total(frames),
        s.advance_all(frames).target == s.target,
        s.advance_all(frames).max == s.max,
    decreases frames.len(),
{
    if frames.len() > 0 {
        let before = frames.drop_last();
        let mid = s.advance_all(before);
        assert(s.admitted_total(frames) == s.admitted_total(before) + s.admitted(
            frames.last(),
        ));
        lemma_time_is_conserved(s, before);
        lemma_frame_conserves_time(mid, frames.last());
        let k1 = s.ticks_for_all(before) as int;
        let k2 = mid.ticks_for(frames.last()) as int;
        let t = s.target as int;
        assert((k1 + k2) * t == k1 * t + k2 * t) by (nonlinear_arith);
    } else {
        assert(s.ticks_for_all(frames) == 0);
    }
}

/// After a whole frame the leftover is at most one tick, and less than one
/// tick unless the accumulator held a positive multiple of the tick size when
/// the ticks began.
pub proof fn lemma_leftover_within_tick(s: PacerState, elapsed: nat)
    requires
        s.target > 0,
    ensures
        s.advance(elapsed).accumulated <= s.target,
        s.accumulate(elapsed).accumulated % s.target != 0 ==> s.advance(elapsed).accumulated
            < s.target,
        s.accumulate(elapsed).accumulated == 0 ==> s.advance(elapsed).accumulated == 0,
{
    lemma_drained_within_tick(s.accumulate(elapsed));
}

/// Real time beyond the ceiling changes nothing: a frame longer than `max`
/// runs as a frame of exactly `max`.
pub proof fn lemma_excess_is_clamped(s: PacerState, elapsed: nat)
    requires
        elapsed >= s.max,
    ensures
        s.accumulate(elapsed) == s.accumulate(s.max),
        s.ticks_for(elapsed) == s.ticks_for(s.max),
        s.advance(elapsed) == s.advance(s.max),
{
}

/// Fixed-timestep scheduler.
pub struct FramePacer {
    target_frame_time: u64,
    max_frame_time: u64,
    accumulated_time: u64,
}

impl View for FramePacer {
    type V = PacerState;

    closed spec fn view(&self) -> PacerState {
        PacerState {
            target: self.target_frame_time as nat,
            max: self.max_frame_time as nat,
            accumulated: self.accumulated_time as nat,
        }
    }
}

impl FramePacer {
    #[verifier::type_invariant]
    closed spec fn positive_tick(self) -> bool {
        self.target_frame_time > 0
    }

    /// A pacer with an empty accumulator.
    pub fn new(target_frame_time: u64, max_frame_time: u64) -> (pacer: FramePacer)
        requires
            target_frame_time > 0,
        ensures
            pacer@ == (PacerState {
                target: target_frame_time as nat,
                max: max_frame_time as nat,
                accumulated: 0,
            }),
    {
        FramePacer { target_frame_time, max_frame_time, accumulated_time: 0 }
    }

    /// Size of one update tick; never zero.
    pub fn target_frame_time(&self) -> (time: u64)
        ensures
            time == self@.target,
            time > 0,
    {
        proof {
            use_type_invariant(self);
        }
        self.target_frame_time
    }

    /// Ceiling on the real time admitted for one frame.
    pub fn max_frame_time(&self) -> (time: u64)
        ensures
            time == self@.max,
    {
        self.max_frame_time
    }

    /// Real time not yet consumed by a tick.
    pub fn accumulated_time(&self) -> (time: u64)
        ensures
            time == self@.accumulated,
    {
        self.accumulated_time
    }

    /// Changes the tick size. Time already accumulated is not rescaled.
    pub fn set_target_frame_time(&mut self, time: u64)
        requires
            time > 0,
        ensures
            final(self)@ == (PacerState { target: time as nat, ..old(self)@ }),
    {
        self.target_frame_time = time;
    }

    /// Changes the ceiling on the real time admitted for one frame.
    pub fn set_max_frame_time(&mut self, time: u64)
        ensures
            final(self)@ == (PacerState { max: time as nat, ..old(self)@ }),
    {
        proof {
            use_type_invariant(&*self);
        }
        self.max_frame_time = time;
    }

    /// Whether the accumulator holds more than one tick.
    pub fn tick_due(&self) -> (due: bool)
        ensures
            due == self@.tick_due(),
    {
        self.accumulated_time > self.target_frame_time
    }

    /// Takes one tick out of the accumulator, or empties it where it holds
    /// less than one tick.
    pub fn consume_tick(&mut self)
        ensures
            final(self)@ == old(self)@.consume_tick(),
    {
        proof {
            use_type_invariant(&*self);
        }
        self.accumulated_time = self.accumulated_time.saturating_sub(self.target_frame_time);
    }

    /// Emits one tick if one is due, and says whether it did.
    pub fn tick(&mut self) -> (fired: bool)
        ensures
            fired == old(self)@.tick_due(),
            final(self)@ == if fired {
                old(self)@.consume_tick()
            } else {
                old(self)@
            },
    {
        if self.tick_due() {
            self.consume_tick();
            true
        } else {
            false
        }
    }

    /// The leftover of the accumulator over the tick size. Once no tick is
    /// due the numerator is at most the denominator.
    pub fn blending(&self) -> (blend: Blend)
        ensures
            blend.numerator == self@.accumulated,
            blend.denominator == self@.target,
            blend.denominator > 0,
            !self@.tick_due() ==> blend.numerator <= blend.denominator,
    {
        proof {
            use_type_invariant(self);
        }
        Blend { numerator: self.accumulated_time, denominator: self.target_frame_time }
    }

    /// Takes in the real time of one frame, cut down to the ceiling.
    pub fn accumulate(&mut self, elapsed: u64)
        ensures
            final(self)@ == old(self)@.accumulate(elapsed as nat),
            final(self)@.accumulated <= old(self)@.accumulated + old(self)@.max,
    {
        proof {
            use_type_invariant(&*self);
        }
        let admitted: u64 = if elapsed > self.max_frame_time {
            self.max_frame_time
        } else {
            elapsed
        };
        self.accumulated_time = self.accumulated_time.saturating_add(admitted);
    }

    /// Runs a whole frame and returns the number of ticks it emits.
    pub fn advance(&mut self, elapsed: u64) -> (ticks: u64)
        ensures
            ticks == old(self)@.ticks_for(elapsed as nat),
            final(self)@ == old(self)@.advance(elapsed as nat),
            final(self)@.accumulated <= final(self)@.target,
    {
        proof {
            use_type_invariant(&*self);
        }
        self.accumulate(elapsed);
        let ghost start = self@;
        let mut ticks: u64 = 0;
        while self.accumulated_time > self.target_frame_time
            invariant
                self.target_frame_time > 0,
                start.accumulated <= u64::MAX,
                self@.target == start.target,
                self@.max == start.max,
                ticks + self@.ticks_due() == start.ticks_due(),
                ticks + self@.accumulated <= start.accumulated,
                self@.drained() == start.drained(),
            decreases self.accumulated_time,
        {
            proof {
                lemma_tick_step(self@);
            }
            self.accumulated_time = self.accumulated_time - self.target_frame_time;
            ticks = ticks + 1;
        }
        proof {
            lemma_no_tick(self@);
        }
        ticks
    }
}

} // verus!
