//! Per-frame input snapshot.
//!
//! Raw events change only what is being gathered for the coming frame. What
//! the queries answer changes at `commit_frame`, once per real frame, so a
//! query never sees half of a frame.

use crate::buttons::{Button, ButtonSet};
use vstd::prelude::*;

verus! {

/// Where a digital input stands in its cycle
/// idle, pressed, held, released, idle.
#[derive(Clone, Copy, Debug, PartialEq, Eq, Hash, Structural)]
pub enum InputState {
    /// Up, and up the frame before.
    Idle,
    /// Went down this frame.
    Pressed,
    /// Down, and down the frame before.
    Held,
    /// Went up this frame.
    Released,
}

impl InputState {
    /// The state of an input that was down or up at the last two commits.
    pub open spec fn of(was_down: bool, is_down: bool) -> InputState {
        if is_down {
            if was_down {
                InputState::Held
            } else {
                InputState::Pressed
            }
        } else {
            if was_down {
                InputState::Released
            } else {
                InputState::Idle
            }
        }
    }

    /// Whether an input in this state is down.
    pub open spec fn down(self) -> bool {
        self is Pressed || self is Held
    }

    /// The state that follows this one at a commit, given the raw signal.
    pub open spec fn next(self, signal_down: bool) -> InputState {
        InputState::of(self.down(), signal_down)
    }

    /// The input went down this frame.
    pub fn is_pressed(&self) -> (yes: bool)
        ensures
            yes == (*self is Pressed),
    {
        matches!(self, InputState::Pressed)
    }

    /// The input is down and was down the frame before.
    pub fn is_held(&self) -> (yes: bool)
        ensures
            yes == (*self is Held),
    {
        matches!(self, InputState::Held)
    }

    /// The input went up this frame.
    pub fn is_released(&self) -> (yes: bool)
        ensures
            yes == (*self is Released),
    {
        matches!(self, InputState::Released)
    }

    /// The input is down: pressed or held.
    pub fn is_any_down(&self) -> (yes: bool)
        ensures
            yes == self.down(),
    {
        matches!(self, InputState::Pressed | InputState::Held)
    }
}

/// The value of `v` brought into the range of `i64`.
pub open spec fn saturate(v: int) -> i64 {
    if v > i64::MAX {
        i64::MAX
    } else if v < i64::MIN {
        i64::MIN
    } else {
        v as i64
    }
}

/// Sum of two numbers, stopping at the ends of the range of `i64`.
pub fn saturating_sum(a: i64, b: i64) -> (sum: i64)
    ensures
        sum == saturate(a + b),
{
    match a.checked_add(b) {
        Some(sum) => sum,
        None => if b > 0 {
            i64::MAX
        } else {
            i64::MIN
        },
    }
}

/// A position or a displacement in whole units.
#[derive(Clone, Copy, Debug, PartialEq, Eq, Hash, Structural)]
pub struct Vec2 {
    /// Horizontal part.
    pub x: i64,
    /// Vertical part.
    pub y: i64,
}

impl Vec2 {
    /// The origin, or no displacement.
    pub open spec fn zero() -> Vec2 {
        Vec2 { x: 0, y: 0 }
    }

    /// Sum by parts, each stopping at the ends of the range of `i64`.
    pub open spec fn plus(self, other: Vec2) -> Vec2 {
        Vec2 { x: saturate(self.x + other.x), y: saturate(self.y + other.y) }
    }

    /// Sum by parts, each stopping at the ends of the range of `i64`.
    pub fn saturating_add(self, other: Vec2) -> (sum: Vec2)
        ensures
            sum == self.plus(other),
    {
        Vec2 { x: saturating_sum(self.x, other.x), y: saturating_sum(self.y, other.y) }
    }
}

/// Keyboard modifiers: which of them are down.
#[derive(Clone, Copy, Debug, PartialEq, Eq, Hash, Structural)]
pub struct KeyMods {
    /// Left "shift" key.
    pub lshift: bool,
    /// Right "shift" key.
    pub rshift: bool,
    /// Left "alt" key.
    pub lalt: bool,
    /// Right "alt" key.
    pub ralt: bool,
    /// Left "control" key.
    pub lcontrol: bool,
    /// Right "control" key.
    pub rcontrol: bool,
    /// Left "super" key.
    pub lsuper: bool,
    /// Right "super" key.
    pub rsuper: bool,
}

impl KeyMods {
    /// No modifier down.
    pub open spec fn none() -> KeyMods {
        KeyMods {
            lshift: false,
            rshift: false,
            lalt: false,
            ralt: false,
            lcontrol: false,
            rcontrol: false,
            lsuper: false,
            rsuper: false,
        }
    }

    /// No modifier down.
    pub fn released() -> (mods: KeyMods)
        ensures
            mods == KeyMods::none(),
    {
        KeyMods {
            lshift: false,
            rshift: false,
            lalt: false,
            ralt: false,
            lcontrol: false,
            rcontrol: false,
            lsuper: false,
            rsuper: false,
        }
    }
}

/// One raw input event.
#[derive(Clone, Copy, Debug, PartialEq, Eq, Hash, Structural)]
pub enum InputEvent {
    /// A key went down or up. The platform names it twice, by its place on
    /// the keyboard and by its meaning, and either name may be unidentified.
    /// It also says whether the event repeats a key that is held down, and
    /// whether the platform made the event up rather than saw it.
    Key { physical: Button, logical: Button, pressed: bool, repeat: bool, synthetic: bool },
    /// A button went down.
    Pressed(Button),
    /// A button went up.
    Released(Button),
    /// The cursor is at this position.
    CursorMoved(Vec2),
    /// The wheel scrolled by this much.
    Scrolled(Vec2),
    /// The pointing device moved by this much.
    Moved(Vec2),
    /// The keyboard modifiers are now these.
    ModifiersChanged(KeyMods),
}

/// Mathematical state of an [`InputTracker`].
pub struct InputView {
    /// Inputs that are down by the raw signal.
    pub down: Set<Button>,
    /// Inputs that were down at the last commit.
    pub current: Set<Button>,
    /// Inputs that were down at the commit before the last.
    pub previous: Set<Button>,
    /// Where the cursor was last reported.
    pub cursor_pending: Vec2,
    /// Where the cursor was at the last commit.
    pub cursor: Vec2,
    /// Scroll gathered since the last commit.
    pub scroll_pending: Vec2,
    /// Scroll of the frame that ended at the last commit.
    pub scroll: Vec2,
    /// Motion gathered since the last commit.
    pub motion_pending: Vec2,
    /// Motion of the frame that ended at the last commit.
    pub motion: Vec2,
    /// Modifiers as last reported.
    pub mods_pending: KeyMods,
    /// Modifiers at the last commit.
    pub mods: KeyMods,
}

impl InputView {
    /// Nothing down, nothing moved.
    pub open spec fn empty() -> InputView {
        InputView {
            down: Set::empty(),
            current: Set::empty(),
            previous: Set::empty(),
            cursor_pending: Vec2::zero(),
            cursor: Vec2::zero(),
            scroll_pending: Vec2::zero(),
            scroll: Vec2::zero(),
            motion_pending: Vec2::zero(),
            motion: Vec2::zero(),
            mods_pending: KeyMods::none(),
            mods: KeyMods::none(),
        }
    }

    /// What the queries report for `button`.
    pub open spec fn state(self, button: Button) -> InputState {
        InputState::of(self.previous.contains(button), self.current.contains(button))
    }

    /// The state after the raw signal of `button` went down or up. An
    /// unidentified button changes nothing.
    pub open spec fn signal(self, button: Button, pressed: bool) -> InputView {
        if !button.known() {
            self
        } else if pressed {
            InputView { down: self.down.insert(button), ..self }
        } else {
            InputView { down: self.down.remove(button), ..self }
        }
    }

    /// The state after one raw event. Only what is being gathered changes.
    /// A key event counts for both names of the key, unless it is a repeat
    /// or made up by the platform: then it changes nothing.
    pub open spec fn process(self, event: InputEvent) -> InputView {
        match event {
            InputEvent::Key { physical, logical, pressed, repeat, synthetic } => if repeat
                || synthetic {
                self
            } else {
                self.signal(physical, pressed).signal(logical, pressed)
            },
            InputEvent::Pressed(button) => self.signal(button, true),
            InputEvent::Released(button) => self.signal(button, false),
            InputEvent::CursorMoved(position) => InputView { cursor_pending: position, ..self },
            InputEvent::Scrolled(delta) => InputView {
                scroll_pending: self.scroll_pending.plus(delta),
                ..self
            },
            InputEvent::Moved(delta) => InputView {
                motion_pending: self.motion_pending.plus(delta),
                ..self
            },
            InputEvent::ModifiersChanged(mods) => InputView { mods_pending: mods, ..self },
        }
    }

    /// The state after the frame boundary: what was gathered becomes what
    /// the queries report, and gathering of scroll and motion starts anew.
    pub open spec fn commit(self) -> InputView {
        InputView {
            down: self.down,
            current: self.down,
            previous: self.current,
            cursor_pending: self.cursor_pending,
            cursor: self.cursor_pending,
            scroll_pending: Vec2::zero(),
            scroll: self.scroll_pending,
            motion_pending: Vec2::zero(),
            motion: self.motion_pending,
            mods_pending: self.mods_pending,
            mods: self.mods_pending,
        }
    }
}

/// Raw events never change what the queries report.
pub proof fn lemma_events_wait_for_commit(s: InputView, event: InputEvent, button: Button)
    ensures
        s.process(event).state(button) == s.state(button),
        s.process(event).cursor == s.cursor,
        s.process(event).scroll == s.scroll,
        s.process(event).motion == s.motion,
        s.process(event).mods == s.mods,
{
}

/// A commit moves every input one step along its cycle, by the raw signal.
pub proof fn lemma_commit_steps_cycle(s: InputView, button: Button)
    ensures
        s.commit().state(button) == s.state(button).next(s.down.contains(button)),
{
}

/// A key that the platform could not identify changes nothing, and neither
/// does a key event that is a repeat or made up by the platform.
pub proof fn lemma_unidentified_is_ignored(s: InputView, event: InputEvent)
    requires
        match event {
            InputEvent::Key { physical, logical, pressed, repeat, synthetic } => repeat
                || synthetic || (!physical.known() && !logical.known()),
            InputEvent::Pressed(button) => !button.known(),
            InputEvent::Released(button) => !button.known(),
            _ => false,
        },
    ensures
        s.process(event) == s,
{
}

/// Releasing an input that is not down changes nothing.
pub proof fn lemma_release_twice(s: InputView, button: Button)
    requires
        !s.down.contains(button),
    ensures
        s.process(InputEvent::Released(button)) == s,
{
    assert(s.down.remove(button) =~= s.down);
}

/// An input that was up at the last commit and is then pressed is reported
/// pressed after the next commit and held after the one after that. Released
/// then, it is reported released after one commit and idle after every
/// commit that follows.
pub proof fn lemma_press_hold_release(s: InputView, button: Button)
    requires
        button.known(),
        !s.current.contains(button),
    ensures
        ({
            let pressed = s.process(InputEvent::Pressed(button)).commit();
            let held = pressed.commit();
            let released = held.process(InputEvent::Released(button)).commit();
            let idle = released.commit();
            &&& pressed.state(button) == InputState::Pressed
            &&& held.state(button) == InputState::Held
            &&& released.state(button) == InputState::Released
            &&& idle.state(button) == InputState::Idle
            &&& idle.commit().state(button) == InputState::Idle
        }),
{
}

/// Tracker of keys, buttons, cursor, scroll and motion.
pub struct InputTracker {
    down: ButtonSet,
    current: ButtonSet,
    previous: ButtonSet,
    cursor_pending: Vec2,
    cursor: Vec2,
    scroll_pending: Vec2,
    scroll: Vec2,
    motion_pending: Vec2,
    motion: Vec2,
    mods_pending: KeyMods,
    mods: KeyMods,
}

impl View for InputTracker {
    type V = InputView;

    closed spec fn view(&self) -> InputView {
        InputView {
            down: self.down@,
            current: self.current@,
            previous: self.previous@,
            cursor_pending: self.cursor_pending,
            cursor: self.cursor,
            scroll_pending: self.scroll_pending,
            scroll: self.scroll,
            motion_pending: self.motion_pending,
            motion: self.motion,
            mods_pending: self.mods_pending,
            mods: self.mods,
        }
    }
}

impl InputTracker {
    /// Well-formedness of the three sets the tracker keeps.
    pub closed spec fn wf(&self) -> bool {
        &&& self.down.wf()
        &&& self.current.wf()
        &&& self.previous.wf()
    }

    /// A tracker with nothing down and nothing moved.
    pub fn new() -> (tracker: InputTracker)
        ensures
            tracker.wf(),
            tracker@ == InputView::empty(),
    {
        let origin = Vec2 { x: 0, y: 0 };
        InputTracker {
            down: ButtonSet::new(),
            current: ButtonSet::new(),
            previous: ButtonSet::new(),
            cursor_pending: origin,
            cursor: origin,
            scroll_pending: origin,
            scroll: origin,
            motion_pending: origin,
            motion: origin,
            mods_pending: KeyMods::released(),
            mods: KeyMods::released(),
        }
    }

    /// Takes in the raw signal of one button.
    fn signal(&mut self, button: Button, pressed: bool)
        requires
            old(self).wf(),
        ensures
            final(self).wf(),
            final(self)@ == old(self)@.signal(button, pressed),
    {
        if button.is_known() {
            if pressed {
                self.down.insert(button);
            } else {
                self.down.remove(button);
            }
        }
    }

    /// Takes in the raw signal of a key under both of its names.
    fn key_signal(&mut self, physical: Button, logical: Button, pressed: bool)
        requires
            old(self).wf(),
        ensures
            final(self).wf(),
            final(self)@ == old(self)@.signal(physical, pressed).signal(logical, pressed),
    {
        self.signal(physical, pressed);
        self.signal(logical, pressed);
    }

    /// Takes in one raw event.
    pub fn process_event(&mut self, event: InputEvent)
        requires
            old(self).wf(),
        ensures
            final(self).wf(),
            final(self)@ == old(self)@.process(event),
    {
        match event {
            InputEvent::Key { physical, logical, pressed, repeat, synthetic } => {
                if !repeat && !synthetic {
                    self.key_signal(physical, logical, pressed);
                }
            },
            InputEvent::Pressed(button) => {
                self.signal(button, true);
            },
            InputEvent::Released(button) => {
                self.signal(button, false);
            },
            _ => {
                self.gather(event);
            },
        }
    }

    /// Takes in one raw event that tells of no key or button.
    fn gather(&mut self, event: InputEvent)
        requires
            old(self).wf(),
            !(event is Key),
            !(event is Pressed),
            !(event is Released),
        ensures
            final(self).wf(),
            final(self)@ == old(self)@.process(event),
    {
        match event {
            InputEvent::CursorMoved(position) => {
                self.cursor_pending = position;
            },
            InputEvent::Scrolled(delta) => {
                self.scroll_pending = self.scroll_pending.saturating_add(delta);
            },
            InputEvent::Moved(delta) => {
                self.motion_pending = self.motion_pending.saturating_add(delta);
            },
            InputEvent::ModifiersChanged(mods) => {
                self.mods_pending = mods;
            },
            _ => {},
        }
    }

    /// Ends the frame: what was gathered becomes what the queries report.
    pub fn commit_frame(&mut self)
        requires
            old(self).wf(),
        ensures
            final(self).wf(),
            final(self)@ == old(self)@.commit(),
    {
        let origin = Vec2 { x: 0, y: 0 };
        core::mem::swap(&mut self.previous, &mut self.current);
        self.current = self.down.snapshot();
        self.cursor = self.cursor_pending;
        self.scroll = self.scroll_pending;
        self.scroll_pending = origin;
        self.motion = self.motion_pending;
        self.motion_pending = origin;
        self.mods = self.mods_pending;
    }

    /// Where `button` stands in its cycle, as of the last commit.
    pub fn state(&self, button: Button) -> (state: InputState)
        ensures
            state == self@.state(button),
    {
        let is_down = self.current.contains(button);
        let was_down = self.previous.contains(button);
        if is_down {
            if was_down {
                InputState::Held
            } else {
                InputState::Pressed
            }
        } else {
            if was_down {
                InputState::Released
            } else {
                InputState::Idle
            }
        }
    }

    /// Whether `button` went down in the frame that ended at the last commit.
    pub fn is_pressed(&self, button: Button) -> (yes: bool)
        ensures
            yes == (self@.state(button) is Pressed),
    {
        self.state(button).is_pressed()
    }

    /// Whether `button` was down at the last commit and at the one before.
    pub fn is_held(&self, button: Button) -> (yes: bool)
        ensures
            yes == (self@.state(button) is Held),
    {
        self.state(button).is_held()
    }

    /// Whether `button` went up in the frame that ended at the last commit.
    pub fn is_released(&self, button: Button) -> (yes: bool)
        ensures
            yes == (self@.state(button) is Released),
    {
        self.state(button).is_released()
    }

    /// Whether `button` was down at the last commit.
    pub fn is_down(&self, button: Button) -> (yes: bool)
        ensures
            yes == self@.current.contains(button),
            yes == self@.state(button).down(),
    {
        self.current.contains(button)
    }

    /// Where the cursor was at the last commit.
    pub fn cursor_position(&self) -> (position: Vec2)
        ensures
            position == self@.cursor,
    {
        self.cursor
    }

    /// Scroll of the frame that ended at the last commit.
    pub fn scroll_delta(&self) -> (delta: Vec2)
        ensures
            delta == self@.scroll,
    {
        self.scroll
    }

    /// Motion of the frame that ended at the last commit.
    pub fn motion_delta(&self) -> (delta: Vec2)
        ensures
            delta == self@.motion,
    {
        self.motion
    }

    /// Keyboard modifiers at the last commit.
    pub fn key_mods(&self) -> (mods: KeyMods)
        ensures
            mods == self@.mods,
    {
        self.mods
    }
}

} // verus!
