//! The application's side of the loop, and the calls into it.

use crate::context::Context;
use crate::driver::{lemma_blend_parts, Action, Event, LoopDriver, Phase, Signal};
use crate::error::Error;
use crate::pacer::Blend;
use vstd::prelude::*;

verus! {

/// Application trait.
pub trait App {
    /// What render draws on.
    type Surface;

    /// The platform's own form of an event, as `handle` gets to see it.
    type RawEvent;

    /// Application update.
    /// Rate of updates can be set using [`Context`].
    ///
    /// An implementation has to leave the context well formed, which comes
    /// to this: it never sets a target frame time of zero. It also has to
    /// leave the input snapshot as it found it: an update reads the input,
    /// the loop alone moves it on. The loop relies on both and cannot check
    /// them.
    fn update(&mut self, ctx: &mut Context) -> (result: Result<(), Error>)
        requires
            old(ctx).wf(),
        ensures
            final(ctx).wf(),
            final(ctx)@.input == old(ctx)@.input,
    ;

    /// Application render.
    /// Will be called once every frame.
    fn render(&mut self, surface: &mut Self::Surface, blend: Blend) -> (result: Result<(), Error>);

    /// Custom event handler if needed. It sees every platform event before
    /// the loop does.
    ///
    /// An application that brings no handler of its own gets this one, which
    /// accepts every event and leaves the application as it is.
    fn handle(&mut self, event: &Self::RawEvent) -> (result: Result<(), Error>)
        default_ensures
            result is Ok,
            &*final(self) == &*old(self),
    {
        Ok(())
    }
}

impl LoopDriver {
    /// Shows one platform event to the application's handler, then to the
    /// driver: `raw` is the event as the platform gave it, `event` what it
    /// means to the driver. The handler sees every event, also those that
    /// come after the loop has ended, so it decides on every input whether
    /// the call succeeds; the driver goes by what the handler answered.
    pub fn handle_event<A: App>(&mut self, app: &mut A, raw: &A::RawEvent, event: Event) -> (result:
        Result<Action, Error>)
        requires
            old(self).wf(),
        ensures
            final(self).wf(),
            match result {
                Ok(action) => (final(self)@, action) == old(self)@.step(
                    Signal::Event { event, handled: true },
                ),
                Err(_) => (final(self)@, Action::Exit) == old(self)@.step(
                    Signal::Event { event, handled: false },
                ),
            },
    {
        match app.handle(raw) {
            Ok(()) => Ok(self.step(Signal::Event { event, handled: true })),
            Err(error) => {
                self.step(Signal::Event { event, handled: false });
                Err(error)
            },
        }
    }

    /// Runs the updates of the frame: calls the application's update once
    /// for every tick that is due, and stops at the first that fails or asks
    /// to exit. Where no update is due, nothing is called.
    ///
    /// What the updates do to the pacing settings is theirs to decide, so
    /// the contract says what holds whatever they did. Either the loop has
    /// ended, on a failure or on a request to exit, and the input frame is
    /// not committed. Or the render step has begun with no tick left to run
    /// and the input frame committed once: with the resize that waited, or
    /// with render if none did.
    pub fn run_updates<A: App>(&mut self, app: &mut A) -> (result: Result<Action, Error>)
        requires
            old(self).wf(),
        ensures
            final(self).wf(),
            final(self)@.window == old(self)@.window,
            final(self)@.surface == old(self)@.surface,
            final(self)@.pending_resize == old(self)@.pending_resize,
            final(self)@.pacer.accumulated <= old(self)@.pacer.accumulated,
            !(old(self)@.phase is Ticking) ==> final(self)@ == old(self)@ && result == Ok::<
                Action,
                Error,
            >(old(self)@.step(Signal::Updated { ok: true }).1),
            old(self)@.phase is Ticking ==> match result {
                Err(_) => {
                    &&& final(self)@.phase is Stopped
                    &&& final(self)@.context.input == old(self)@.context.input
                },
                Ok(Action::Exit) => {
                    &&& final(self)@.phase is Stopped
                    &&& final(self)@.context.exit
                    &&& final(self)@.context.input == old(self)@.context.input
                },
                Ok(Action::Resize(size)) => {
                    &&& final(self)@.phase == Phase::Resizing(size)
                    &&& old(self)@.pending_resize == Some(size)
                    &&& !final(self)@.pacer.tick_due()
                    &&& final(self)@.context.input == old(self)@.context.input.commit()
                },
                Ok(Action::Render(blend)) => {
                    &&& final(self)@.phase is Rendering
                    &&& old(self)@.pending_resize is None
                    &&& !final(self)@.pacer.tick_due()
                    &&& blend == final(self)@.blend()
                    &&& blend.numerator <= blend.denominator
                    &&& final(self)@.context.input == old(self)@.context.input.commit()
                },
                Ok(_) => false,
            },
    {
        if !matches!(self.phase(), Phase::Ticking) {
            return Ok(self.step(Signal::Updated { ok: true }));
        }
        let mut action = Action::Update;
        let mut failure: Option<Error> = None;
        while action == Action::Update
            invariant
                self.wf(),
                self@.window == old(self)@.window,
                self@.surface == old(self)@.surface,
                self@.pending_resize == old(self)@.pending_resize,
                self@.pacer.accumulated <= old(self)@.pacer.accumulated,
                failure is Some ==> action is Exit,
                match action {
                    Action::Update => {
                        &&& self@.phase is Ticking
                        &&& self@.context.input == old(self)@.context.input
                    },
                    Action::Exit => {
                        &&& self@.phase is Stopped
                        &&& failure is None ==> self@.context.exit
                        &&& self@.context.input == old(self)@.context.input
                    },
                    Action::Resize(size) => {
                        &&& self@.phase == Phase::Resizing(size)
                        &&& self@.pending_resize == Some(size)
                        &&& !self@.pacer.tick_due()
                        &&& self@.context.input == old(self)@.context.input.commit()
                    },
                    Action::Render(blend) => {
                        &&& self@.phase is Rendering
                        &&& self@.pending_resize is None
                        &&& !self@.pacer.tick_due()
                        &&& blend == self@.blend()
                        &&& blend.numerator <= blend.denominator
                        &&& self@.context.input == old(self)@.context.input.commit()
                    },
                    _ => false,
                },
            decreases
                    if action is Update {
                        self@.pacer.accumulated
                    } else {
                        0
                    },
        {
            proof {
                self.lemma_wf();
            }
            let outcome = app.update(self.context_mut());
            proof {
                self.lemma_wf();
            }
            match outcome {
                Ok(()) => {
                    action = self.step(Signal::Updated { ok: true });
                    proof {
                        self.lemma_wf();
                        lemma_blend_parts(self@);
                    }
                },
                Err(error) => {
                    action = self.step(Signal::Updated { ok: false });
                    failure = Some(error);
                },
            }
        }
        match failure {
            Some(error) => Err(error),
            None => Ok(action),
        }
    }

    /// Calls the application's render with the blending factor of the
    /// frame, if the driver waits for it; else nothing is called.
    pub fn render<A: App>(&mut self, app: &mut A, surface: &mut A::Surface) -> (result: Result<
        Action,
        Error,
    >)
        requires
            old(self).wf(),
        ensures
            final(self).wf(),
            match result {
                Ok(action) => (final(self)@, action) == old(self)@.step(
                    Signal::Rendered { ok: true },
                ),
                Err(_) => old(self)@.phase is Rendering && (final(self)@, Action::Exit) == old(
                    self,
                )@.step(Signal::Rendered { ok: false }),
            },
    {
        if !matches!(self.phase(), Phase::Rendering) {
            return Ok(self.step(Signal::Rendered { ok: true }));
        }
        match app.render(surface, self.blending()) {
            Ok(()) => Ok(self.step(Signal::Rendered { ok: true })),
            Err(error) => {
                self.step(Signal::Rendered { ok: false });
                Err(error)
            },
        }
    }
}

} // verus!
