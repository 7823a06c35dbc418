use pix_win_loop::{
    Action, App, Blend, Button, Context, Error, Event, InputEvent, InputState, LoopDriver, Phase,
    Signal, Size, WindowEvent,
};

const MS: u64 = 1_000_000;
const WINDOW: u64 = 9;
const K: Button = Button::Key(30);

/// Counts the calls it gets and fails where it is told to.
struct Recorder {
    updates: u32,
    renders: u32,
    handled: u32,
    fail_update_at: Option<u32>,
    exit_at: Option<u32>,
    new_target_at: Option<(u32, u64)>,
    fail_render: bool,
    fail_handle: bool,
    frame_times: Vec<u64>,
    blends: Vec<Blend>,
    seen_pressed: Vec<bool>,
}

impl Recorder {
    fn new() -> Recorder {
        Recorder {
            updates: 0,
            renders: 0,
            handled: 0,
            fail_update_at: None,
            exit_at: None,
            new_target_at: None,
            fail_render: false,
            fail_handle: false,
            frame_times: Vec::new(),
            blends: Vec::new(),
            seen_pressed: Vec::new(),
        }
    }
}

impl App for Recorder {
    type Surface = Vec<u8>;
    type RawEvent = String;

    fn update(&mut self, ctx: &mut Context) -> Result<(), Error> {
        self.updates += 1;
        self.frame_times.push(ctx.frame_time());
        self.seen_pressed.push(ctx.input().is_pressed(K));
        if let Some((at, target)) = self.new_target_at {
            if at == self.updates {
                ctx.set_target_frame_time(target);
            }
        }
        if self.exit_at == Some(self.updates) {
            ctx.exit();
        }
        if self.fail_update_at == Some(self.updates) {
            return Err(Error::new("update failed"));
        }
        Ok(())
    }

    fn render(&mut self, surface: &mut Vec<u8>, blend: Blend) -> Result<(), Error> {
        self.renders += 1;
        self.blends.push(blend);
        surface.push(1);
        if self.fail_render {
            return Err(Error::new("render failed"));
        }
        Ok(())
    }

    fn handle(&mut self, event: &String) -> Result<(), Error> {
        self.handled += 1;
        if self.fail_handle {
            return Err(Error::new(event));
        }
        Ok(())
    }
}

/// An application that keeps the handler it is given.
struct Quiet;

impl App for Quiet {
    type Surface = ();
    type RawEvent = ();

    fn update(&mut self, _ctx: &mut Context) -> Result<(), Error> {
        Ok(())
    }

    fn render(&mut self, _surface: &mut (), _blend: Blend) -> Result<(), Error> {
        Ok(())
    }
}

fn driver() -> LoopDriver {
    LoopDriver::new(WINDOW, Size { width: 64, height: 48 }, 16 * MS, 250 * MS)
}

fn window_event(event: WindowEvent) -> Event {
    Event::Window { window: WINDOW, event }
}

fn begin_frame(driver: &mut LoopDriver, elapsed: u64) -> Action {
    let redraw = Signal::Event { event: window_event(WindowEvent::RedrawRequested), handled: true };
    assert_eq!(driver.step(redraw), Action::Measure);
    driver.step(Signal::Elapsed(elapsed))
}

#[test]
fn run_updates_calls_update_once_per_tick() {
    let mut app = Recorder::new();
    let mut driver = driver();
    assert_eq!(begin_frame(&mut driver, 50 * MS), Action::Update);
    let result = driver.run_updates(&mut app);
    assert!(matches!(result, Ok(Action::Render(blend)) if blend == Blend {
        numerator: 2 * MS,
        denominator: 16 * MS,
    }));
    assert_eq!(app.updates, 3);
    assert_eq!(app.frame_times, vec![16 * MS, 16 * MS, 16 * MS]);
    assert_eq!(app.renders, 0);
    assert_eq!(driver.phase(), Phase::Rendering);
    assert_eq!(driver.accumulated_time(), 2 * MS);
}

#[test]
fn run_updates_runs_fifteen_ticks_for_a_clamped_frame() {
    let mut app = Recorder::new();
    let mut driver = driver();
    assert_eq!(begin_frame(&mut driver, 400 * MS), Action::Update);
    assert!(matches!(driver.run_updates(&mut app), Ok(Action::Render(_))));
    assert_eq!(app.updates, 15);
    assert_eq!(driver.accumulated_time(), 10 * MS);
}

#[test]
fn update_error_after_two_of_five_ticks_ends_the_frame() {
    let mut app = Recorder::new();
    app.fail_update_at = Some(2);
    let mut driver = driver();
    let press = window_event(WindowEvent::Input(InputEvent::Pressed(K)));
    assert!(matches!(driver.handle_event(&mut app, &"press".to_string(), press), Ok(Action::Wait)));
    assert_eq!(begin_frame(&mut driver, 90 * MS), Action::Update);
    let result = driver.run_updates(&mut app);
    assert!(matches!(&result, Err(error) if error.message() == "update failed"));
    assert_eq!(app.updates, 2);
    assert!(driver.is_stopped());
    assert_eq!(driver.context().input().state(K), InputState::Idle);
    let mut surface = Vec::new();
    assert!(matches!(driver.render(&mut app, &mut surface), Ok(Action::Exit)));
    assert!(matches!(driver.run_updates(&mut app), Ok(Action::Exit)));
    assert_eq!(app.updates, 2);
    assert_eq!(app.renders, 0);
    assert!(surface.is_empty());
    assert_eq!(driver.context().input().state(K), InputState::Idle);
}

#[test]
fn exit_request_skips_the_remaining_ticks_and_render() {
    let mut app = Recorder::new();
    app.exit_at = Some(1);
    let mut driver = driver();
    assert_eq!(begin_frame(&mut driver, 90 * MS), Action::Update);
    assert!(matches!(driver.run_updates(&mut app), Ok(Action::Exit)));
    assert_eq!(app.updates, 1);
    assert!(driver.is_stopped());
}

#[test]
fn pressed_is_seen_by_every_tick_of_one_frame_only() {
    let mut app = Recorder::new();
    let mut driver = driver();
    let mut surface = Vec::new();
    let press = window_event(WindowEvent::Input(InputEvent::Pressed(K)));
    driver.handle_event(&mut app, &String::new(), press).unwrap();
    for _ in 0..3 {
        let mut action = begin_frame(&mut driver, 40 * MS);
        if action == Action::Update {
            action = driver.run_updates(&mut app).unwrap();
        }
        assert!(matches!(action, Action::Render(_)));
        assert_eq!(driver.render(&mut app, &mut surface).unwrap(), Action::Present);
        assert_eq!(driver.step(Signal::Presented { ok: true }), Action::Wait);
    }
    assert_eq!(app.updates, 7);
    assert_eq!(
        app.seen_pressed,
        vec![false, false, true, true, false, false, false]
    );
    assert_eq!(app.renders, 3);
    assert_eq!(surface.len(), 3);
}

#[test]
fn new_target_from_update_holds_for_the_next_look() {
    let mut app = Recorder::new();
    app.new_target_at = Some((1, 4 * MS));
    let mut driver = driver();
    assert_eq!(begin_frame(&mut driver, 20 * MS), Action::Update);
    assert!(matches!(driver.run_updates(&mut app), Ok(Action::Render(_))));
    assert_eq!(app.frame_times, vec![16 * MS, 4 * MS, 4 * MS, 4 * MS]);
    assert_eq!(driver.accumulated_time(), 4 * MS);
}

#[test]
fn run_updates_out_of_phase_calls_nothing() {
    let mut app = Recorder::new();
    let mut driver = driver();
    assert!(matches!(driver.run_updates(&mut app), Ok(Action::Wait)));
    assert_eq!(app.updates, 0);
    assert_eq!(driver.phase(), Phase::Idle);
}

#[test]
fn render_gets_the_blending_factor_once() {
    let mut app = Recorder::new();
    let mut driver = driver();
    let mut surface = Vec::new();
    assert!(matches!(begin_frame(&mut driver, 4 * MS), Action::Render(_)));
    assert!(matches!(driver.render(&mut app, &mut surface), Ok(Action::Present)));
    assert_eq!(app.blends, vec![Blend { numerator: 4 * MS, denominator: 16 * MS }]);
    assert!(matches!(driver.render(&mut app, &mut surface), Ok(Action::Wait)));
    assert_eq!(app.renders, 1);
    assert_eq!(driver.phase(), Phase::Presenting);
}

#[test]
fn failed_render_ends_the_loop() {
    let mut app = Recorder::new();
    app.fail_render = true;
    let mut driver = driver();
    let mut surface = Vec::new();
    assert!(matches!(begin_frame(&mut driver, 4 * MS), Action::Render(_)));
    let result = driver.render(&mut app, &mut surface);
    assert!(matches!(&result, Err(error) if error.message() == "render failed"));
    assert!(driver.is_stopped());
}

#[test]
fn handler_sees_the_event_before_the_driver() {
    let mut app = Recorder::new();
    let mut driver = driver();
    let resize = window_event(WindowEvent::Resized(Size { width: 5, height: 6 }));
    assert!(matches!(driver.handle_event(&mut app, &"resize".to_string(), resize), Ok(Action::Wait)));
    assert_eq!(app.handled, 1);
    assert_eq!(driver.pending_resize(), Some(Size { width: 5, height: 6 }));

    app.fail_handle = true;
    let close = window_event(WindowEvent::Other);
    let result = driver.handle_event(&mut app, &"bad event".to_string(), close);
    assert!(matches!(&result, Err(error) if error.message() == "bad event"));
    assert_eq!(app.handled, 2);
    assert!(driver.is_stopped());

    let result = driver.handle_event(&mut app, &"late".to_string(), Event::Other);
    assert!(matches!(&result, Err(error) if error.message() == "late"));
    assert_eq!(app.handled, 3);
    assert!(driver.is_stopped());

    app.fail_handle = false;
    let result = driver.handle_event(&mut app, &"later".to_string(), Event::Other);
    assert!(matches!(result, Ok(Action::Exit)));
    assert_eq!(app.handled, 4);
    assert!(driver.is_stopped());
}

#[test]
fn handler_is_optional() {
    let mut app = Quiet;
    let mut driver = driver();
    assert!(app.handle(&()).is_ok());
    assert!(matches!(driver.handle_event(&mut app, &(), Event::AboutToWait), Ok(Action::RequestRedraw)));
    assert_eq!(begin_frame(&mut driver, 20 * MS), Action::Update);
    assert!(matches!(driver.run_updates(&mut app), Ok(Action::Render(_))));
    assert!(matches!(driver.render(&mut app, &mut ()), Ok(Action::Present)));
}

#[test]
fn run_updates_ends_with_the_resize_that_waited() {
    let mut app = Recorder::new();
    let mut driver = driver();
    let size = Size { width: 7, height: 9 };
    let resize = window_event(WindowEvent::Resized(size));
    assert!(matches!(driver.handle_event(&mut app, &String::new(), resize), Ok(Action::Wait)));
    assert_eq!(begin_frame(&mut driver, 40 * MS), Action::Update);
    assert!(matches!(driver.run_updates(&mut app), Ok(Action::Resize(asked)) if asked == size));
    assert_eq!(app.updates, 2);
    assert_eq!(driver.pending_resize(), Some(size));
    assert_eq!(driver.surface_size(), Size { width: 64, height: 48 });
    let mut surface = Vec::new();
    assert!(matches!(driver.render(&mut app, &mut surface), Ok(Action::Wait)));
    assert_eq!(app.renders, 0);
    assert!(matches!(driver.step(Signal::Resized { ok: true }), Action::Render(_)));
    assert!(matches!(driver.render(&mut app, &mut surface), Ok(Action::Present)));
    assert_eq!(app.renders, 1);
    assert_eq!(driver.surface_size(), size);
}

#[test]
fn exit_request_leaves_the_input_frame_uncommitted() {
    let mut app = Recorder::new();
    app.exit_at = Some(2);
    let mut driver = driver();
    let press = window_event(WindowEvent::Input(InputEvent::Pressed(K)));
    driver.handle_event(&mut app, &String::new(), press).unwrap();
    assert_eq!(begin_frame(&mut driver, 90 * MS), Action::Update);
    assert!(matches!(driver.run_updates(&mut app), Ok(Action::Exit)));
    assert_eq!(app.updates, 2);
    assert!(driver.context().exit_requested());
    assert_eq!(driver.context().input().state(K), InputState::Idle);
}
