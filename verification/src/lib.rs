//! A loop harness between a windowing layer and a pixel surface: updates at
//! a fixed rate, one render per real frame, and an input snapshot that
//! changes only at frame boundaries.
//!
//! - [`pacer`]: the fixed-timestep accumulator.
//! - [`input`] and [`buttons`]: the input snapshot.
//! - [`context`]: what an update sees and may change.
//! - [`driver`]: the loop as a state machine from signals to actions.
//! - [`application`]: the application's callbacks and the calls into them.
//! - [`error`]: the errors of the loop.
//!
//! The library touches no window, clock or surface. Whoever owns those
//! reports to the driver what happened and does what it answers.

pub mod application;
pub mod buttons;
pub mod context;
pub mod driver;
pub mod error;
pub mod input;
pub mod pacer;

pub use crate::application::App;
pub use crate::buttons::{Button, ButtonSet};
pub use crate::context::Context;
pub use crate::driver::{Action, Event, LoopDriver, Phase, Signal, Size, WindowEvent};
pub use crate::error::Error;
pub use crate::input::{InputEvent, InputState, InputTracker, KeyMods, Vec2};
pub use crate::pacer::{Blend, FramePacer};
