//! Core of a Pomodoro work/break timer: the countdown engine, the modal
//! configuration menu and the dispatcher that feeds both from one event stream.

pub mod controller;
pub mod duration;
pub mod event;
pub mod laws;
pub mod menu;
pub mod screen;
pub mod sounds;
pub mod text;
pub mod ticker;
pub mod timer;

pub use crate::controller::App;
pub use crate::duration::Duration;
pub use crate::event::{Event, Key};
pub use crate::menu::{MenuState, DURATION_PRESETS};
pub use crate::timer::{Pomodoro, PomodoroState, RunState};
