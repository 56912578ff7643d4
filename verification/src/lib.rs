//! Countdown and deadline timers behind a menu: the timer state machine, the
//! time-input grammar, the action codec and the task registry.

pub mod error;
pub mod time;
pub mod task;
pub mod text;
pub mod action;
pub mod pattern;
pub mod parser;
pub mod display;
pub mod router;
pub mod menu;
pub mod registry;
