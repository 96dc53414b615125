//! The countdown, window and sound logic of a small always-on-top alarm timer.

use vstd::prelude::*;

pub mod alarm;
pub mod args;
pub mod instance;
pub mod palette;
pub mod state;
pub mod text;
pub mod ui;
pub mod wav;
