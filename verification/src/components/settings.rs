//! The settings screen.

use vstd::prelude::*;

use crate::app::Mode;

verus! {

/// The settings component.
#[derive(Debug, Clone, Copy, PartialEq, Eq, Structural)]
pub struct Settings {}

impl Settings {
    pub fn new() -> (r: Settings)
        ensures
            r == (Settings {  }),
    {
        Settings {  }
    }

    /// Whether the settings are drawn: only on their own screen.
    pub fn is_shown(&self, mode: &Mode) -> (r: bool)
        ensures
            r == (*mode == Mode::Settings),
    {
        *mode == Mode::Settings
    }

    /// The width of the column of setting names.
    pub fn label_column_width(&self) -> (r: u16)
        ensures
            r == 30,
    {
        30
    }
}

} // verus!
