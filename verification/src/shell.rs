//! The vocabulary between the dock controller and whoever talks to the shell.
//!
//! The controller never calls the shell. It hands out one [`ShellRequest`] at
//! a time; the embedding performs it and reports a [`ShellOutcome`].

use vstd::prelude::*;
use crate::geometry::Rect;

verus! {

/// One thing the embedding must do before the controller can go on.
#[derive(Clone, Copy, Debug, PartialEq, Eq)]
pub enum ShellRequest {
    /// Remove the reservation of `handle`. Best effort: the controller does
    /// not read whether the shell agreed.
    Remove { handle: isize },
    /// Block the calling thread for `millis` milliseconds.
    Wait { millis: u64 },
    /// Mark the window so that the window switcher and the alt-tab list leave it out.
    ExcludeFromSwitcher { handle: isize },
    /// Register `handle` for a reservation on the top edge.
    New { handle: isize, rect: Rect },
    /// Ask which rectangle the shell would grant for `rect` on the top edge.
    QueryPos { handle: isize, rect: Rect },
    /// Reserve `rect` on the top edge.
    SetPos { handle: isize, rect: Rect },
    /// Move and resize the window, keep it topmost, show it, do not activate it.
    PlaceWindow { handle: isize, x: i32, y: i32, width: i32, height: i32 },
}

/// What came back from performing a request.
#[derive(Clone, Copy, Debug, PartialEq, Eq)]
pub struct ShellOutcome {
    /// Whether the shell call returned a nonzero result. Read after `New` and `SetPos`.
    pub accepted: bool,
    /// The rectangle as the shell left it. Read after `QueryPos` and `SetPos`.
    pub rect: Rect,
}

} // verus!
