//! The record that commands and the fullscreen watcher share.

use vstd::prelude::*;

verus! {

/// Shared state for the bar's position: the restore point, whether the bar is
/// hidden because of a fullscreen application, and whether a command is
/// reconfiguring the dock right now.
#[derive(Clone, Copy, Debug, PartialEq, Eq)]
pub struct TaskbarState {
    /// Last committed reservation as `(x, y, width, height)`.
    pub bounds: Option<(i32, i32, u32, u32)>,
    /// True while the bar is hidden because a fullscreen application covers its monitor.
    pub fullscreen_hidden: bool,
    /// When true, the watcher must not register or unregister the dock.
    pub appbar_transition: bool,
}

impl TaskbarState {
    /// No restore point, not hidden, no transition.
    pub open spec fn initial() -> TaskbarState {
        TaskbarState { bounds: None, fullscreen_hidden: false, appbar_transition: false }
    }

    /// Marks the start of an explicit reconfiguration. Only the flag changes.
    pub fn begin_transition(&mut self)
        ensures
            *final(self) == (TaskbarState { appbar_transition: true, ..*old(self) }),
    {
        self.appbar_transition = true;
    }

    /// Marks the end of an explicit reconfiguration. Only the flag changes.
    pub fn end_transition(&mut self)
        ensures
            *final(self) == (TaskbarState { appbar_transition: false, ..*old(self) }),
    {
        self.appbar_transition = false;
    }

    /// Replaces the restore point. Nothing else changes.
    pub fn record_bounds(&mut self, x: i32, y: i32, width: u32, height: u32)
        ensures
            *final(self) == (TaskbarState { bounds: Some((x, y, width, height)), ..*old(self) }),
    {
        self.bounds = Some((x, y, width, height));
    }
}

impl Default for TaskbarState {
    fn default() -> (s: TaskbarState)
        ensures
            s == TaskbarState::initial(),
    {
        TaskbarState { bounds: None, fullscreen_hidden: false, appbar_transition: false }
    }
}

} // verus!
