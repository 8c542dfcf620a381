//! One poll cycle of the fullscreen watcher: what to do with the bar, given
//! whether a fullscreen application covers its monitor.

use vstd::prelude::*;
use crate::dock::{
    register_appbar, unregister_appbar, DockController, DockRequest, DockStep,
};
use crate::geometry::{clamp_i32, extent_to_i32};
use crate::state::TaskbarState;

verus! {

/// Milliseconds between two poll cycles.
pub const POLL_INTERVAL_MS: u64 = 800;

/// Milliseconds to wait before looking again while a command reconfigures the dock.
pub const PAUSED_INTERVAL_MS: u64 = 200;

/// Width of the bar when neither a restore point nor the window's size is known.
pub const FALLBACK_WIDTH: u32 = 800;

/// Height of the bar at startup, and when nothing better is known.
pub const DEFAULT_BAR_HEIGHT: u32 = 32;

/// What one look at the desktop found.
#[derive(Clone, Copy, Debug, PartialEq, Eq)]
pub struct WatcherObservation {
    /// Whether a fullscreen application covers the bar's monitor.
    pub fullscreen: bool,
    /// The bar window's outer position, if it could be read.
    pub position: Option<(i32, i32)>,
    /// The bar window's outer size, if it could be read.
    pub size: Option<(u32, u32)>,
}

/// What the watcher does with the bar in this cycle.
#[derive(Clone, Copy, Debug, PartialEq, Eq)]
pub enum WatcherAction {
    /// A command is reconfiguring the dock: keep out of its way.
    Pause,
    /// Nothing changed.
    Stay,
    /// Hide the window, then remove the reservation.
    Hide,
    /// Move the window to `(x, y)`, give it this size, show it, then
    /// register the reservation for that rectangle.
    Restore { x: i32, y: i32, width: u32, height: u32 },
}

/// The outcome of a poll cycle.
#[derive(Clone, Copy, Debug, PartialEq, Eq)]
pub struct WatcherVerdict {
    pub action: WatcherAction,
    /// Milliseconds to sleep before the next cycle.
    pub sleep_ms: u64,
}

/// Where the bar goes back to: the restore point; without one, the
/// geometry the window has now; where the window's position could not be
/// read, its size at the origin; where its size could not be read either, a
/// strip of the fallback size at the origin.
pub open spec fn restore_target(
    bounds: Option<(i32, i32, u32, u32)>,
    position: Option<(i32, i32)>,
    size: Option<(u32, u32)>,
) -> (i32, i32, u32, u32) {
    match bounds {
        Some(b) => b,
        None => match (position, size) {
            (Some(p), Some(s)) => (p.0, p.1, s.0, s.1),
            (None, Some(s)) => (0, 0, s.0, s.1),
            _ => (0, 0, FALLBACK_WIDTH, DEFAULT_BAR_HEIGHT),
        },
    }
}

/// The restore point after the bar has been hidden: the window's geometry if
/// both position and size were read, else the one that was there.
pub open spec fn snapshot(
    bounds: Option<(i32, i32, u32, u32)>,
    position: Option<(i32, i32)>,
    size: Option<(u32, u32)>,
) -> Option<(i32, i32, u32, u32)> {
    match (position, size) {
        (Some(p), Some(s)) => Some((p.0, p.1, s.0, s.1)),
        _ => bounds,
    }
}

/// The shared record after a poll cycle, and the verdict.
pub open spec fn poll_spec(state: TaskbarState, seen: WatcherObservation) -> (
    TaskbarState,
    WatcherVerdict,
) {
    if state.appbar_transition {
        (state, WatcherVerdict { action: WatcherAction::Pause, sleep_ms: PAUSED_INTERVAL_MS })
    } else if seen.fullscreen && !state.fullscreen_hidden {
        (
            TaskbarState {
                bounds: snapshot(state.bounds, seen.position, seen.size),
                fullscreen_hidden: true,
                ..state
            },
            WatcherVerdict { action: WatcherAction::Hide, sleep_ms: POLL_INTERVAL_MS },
        )
    } else if !seen.fullscreen && state.fullscreen_hidden {
        let t = restore_target(state.bounds, seen.position, seen.size);
        (
            TaskbarState { fullscreen_hidden: false, ..state },
            WatcherVerdict {
                action: WatcherAction::Restore { x: t.0, y: t.1, width: t.2, height: t.3 },
                sleep_ms: POLL_INTERVAL_MS,
            },
        )
    } else {
        (state, WatcherVerdict { action: WatcherAction::Stay, sleep_ms: POLL_INTERVAL_MS })
    }
}

/// The dock operation that an action starts: none for `Pause` and `Stay`.
pub open spec fn action_start(ctl: DockController, hwnd: isize, action: WatcherAction) -> (
    DockController,
    DockStep,
) {
    match action {
        WatcherAction::Pause | WatcherAction::Stay => (ctl, DockStep::Done(Ok(()))),
        WatcherAction::Hide => ctl.unregister_start(hwnd),
        WatcherAction::Restore { x, y, width, height } => ctl.register_start(
            DockRequest {
                handle: hwnd,
                x,
                y,
                width: clamp_i32(width as int) as i32,
                height: clamp_i32(height as int) as i32,
            },
        ),
    }
}

/// How a poll cycle begins.
#[derive(Clone, Copy, Debug, PartialEq, Eq)]
pub enum CycleStart {
    /// Do not look at the desktop; sleep for `sleep_ms` milliseconds.
    Sleep { sleep_ms: u64 },
    /// Look at the desktop, then decide with [`poll_cycle`].
    Look,
}

/// How a poll cycle begins: with a short sleep while a command reconfigures
/// the dock, with a full one while the bar's window has no handle, and
/// with a look at the desktop otherwise.
pub fn begin_cycle(state: &TaskbarState, has_handle: bool) -> (start: CycleStart)
    ensures
        start == (if state.appbar_transition {
            CycleStart::Sleep { sleep_ms: PAUSED_INTERVAL_MS }
        } else if !has_handle {
            CycleStart::Sleep { sleep_ms: POLL_INTERVAL_MS }
        } else {
            CycleStart::Look
        }),
{
    if state.appbar_transition {
        CycleStart::Sleep { sleep_ms: PAUSED_INTERVAL_MS }
    } else if !has_handle {
        CycleStart::Sleep { sleep_ms: POLL_INTERVAL_MS }
    } else {
        CycleStart::Look
    }
}

/// Decides one poll cycle.
///
/// While a command reconfigures the dock, nothing is decided and nothing
/// changes. Else the bar is hidden when a fullscreen application has appeared,
/// restored when it has gone, and left alone otherwise.
pub fn poll_cycle(state: &mut TaskbarState, seen: &WatcherObservation) -> (verdict: WatcherVerdict)
    ensures
        (*final(state), verdict) == poll_spec(*old(state), *seen),
        old(state).appbar_transition ==> *final(state) == *old(state) && verdict.action
            == WatcherAction::Pause,
        final(state).appbar_transition == old(state).appbar_transition,
{
    if state.appbar_transition {
        return WatcherVerdict { action: WatcherAction::Pause, sleep_ms: PAUSED_INTERVAL_MS };
    }
    let was_hidden = state.fullscreen_hidden;
    if seen.fullscreen && !was_hidden {
        match (seen.position, seen.size) {
            (Some(p), Some(s)) => {
                state.bounds = Some((p.0, p.1, s.0, s.1));
            },
            _ => {},
        }
        state.fullscreen_hidden = true;
        WatcherVerdict { action: WatcherAction::Hide, sleep_ms: POLL_INTERVAL_MS }
    } else if !seen.fullscreen && was_hidden {
        state.fullscreen_hidden = false;
        let t: (i32, i32, u32, u32) = match state.bounds {
            Some(b) => b,
            None => match (seen.position, seen.size) {
                (Some(p), Some(s)) => (p.0, p.1, s.0, s.1),
                (None, Some(s)) => (0, 0, s.0, s.1),
                _ => (0, 0, FALLBACK_WIDTH, DEFAULT_BAR_HEIGHT),
            },
        };
        WatcherVerdict {
            action: WatcherAction::Restore { x: t.0, y: t.1, width: t.2, height: t.3 },
            sleep_ms: POLL_INTERVAL_MS,
        }
    } else {
        WatcherVerdict { action: WatcherAction::Stay, sleep_ms: POLL_INTERVAL_MS }
    }
}

/// Starts the dock operation that `action` asks for.
///
/// `Pause` and `Stay` start none: the controller is as it was and no request
/// goes out. `Hide` starts the removal, `Restore` the registration of the
/// restored rectangle.
pub fn start_action(ctl: &mut DockController, hwnd: isize, action: &WatcherAction) -> (step:
    DockStep)
    ensures
        (*final(ctl), step) == action_start(*old(ctl), hwnd, *action),
        (*action == WatcherAction::Pause || *action == WatcherAction::Stay) ==> *final(ctl) == *old(
            ctl,
        ) && step == DockStep::Done(Ok(())),
        old(ctl).wf() ==> final(ctl).wf(),
{
    match action {
        WatcherAction::Pause => DockStep::Done(Ok(())),
        WatcherAction::Stay => DockStep::Done(Ok(())),
        WatcherAction::Hide => unregister_appbar(ctl, hwnd),
        WatcherAction::Restore { x, y, width, height } => register_appbar(
            ctl,
            hwnd,
            *x,
            *y,
            extent_to_i32(*width),
            extent_to_i32(*height),
        ),
    }
}

/// No racing transitions. While a command reconfigures the dock, a poll
/// cycle leaves the shared record as it was, and the action it decides on
/// leaves the controller as it was and sends nothing to the shell.
pub proof fn lemma_paused_cycle_does_nothing(
    state: TaskbarState,
    seen: WatcherObservation,
    ctl: DockController,
    hwnd: isize,
)
    requires
        state.appbar_transition,
    ensures
        poll_spec(state, seen).0 == state,
        poll_spec(state, seen).1.action == WatcherAction::Pause,
        action_start(ctl, hwnd, poll_spec(state, seen).1.action) == (ctl, DockStep::Done(Ok(()))),
{
}

/// Hiding and restoring. When a fullscreen application appears and goes
/// again, the bar is hidden and then restored. Hiding keeps a restore
/// point: the geometry the window has then, or, where that cannot be read,
/// the restore point that was there. Restoring goes to that restore point
/// and leaves it as it is; only where there is none does it go to the
/// geometry the window has when the application is gone.
pub proof fn lemma_hidden_bar_returns(
    state: TaskbarState,
    appeared: WatcherObservation,
    gone: WatcherObservation,
)
    requires
        !state.appbar_transition,
        !state.fullscreen_hidden,
        appeared.fullscreen,
        !gone.fullscreen,
    ensures
        ({
            let hidden = poll_spec(state, appeared);
            let restored = poll_spec(hidden.0, gone);
            let kept = snapshot(state.bounds, appeared.position, appeared.size);
            let place = restore_target(kept, gone.position, gone.size);
            &&& hidden.1.action == WatcherAction::Hide
            &&& hidden.0.fullscreen_hidden
            &&& hidden.0.bounds == kept
            &&& restored.1.action == (WatcherAction::Restore {
                x: place.0,
                y: place.1,
                width: place.2,
                height: place.3,
            })
            &&& !restored.0.fullscreen_hidden
            &&& restored.0.bounds == kept
            &&& kept matches Some(b) ==> place == b
            &&& (appeared.position is Some && appeared.size is Some) ==> Some(place) == snapshot(
                None,
                appeared.position,
                appeared.size,
            )
            &&& (kept is None && gone.position is Some && gone.size is Some) ==> Some(place)
                == snapshot(None, gone.position, gone.size)
        }),
{
}

} // verus!
