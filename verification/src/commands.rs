//! What the commands of the user interface decide before anything is done
//! to the window: where the bar goes, and how large it is.

use vstd::prelude::*;
use crate::dock::DockError;
use crate::monitor::{resolvable, resolve_monitor, resolves_to, MonitorInfo};
use crate::state::TaskbarState;

verus! {

/// Height of the bar when a command names none.
pub const DEFAULT_COMMAND_HEIGHT: u32 = 28;

/// Width of the bar when neither a restore point nor the window is known.
pub const PREVIEW_FALLBACK_WIDTH: u32 = 800;

/// Where the bar goes on a monitor: to the monitor's origin, as wide as the
/// monitor, `bar_height` high, or [`DEFAULT_COMMAND_HEIGHT`] if none is given.
pub open spec fn placement_on(monitor: MonitorInfo, bar_height: Option<u32>) -> (
    i32,
    i32,
    u32,
    u32,
) {
    (
        monitor.x,
        monitor.y,
        monitor.width,
        match bar_height {
            Some(h) => h,
            None => DEFAULT_COMMAND_HEIGHT,
        },
    )
}

/// Where the bar goes when it is moved to the monitor that `selector` names,
/// as `(x, y, width, height)`: the new position and size of the window, the
/// new restore point, and the rectangle to register.
///
/// `NotFound` if the selector resolves to no monitor.
pub fn monitor_placement(
    selector: &String,
    monitors: &Vec<MonitorInfo>,
    bar_height: Option<u32>,
) -> (r: Result<(i32, i32, u32, u32), DockError>)
    ensures
        r matches Ok(p) ==> exists|i: int|
            resolves_to(monitors@, selector@, i) && p == placement_on(monitors@[i], bar_height),
        r matches Err(e) ==> e == DockError::NotFound,
        r is Ok <==> resolvable(monitors@, selector@),
{
    match resolve_monitor(selector, monitors) {
        Ok(m) => {
            let height: u32 = match bar_height {
                Some(h) => h,
                None => DEFAULT_COMMAND_HEIGHT,
            };
            Ok((m.x, m.y, m.width, height))
        },
        Err(e) => Err(e),
    }
}

/// Where the bar stands while its height is tried out: at the restore
/// point, else where the window is, else at the origin with the fallback width.
pub open spec fn preview_origin(
    bounds: Option<(i32, i32, u32, u32)>,
    window: Option<(i32, i32, u32)>,
) -> (i32, i32, u32) {
    match bounds {
        Some(b) => (b.0, b.1, b.2),
        None => match window {
            Some(w) => w,
            None => (0, 0, PREVIEW_FALLBACK_WIDTH),
        },
    }
}

/// What a preview of the height comes to.
#[derive(Clone, Copy, Debug, PartialEq, Eq)]
pub struct HeightPreview {
    pub x: i32,
    pub y: i32,
    pub width: u32,
    pub height: u32,
    /// Whether the reservation is to follow the new height.
    pub update_dock: bool,
}

/// Plans a preview of the bar at `bar_height`.
///
/// The bar keeps origin and width of the restore point; without one it
/// keeps those of the window (`window` is its outer position and width,
/// where both could be read). The reservation follows only if `update_dock`
/// asks for it.
pub fn height_preview(
    state: &TaskbarState,
    window: Option<(i32, i32, u32)>,
    bar_height: u32,
    update_dock: Option<bool>,
) -> (p: HeightPreview)
    ensures
        (p.x, p.y, p.width) == preview_origin(state.bounds, window),
        p.height == bar_height,
        p.update_dock == (update_dock == Some(true)),
{
    let origin: (i32, i32, u32) = match state.bounds {
        Some(b) => (b.0, b.1, b.2),
        None => match window {
            Some(w) => w,
            None => (0, 0, PREVIEW_FALLBACK_WIDTH),
        },
    };
    HeightPreview {
        x: origin.0,
        y: origin.1,
        width: origin.2,
        height: bar_height,
        update_dock: match update_dock {
            Some(b) => b,
            None => false,
        },
    }
}

/// Where a window that must stay at the origin is put back to: `Some`
/// origin if it has been moved away, `None` if it is there.
pub fn pin_to_origin(x: i32, y: i32) -> (target: Option<(i32, i32)>)
    ensures
        target == (if x != 0 || y != 0 {
            Some((0i32, 0i32))
        } else {
            None
        }),
{
    if x != 0 || y != 0 {
        Some((0, 0))
    } else {
        None
    }
}

/// What a click on the tray icon does to the main window.
#[derive(Clone, Copy, Debug, PartialEq, Eq)]
pub enum TrayAction {
    /// Hide the window.
    Hide,
    /// Show the window and give it the focus.
    ShowAndFocus,
}

/// What a click on the tray icon does: a visible window is hidden, any
/// other is shown. `visible` is `None` where it could not be read.
pub fn tray_toggle(visible: Option<bool>) -> (action: TrayAction)
    ensures
        action == (if visible == Some(true) {
            TrayAction::Hide
        } else {
            TrayAction::ShowAndFocus
        }),
{
    match visible {
        Some(true) => TrayAction::Hide,
        _ => TrayAction::ShowAndFocus,
    }
}

} // verus!
