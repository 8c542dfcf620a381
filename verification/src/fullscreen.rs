//! Deciding whether the foreground application covers the bar's monitor.
//!
//! The embedding reads the facts from the window system and hands them over
//! as a [`ForegroundProbe`]; the decision is made here.

use vstd::prelude::*;
use crate::geometry::Rect;

verus! {

/// How many windows of the ancestor chain are looked at, the foreground
/// window included.
pub const MAX_ANCESTOR_HOPS: usize = 32;

/// The show state with which the window system reports a minimized window.
pub const SHOW_MINIMIZED: i32 = 2;

/// By how many pixels width and height may differ from the monitor's.
pub const SIZE_TOLERANCE: i64 = 2;

/// By how many pixels the left and top edge may lie off the monitor's.
pub const EDGE_TOLERANCE: i64 = 1;

/// A window of the ancestor chain and the process that owns it.
#[derive(Clone, Copy, Debug, PartialEq, Eq)]
pub struct WindowOwner {
    pub hwnd: isize,
    /// 0 when the owner could not be read.
    pub pid: u32,
}

/// What the window system says about the foreground window.
#[derive(Clone, Debug, PartialEq, Eq)]
pub struct ForegroundProbe {
    /// The foreground window, then its parent, and so on upwards; empty when
    /// there is no foreground window. Entries past the first
    /// [`MAX_ANCESTOR_HOPS`] are not looked at.
    pub chain: Vec<WindowOwner>,
    /// The remaining facts are those of the topmost window that was reached.
    pub visible: bool,
    /// The window's show state, if its placement could be read.
    pub show_state: Option<i32>,
    /// The window's rectangle, if it could be read.
    pub rect: Option<Rect>,
    /// The monitor nearest to the window.
    pub monitor: isize,
    /// The monitor nearest to the bar.
    pub bar_monitor: isize,
    /// The full bounds of `monitor`, if they could be read.
    pub monitor_rect: Option<Rect>,
}

/// Whether `node` is the bar itself or belongs to the bar's process.
pub open spec fn is_own(node: WindowOwner, bar_hwnd: isize, own_pid: u32) -> bool {
    node.hwnd == bar_hwnd || (node.pid != 0 && node.pid == own_pid)
}

/// Whether one of the windows that are looked at is the bar's own.
pub open spec fn own_in_chain(chain: Seq<WindowOwner>, bar_hwnd: isize, own_pid: u32) -> bool {
    exists|i: int|
        0 <= i < chain.len() && i < MAX_ANCESTOR_HOPS && is_own(
            #[trigger] chain[i],
            bar_hwnd,
            own_pid,
        )
}

/// How far two numbers are apart.
pub open spec fn distance(a: int, b: int) -> int {
    if a >= b {
        a - b
    } else {
        b - a
    }
}

/// Whether `window` matches the monitor's full bounds: width and height
/// within two pixels, left and top edge within one.
pub open spec fn covers(window: Rect, monitor: Rect) -> bool {
    &&& distance(window.right - window.left, monitor.right - monitor.left) <= SIZE_TOLERANCE
    &&& distance(window.bottom - window.top, monitor.bottom - monitor.top) <= SIZE_TOLERANCE
    &&& distance(window.left as int, monitor.left as int) <= EDGE_TOLERANCE
    &&& distance(window.top as int, monitor.top as int) <= EDGE_TOLERANCE
}

/// Whether the bar has to make room: there is a foreground window, none of
/// the windows looked at is the bar's own, the window is visible and not
/// minimized, sits on the bar's monitor, and covers it.
pub open spec fn hides_bar(bar_hwnd: isize, own_pid: u32, probe: ForegroundProbe) -> bool {
    &&& probe.chain@.len() > 0
    &&& !own_in_chain(probe.chain@, bar_hwnd, own_pid)
    &&& probe.visible
    &&& probe.show_state != Some(SHOW_MINIMIZED)
    &&& probe.monitor == probe.bar_monitor
    &&& probe.rect is Some
    &&& probe.monitor_rect is Some
    &&& covers(probe.rect->0, probe.monitor_rect->0)
}

fn within(a: i64, b: i64, tolerance: i64) -> (r: bool)
    requires
        -0x2_0000_0000 <= a <= 0x2_0000_0000,
        -0x2_0000_0000 <= b <= 0x2_0000_0000,
    ensures
        r == (distance(a as int, b as int) <= tolerance),
{
    if a >= b {
        a - b <= tolerance
    } else {
        b - a <= tolerance
    }
}

/// Whether `window` matches the monitor's full bounds within the tolerances.
pub fn covers_monitor(window: &Rect, monitor: &Rect) -> (r: bool)
    ensures
        r == covers(*window, *monitor),
{
    let width: i64 = window.right as i64 - window.left as i64;
    let height: i64 = window.bottom as i64 - window.top as i64;
    let monitor_width: i64 = monitor.right as i64 - monitor.left as i64;
    let monitor_height: i64 = monitor.bottom as i64 - monitor.top as i64;
    within(width, monitor_width, SIZE_TOLERANCE) && within(height, monitor_height, SIZE_TOLERANCE)
        && within(window.left as i64, monitor.left as i64, EDGE_TOLERANCE) && within(
        window.top as i64,
        monitor.top as i64,
        EDGE_TOLERANCE,
    )
}

/// Whether the parent of the window read last is read too, when `read`
/// windows of the chain have been read so far: the chain is followed for
/// [`MAX_ANCESTOR_HOPS`] links at most, so that reading ends even on a
/// chain that runs in a circle.
pub fn follows_parent(read: usize) -> (go: bool)
    ensures
        go == (read <= MAX_ANCESTOR_HOPS),
{
    read <= MAX_ANCESTOR_HOPS
}

/// Whether one of the first [`MAX_ANCESTOR_HOPS`] windows of `chain` is the
/// bar itself or belongs to the process `own_pid`.
pub fn chain_is_own(chain: &Vec<WindowOwner>, bar_hwnd: isize, own_pid: u32) -> (r: bool)
    ensures
        r == own_in_chain(chain@, bar_hwnd, own_pid),
{
    let mut i: usize = 0;
    while i < chain.len() && i < MAX_ANCESTOR_HOPS
        invariant
            i <= chain.len(),
            i <= MAX_ANCESTOR_HOPS,
            forall|j: int| 0 <= j < i ==> !is_own(#[trigger] chain@[j], bar_hwnd, own_pid),
        decreases chain.len() - i,
    {
        let node = chain[i];
        if node.hwnd == bar_hwnd || (node.pid != 0 && node.pid == own_pid) {
            assert(is_own(chain@[i as int], bar_hwnd, own_pid));
            return true;
        }
        i = i + 1;
    }
    false
}

/// Whether the foreground window occupies the whole monitor that the bar is
/// docked to, so that the bar has to hide.
///
/// A foreground window that is the bar's own, one on another monitor, and
/// one whose facts could not be read never make the bar hide.
pub fn is_foreground_fullscreen(bar_hwnd: isize, own_pid: u32, probe: &ForegroundProbe) -> (r: bool)
    ensures
        r == hides_bar(bar_hwnd, own_pid, *probe),
        own_in_chain(probe.chain@, bar_hwnd, own_pid) ==> !r,
        probe.monitor != probe.bar_monitor ==> !r,
{
    if probe.chain.len() == 0 {
        return false;
    }
    if chain_is_own(&probe.chain, bar_hwnd, own_pid) {
        return false;
    }
    if !probe.visible {
        return false;
    }
    match probe.show_state {
        Some(state) => {
            if state == SHOW_MINIMIZED {
                return false;
            }
        },
        None => {},
    }
    if probe.monitor != probe.bar_monitor {
        return false;
    }
    match (&probe.rect, &probe.monitor_rect) {
        (Some(window), Some(monitor)) => covers_monitor(window, monitor),
        _ => false,
    }
}

} // verus!
