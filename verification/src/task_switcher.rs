//! The windows that a task switcher lists.

use vstd::prelude::*;
use crate::text::{ends_with_text, str_ends_with, str_eq};

verus! {

/// Milliseconds for which a list of windows is handed out again before a new one is made.
pub const CACHE_DURATION_MS: u64 = 500;

/// The style bit of a window that is visible.
pub const WS_VISIBLE: u32 = 0x1000_0000;

/// The extended style bit of a tool window.
pub const WS_EX_TOOLWINDOW: u32 = 0x0000_0080;

/// Information about a running window
#[derive(Clone, Debug, PartialEq, Eq)]
pub struct WindowInfo {
    pub hwnd: isize,
    pub title: String,
    pub process_name: String,
    pub process_path: String,
    pub is_minimized: bool,
}

/// List of running windows
#[derive(Clone, Debug, PartialEq, Eq)]
pub struct WindowList {
    pub windows: Vec<WindowInfo>,
}

/// What the window system says about one top-level window.
#[derive(Clone, Debug, PartialEq, Eq)]
pub struct WindowFacts {
    pub hwnd: isize,
    pub visible: bool,
    pub style: u32,
    pub ex_style: u32,
    pub title: String,
    pub class_name: String,
    pub is_minimized: bool,
    /// The file of the owning process, empty where it could not be read.
    pub process_path: String,
    /// The last part of `process_path`.
    pub process_name: String,
}

/// A list of windows and the time at which it was made.
#[derive(Clone, Debug, PartialEq, Eq)]
pub struct WindowCache {
    pub data: WindowList,
    /// When `data` was made, in milliseconds of the caller's clock.
    pub last_update: Option<u64>,
}

/// Whether a window class is one of the shell's own.
pub open spec fn is_shell_class(class_name: Seq<char>) -> bool {
    class_name == "Progman"@ || class_name == "Shell_TrayWnd"@ || class_name
        == "Windows.UI.Core.CoreWindow"@ || class_name == "ApplicationFrameWindow"@ || class_name
        == "Shell_SecondaryTrayWnd"@ || class_name == "NotifyIconOverflowWindow"@ || class_name
        == "TopLevelWindowForOverflowXamlIsland"@
}

/// Whether a title is that of the bar or of one of its popups.
pub open spec fn is_own_title(title: Seq<char>) -> bool {
    title == "bar-minimal-tools"@ || ends_with_text(title, "-popup"@)
}

/// Whether a window belongs in the list: it is visible, no tool window, has
/// a title, is not the bar's own, and its class is not one of the shell's.
pub open spec fn listed(w: WindowFacts) -> bool {
    &&& w.visible
    &&& w.style & WS_VISIBLE != 0
    &&& w.ex_style & WS_EX_TOOLWINDOW == 0
    &&& w.title@.len() > 0
    &&& !is_own_title(w.title@)
    &&& !is_shell_class(w.class_name@)
}

/// The entry for a window.
pub open spec fn entry_of(w: WindowFacts) -> WindowInfo {
    WindowInfo {
        hwnd: w.hwnd,
        title: w.title,
        process_name: w.process_name,
        process_path: w.process_path,
        is_minimized: w.is_minimized,
    }
}

/// The entries for those of `windows` that belong in the list, in their order.
pub open spec fn entries(windows: Seq<WindowFacts>) -> Seq<WindowInfo>
    decreases windows.len(),
{
    if windows.len() == 0 {
        Seq::empty()
    } else if listed(windows.last()) {
        entries(windows.drop_last()).push(entry_of(windows.last()))
    } else {
        entries(windows.drop_last())
    }
}

/// Whether a list made at `made` is still handed out at `now`.
pub open spec fn fresh(made: Option<u64>, now: u64) -> bool {
    made matches Some(t) && now - t < CACHE_DURATION_MS
}

/// Whether a window belongs in the list of a task switcher.
pub fn is_alt_tab_window(w: &WindowFacts) -> (r: bool)
    ensures
        r == listed(*w),
{
    if !w.visible {
        return false;
    }
    if (w.style & WS_VISIBLE) == 0 {
        return false;
    }
    if (w.ex_style & WS_EX_TOOLWINDOW) != 0 {
        return false;
    }
    let title = w.title.as_str();
    if title.is_empty() {
        return false;
    }
    if str_eq(title, "bar-minimal-tools") || str_ends_with(title, "-popup") {
        return false;
    }
    let class_name = w.class_name.as_str();
    !(str_eq(class_name, "Progman") || str_eq(class_name, "Shell_TrayWnd") || str_eq(
        class_name,
        "Windows.UI.Core.CoreWindow",
    ) || str_eq(class_name, "ApplicationFrameWindow") || str_eq(
        class_name,
        "Shell_SecondaryTrayWnd",
    ) || str_eq(class_name, "NotifyIconOverflowWindow") || str_eq(
        class_name,
        "TopLevelWindowForOverflowXamlIsland",
    ))
}

/// Makes the list of windows from all top-level windows, in their order.
pub fn fetch_window_list(windows: &Vec<WindowFacts>) -> (list: WindowList)
    ensures
        list.windows@ == entries(windows@),
{
    let mut out: Vec<WindowInfo> = Vec::new();
    let mut i: usize = 0;
    while i < windows.len()
        invariant
            i <= windows@.len(),
            out@ == entries(windows@.take(i as int)),
        decreases windows@.len() - i,
    {
        let w = &windows[i];
        proof {
            assert(windows@.take(i + 1).drop_last() =~= windows@.take(i as int));
            assert(windows@.take(i + 1).last() == windows@[i as int]);
        }
        if is_alt_tab_window(w) {
            out.push(
                WindowInfo {
                    hwnd: w.hwnd,
                    title: w.title.clone(),
                    process_name: w.process_name.clone(),
                    process_path: w.process_path.clone(),
                    is_minimized: w.is_minimized,
                },
            );
        }
        i = i + 1;
    }
    proof {
        assert(windows@.take(windows@.len() as int) =~= windows@);
    }
    WindowList { windows: out }
}

impl WindowCache {
    /// A cache that holds no list yet.
    pub fn new() -> (c: WindowCache)
        ensures
            c.last_update is None,
            c.data.windows@.len() == 0,
    {
        WindowCache { data: WindowList { windows: Vec::new() }, last_update: None }
    }

    /// Keeps `list` as the one made at `now_ms`.
    pub fn store(&mut self, list: WindowList, now_ms: u64)
        ensures
            final(self).data == list,
            final(self).last_update == Some(now_ms),
    {
        self.data = list;
        self.last_update = Some(now_ms);
    }
}

/// Get the list of windows from the cache: the one that is held, if it was
/// made less than [`CACHE_DURATION_MS`] ago, else nothing.
pub fn get_window_list(cache: &WindowCache, now_ms: u64) -> (list: Option<&WindowList>)
    ensures
        list is Some <==> fresh(cache.last_update, now_ms),
        list matches Some(l) ==> *l == cache.data,
{
    match cache.last_update {
        Some(made) => {
            if now_ms < made || now_ms - made < CACHE_DURATION_MS {
                Some(&cache.data)
            } else {
                None
            }
        },
        None => None,
    }
}

impl Default for WindowList {
    fn default() -> (l: WindowList)
        ensures
            l.windows@.len() == 0,
    {
        WindowList { windows: Vec::new() }
    }
}

} // verus!
