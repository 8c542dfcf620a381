//! Popup windows: which stay open when they lose focus, and the pause that
//! keeps the folders menu from opening again right after it was closed.

use vstd::prelude::*;
use crate::geometry::{clamp_i32, clamp_u32};

verus! {

/// Milliseconds during which the folders menu stays closed after it was hidden.
pub const MENU_COOLDOWN_MS: u64 = 450;

/// Milliseconds during which the folders menu stays closed after a folder was opened.
pub const OPEN_FOLDER_COOLDOWN_MS: u64 = 1500;

/// The popups that stay open even when they lose focus.
#[derive(Debug, PartialEq, Eq)]
pub struct PinnedPopups {
    /// The labels of the pinned popups, each at most once.
    names: Vec<String>,
}

impl PinnedPopups {
    /// The labels of the pinned popups.
    pub closed spec fn labels(self) -> Set<Seq<char>> {
        Set::new(
            |label: Seq<char>|
                exists|i: int| 0 <= i < self.names@.len() && (#[trigger] self.names@[i])@ == label,
        )
    }

    /// No label is held twice.
    #[verifier::type_invariant]
    spec fn wf(self) -> bool {
        forall|i: int, j: int|
            0 <= i < j < self.names@.len() ==> (#[trigger] self.names@[i])@ != (
            #[trigger] self.names@[j])@
    }

    /// No popup is pinned.
    pub fn new() -> (p: PinnedPopups)
        ensures
            p.labels() == Set::<Seq<char>>::empty(),
    {
        let p = PinnedPopups { names: Vec::new() };
        assert(p.labels() =~= Set::<Seq<char>>::empty());
        p
    }

    /// Whether the popup `label` is pinned.
    pub fn get_popup_pinned(&self, label: &String) -> (pinned: bool)
        ensures
            pinned == self.labels().contains(label@),
    {
        self.position(label).is_some()
    }

    fn position(&self, label: &String) -> (at: Option<usize>)
        ensures
            at matches Some(i) ==> i < self.names@.len() && self.names@[i as int]@ == label@,
            at is None ==> forall|j: int|
                0 <= j < self.names@.len() ==> (#[trigger] self.names@[j])@ != label@,
    {
        let mut i: usize = 0;
        while i < self.names.len()
            invariant
                i <= self.names@.len(),
                forall|j: int| 0 <= j < i ==> (#[trigger] self.names@[j])@ != label@,
            decreases self.names@.len() - i,
        {
            if self.names[i] == *label {
                return Some(i);
            }
            i = i + 1;
        }
        None
    }

    /// Pins or unpins the popup `label`. The other popups stay as they are.
    pub fn set_popup_pinned(&mut self, label: &String, pinned: bool)
        ensures
            final(self).labels() == (if pinned {
                old(self).labels().insert(label@)
            } else {
                old(self).labels().remove(label@)
            }),
    {
        proof {
            use_type_invariant(&*self);
        }
        let ghost before = self.names@;
        match self.position(label) {
            Some(i) => {
                if !pinned {
                    let kept = copy_without(&self.names, i);
                    self.names = kept;
                    proof {
                        let after = self.names@;
                        assert forall|l: Seq<char>| self.labels().contains(l) == old(
                            self,
                        ).labels().remove(label@).contains(l) by {
                            if old(self).labels().remove(label@).contains(l) {
                                let k = choose|k: int|
                                    0 <= k < before.len() && (#[trigger] before[k])@ == l;
                                assert(k != i);
                                let k1 = if k < i {
                                    k
                                } else {
                                    k - 1
                                };
                                assert(after[k1] == before[k]);
                            }
                            if self.labels().contains(l) {
                                let k = choose|k: int|
                                    0 <= k < after.len() && (#[trigger] after[k])@ == l;
                                let k0 = if k < i {
                                    k
                                } else {
                                    k + 1
                                };
                                assert(after[k] == before[k0]);
                                assert(before[k0]@ == l);
                                if l == label@ {
                                    if k0 < i {
                                        assert(before[k0]@ != before[i as int]@);
                                    } else {
                                        assert(before[i as int]@ != before[k0]@);
                                    }
                                }
                            }
                        }
                        assert(self.labels() =~= old(self).labels().remove(label@));
                    }
                } else {
                    proof {
                        assert(old(self).labels().contains(label@));
                        assert(self.labels() =~= old(self).labels().insert(label@));
                    }
                }
            },
            None => {
                if pinned {
                    let grown = copy_with(&self.names, label);
                    self.names = grown;
                    proof {
                        let after = self.names@;
                        assert forall|l: Seq<char>| self.labels().contains(l) == old(
                            self,
                        ).labels().insert(label@).contains(l) by {
                            if old(self).labels().insert(label@).contains(l) {
                                if l == label@ {
                                    assert(after[before.len() as int]@ == l);
                                } else {
                                    let k = choose|k: int|
                                        0 <= k < before.len() && (#[trigger] before[k])@ == l;
                                    assert(after[k] == before[k]);
                                }
                            }
                            if self.labels().contains(l) {
                                let k = choose|k: int|
                                    0 <= k < after.len() && (#[trigger] after[k])@ == l;
                                if k < before.len() {
                                    assert(after[k] == before[k]);
                                }
                            }
                        }
                        assert(self.labels() =~= old(self).labels().insert(label@));
                    }
                } else {
                    proof {
                        assert(!old(self).labels().contains(label@));
                        assert(self.labels() =~= old(self).labels().remove(label@));
                    }
                }
            },
        }
    }
}

fn copy_without(names: &Vec<String>, skip: usize) -> (kept: Vec<String>)
    requires
        skip < names@.len(),
    ensures
        kept@ == names@.remove(skip as int),
{
    let mut kept: Vec<String> = Vec::new();
    let mut i: usize = 0;
    while i < names.len()
        invariant
            i <= names@.len(),
            skip < names@.len(),
            kept@ == (if i <= skip {
                names@.take(i as int)
            } else {
                names@.take(i as int).remove(skip as int)
            }),
        decreases names@.len() - i,
    {
        if i != skip {
            kept.push(names[i].clone());
        }
        proof {
            if i < skip {
                assert(names@.take(i + 1) =~= names@.take(i as int).push(names@[i as int]));
            } else if i == skip {
                assert(names@.take(i + 1).remove(skip as int) =~= names@.take(i as int));
            } else {
                assert(names@.take(i + 1).remove(skip as int) =~= names@.take(i as int).remove(
                    skip as int,
                ).push(names@[i as int]));
            }
        }
        i = i + 1;
    }
    proof {
        assert(names@.take(names@.len() as int) =~= names@);
    }
    kept
}

fn copy_with(names: &Vec<String>, extra: &String) -> (grown: Vec<String>)
    ensures
        grown@ == names@.push(*extra),
{
    let mut grown: Vec<String> = Vec::new();
    let mut i: usize = 0;
    while i < names.len()
        invariant
            i <= names@.len(),
            grown@ == names@.take(i as int),
        decreases names@.len() - i,
    {
        grown.push(names[i].clone());
        proof {
            assert(names@.take(i + 1) =~= names@.take(i as int).push(names@[i as int]));
        }
        i = i + 1;
    }
    proof {
        assert(names@.take(names@.len() as int) =~= names@);
    }
    grown.push(extra.clone());
    grown
}

/// Cooldown state for the folders popup: until when requests to open it are ignored.
#[derive(Clone, Copy, Debug, PartialEq, Eq)]
pub struct FoldersPopupCooldown {
    /// Timestamp (ms since UNIX epoch) until which open requests should be ignored.
    pub ignore_until: u64,
}

/// What to do with a popup that was asked for.
#[derive(Clone, Copy, Debug, PartialEq, Eq)]
pub enum PopupAction {
    /// Too soon after the popup was closed: do nothing.
    Ignore,
    /// The popup is showing: hide it.
    Hide,
    /// The popup exists and is hidden: place it, show it, give it the focus.
    Show,
    /// The popup does not exist yet: create it.
    Create,
}

/// What to do with a popup that was asked for: a visible one is hidden, a
/// hidden one shown, a missing one created.
pub open spec fn toggle_of(visible: Option<bool>) -> PopupAction {
    match visible {
        Some(true) => PopupAction::Hide,
        Some(false) => PopupAction::Show,
        None => PopupAction::Create,
    }
}

/// What to do with a popup that was asked for. `visible` is `None` where
/// the popup does not exist.
pub fn popup_toggle(visible: Option<bool>) -> (action: PopupAction)
    ensures
        action == toggle_of(visible),
{
    match visible {
        Some(true) => PopupAction::Hide,
        Some(false) => PopupAction::Show,
        None => PopupAction::Create,
    }
}

impl FoldersPopupCooldown {
    /// `now + duration`, or the largest timestamp if that is not representable.
    pub open spec fn deadline(now: u64, duration: u64) -> u64 {
        if now + duration > u64::MAX {
            u64::MAX
        } else {
            (now + duration) as u64
        }
    }

    /// Whether open requests are ignored at `now`.
    pub fn is_cooling(&self, now: u64) -> (r: bool)
        ensures
            r == (now < self.ignore_until),
    {
        now < self.ignore_until
    }

    /// Ignores open requests for `duration_ms` milliseconds from `now`.
    pub fn set_folders_popup_cooldown(&mut self, now: u64, duration_ms: u64)
        ensures
            final(self).ignore_until == Self::deadline(now, duration_ms),
    {
        self.ignore_until = if now > u64::MAX - duration_ms {
            u64::MAX
        } else {
            now + duration_ms
        };
    }

    /// Decides a request to open the folders menu at `now`.
    ///
    /// During the cooldown the request is ignored. Hiding the menu starts a
    /// cooldown of [`MENU_COOLDOWN_MS`]; nothing else changes it.
    pub fn open_folders_popup(&mut self, now: u64, visible: Option<bool>) -> (action: PopupAction)
        ensures
            action == (if now < old(self).ignore_until {
                PopupAction::Ignore
            } else {
                toggle_of(visible)
            }),
            final(self).ignore_until == (if action == PopupAction::Hide {
                Self::deadline(now, MENU_COOLDOWN_MS)
            } else {
                old(self).ignore_until
            }),
    {
        if self.is_cooling(now) {
            return PopupAction::Ignore;
        }
        let action = popup_toggle(visible);
        match action {
            PopupAction::Hide => {
                self.set_folders_popup_cooldown(now, MENU_COOLDOWN_MS);
            },
            _ => {},
        }
        action
    }
}

impl Default for FoldersPopupCooldown {
    fn default() -> (c: FoldersPopupCooldown)
        ensures
            c.ignore_until == 0,
    {
        FoldersPopupCooldown { ignore_until: 0 }
    }
}

impl Default for PinnedPopups {
    fn default() -> (p: PinnedPopups)
        ensures
            p.labels() == Set::<Seq<char>>::empty(),
    {
        PinnedPopups::new()
    }
}

/// Pixels that a popup keeps away from the edges of the monitor.
pub const EDGE_MARGIN: i64 = 8;

/// The popups that open next to the bar.
#[derive(Clone, Copy, Debug, PartialEq, Eq)]
pub enum PopupKind {
    Storage,
    Cpu,
    Ram,
    Gpu,
    Network,
    Audio,
    Headset,
    Calendar,
    Media,
    Weather,
    Notes,
    DevColor,
    TaskSwitcher,
    Folders,
}

/// Label, page parameter and size of a popup.
#[derive(Clone, Copy, Debug, PartialEq, Eq)]
pub struct PopupLayout {
    /// The label of the popup's window.
    pub label: &'static str,
    /// What the page is asked to show.
    pub param: &'static str,
    pub width: u32,
    pub height: u32,
}

/// Width and height of a popup, in pixels.
pub open spec fn popup_size(kind: PopupKind) -> (u32, u32) {
    match kind {
        PopupKind::Storage => (300, 350),
        PopupKind::Cpu => (280, 320),
        PopupKind::Ram => (280, 220),
        PopupKind::Gpu => (280, 388),
        PopupKind::Network => (280, 200),
        PopupKind::Audio => (384, 400),
        PopupKind::Headset => (340, 520),
        PopupKind::Calendar => (300, 340),
        PopupKind::Media => (450, 380),
        PopupKind::Weather => (320, 400),
        PopupKind::Notes => (520, 420),
        PopupKind::DevColor => (320, 450),
        PopupKind::TaskSwitcher => (400, 500),
        PopupKind::Folders => (240, 320),
    }
}

/// What the page is asked to show for a popup.
pub open spec fn popup_param(kind: PopupKind) -> Seq<char> {
    match kind {
        PopupKind::Storage => "storage"@,
        PopupKind::Cpu => "cpu"@,
        PopupKind::Ram => "ram"@,
        PopupKind::Gpu => "gpu"@,
        PopupKind::Network => "network"@,
        PopupKind::Audio => "audio"@,
        PopupKind::Headset => "headset"@,
        PopupKind::Calendar => "calendar"@,
        PopupKind::Media => "media"@,
        PopupKind::Weather => "weather"@,
        PopupKind::Notes => "notes"@,
        PopupKind::DevColor => "dev-color"@,
        PopupKind::TaskSwitcher => "taskswitcher"@,
        PopupKind::Folders => "folders"@,
    }
}

fn layout(label: &'static str, param: &'static str, width: u32, height: u32) -> (l: PopupLayout)
    ensures
        l.label@ == label@,
        l.param@ == param@,
        l.width == width,
        l.height == height,
{
    PopupLayout { label, param, width, height }
}

/// Label, page parameter and size of a popup. The label is the parameter
/// followed by `-popup`.
pub fn popup_layout(kind: PopupKind) -> (l: PopupLayout)
    ensures
        l.param@ == popup_param(kind),
        l.label@ == popup_param(kind) + "-popup"@,
        (l.width, l.height) == popup_size(kind),
{
    proof {
        reveal_strlit("-popup");
        reveal_strlit("storage");
        reveal_strlit("storage-popup");
        reveal_strlit("cpu");
        reveal_strlit("cpu-popup");
        reveal_strlit("ram");
        reveal_strlit("ram-popup");
        reveal_strlit("gpu");
        reveal_strlit("gpu-popup");
        reveal_strlit("network");
        reveal_strlit("network-popup");
        reveal_strlit("audio");
        reveal_strlit("audio-popup");
        reveal_strlit("headset");
        reveal_strlit("headset-popup");
        reveal_strlit("calendar");
        reveal_strlit("calendar-popup");
        reveal_strlit("media");
        reveal_strlit("media-popup");
        reveal_strlit("weather");
        reveal_strlit("weather-popup");
        reveal_strlit("notes");
        reveal_strlit("notes-popup");
        reveal_strlit("dev-color");
        reveal_strlit("dev-color-popup");
        reveal_strlit("taskswitcher");
        reveal_strlit("taskswitcher-popup");
        reveal_strlit("folders");
        reveal_strlit("folders-popup");
    }
    let l = match kind {
        PopupKind::Storage => layout("storage-popup", "storage", 300, 350),
        PopupKind::Cpu => layout("cpu-popup", "cpu", 280, 320),
        PopupKind::Ram => layout("ram-popup", "ram", 280, 220),
        PopupKind::Gpu => layout("gpu-popup", "gpu", 280, 388),
        PopupKind::Network => layout("network-popup", "network", 280, 200),
        PopupKind::Audio => layout("audio-popup", "audio", 384, 400),
        PopupKind::Headset => layout("headset-popup", "headset", 340, 520),
        PopupKind::Calendar => layout("calendar-popup", "calendar", 300, 340),
        PopupKind::Media => layout("media-popup", "media", 450, 380),
        PopupKind::Weather => layout("weather-popup", "weather", 320, 400),
        PopupKind::Notes => layout("notes-popup", "notes", 520, 420),
        PopupKind::DevColor => layout("dev-color-popup", "dev-color", 320, 450),
        PopupKind::TaskSwitcher => layout("taskswitcher-popup", "taskswitcher", 400, 500),
        PopupKind::Folders => layout("folders-popup", "folders", 240, 320),
    };
    assert(l.label@ =~= popup_param(kind) + "-popup"@);
    l
}

/// `v` held between `low` and `high`.
pub open spec fn held(v: int, low: int, high: int) -> int {
    if v < low {
        low
    } else if v > high {
        high
    } else {
        v
    }
}

/// The larger of two numbers.
pub open spec fn larger(a: int, b: int) -> int {
    if a >= b {
        a
    } else {
        b
    }
}

/// Where a stretch of `size` pixels that is wanted at `desired` goes on a
/// monitor that starts at `start` and is `extent` pixels long: as near to
/// `desired` as possible with a margin to both ends, and at the near margin
/// where the stretch is too long for the monitor.
pub open spec fn clamped_along(desired: int, size: int, start: int, extent: int) -> int {
    let low = start + EDGE_MARGIN;
    held(desired, low, larger(start + extent - size - EDGE_MARGIN, low))
}

fn clamp_along(desired: i64, size: u32, start: i32, extent: u32) -> (r: i32)
    requires
        -0x1_0000_0000 <= desired <= 0x1_0000_0000,
    ensures
        r == clamp_i32(clamped_along(desired as int, size as int, start as int, extent as int)),
{
    let low: i64 = start as i64 + EDGE_MARGIN;
    let far: i64 = start as i64 + extent as i64 - size as i64 - EDGE_MARGIN;
    let high: i64 = if far >= low {
        far
    } else {
        low
    };
    let v: i64 = if desired < low {
        low
    } else if desired > high {
        high
    } else {
        desired
    };
    if v < i32::MIN as i64 {
        i32::MIN
    } else if v > i32::MAX as i64 {
        i32::MAX
    } else {
        v as i32
    }
}

/// Where a popup of the given size goes: at `offset` from `base`, moved as
/// little as needed to keep a margin of [`EDGE_MARGIN`] pixels to the edges
/// of the monitor. `monitor` is the monitor's position and size.
pub fn clamp_to_monitor(
    base: (i32, i32),
    offset: (i32, i32),
    width: u32,
    height: u32,
    monitor: (i32, i32, u32, u32),
) -> (position: (i32, i32))
    ensures
        position.0 == clamp_i32(
            clamped_along(base.0 + offset.0, width as int, monitor.0 as int, monitor.2 as int),
        ),
        position.1 == clamp_i32(
            clamped_along(base.1 + offset.1, height as int, monitor.1 as int, monitor.3 as int),
        ),
{
    (
        clamp_along(base.0 as i64 + offset.0 as i64, width, monitor.0, monitor.2),
        clamp_along(base.1 as i64 + offset.1 as i64, height, monitor.1, monitor.3),
    )
}

/// Position and size of the settings popup: the monitor below a bar of
/// `taskbar_height` pixels, at least one pixel high.
pub fn settings_popup_rect(monitor: (i32, i32, u32, u32), taskbar_height: i32) -> (r: (
    i32,
    i32,
    u32,
    u32,
))
    ensures
        r.0 == monitor.0,
        r.1 == clamp_i32(monitor.1 + taskbar_height),
        r.2 == larger(monitor.2 as int, 1),
        r.3 == clamp_u32(larger(monitor.3 - taskbar_height, 1)),
{
    let y: i64 = monitor.1 as i64 + taskbar_height as i64;
    let h: i64 = monitor.3 as i64 - taskbar_height as i64;
    (
        monitor.0,
        if y < i32::MIN as i64 {
            i32::MIN
        } else if y > i32::MAX as i64 {
            i32::MAX
        } else {
            y as i32
        },
        if monitor.2 == 0 {
            1
        } else {
            monitor.2
        },
        if h < 1 {
            1
        } else if h > u32::MAX as i64 {
            u32::MAX
        } else {
            h as u32
        },
    )
}

} // verus!
