use bar_minimal_tools::popups::{
    clamp_to_monitor, popup_layout, popup_toggle, settings_popup_rect, FoldersPopupCooldown,
    PinnedPopups, PopupAction, PopupKind, PopupLayout, EDGE_MARGIN, MENU_COOLDOWN_MS,
    OPEN_FOLDER_COOLDOWN_MS,
};

fn label(s: &str) -> String {
    s.to_string()
}

#[test]
fn nothing_is_pinned_at_first() {
    let pinned = PinnedPopups::default();
    assert!(!pinned.get_popup_pinned(&label("notes-popup")));
    assert!(!PinnedPopups::new().get_popup_pinned(&label("")));
}

#[test]
fn pinning_and_unpinning_affect_one_popup_only() {
    let mut pinned = PinnedPopups::new();
    pinned.set_popup_pinned(&label("notes-popup"), true);
    pinned.set_popup_pinned(&label("media-popup"), true);
    assert!(pinned.get_popup_pinned(&label("notes-popup")));
    assert!(pinned.get_popup_pinned(&label("media-popup")));
    assert!(!pinned.get_popup_pinned(&label("cpu-popup")));
    pinned.set_popup_pinned(&label("notes-popup"), false);
    assert!(!pinned.get_popup_pinned(&label("notes-popup")));
    assert!(pinned.get_popup_pinned(&label("media-popup")));
}

#[test]
fn pinning_twice_is_pinning_once() {
    let mut pinned = PinnedPopups::new();
    pinned.set_popup_pinned(&label("notes-popup"), true);
    pinned.set_popup_pinned(&label("notes-popup"), true);
    pinned.set_popup_pinned(&label("notes-popup"), false);
    assert!(!pinned.get_popup_pinned(&label("notes-popup")));
    pinned.set_popup_pinned(&label("notes-popup"), false);
    assert!(!pinned.get_popup_pinned(&label("notes-popup")));
}

#[test]
fn popup_toggles_by_visibility() {
    assert_eq!(popup_toggle(Some(true)), PopupAction::Hide);
    assert_eq!(popup_toggle(Some(false)), PopupAction::Show);
    assert_eq!(popup_toggle(None), PopupAction::Create);
}

#[test]
fn folders_menu_is_ignored_during_the_cooldown() {
    let mut cooldown = FoldersPopupCooldown::default();
    assert_eq!(cooldown.ignore_until, 0);
    assert_eq!(cooldown.open_folders_popup(10_000, Some(true)), PopupAction::Hide);
    assert_eq!(cooldown.ignore_until, 10_450);
    assert_eq!(cooldown.open_folders_popup(10_449, Some(false)), PopupAction::Ignore);
    assert_eq!(cooldown.ignore_until, 10_450);
    assert!(cooldown.is_cooling(10_449));
    assert!(!cooldown.is_cooling(10_450));
    assert_eq!(cooldown.open_folders_popup(10_450, Some(false)), PopupAction::Show);
    assert_eq!(cooldown.ignore_until, 10_450);
    assert_eq!(cooldown.open_folders_popup(10_451, None), PopupAction::Create);
    assert_eq!(MENU_COOLDOWN_MS, 450);
}

#[test]
fn cooldown_can_be_set_and_does_not_wrap() {
    let mut cooldown = FoldersPopupCooldown::default();
    cooldown.set_folders_popup_cooldown(1_000, OPEN_FOLDER_COOLDOWN_MS);
    assert_eq!(cooldown.ignore_until, 2_500);
    cooldown.set_folders_popup_cooldown(u64::MAX - 3, 10);
    assert_eq!(cooldown.ignore_until, u64::MAX);
    cooldown.set_folders_popup_cooldown(7, 0);
    assert_eq!(cooldown.ignore_until, 7);
}

#[test]
fn every_popup_has_its_label_and_size() {
    let table = [
        (PopupKind::Storage, "storage", 300, 350),
        (PopupKind::Cpu, "cpu", 280, 320),
        (PopupKind::Ram, "ram", 280, 220),
        (PopupKind::Gpu, "gpu", 280, 388),
        (PopupKind::Network, "network", 280, 200),
        (PopupKind::Audio, "audio", 384, 400),
        (PopupKind::Headset, "headset", 340, 520),
        (PopupKind::Calendar, "calendar", 300, 340),
        (PopupKind::Media, "media", 450, 380),
        (PopupKind::Weather, "weather", 320, 400),
        (PopupKind::Notes, "notes", 520, 420),
        (PopupKind::DevColor, "dev-color", 320, 450),
        (PopupKind::TaskSwitcher, "taskswitcher", 400, 500),
        (PopupKind::Folders, "folders", 240, 320),
    ];
    for (kind, param, width, height) in table {
        let layout = popup_layout(kind);
        assert_eq!(layout.param, param);
        assert_eq!(layout.label, format!("{param}-popup"));
        assert_eq!((layout.width, layout.height), (width, height), "{param}");
    }
    assert_eq!(
        popup_layout(PopupKind::Notes),
        PopupLayout { label: "notes-popup", param: "notes", width: 520, height: 420 }
    );
}

#[test]
fn popup_opens_where_it_was_asked_for_when_it_fits() {
    let monitor = (0, 0, 1920, 1080);
    assert_eq!(clamp_to_monitor((0, 0), (600, 32), 300, 350, monitor), (600, 32));
    assert_eq!(clamp_to_monitor((100, 10), (50, 5), 300, 350, monitor), (150, 15));
    assert_eq!(clamp_to_monitor((0, 0), (8, 8), 300, 350, monitor), (8, 8));
    assert_eq!(clamp_to_monitor((0, 0), (1612, 722), 300, 350, monitor), (1612, 722));
    assert_eq!(EDGE_MARGIN, 8);
}

#[test]
fn popup_keeps_a_margin_to_the_edges_of_the_monitor() {
    let monitor = (0, 0, 1920, 1080);
    assert_eq!(clamp_to_monitor((0, 0), (1800, 32), 300, 350, monitor), (1612, 32));
    assert_eq!(clamp_to_monitor((0, 0), (-50, -7), 300, 350, monitor), (8, 8));
    assert_eq!(clamp_to_monitor((0, 0), (1613, 723), 300, 350, monitor), (1612, 722));
    assert_eq!(clamp_to_monitor((0, 900), (100, 400), 300, 350, monitor), (100, 722));
    let second = (1920, -200, 2560, 1440);
    assert_eq!(clamp_to_monitor((1920, -200), (10, 0), 450, 380, second), (1930, -192));
    assert_eq!(clamp_to_monitor((1920, -200), (2500, 2000), 450, 380, second), (4022, 852));
    assert_eq!(clamp_to_monitor((0, 0), (10, 10), 450, 380, second), (1928, 10));
    assert_eq!(clamp_to_monitor((0, 0), (10, -500), 450, 380, second), (1928, -192));
}

#[test]
fn popup_larger_than_the_monitor_starts_at_the_near_margin() {
    let small = (100, 50, 200, 100);
    assert_eq!(clamp_to_monitor((0, 0), (500, 500), 300, 350, small), (108, 58));
    assert_eq!(clamp_to_monitor((0, 0), (-500, -500), 300, 350, small), (108, 58));
    let edge = (i32::MAX - 4, i32::MIN, 100, 100);
    assert_eq!(
        clamp_to_monitor((i32::MAX, i32::MIN), (i32::MAX, i32::MIN), 10, 10, edge),
        (i32::MAX, i32::MIN + 8)
    );
}

#[test]
fn settings_popup_fills_the_monitor_below_the_bar() {
    assert_eq!(settings_popup_rect((0, 0, 1920, 1080), 32), (0, 32, 1920, 1048));
    assert_eq!(settings_popup_rect((1920, -200, 2560, 1440), 28), (1920, -172, 2560, 1412));
    assert_eq!(settings_popup_rect((0, 0, 1920, 1080), 1080), (0, 1080, 1920, 1));
    assert_eq!(settings_popup_rect((0, 0, 1920, 1080), 5000), (0, 5000, 1920, 1));
    assert_eq!(settings_popup_rect((0, 0, 0, 0), 0), (0, 0, 1, 1));
    assert_eq!(settings_popup_rect((0, 10, 800, 600), -40), (0, -30, 800, 640));
    assert_eq!(
        settings_popup_rect((0, i32::MAX, u32::MAX, u32::MAX), i32::MIN),
        (0, -1, u32::MAX, u32::MAX)
    );
    assert_eq!(settings_popup_rect((0, i32::MAX, 1, 1), i32::MAX), (0, i32::MAX, 1, 1));
}
