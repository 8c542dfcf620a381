use bar_minimal_tools::commands::{
    height_preview, pin_to_origin, tray_toggle, HeightPreview, TrayAction,
    PREVIEW_FALLBACK_WIDTH,
};
use bar_minimal_tools::dock::DockError;
use bar_minimal_tools::geometry::{
    extent_to_i32, get_primary_work_area, span_to_u32, Rect,
};
use bar_minimal_tools::state::TaskbarState;
use bar_minimal_tools::system::{
    is_explorer_running, is_windows_11_or_newer, notification_key, shortcut_sent,
    startup_script, ExplorerRestart, RestartPhase, RestartStep, BAT_FILENAME, RESTART_ROUNDS,
    VK_A, VK_N,
};

#[test]
fn preview_keeps_origin_and_width_of_the_restore_point() {
    let state = TaskbarState { bounds: Some((1920, 0, 2560, 28)), ..TaskbarState::default() };
    assert_eq!(
        height_preview(&state, Some((5, 6, 700)), 40, Some(true)),
        HeightPreview { x: 1920, y: 0, width: 2560, height: 40, update_dock: true }
    );
}

#[test]
fn preview_falls_back_to_the_window_then_to_defaults() {
    let state = TaskbarState::default();
    assert_eq!(
        height_preview(&state, Some((5, 6, 700)), 40, None),
        HeightPreview { x: 5, y: 6, width: 700, height: 40, update_dock: false }
    );
    assert_eq!(
        height_preview(&state, None, 36, Some(false)),
        HeightPreview { x: 0, y: 0, width: 800, height: 36, update_dock: false }
    );
    assert_eq!(PREVIEW_FALLBACK_WIDTH, 800);
}

#[test]
fn window_is_put_back_to_the_origin() {
    assert_eq!(pin_to_origin(0, 0), None);
    assert_eq!(pin_to_origin(1, 0), Some((0, 0)));
    assert_eq!(pin_to_origin(0, -7), Some((0, 0)));
    assert_eq!(pin_to_origin(300, 200), Some((0, 0)));
}

#[test]
fn tray_click_toggles_the_window() {
    assert_eq!(tray_toggle(Some(true)), TrayAction::Hide);
    assert_eq!(tray_toggle(Some(false)), TrayAction::ShowAndFocus);
    assert_eq!(tray_toggle(None), TrayAction::ShowAndFocus);
}

#[test]
fn work_area_is_origin_and_size() {
    let area = Rect { left: 0, top: 32, right: 1920, bottom: 1080 };
    assert_eq!(get_primary_work_area(area), (0, 32, 1920, 1048));
    let shifted = Rect { left: -1280, top: -10, right: 0, bottom: 1014 };
    assert_eq!(get_primary_work_area(shifted), (-1280, -10, 1280, 1024));
    let extreme = Rect { left: i32::MIN, top: 0, right: i32::MAX, bottom: 0 };
    assert_eq!(get_primary_work_area(extreme), (i32::MIN, 0, i32::MAX, 0));
}

#[test]
fn extents_and_spans_convert_without_wrapping() {
    assert_eq!(extent_to_i32(1920), 1920);
    assert_eq!(extent_to_i32(u32::MAX), i32::MAX);
    assert_eq!(extent_to_i32(i32::MAX as u32 + 1), i32::MAX);
    assert_eq!(span_to_u32(32), 32);
    assert_eq!(span_to_u32(-1), 0);
    assert_eq!(span_to_u32(i32::MIN), 0);
}

#[test]
fn every_dock_error_can_be_told_apart() {
    assert_ne!(DockError::NotFound, DockError::RegistrationFailed);
    assert_ne!(DockError::RegistrationFailed, DockError::LockUnavailable);
    assert_eq!(DockError::NotFound.message(), "Monitor not found");
    assert_eq!(DockError::RegistrationFailed.message(), "Failed to register AppBar");
    assert_eq!(DockError::LockUnavailable.message(), "Failed to lock APPBAR_LOCK");
}

#[test]
fn startup_script_starts_the_program_detached() {
    assert_eq!(
        startup_script("C:\\Apps\\bar.exe"),
        "@echo off\r\nstart \"\" \"C:\\Apps\\bar.exe\"\r\n"
    );
    assert_eq!(startup_script(""), "@echo off\r\nstart \"\" \"\"\r\n");
    assert_eq!(BAT_FILENAME, "BarMinimalTools.bat");
}

#[test]
fn notifications_open_with_n_from_windows_11_on() {
    assert!(is_windows_11_or_newer(Some(22000)));
    assert!(is_windows_11_or_newer(Some(26100)));
    assert!(!is_windows_11_or_newer(Some(21999)));
    assert!(!is_windows_11_or_newer(Some(19045)));
    assert!(!is_windows_11_or_newer(None));
    assert_eq!(notification_key(Some(22000)), VK_N);
    assert_eq!(notification_key(Some(19045)), VK_A);
    assert_eq!(notification_key(None), VK_A);
    assert_eq!((VK_N, VK_A), (0x4E, 0x41));
}

#[test]
fn shortcut_counts_as_sent_when_all_four_events_were_taken() {
    assert_eq!(shortcut_sent(4), Ok(()));
    assert_eq!(shortcut_sent(3), Err((3, 4)));
    assert_eq!(shortcut_sent(0), Err((0, 4)));
    assert_eq!(shortcut_sent(5), Err((5, 4)));
}

#[test]
fn shell_is_found_in_the_list_of_programs() {
    assert!(is_explorer_running("explorer.exe   4120 console  1  120,000 k"));
    assert!(!is_explorer_running("info: no tasks are running which match the specified criteria."));
    assert!(!is_explorer_running(""));
}

/// Runs a restart in which the shell is found running from the check
/// numbered `from` on (counted from 0); returns the steps.
fn restart_steps(from: usize) -> Vec<RestartStep> {
    let (mut restart, mut step) = ExplorerRestart::start();
    let mut steps = vec![step];
    let mut checks = 0;
    while step != RestartStep::Done {
        let running = step == RestartStep::CheckRunning && checks >= from;
        if step == RestartStep::CheckRunning {
            checks += 1;
        }
        step = restart.advance(running);
        steps.push(step);
        assert!(steps.len() < 100);
    }
    assert_eq!(restart.phase, RestartPhase::Finished);
    assert_eq!(restart.advance(false), RestartStep::Done);
    steps
}

#[test]
fn shell_that_comes_back_by_itself_is_not_started() {
    assert_eq!(
        restart_steps(0),
        vec![
            RestartStep::KillShell,
            RestartStep::Wait { millis: 900 },
            RestartStep::CheckRunning,
            RestartStep::Done,
        ]
    );
}

#[test]
fn shell_is_started_and_confirmed() {
    assert_eq!(
        restart_steps(1),
        vec![
            RestartStep::KillShell,
            RestartStep::Wait { millis: 900 },
            RestartStep::CheckRunning,
            RestartStep::StartDetached,
            RestartStep::Wait { millis: 800 },
            RestartStep::CheckRunning,
            RestartStep::Done,
        ]
    );
    let by_script = restart_steps(2);
    assert_eq!(
        by_script[6..],
        [
            RestartStep::StartByScript,
            RestartStep::Wait { millis: 900 },
            RestartStep::CheckRunning,
            RestartStep::Done,
        ]
    );
}

#[test]
fn restart_is_given_up_after_five_rounds() {
    let steps = restart_steps(usize::MAX);
    let count = |wanted: RestartStep| steps.iter().filter(|s| **s == wanted).count();
    assert_eq!(count(RestartStep::KillShell), 1);
    assert_eq!(count(RestartStep::StartDetached), 5);
    assert_eq!(count(RestartStep::StartByScript), 5);
    assert_eq!(count(RestartStep::CheckRunning), 10);
    assert_eq!(count(RestartStep::Wait { millis: 800 }), 5);
    assert_eq!(count(RestartStep::Wait { millis: 900 }), 6);
    assert_eq!(steps.len(), 33);
    assert_eq!(steps[31], RestartStep::Wait { millis: 900 });
    assert_eq!(RESTART_ROUNDS, 5);
}
