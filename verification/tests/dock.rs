use bar_minimal_tools::dock::{
    backoff_delay, backoff_schedule, register_appbar, unregister_appbar, update_appbar_position,
    DockController, DockError, DockPhase, DockStep, RegistrationState, REGISTER_ATTEMPTS,
    SETTLE_MS,
};
use bar_minimal_tools::geometry::Rect;
use bar_minimal_tools::shell::{ShellOutcome, ShellRequest};
use bar_minimal_tools::state::TaskbarState;

/// A shell that answers from a script: whether each `New` and each `SetPos`
/// is accepted, by how much `QueryPos` shifts the rectangle down, and what
/// the requests whose outcome nobody reads are answered with.
struct ScriptedShell {
    accept_new: Vec<bool>,
    accept_setpos: Vec<bool>,
    shift_down: i32,
    unread: ShellOutcome,
    log: Vec<ShellRequest>,
}

impl ScriptedShell {
    fn agreeable() -> Self {
        ScriptedShell {
            accept_new: vec![],
            accept_setpos: vec![],
            shift_down: 0,
            unread: ShellOutcome {
                accepted: false,
                rect: Rect { left: 0, top: 0, right: 0, bottom: 0 },
            },
            log: vec![],
        }
    }

    fn perform(&mut self, request: ShellRequest) -> ShellOutcome {
        self.log.push(request);
        match request {
            ShellRequest::New { rect, .. } => {
                let accepted = if self.accept_new.is_empty() { true } else { self.accept_new.remove(0) };
                ShellOutcome { accepted, rect }
            }
            ShellRequest::QueryPos { rect, .. } => ShellOutcome {
                accepted: true,
                rect: Rect {
                    left: rect.left,
                    top: rect.top + self.shift_down,
                    right: rect.right,
                    bottom: rect.bottom,
                },
            },
            ShellRequest::SetPos { rect, .. } => {
                let accepted =
                    if self.accept_setpos.is_empty() { true } else { self.accept_setpos.remove(0) };
                ShellOutcome { accepted, rect }
            }
            _ => self.unread,
        }
    }

    fn attempts(&self) -> usize {
        self.log.iter().filter(|r| matches!(r, ShellRequest::New { .. })).count()
    }
}

fn drive(
    ctl: &mut DockController,
    shared: &mut TaskbarState,
    shell: &mut ScriptedShell,
    first: DockStep,
) -> Result<(), DockError> {
    let mut step = first;
    loop {
        match step {
            DockStep::Done(result) => return result,
            DockStep::Perform(request) => {
                let outcome = shell.perform(request);
                step = ctl.resume(shared, outcome);
            }
        }
    }
}

const BAR: isize = 0x51c0;

fn strip() -> Rect {
    Rect { left: 0, top: 0, right: 1920, bottom: 32 }
}

#[test]
fn fresh_controller_believes_nothing() {
    let ctl = DockController::new();
    assert!(!ctl.is_registered());
    assert!(ctl.is_idle());
    assert_eq!(ctl.registration.state, RegistrationState::Unregistered);
}

#[test]
fn register_on_fresh_controller_sends_the_documented_sequence() {
    let mut ctl = DockController::new();
    let mut shared = TaskbarState::default();
    let mut shell = ScriptedShell::agreeable();
    let first = register_appbar(&mut ctl, BAR, 0, 0, 1920, 32);
    assert_eq!(first, DockStep::Perform(ShellRequest::ExcludeFromSwitcher { handle: BAR }));
    assert_eq!(ctl.registration.state, RegistrationState::Registering);
    let result = drive(&mut ctl, &mut shared, &mut shell, first);
    assert_eq!(result, Ok(()));
    assert_eq!(
        shell.log,
        vec![
            ShellRequest::ExcludeFromSwitcher { handle: BAR },
            ShellRequest::New { handle: BAR, rect: strip() },
            ShellRequest::QueryPos { handle: BAR, rect: strip() },
            ShellRequest::SetPos { handle: BAR, rect: strip() },
            ShellRequest::PlaceWindow { handle: BAR, x: 0, y: 0, width: 1920, height: 32 },
        ]
    );
    assert!(ctl.is_registered());
    assert!(ctl.is_idle());
    assert_eq!(ctl.registration.reserved_rect, strip());
    assert_eq!(ctl.registration.host_handle, BAR);
    assert_eq!(shared.bounds, Some((0, 0, 1920, 32)));
}

#[test]
fn register_fixes_the_bottom_edge_after_the_query() {
    let mut ctl = DockController::new();
    let mut shared = TaskbarState::default();
    let mut shell = ScriptedShell::agreeable();
    shell.shift_down = 40;
    let first = register_appbar(&mut ctl, BAR, 0, 0, 1920, 32);
    assert_eq!(drive(&mut ctl, &mut shared, &mut shell, first), Ok(()));
    let granted = Rect { left: 0, top: 40, right: 1920, bottom: 72 };
    assert_eq!(shell.log[3], ShellRequest::SetPos { handle: BAR, rect: granted });
    assert_eq!(
        shell.log[4],
        ShellRequest::PlaceWindow { handle: BAR, x: 0, y: 40, width: 1920, height: 32 }
    );
    assert_eq!(shared.bounds, Some((0, 40, 1920, 32)));
    assert_eq!(ctl.registration.reserved_rect, granted);
}

#[test]
fn register_over_an_active_registration_removes_it_first() {
    let mut ctl = DockController::new();
    let mut shared = TaskbarState::default();
    let mut shell = ScriptedShell::agreeable();
    let first = register_appbar(&mut ctl, BAR, 0, 0, 1920, 32);
    drive(&mut ctl, &mut shared, &mut shell, first).unwrap();
    shell.log.clear();
    let again = register_appbar(&mut ctl, BAR, 0, 0, 2560, 28);
    assert_eq!(again, DockStep::Perform(ShellRequest::Remove { handle: BAR }));
    assert_eq!(ctl.registration.state, RegistrationState::Unregistering);
    assert_eq!(drive(&mut ctl, &mut shared, &mut shell, again), Ok(()));
    assert_eq!(shell.log[0], ShellRequest::Remove { handle: BAR });
    assert_eq!(shell.log[1], ShellRequest::Wait { millis: 80 });
    assert_eq!(shell.log[2], ShellRequest::ExcludeFromSwitcher { handle: BAR });
    assert_eq!(shell.log.len(), 7);
    assert_eq!(shared.bounds, Some((0, 0, 2560, 28)));
    assert_eq!(SETTLE_MS, 80);
}

#[test]
fn unregister_without_registration_is_a_no_op() {
    let mut ctl = DockController::new();
    let before = ctl;
    let step = unregister_appbar(&mut ctl, BAR);
    assert_eq!(step, DockStep::Done(Ok(())));
    assert_eq!(ctl, before);
    let again = unregister_appbar(&mut ctl, BAR);
    assert_eq!(again, DockStep::Done(Ok(())));
    assert_eq!(ctl, before);
}

#[test]
fn unregister_resets_the_state_whatever_the_shell_says() {
    let mut ctl = DockController::new();
    let mut shared = TaskbarState::default();
    let mut shell = ScriptedShell::agreeable();
    let first = register_appbar(&mut ctl, BAR, 0, 0, 1920, 32);
    drive(&mut ctl, &mut shared, &mut shell, first).unwrap();
    let step = unregister_appbar(&mut ctl, BAR);
    assert_eq!(step, DockStep::Perform(ShellRequest::Remove { handle: BAR }));
    assert_eq!(ctl.phase, DockPhase::Removing);
    let refused = ShellOutcome { accepted: false, rect: strip() };
    assert_eq!(ctl.resume(&mut shared, refused), DockStep::Done(Ok(())));
    assert!(!ctl.is_registered());
    assert_eq!(ctl.registration.state, RegistrationState::Unregistered);
    assert_eq!(shared.bounds, Some((0, 0, 1920, 32)));
}

#[test]
fn registration_that_always_fails_stops_after_five_attempts() {
    let mut ctl = DockController::new();
    let mut shared = TaskbarState::default();
    let mut shell = ScriptedShell::agreeable();
    shell.accept_new = vec![false; 64];
    let first = register_appbar(&mut ctl, BAR, 0, 0, 1920, 32);
    let result = drive(&mut ctl, &mut shared, &mut shell, first);
    assert_eq!(result, Err(DockError::RegistrationFailed));
    assert_eq!(shell.attempts(), 5);
    assert_eq!(REGISTER_ATTEMPTS, 5);
    let waits: Vec<u64> = shell
        .log
        .iter()
        .filter_map(|r| match r {
            ShellRequest::Wait { millis } => Some(*millis),
            _ => None,
        })
        .collect();
    assert_eq!(waits, vec![80, 200, 400, 800]);
    let removals = shell.log.iter().filter(|r| matches!(r, ShellRequest::Remove { .. })).count();
    assert_eq!(removals, 5);
    assert_eq!(shell.log.len(), 15);
    assert!(!ctl.is_registered());
    assert!(ctl.is_idle());
    assert_eq!(shared, TaskbarState::default());
}

#[test]
fn rejected_attempts_fail_whatever_the_other_requests_answer() {
    let answers = [
        ShellOutcome { accepted: true, rect: Rect { left: 0, top: 0, right: 0, bottom: 0 } },
        ShellOutcome { accepted: true, rect: strip() },
        ShellOutcome { accepted: false, rect: Rect { left: -5, top: 9, right: 3, bottom: -1 } },
    ];
    for unread in answers {
        let mut ctl = DockController::new();
        let mut shared = TaskbarState::default();
        let mut shell = ScriptedShell::agreeable();
        shell.unread = unread;
        shell.accept_new = vec![false; 64];
        let first = register_appbar(&mut ctl, BAR, 0, 0, 1920, 32);
        let result = drive(&mut ctl, &mut shared, &mut shell, first);
        assert_eq!(result, Err(DockError::RegistrationFailed));
        assert_eq!(shell.attempts(), 5);
        assert_eq!(shell.log.len(), 15);
        assert!(!ctl.is_registered());
        assert_eq!(shared, TaskbarState::default());
    }
}

#[test]
fn granted_registration_succeeds_whatever_the_other_requests_answer() {
    let answers = [
        ShellOutcome { accepted: true, rect: Rect { left: 0, top: 0, right: 0, bottom: 0 } },
        ShellOutcome { accepted: false, rect: Rect { left: 0, top: 0, right: 0, bottom: 0 } },
        ShellOutcome { accepted: false, rect: Rect { left: -5, top: 9, right: 3, bottom: -1 } },
    ];
    for unread in answers {
        let mut ctl = DockController::new();
        let mut shared = TaskbarState::default();
        let mut shell = ScriptedShell::agreeable();
        shell.unread = unread;
        let first = register_appbar(&mut ctl, BAR, 0, 0, 1920, 32);
        assert_eq!(drive(&mut ctl, &mut shared, &mut shell, first), Ok(()));
        assert_eq!(shell.attempts(), 1);
        assert!(ctl.is_registered());
        assert_eq!(ctl.registration.reserved_rect, strip());
        assert_eq!(shared.bounds, Some((0, 0, 1920, 32)));
        let after_first = shared;

        let gone = unregister_appbar(&mut ctl, BAR);
        assert_eq!(drive(&mut ctl, &mut shared, &mut shell, gone), Ok(()));
        assert!(!ctl.is_registered());

        shell.log.clear();
        let again = register_appbar(&mut ctl, BAR, 0, 0, 1920, 32);
        assert_eq!(drive(&mut ctl, &mut shared, &mut shell, again), Ok(()));
        assert_eq!(shell.attempts(), 1);
        assert!(!shell.log.iter().any(|r| matches!(r, ShellRequest::Remove { .. })));
        assert!(ctl.is_registered());
        assert_eq!(shared, after_first);
    }
}

#[test]
fn registration_succeeds_on_a_later_attempt() {
    let mut ctl = DockController::new();
    let mut shared = TaskbarState::default();
    let mut shell = ScriptedShell::agreeable();
    shell.accept_new = vec![false, false, true];
    let first = register_appbar(&mut ctl, BAR, 0, 0, 1920, 32);
    assert_eq!(drive(&mut ctl, &mut shared, &mut shell, first), Ok(()));
    assert_eq!(shell.attempts(), 3);
    assert!(ctl.is_registered());
    assert_eq!(shared.bounds, Some((0, 0, 1920, 32)));
}

#[test]
fn backoff_schedule_is_0_80_200_400_800() {
    assert_eq!(backoff_schedule(), vec![0, 80, 200, 400, 800]);
    assert_eq!(backoff_delay(0), 0);
    assert_eq!(backoff_delay(1), 80);
    assert_eq!(backoff_delay(2), 200);
    assert_eq!(backoff_delay(3), 400);
    assert_eq!(backoff_delay(4), 800);
}

#[test]
fn update_without_registration_registers() {
    let mut ctl = DockController::new();
    let mut shared = TaskbarState::default();
    let mut shell = ScriptedShell::agreeable();
    let first = update_appbar_position(&mut ctl, BAR, 0, 0, 1920, 32);
    assert_eq!(first, DockStep::Perform(ShellRequest::ExcludeFromSwitcher { handle: BAR }));
    assert_eq!(drive(&mut ctl, &mut shared, &mut shell, first), Ok(()));
    assert_eq!(shell.attempts(), 1);
    assert!(ctl.is_registered());
}

#[test]
fn update_in_place_queries_and_sets_without_registering_anew() {
    let mut ctl = DockController::new();
    let mut shared = TaskbarState::default();
    let mut shell = ScriptedShell::agreeable();
    let first = register_appbar(&mut ctl, BAR, 0, 0, 1920, 32);
    drive(&mut ctl, &mut shared, &mut shell, first).unwrap();
    shell.log.clear();
    let step = update_appbar_position(&mut ctl, BAR, 0, 0, 1920, 40);
    let wanted = Rect { left: 0, top: 0, right: 1920, bottom: 40 };
    assert_eq!(step, DockStep::Perform(ShellRequest::QueryPos { handle: BAR, rect: wanted }));
    assert_eq!(drive(&mut ctl, &mut shared, &mut shell, step), Ok(()));
    assert_eq!(
        shell.log,
        vec![
            ShellRequest::QueryPos { handle: BAR, rect: wanted },
            ShellRequest::SetPos { handle: BAR, rect: wanted },
            ShellRequest::PlaceWindow { handle: BAR, x: 0, y: 0, width: 1920, height: 40 },
        ]
    );
    assert!(ctl.is_registered());
    assert_eq!(shared.bounds, Some((0, 0, 1920, 40)));
}

#[test]
fn update_falls_back_to_registration_when_the_shell_rejects_the_set() {
    let mut ctl = DockController::new();
    let mut shared = TaskbarState::default();
    let mut shell = ScriptedShell::agreeable();
    let first = register_appbar(&mut ctl, BAR, 0, 0, 1920, 32);
    drive(&mut ctl, &mut shared, &mut shell, first).unwrap();
    shell.log.clear();
    shell.accept_setpos = vec![false];
    let step = update_appbar_position(&mut ctl, BAR, 0, 0, 1920, 40);
    assert_eq!(drive(&mut ctl, &mut shared, &mut shell, step), Ok(()));
    let wanted = Rect { left: 0, top: 0, right: 1920, bottom: 40 };
    assert_eq!(
        shell.log,
        vec![
            ShellRequest::QueryPos { handle: BAR, rect: wanted },
            ShellRequest::SetPos { handle: BAR, rect: wanted },
            ShellRequest::ExcludeFromSwitcher { handle: BAR },
            ShellRequest::New { handle: BAR, rect: wanted },
            ShellRequest::QueryPos { handle: BAR, rect: wanted },
            ShellRequest::SetPos { handle: BAR, rect: wanted },
            ShellRequest::PlaceWindow { handle: BAR, x: 0, y: 0, width: 1920, height: 40 },
        ]
    );
    assert!(ctl.is_registered());
    assert_eq!(shared.bounds, Some((0, 0, 1920, 40)));
}

#[test]
fn update_fallback_that_keeps_failing_reports_registration_failed() {
    let mut ctl = DockController::new();
    let mut shared = TaskbarState::default();
    let mut shell = ScriptedShell::agreeable();
    let first = register_appbar(&mut ctl, BAR, 0, 0, 1920, 32);
    drive(&mut ctl, &mut shared, &mut shell, first).unwrap();
    shell.log.clear();
    shell.accept_setpos = vec![false];
    shell.accept_new = vec![false; 8];
    let step = update_appbar_position(&mut ctl, BAR, 0, 0, 1920, 40);
    assert_eq!(
        drive(&mut ctl, &mut shared, &mut shell, step),
        Err(DockError::RegistrationFailed)
    );
    assert_eq!(shell.attempts(), 5);
    assert_eq!(shell.log.len(), 17);
    assert!(!ctl.is_registered());
    assert_eq!(shared.bounds, Some((0, 0, 1920, 32)));
}

#[test]
fn round_trip_register_unregister_register() {
    let mut ctl = DockController::new();
    let mut shared = TaskbarState::default();
    let mut shell = ScriptedShell::agreeable();
    let first = register_appbar(&mut ctl, BAR, 0, 0, 1920, 32);
    assert_eq!(drive(&mut ctl, &mut shared, &mut shell, first), Ok(()));
    let removal = unregister_appbar(&mut ctl, BAR);
    assert_eq!(drive(&mut ctl, &mut shared, &mut shell, removal), Ok(()));
    assert!(!ctl.is_registered());
    shell.log.clear();
    let second = register_appbar(&mut ctl, BAR, 0, 0, 1920, 32);
    assert_eq!(second, DockStep::Perform(ShellRequest::ExcludeFromSwitcher { handle: BAR }));
    assert_eq!(drive(&mut ctl, &mut shared, &mut shell, second), Ok(()));
    assert!(ctl.is_registered());
    assert_eq!(shell.attempts(), 1);
    assert_eq!(shared.bounds, Some((0, 0, 1920, 32)));
}

#[test]
fn resume_without_an_operation_does_nothing() {
    let mut ctl = DockController::new();
    let mut shared = TaskbarState::default();
    let before = ctl;
    let step = ctl.resume(&mut shared, ShellOutcome { accepted: true, rect: strip() });
    assert_eq!(step, DockStep::Done(Ok(())));
    assert_eq!(ctl, before);
    assert_eq!(shared, TaskbarState::default());
}

#[test]
fn rectangle_edges_stay_in_range() {
    let r = Rect::from_origin(i32::MAX - 10, 5, 100, 32);
    assert_eq!(r, Rect { left: i32::MAX - 10, top: 5, right: i32::MAX, bottom: 37 });
    assert_eq!(r.width(), 10);
    assert_eq!(r.height(), 32);
    let tall = Rect { left: 0, top: i32::MAX - 1, right: 10, bottom: 0 }.with_height(32);
    assert_eq!(tall.bottom, i32::MAX);
    let wide = Rect { left: i32::MIN, top: 0, right: i32::MAX, bottom: 0 };
    assert_eq!(wide.width(), i32::MAX);
}

#[test]
fn abandoned_operation_counts_as_active() {
    let mut ctl = DockController::new();
    let first = register_appbar(&mut ctl, BAR, 0, 0, 1920, 32);
    assert!(matches!(first, DockStep::Perform(_)));
    // The operation is dropped here; the next one must clear what it may have left.
    let next = register_appbar(&mut ctl, BAR, 0, 0, 1920, 32);
    assert_eq!(next, DockStep::Perform(ShellRequest::Remove { handle: BAR }));
    let removal = unregister_appbar(&mut ctl, BAR);
    assert_eq!(removal, DockStep::Perform(ShellRequest::Remove { handle: BAR }));
}
