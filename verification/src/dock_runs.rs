//! Whole operations of the dock controller, and what holds of every one of
//! them whatever the shell answers.
//!
//! A run feeds the controller a sequence of outcomes, one for each request it
//! hands out, until the operation is over or the outcomes are used up.

use vstd::prelude::*;
use crate::dock::{
    DockController, DockError, DockPhase, DockRequest, DockStep, RegistrationState,
    REGISTER_ATTEMPTS,
};
use crate::shell::{ShellOutcome, ShellRequest};
use crate::state::TaskbarState;

verus! {

/// Where a run has got to.
pub struct Run {
    pub ctl: DockController,
    pub shared: TaskbarState,
    /// The step the run stopped at: the result, or the request that no
    /// outcome was left for.
    pub step: DockStep,
    /// The requests handed out, in order.
    pub requests: Seq<ShellRequest>,
}

/// The run that starts at `step` and answers each request with the next of `outcomes`.
pub open spec fn run(
    ctl: DockController,
    shared: TaskbarState,
    step: DockStep,
    outcomes: Seq<ShellOutcome>,
) -> Run
    decreases outcomes.len(),
{
    match step {
        DockStep::Done(_) => Run { ctl, shared, step, requests: Seq::empty() },
        DockStep::Perform(req) => if outcomes.len() == 0 {
            Run { ctl, shared, step, requests: seq![req] }
        } else {
            let next = ctl.resume_spec(shared, outcomes[0]);
            let rest = run(next.0, next.1, next.2, outcomes.skip(1));
            Run { requests: seq![req] + rest.requests, ..rest }
        },
    }
}

/// How many of `requests` are registration attempts.
pub open spec fn attempts_in(requests: Seq<ShellRequest>) -> nat
    decreases requests.len(),
{
    if requests.len() == 0 {
        0
    } else {
        (if requests[0] is New {
            1nat
        } else {
            0nat
        }) + attempts_in(requests.skip(1))
    }
}

/// An upper bound on the requests that are still to come after the one that
/// is waiting in `phase`, that one included.
pub open spec fn requests_left(phase: DockPhase) -> nat {
    match phase {
        DockPhase::Idle => 0,
        DockPhase::Removing => 1,
        DockPhase::Placing => 1,
        DockPhase::Committing { in_place } => if in_place {
            18
        } else {
            2
        },
        DockPhase::Querying { in_place } => if in_place {
            19
        } else {
            3
        },
        DockPhase::CleaningUp { attempt } => if attempt < REGISTER_ATTEMPTS {
            (15 - 3 * attempt) as nat
        } else {
            1
        },
        DockPhase::Attempting { attempt } => if attempt < REGISTER_ATTEMPTS {
            (16 - 3 * attempt) as nat
        } else {
            4
        },
        DockPhase::BackingOff { attempt } => if attempt < REGISTER_ATTEMPTS {
            (17 - 3 * attempt) as nat
        } else {
            5
        },
        DockPhase::Styling => 17,
        DockPhase::Settling => 18,
        DockPhase::ClearingPrevious => 19,
    }
}

/// An upper bound on the registration attempts that are still to come from `phase`.
pub open spec fn attempts_left(phase: DockPhase) -> nat {
    match phase {
        DockPhase::Idle | DockPhase::Removing | DockPhase::Placing => 0,
        DockPhase::Committing { in_place } | DockPhase::Querying { in_place } => if in_place {
            5
        } else {
            0
        },
        DockPhase::CleaningUp { attempt } => if attempt < REGISTER_ATTEMPTS {
            (4 - attempt) as nat
        } else {
            0
        },
        DockPhase::Attempting { attempt } => if attempt < REGISTER_ATTEMPTS {
            (4 - attempt) as nat
        } else {
            0
        },
        DockPhase::BackingOff { attempt } => if attempt < REGISTER_ATTEMPTS {
            (5 - attempt) as nat
        } else {
            1
        },
        DockPhase::Styling | DockPhase::Settling | DockPhase::ClearingPrevious => 5,
    }
}

/// 1 if `step` hands out a registration attempt, else 0.
pub open spec fn attempts_in_step(step: DockStep) -> nat {
    match step {
        DockStep::Perform(req) => if req is New {
            1
        } else {
            0
        },
        DockStep::Done(_) => 0,
    }
}

/// The step and the phase belong together: a request is out exactly when a
/// phase waits for its outcome, and an attempt is out exactly in the phase
/// that attempts.
pub open spec fn in_step(ctl: DockController, step: DockStep) -> bool {
    match step {
        DockStep::Done(_) => ctl.phase == DockPhase::Idle,
        DockStep::Perform(req) => ctl.phase != DockPhase::Idle && (req is New <==> ctl.phase
            is Attempting),
    }
}

proof fn lemma_attempts_of_prepended(req: ShellRequest, rest: Seq<ShellRequest>)
    ensures
        attempts_in(seq![req] + rest) == (if req is New {
            1nat
        } else {
            0nat
        }) + attempts_in(rest),
{
    let all = seq![req] + rest;
    assert(all.skip(1) =~= rest);
    assert(all[0] == req);
}

/// One transition keeps step and phase together, uses up one of the requests
/// that are left and, where it hands out an attempt, one of the attempts that
/// are left. It leaves the shared flags and the request alone.
pub proof fn lemma_resume_progress(ctl: DockController, shared: TaskbarState, outcome: ShellOutcome)
    requires
        ctl.phase != DockPhase::Idle,
    ensures
        ({
            let next = ctl.resume_spec(shared, outcome);
            &&& in_step(next.0, next.2)
            &&& requests_left(next.0.phase) < requests_left(ctl.phase)
            &&& attempts_left(next.0.phase) + attempts_in_step(next.2) <= attempts_left(ctl.phase)
            &&& next.1.fullscreen_hidden == shared.fullscreen_hidden
            &&& next.1.appbar_transition == shared.appbar_transition
            &&& next.0.request == ctl.request
            &&& ctl.wf() ==> next.0.wf()
        }),
{
}

/// Every run is bounded, whatever the shell answers: it hands out no more
/// requests than `requests_left` allows and no more registration attempts
/// than `attempts_left` allows, it is over once that many outcomes have come
/// in, and it never touches the two shared flags.
pub proof fn lemma_run_bounded(
    ctl: DockController,
    shared: TaskbarState,
    step: DockStep,
    outcomes: Seq<ShellOutcome>,
)
    requires
        in_step(ctl, step),
    ensures
        ({
            let r = run(ctl, shared, step, outcomes);
            &&& in_step(r.ctl, r.step)
            &&& r.requests.len() <= requests_left(ctl.phase)
            &&& attempts_in(r.requests) <= attempts_in_step(step) + attempts_left(ctl.phase)
            &&& outcomes.len() >= requests_left(ctl.phase) ==> r.step is Done
            &&& r.step is Perform ==> r.requests.len() == outcomes.len() + 1
            &&& r.step is Done ==> r.requests.len() <= outcomes.len()
            &&& r.shared.fullscreen_hidden == shared.fullscreen_hidden
            &&& r.shared.appbar_transition == shared.appbar_transition
            &&& ctl.wf() ==> r.ctl.wf()
        }),
    decreases outcomes.len(),
{
    match step {
        DockStep::Done(_) => {},
        DockStep::Perform(req) => {
            if outcomes.len() == 0 {
                lemma_attempts_of_prepended(req, Seq::empty());
                assert(seq![req] + Seq::<ShellRequest>::empty() =~= seq![req]);
            } else {
                let next = ctl.resume_spec(shared, outcomes[0]);
                lemma_resume_progress(ctl, shared, outcomes[0]);
                lemma_run_bounded(next.0, next.1, next.2, outcomes.skip(1));
                let rest = run(next.0, next.1, next.2, outcomes.skip(1));
                lemma_attempts_of_prepended(req, rest.requests);
            }
        },
    }
}

/// Whether `outcome` is a rejection where the controller reads it as the
/// answer to a registration attempt. Where the controller is not waiting
/// for such an answer, any outcome will do.
pub open spec fn rejects(ctl: DockController, outcome: ShellOutcome) -> bool {
    ctl.phase is Attempting ==> !outcome.accepted
}

/// Whether `outcome` grants what was asked, in as much as the controller
/// reads it: a registration attempt is accepted, the query answers with the
/// rectangle that was asked for, and the reservation leaves the rectangle as
/// it was handed in, and is accepted where the controller reads that. What
/// comes back from a removal, a pause, the window style or the placing of
/// the window is not read, and may be anything.
pub open spec fn grants(ctl: DockController, outcome: ShellOutcome) -> bool {
    match ctl.phase {
        DockPhase::Attempting { attempt } => outcome.accepted,
        DockPhase::Querying { in_place } => outcome.rect == ctl.request.rect(),
        DockPhase::Committing { in_place } => outcome.rect == ctl.target && (in_place
            ==> outcome.accepted),
        _ => true,
    }
}

/// Whether every outcome of the run that starts at `step` is as `reads`
/// wants it, given the controller that takes it.
pub open spec fn throughout(
    ctl: DockController,
    shared: TaskbarState,
    step: DockStep,
    outcomes: Seq<ShellOutcome>,
    reads: spec_fn(DockController, ShellOutcome) -> bool,
) -> bool
    decreases outcomes.len(),
{
    match step {
        DockStep::Done(_) => true,
        DockStep::Perform(_) => outcomes.len() == 0 || {
            let next = ctl.resume_spec(shared, outcomes[0]);
            reads(ctl, outcomes[0]) && throughout(next.0, next.1, next.2, outcomes.skip(1), reads)
        },
    }
}

/// Whether the shell rejects every registration attempt of the run.
pub open spec fn rejected_throughout(
    ctl: DockController,
    shared: TaskbarState,
    step: DockStep,
    outcomes: Seq<ShellOutcome>,
) -> bool {
    throughout(ctl, shared, step, outcomes, |c: DockController, o: ShellOutcome| rejects(c, o))
}

/// Whether the shell grants what it is asked for all through the run.
pub open spec fn granted_throughout(
    ctl: DockController,
    shared: TaskbarState,
    step: DockStep,
    outcomes: Seq<ShellOutcome>,
) -> bool {
    throughout(ctl, shared, step, outcomes, |c: DockController, o: ShellOutcome| grants(c, o))
}

/// Whether `phase` belongs to the part of a registration that ends with the
/// last attempt.
pub open spec fn before_grant(phase: DockPhase) -> bool {
    match phase {
        DockPhase::ClearingPrevious | DockPhase::Settling | DockPhase::Styling => true,
        DockPhase::BackingOff { attempt }
        | DockPhase::Attempting { attempt }
        | DockPhase::CleaningUp { attempt } => attempt < REGISTER_ATTEMPTS,
        _ => false,
    }
}

proof fn lemma_rejecting_run(
    ctl: DockController,
    shared: TaskbarState,
    step: DockStep,
    outcomes: Seq<ShellOutcome>,
    reads: spec_fn(DockController, ShellOutcome) -> bool,
)
    requires
        in_step(ctl, step),
        before_grant(ctl.phase),
        throughout(ctl, shared, step, outcomes, reads),
        forall|c: DockController, o: ShellOutcome| #[trigger] reads(c, o) ==> rejects(c, o),
        outcomes.len() >= requests_left(ctl.phase),
    ensures
        ({
            let r = run(ctl, shared, step, outcomes);
            &&& r.step == DockStep::Done(Err(DockError::RegistrationFailed))
            &&& attempts_in(r.requests) == attempts_in_step(step) + attempts_left(ctl.phase)
            &&& r.ctl.phase == DockPhase::Idle
            &&& r.ctl.registration.state == RegistrationState::Unregistered
            &&& r.shared == shared
        }),
    decreases outcomes.len(),
{
    let req = step->Perform_0;
    let next = ctl.resume_spec(shared, outcomes[0]);
    let rest = run(next.0, next.1, next.2, outcomes.skip(1));
    lemma_attempts_of_prepended(req, rest.requests);
    assert(reads(ctl, outcomes[0]));
    if next.0.phase != DockPhase::Idle {
        lemma_rejecting_run(next.0, next.1, next.2, outcomes.skip(1), reads);
    }
}

/// Retry bound. A registration whose every attempt the shell rejects ends
/// after exactly five attempts with `RegistrationFailed`, whatever comes
/// back from the other requests: the controller then believes nothing is
/// registered, and the shared record is as it was. Seventeen or nineteen
/// outcomes are the most such a registration can use.
pub proof fn lemma_rejected_registration_fails_after_five_attempts(
    ctl: DockController,
    shared: TaskbarState,
    req: DockRequest,
    outcomes: Seq<ShellOutcome>,
)
    requires
        ({
            let start = ctl.register_start(req);
            rejected_throughout(start.0, shared, start.1, outcomes)
        }),
        outcomes.len() >= 19,
    ensures
        ({
            let start = ctl.register_start(req);
            let r = run(start.0, shared, start.1, outcomes);
            &&& r.step == DockStep::Done(Err(DockError::RegistrationFailed))
            &&& attempts_in(r.requests) == REGISTER_ATTEMPTS
            &&& r.ctl.phase == DockPhase::Idle
            &&& r.ctl.registration.state == RegistrationState::Unregistered
            &&& r.shared == shared
        }),
{
    let start = ctl.register_start(req);
    lemma_rejecting_run(
        start.0,
        shared,
        start.1,
        outcomes,
        |c: DockController, o: ShellOutcome| rejects(c, o),
    );
}

/// Whatever the shell answers, each of the three operations is over after at
/// most nineteen requests, no more than five of them registration attempts.
pub proof fn lemma_operations_are_bounded(
    ctl: DockController,
    shared: TaskbarState,
    req: DockRequest,
    outcomes: Seq<ShellOutcome>,
)
    ensures
        ({
            let start = ctl.register_start(req);
            let r = run(start.0, shared, start.1, outcomes);
            &&& r.requests.len() <= 19
            &&& attempts_in(r.requests) <= REGISTER_ATTEMPTS
            &&& outcomes.len() >= 19 ==> r.step is Done
        }),
        ({
            let start = ctl.update_start(req);
            let r = run(start.0, shared, start.1, outcomes);
            &&& r.requests.len() <= 19
            &&& attempts_in(r.requests) <= REGISTER_ATTEMPTS
            &&& outcomes.len() >= 19 ==> r.step is Done
        }),
        ({
            let start = ctl.unregister_start(req.handle);
            let r = run(start.0, shared, start.1, outcomes);
            &&& r.requests.len() <= 1
            &&& attempts_in(r.requests) == 0
            &&& outcomes.len() >= 1 ==> r.step == DockStep::Done(Ok(()))
        }),
{
    let a = ctl.register_start(req);
    lemma_run_bounded(a.0, shared, a.1, outcomes);
    let b = ctl.update_start(req);
    lemma_run_bounded(b.0, shared, b.1, outcomes);
    let c = ctl.unregister_start(req.handle);
    if ctl.believes_active() {
        lemma_run_bounded(c.0, shared, c.1, outcomes);
        if outcomes.len() >= 1 {
            let next = c.0.resume_spec(shared, outcomes[0]);
            assert(run(next.0, next.1, next.2, outcomes.skip(1)).step == next.2);
        }
    }
}

/// Whether `phase` belongs to a registration or a reposition that is under way.
pub open spec fn reserving(phase: DockPhase) -> bool {
    phase != DockPhase::Idle && phase != DockPhase::Removing
}

/// How a registration or reposition ends, whatever the shell answers.
///
/// If it succeeds, the controller believes the reservation is in place, and
/// the restore point of the shared record is the rectangle that was
/// reserved. If it fails, the error is `RegistrationFailed`, the controller
/// believes nothing is registered, and the shared record is as it was. As
/// long as it is under way, the shared record is as it was.
pub proof fn lemma_reservation_outcome(
    ctl: DockController,
    shared: TaskbarState,
    step: DockStep,
    outcomes: Seq<ShellOutcome>,
)
    requires
        in_step(ctl, step),
        reserving(ctl.phase),
    ensures
        ({
            let r = run(ctl, shared, step, outcomes);
            match r.step {
                DockStep::Done(Ok(_)) => {
                    &&& r.ctl.registration.state == RegistrationState::Registered
                    &&& r.shared == (TaskbarState {
                        bounds: Some(crate::dock::bounds_of(r.ctl.registration.reserved_rect)),
                        ..shared
                    })
                },
                DockStep::Done(Err(e)) => {
                    &&& e == DockError::RegistrationFailed
                    &&& r.ctl.registration.state == RegistrationState::Unregistered
                    &&& r.shared == shared
                },
                DockStep::Perform(_) => r.shared == shared && reserving(r.ctl.phase),
            }
        }),
    decreases outcomes.len(),
{
    if outcomes.len() > 0 {
        let next = ctl.resume_spec(shared, outcomes[0]);
        if next.0.phase != DockPhase::Idle {
            lemma_reservation_outcome(next.0, next.1, next.2, outcomes.skip(1));
        }
    }
}

/// Idempotent removal. Removing when nothing is believed registered is over
/// at once with success: no request goes out, whatever outcomes are at
/// hand, and neither the controller nor the shared record changes.
pub proof fn lemma_unregister_twice(
    ctl: DockController,
    shared: TaskbarState,
    handle: isize,
    outcomes: Seq<ShellOutcome>,
)
    requires
        !ctl.believes_active(),
    ensures
        ({
            let start = ctl.unregister_start(handle);
            let r = run(start.0, shared, start.1, outcomes);
            &&& r.step == DockStep::Done(Ok(()))
            &&& r.requests.len() == 0
            &&& r.ctl == ctl
            &&& r.shared == shared
        }),
{
}

/// After a removal has run to its end, nothing is believed registered, so
/// that a second removal does nothing and a registration starts afresh,
/// with the window style.
pub proof fn lemma_removal_resets(
    ctl: DockController,
    shared: TaskbarState,
    handle: isize,
    outcomes: Seq<ShellOutcome>,
    req: DockRequest,
)
    requires
        outcomes.len() >= 1,
    ensures
        ({
            let start = ctl.unregister_start(handle);
            let r = run(start.0, shared, start.1, outcomes);
            &&& r.step == DockStep::Done(Ok(()))
            &&& !r.ctl.believes_active()
            &&& r.shared == shared
            &&& r.ctl.unregister_start(handle).1 == DockStep::Done(Ok(()))
            &&& r.ctl.register_start(req).1 == DockStep::Perform(
                ShellRequest::ExcludeFromSwitcher { handle: req.handle },
            )
        }),
{
    let start = ctl.unregister_start(handle);
    if ctl.believes_active() {
        let next = start.0.resume_spec(shared, outcomes[0]);
        assert(run(next.0, next.1, next.2, outcomes.skip(1)).step == next.2);
    }
}

/// How many requests a reservation still hands out from `phase` on if
/// every call is accepted, for the phases that such a reservation passes
/// through; 0 for the others.
pub open spec fn grant_steps(phase: DockPhase) -> nat {
    match phase {
        DockPhase::ClearingPrevious => 7,
        DockPhase::Settling => 6,
        DockPhase::Styling => 5,
        DockPhase::BackingOff { attempt } => 5,
        DockPhase::Attempting { attempt } => 4,
        DockPhase::Querying { in_place } => 3,
        DockPhase::Committing { in_place } => 2,
        DockPhase::Placing => 1,
        _ => 0,
    }
}

proof fn lemma_granting_run(
    ctl: DockController,
    shared: TaskbarState,
    step: DockStep,
    outcomes: Seq<ShellOutcome>,
    reads: spec_fn(DockController, ShellOutcome) -> bool,
)
    requires
        in_step(ctl, step),
        grant_steps(ctl.phase) > 0,
        throughout(ctl, shared, step, outcomes, reads),
        forall|c: DockController, o: ShellOutcome| #[trigger] reads(c, o) ==> grants(c, o),
        outcomes.len() >= grant_steps(ctl.phase),
        (ctl.phase is Placing || ctl.phase is Committing) ==> ctl.target == ctl.request.rect(),
    ensures
        ({
            let r = run(ctl, shared, step, outcomes);
            &&& r.step == DockStep::Done(Ok(()))
            &&& r.ctl.registration.state == RegistrationState::Registered
            &&& r.ctl.registration.reserved_rect == ctl.request.rect()
            &&& r.shared == (TaskbarState {
                bounds: Some(crate::dock::bounds_of(ctl.request.rect())),
                ..shared
            })
            &&& attempts_in(r.requests) == attempts_in_step(step) + (if ctl.phase
                is ClearingPrevious || ctl.phase is Settling || ctl.phase is Styling || ctl.phase
                is BackingOff {
                1nat
            } else {
                0nat
            })
        }),
    decreases outcomes.len(),
{
    let req = step->Perform_0;
    let next = ctl.resume_spec(shared, outcomes[0]);
    let rest = run(next.0, next.1, next.2, outcomes.skip(1));
    lemma_attempts_of_prepended(req, rest.requests);
    assert(reads(ctl, outcomes[0]));
    if next.0.phase != DockPhase::Idle {
        lemma_granting_run(next.0, next.1, next.2, outcomes.skip(1), reads);
    }
}

/// A registration that the shell grants as asked: it accepts the attempt,
/// answers the query with the rectangle asked for, and leaves the rectangle
/// of the reservation as it is; what comes back from the other requests
/// does not matter. Such a registration succeeds at the first attempt;
/// afterwards the reservation is believed in place, the reserved rectangle
/// is the one asked for, and the restore point of the shared record stands
/// for it. For a strip that lies within the range of coordinates, the
/// restore point is the strip's origin and size.
pub proof fn lemma_granted_registration(
    ctl: DockController,
    shared: TaskbarState,
    req: DockRequest,
    outcomes: Seq<ShellOutcome>,
)
    requires
        ({
            let start = ctl.register_start(req);
            granted_throughout(start.0, shared, start.1, outcomes)
        }),
        outcomes.len() >= 7,
    ensures
        ({
            let start = ctl.register_start(req);
            let r = run(start.0, shared, start.1, outcomes);
            &&& r.step == DockStep::Done(Ok(()))
            &&& attempts_in(r.requests) == 1
            &&& r.ctl.registration.state == RegistrationState::Registered
            &&& r.ctl.registration.reserved_rect == req.rect()
            &&& r.shared.bounds == Some(crate::dock::bounds_of(req.rect()))
            &&& r.shared.fullscreen_hidden == shared.fullscreen_hidden
            &&& r.shared.appbar_transition == shared.appbar_transition
            &&& (0 <= req.width && 0 <= req.height && req.x + req.width <= i32::MAX && req.y
                + req.height <= i32::MAX) ==> r.shared.bounds == Some(
                (req.x, req.y, req.width as u32, req.height as u32),
            )
        }),
{
    let start = ctl.register_start(req);
    lemma_granting_run(
        start.0,
        shared,
        start.1,
        outcomes,
        |c: DockController, o: ShellOutcome| grants(c, o),
    );
}

/// Round trip. After a registration and its removal, the same registration
/// succeeds again, with a shell that grants both registrations as asked and
/// answers the removal in any way: nothing has to be removed first, one
/// attempt is enough, and the shared record ends as after the first
/// registration.
pub proof fn lemma_register_unregister_register(
    ctl: DockController,
    shared: TaskbarState,
    req: DockRequest,
    first: Seq<ShellOutcome>,
    removal: Seq<ShellOutcome>,
    second: Seq<ShellOutcome>,
)
    requires
        ({
            let a = ctl.register_start(req);
            let registered = run(a.0, shared, a.1, first);
            let b = registered.ctl.unregister_start(req.handle);
            let removed = run(b.0, registered.shared, b.1, removal);
            let c = removed.ctl.register_start(req);
            &&& granted_throughout(a.0, shared, a.1, first)
            &&& granted_throughout(c.0, removed.shared, c.1, second)
        }),
        first.len() >= 7,
        removal.len() >= 1,
        second.len() >= 7,
    ensures
        ({
            let a = ctl.register_start(req);
            let registered = run(a.0, shared, a.1, first);
            let b = registered.ctl.unregister_start(req.handle);
            let removed = run(b.0, registered.shared, b.1, removal);
            let c = removed.ctl.register_start(req);
            let again = run(c.0, removed.shared, c.1, second);
            &&& registered.step == DockStep::Done(Ok(()))
            &&& removed.step == DockStep::Done(Ok(()))
            &&& removed.ctl.registration.state == RegistrationState::Unregistered
            &&& c.1 == DockStep::Perform(ShellRequest::ExcludeFromSwitcher { handle: req.handle })
            &&& again.step == DockStep::Done(Ok(()))
            &&& attempts_in(again.requests) == 1
            &&& again.ctl.registration.state == RegistrationState::Registered
            &&& again.shared == registered.shared
        }),
{
    let a = ctl.register_start(req);
    lemma_granted_registration(ctl, shared, req, first);
    lemma_reservation_outcome(a.0, shared, a.1, first);
    let registered = run(a.0, shared, a.1, first);
    lemma_removal_resets(registered.ctl, registered.shared, req.handle, removal, req);
    let b = registered.ctl.unregister_start(req.handle);
    let removed = run(b.0, registered.shared, b.1, removal);
    lemma_granted_registration(removed.ctl, removed.shared, req, second);
    let c = removed.ctl.register_start(req);
    lemma_reservation_outcome(c.0, removed.shared, c.1, second);
}

} // verus!
