//! The dock controller: registers, repositions and removes the bar's screen
//! reservation, one shell call at a time.
//!
//! An operation starts with [`register_appbar`], [`update_appbar_position`] or
//! [`unregister_appbar`]. Each returns a [`DockStep`]: either the next request
//! for the shell or the operation's result. After performing a request the
//! embedding calls [`DockController::resume`] with what the shell answered.
//! The embedding holds one lock around a whole operation, so that no two
//! operations interleave.

use vstd::prelude::*;
use crate::geometry::{clamp_u32, span_to_u32, Rect};
use crate::shell::{ShellOutcome, ShellRequest};
use crate::state::TaskbarState;

verus! {

/// How often a registration is attempted before it is given up.
pub const REGISTER_ATTEMPTS: u8 = 5;

/// Pause after removing an earlier registration, in milliseconds.
pub const SETTLE_MS: u64 = 80;

/// Why a dock operation did not do what was asked.
#[derive(Clone, Copy, Debug, PartialEq, Eq)]
pub enum DockError {
    /// The monitor selector names no connected monitor.
    NotFound,
    /// The shell rejected the reservation on every attempt. The bar goes on
    /// as an ordinary topmost window without reserved space.
    RegistrationFailed,
    /// The lock around the reservation protocol could not be taken. The
    /// controller never reports this itself.
    LockUnavailable,
}

impl DockError {
    /// The message for the user.
    pub fn message(&self) -> (m: &'static str)
        ensures
            m@ == (match *self {
                DockError::NotFound => "Monitor not found"@,
                DockError::RegistrationFailed => "Failed to register AppBar"@,
                DockError::LockUnavailable => "Failed to lock APPBAR_LOCK"@,
            }),
    {
        match self {
            DockError::NotFound => "Monitor not found",
            DockError::RegistrationFailed => "Failed to register AppBar",
            DockError::LockUnavailable => "Failed to lock APPBAR_LOCK",
        }
    }
}

/// Where the registration stands, as this process believes.
#[derive(Clone, Copy, Debug, PartialEq, Eq, Structural)]
pub enum RegistrationState {
    Unregistered,
    Registering,
    Registered,
    Unregistering,
}

/// The screen edge a reservation is attached to.
#[derive(Clone, Copy, Debug, PartialEq, Eq, Structural)]
pub enum DockEdge {
    Top,
}

/// The bar's registration with the shell.
#[derive(Clone, Copy, Debug, PartialEq, Eq)]
pub struct DockRegistration {
    /// The window the registration belongs to.
    pub host_handle: isize,
    pub edge: DockEdge,
    /// The rectangle of the last completed reservation.
    pub reserved_rect: Rect,
    pub state: RegistrationState,
}

/// What a caller asked to reserve.
#[derive(Clone, Copy, Debug, PartialEq, Eq)]
pub struct DockRequest {
    pub handle: isize,
    pub x: i32,
    pub y: i32,
    pub width: i32,
    pub height: i32,
}

/// Which request of the running operation is waiting for its outcome.
#[derive(Clone, Copy, Debug, PartialEq, Eq)]
pub enum DockPhase {
    /// No operation is running.
    Idle,
    /// Removing the registration that was believed active, before registering anew.
    ClearingPrevious,
    /// Pausing after that removal.
    Settling,
    /// Excluding the window from the window switcher.
    Styling,
    /// Pausing before attempt number `attempt` (counted from 0).
    BackingOff { attempt: u8 },
    /// Attempt number `attempt` (counted from 0) is with the shell.
    Attempting { attempt: u8 },
    /// Removing whatever attempt number `attempt` left behind.
    CleaningUp { attempt: u8 },
    /// Asking the shell which rectangle it grants.
    Querying { in_place: bool },
    /// Reserving the rectangle.
    Committing { in_place: bool },
    /// Moving the window onto the reserved rectangle.
    Placing,
    /// Removing the registration for good.
    Removing,
}

/// What the embedding does next.
#[derive(Clone, Copy, Debug, PartialEq, Eq)]
pub enum DockStep {
    /// Perform this request, then call [`DockController::resume`].
    Perform(ShellRequest),
    /// The operation is over.
    Done(Result<(), DockError>),
}

/// Milliseconds to pause before attempt number `attempt` (counted from 0).
pub open spec fn backoff_ms(attempt: int) -> int {
    if attempt <= 0 {
        0
    } else if attempt == 1 {
        80
    } else if attempt == 2 {
        200
    } else if attempt == 3 {
        400
    } else {
        800
    }
}

/// The delays before each of the attempts, in order.
pub open spec fn backoff_schedule_spec() -> Seq<u64> {
    seq![0u64, 80u64, 200u64, 400u64, 800u64]
}

/// Milliseconds to pause before attempt number `attempt` (counted from 0).
pub fn backoff_delay(attempt: u8) -> (ms: u64)
    ensures
        ms == backoff_ms(attempt as int),
        attempt < REGISTER_ATTEMPTS ==> ms == backoff_schedule_spec()[attempt as int],
{
    if attempt == 0 {
        0
    } else if attempt == 1 {
        80
    } else if attempt == 2 {
        200
    } else if attempt == 3 {
        400
    } else {
        800
    }
}

/// The delays before each of the attempts, in order.
pub fn backoff_schedule() -> (v: Vec<u64>)
    ensures
        v@ == backoff_schedule_spec(),
        v@.len() == REGISTER_ATTEMPTS,
{
    let mut v: Vec<u64> = Vec::new();
    v.push(0);
    v.push(80);
    v.push(200);
    v.push(400);
    v.push(800);
    assert(v@ =~= backoff_schedule_spec());
    v
}

/// The state machine behind the three dock operations.
#[derive(Clone, Copy, Debug, PartialEq, Eq)]
pub struct DockController {
    pub registration: DockRegistration,
    pub phase: DockPhase,
    /// What the running operation was asked for.
    pub request: DockRequest,
    /// The rectangle under negotiation with the shell.
    pub target: Rect,
}

impl DockRequest {
    /// The rectangle a request asks for.
    pub open spec fn rect(self) -> Rect {
        Rect::at(self.x as int, self.y as int, self.width as int, self.height as int)
    }
}

/// The restore point that stands for a reserved rectangle.
pub open spec fn bounds_of(r: Rect) -> (i32, i32, u32, u32) {
    (r.left, r.top, clamp_u32(r.spec_width()) as u32, clamp_u32(r.spec_height()) as u32)
}

/// The request that moves the window onto `r`.
pub open spec fn place_request(handle: isize, r: Rect) -> ShellRequest {
    ShellRequest::PlaceWindow {
        handle,
        x: r.left,
        y: r.top,
        width: r.spec_width() as i32,
        height: r.spec_height() as i32,
    }
}

impl DockController {
    /// A controller that believes nothing is registered and runs no operation.
    pub open spec fn initial() -> DockController {
        DockController {
            registration: DockRegistration {
                host_handle: 0,
                edge: DockEdge::Top,
                reserved_rect: Rect { left: 0, top: 0, right: 0, bottom: 0 },
                state: RegistrationState::Unregistered,
            },
            phase: DockPhase::Idle,
            request: DockRequest { handle: 0, x: 0, y: 0, width: 0, height: 0 },
            target: Rect { left: 0, top: 0, right: 0, bottom: 0 },
        }
    }

    /// Whether a registration is believed to exist or to be half made. An
    /// operation that was abandoned midway counts: the shell may hold
    /// something for it.
    pub open spec fn believes_active(self) -> bool {
        self.registration.state != RegistrationState::Unregistered
    }

    /// This controller in another phase and registration state.
    pub open spec fn moved(self, phase: DockPhase, state: RegistrationState) -> DockController {
        DockController {
            phase,
            registration: DockRegistration { state, ..self.registration },
            ..self
        }
    }

    /// Phase and registration state fit together, and no attempt is numbered
    /// beyond the last.
    pub open spec fn wf(self) -> bool {
        match self.phase {
            DockPhase::Idle => self.registration.state == RegistrationState::Registered
                || self.registration.state == RegistrationState::Unregistered,
            DockPhase::ClearingPrevious => self.registration.state
                == RegistrationState::Unregistering,
            DockPhase::Settling => self.registration.state == RegistrationState::Registering,
            DockPhase::Styling => self.registration.state == RegistrationState::Registering,
            DockPhase::BackingOff { attempt } => attempt < REGISTER_ATTEMPTS
                && self.registration.state == RegistrationState::Registering,
            DockPhase::Attempting { attempt } => attempt < REGISTER_ATTEMPTS
                && self.registration.state == RegistrationState::Registering,
            DockPhase::CleaningUp { attempt } => attempt < REGISTER_ATTEMPTS
                && self.registration.state == RegistrationState::Registering,
            DockPhase::Querying { in_place } => self.registration.state == (if in_place {
                RegistrationState::Registered
            } else {
                RegistrationState::Registering
            }),
            DockPhase::Committing { in_place } => self.registration.state == (if in_place {
                RegistrationState::Registered
            } else {
                RegistrationState::Registering
            }),
            DockPhase::Placing => self.registration.state == RegistrationState::Registered
                || self.registration.state == RegistrationState::Registering,
            DockPhase::Removing => self.registration.state == RegistrationState::Unregistering,
        }
    }

    /// Where a registration starts: with the removal of what is believed
    /// active, else with the window style.
    pub open spec fn register_start(self, req: DockRequest) -> (DockController, DockStep) {
        let c = DockController {
            request: req,
            target: req.rect(),
            registration: DockRegistration { host_handle: req.handle, ..self.registration },
            ..self
        };
        if self.believes_active() {
            (
                c.moved(DockPhase::ClearingPrevious, RegistrationState::Unregistering),
                DockStep::Perform(ShellRequest::Remove { handle: req.handle }),
            )
        } else {
            (
                c.moved(DockPhase::Styling, RegistrationState::Registering),
                DockStep::Perform(ShellRequest::ExcludeFromSwitcher { handle: req.handle }),
            )
        }
    }

    /// Where a removal starts: with nothing at all when nothing is believed
    /// active, else with the removal.
    pub open spec fn unregister_start(self, handle: isize) -> (DockController, DockStep) {
        if !self.believes_active() {
            (self, DockStep::Done(Ok(())))
        } else {
            (
                DockController {
                    registration: DockRegistration { host_handle: handle, ..self.registration },
                    request: DockRequest { handle, ..self.request },
                    ..self
                }.moved(DockPhase::Removing, RegistrationState::Unregistering),
                DockStep::Perform(ShellRequest::Remove { handle }),
            )
        }
    }

    /// Where a reposition starts: as a registration unless one is in place,
    /// else with the query for the new rectangle.
    pub open spec fn update_start(self, req: DockRequest) -> (DockController, DockStep) {
        if self.registration.state != RegistrationState::Registered {
            self.register_start(req)
        } else {
            (
                DockController {
                    request: req,
                    target: req.rect(),
                    registration: DockRegistration { host_handle: req.handle, ..self.registration },
                    ..self
                }.moved(DockPhase::Querying { in_place: true }, RegistrationState::Registered),
                DockStep::Perform(ShellRequest::QueryPos { handle: req.handle, rect: req.rect() }),
            )
        }
    }

    /// The transition that an outcome causes: the controller and the shared
    /// record afterwards, and what to do next.
    pub open spec fn resume_spec(self, shared: TaskbarState, outcome: ShellOutcome) -> (
        DockController,
        TaskbarState,
        DockStep,
    ) {
        let handle = self.request.handle;
        match self.phase {
            DockPhase::Idle => (self, shared, DockStep::Done(Ok(()))),
            DockPhase::ClearingPrevious => (
                self.moved(DockPhase::Settling, RegistrationState::Registering),
                shared,
                DockStep::Perform(ShellRequest::Wait { millis: SETTLE_MS }),
            ),
            DockPhase::Settling => (
                self.moved(DockPhase::Styling, RegistrationState::Registering),
                shared,
                DockStep::Perform(ShellRequest::ExcludeFromSwitcher { handle }),
            ),
            DockPhase::Styling => (
                self.moved(DockPhase::Attempting { attempt: 0 }, RegistrationState::Registering),
                shared,
                DockStep::Perform(ShellRequest::New { handle, rect: self.request.rect() }),
            ),
            DockPhase::BackingOff { attempt } => (
                self.moved(DockPhase::Attempting { attempt }, RegistrationState::Registering),
                shared,
                DockStep::Perform(ShellRequest::New { handle, rect: self.request.rect() }),
            ),
            DockPhase::Attempting { attempt } => if outcome.accepted {
                (
                    self.moved(
                        DockPhase::Querying { in_place: false },
                        RegistrationState::Registering,
                    ),
                    shared,
                    DockStep::Perform(
                        ShellRequest::QueryPos { handle, rect: self.request.rect() },
                    ),
                )
            } else {
                (
                    self.moved(DockPhase::CleaningUp { attempt }, RegistrationState::Registering),
                    shared,
                    DockStep::Perform(ShellRequest::Remove { handle }),
                )
            },
            DockPhase::CleaningUp { attempt } => if attempt + 1 < REGISTER_ATTEMPTS {
                (
                    self.moved(
                        DockPhase::BackingOff { attempt: (attempt + 1) as u8 },
                        RegistrationState::Registering,
                    ),
                    shared,
                    DockStep::Perform(
                        ShellRequest::Wait { millis: backoff_ms(attempt + 1) as u64 },
                    ),
                )
            } else {
                (
                    self.moved(DockPhase::Idle, RegistrationState::Unregistered),
                    shared,
                    DockStep::Done(Err(DockError::RegistrationFailed)),
                )
            },
            DockPhase::Querying { in_place } => {
                let target = outcome.rect.spec_with_height(self.request.height as int);
                (
                    DockController {
                        phase: DockPhase::Committing { in_place },
                        target,
                        ..self
                    },
                    shared,
                    DockStep::Perform(ShellRequest::SetPos { handle, rect: target }),
                )
            },
            DockPhase::Committing { in_place } => if in_place && !outcome.accepted {
                (
                    self.moved(DockPhase::Styling, RegistrationState::Registering),
                    shared,
                    DockStep::Perform(ShellRequest::ExcludeFromSwitcher { handle }),
                )
            } else {
                (
                    DockController { phase: DockPhase::Placing, target: outcome.rect, ..self },
                    shared,
                    DockStep::Perform(place_request(handle, outcome.rect)),
                )
            },
            DockPhase::Placing => (
                DockController {
                    phase: DockPhase::Idle,
                    registration: DockRegistration {
                        reserved_rect: self.target,
                        state: RegistrationState::Registered,
                        ..self.registration
                    },
                    ..self
                },
                TaskbarState { bounds: Some(bounds_of(self.target)), ..shared },
                DockStep::Done(Ok(())),
            ),
            DockPhase::Removing => (
                self.moved(DockPhase::Idle, RegistrationState::Unregistered),
                shared,
                DockStep::Done(Ok(())),
            ),
        }
    }

    /// A controller that believes nothing is registered and runs no operation.
    pub fn new() -> (c: DockController)
        ensures
            c == DockController::initial(),
            c.wf(),
    {
        DockController {
            registration: DockRegistration {
                host_handle: 0,
                edge: DockEdge::Top,
                reserved_rect: Rect { left: 0, top: 0, right: 0, bottom: 0 },
                state: RegistrationState::Unregistered,
            },
            phase: DockPhase::Idle,
            request: DockRequest { handle: 0, x: 0, y: 0, width: 0, height: 0 },
            target: Rect { left: 0, top: 0, right: 0, bottom: 0 },
        }
    }

    /// Whether a completed registration is in place.
    pub fn is_registered(&self) -> (b: bool)
        ensures
            b == (self.registration.state == RegistrationState::Registered),
    {
        match self.registration.state {
            RegistrationState::Registered => true,
            _ => false,
        }
    }

    /// Whether no operation is running.
    pub fn is_idle(&self) -> (b: bool)
        ensures
            b == (self.phase == DockPhase::Idle),
    {
        match self.phase {
            DockPhase::Idle => true,
            _ => false,
        }
    }

    fn set(&mut self, phase: DockPhase, state: RegistrationState)
        ensures
            *final(self) == old(self).moved(phase, state),
    {
        self.phase = phase;
        self.registration.state = state;
    }

    fn active(&self) -> (b: bool)
        ensures
            b == self.believes_active(),
    {
        match self.registration.state {
            RegistrationState::Unregistered => false,
            _ => true,
        }
    }

    fn begin_register(&mut self, req: DockRequest) -> (step: DockStep)
        ensures
            (*final(self), step) == old(self).register_start(req),
    {
        let was_active = self.active();
        self.request = req;
        self.target = Rect::from_origin(req.x, req.y, req.width, req.height);
        self.registration.host_handle = req.handle;
        if was_active {
            self.set(DockPhase::ClearingPrevious, RegistrationState::Unregistering);
            DockStep::Perform(ShellRequest::Remove { handle: req.handle })
        } else {
            self.set(DockPhase::Styling, RegistrationState::Registering);
            DockStep::Perform(ShellRequest::ExcludeFromSwitcher { handle: req.handle })
        }
    }

    /// Takes the outcome of the request that was handed out last and says
    /// what to do next.
    ///
    /// `shared` changes only when a reservation has been completed: its
    /// restore point then becomes the reserved rectangle.
    pub fn resume(&mut self, shared: &mut TaskbarState, outcome: ShellOutcome) -> (step: DockStep)
        ensures
            (*final(self), *final(shared), step) == old(self).resume_spec(*old(shared), outcome),
            old(self).wf() ==> final(self).wf(),
    {
        let handle = self.request.handle;
        let req = self.request;
        match self.phase {
            DockPhase::Idle => DockStep::Done(Ok(())),
            DockPhase::ClearingPrevious => {
                self.set(DockPhase::Settling, RegistrationState::Registering);
                DockStep::Perform(ShellRequest::Wait { millis: SETTLE_MS })
            },
            DockPhase::Settling => {
                self.set(DockPhase::Styling, RegistrationState::Registering);
                DockStep::Perform(ShellRequest::ExcludeFromSwitcher { handle })
            },
            DockPhase::Styling => {
                self.set(DockPhase::Attempting { attempt: 0 }, RegistrationState::Registering);
                let rect = Rect::from_origin(req.x, req.y, req.width, req.height);
                DockStep::Perform(ShellRequest::New { handle, rect })
            },
            DockPhase::BackingOff { attempt } => {
                self.set(DockPhase::Attempting { attempt }, RegistrationState::Registering);
                let rect = Rect::from_origin(req.x, req.y, req.width, req.height);
                DockStep::Perform(ShellRequest::New { handle, rect })
            },
            DockPhase::Attempting { attempt } => {
                if outcome.accepted {
                    self.set(
                        DockPhase::Querying { in_place: false },
                        RegistrationState::Registering,
                    );
                    let rect = Rect::from_origin(req.x, req.y, req.width, req.height);
                    DockStep::Perform(ShellRequest::QueryPos { handle, rect })
                } else {
                    self.set(DockPhase::CleaningUp { attempt }, RegistrationState::Registering);
                    DockStep::Perform(ShellRequest::Remove { handle })
                }
            },
            DockPhase::CleaningUp { attempt } => {
                if attempt < REGISTER_ATTEMPTS - 1 {
                    let next: u8 = attempt + 1;
                    self.set(
                        DockPhase::BackingOff { attempt: next },
                        RegistrationState::Registering,
                    );
                    DockStep::Perform(ShellRequest::Wait { millis: backoff_delay(next) })
                } else {
                    self.set(DockPhase::Idle, RegistrationState::Unregistered);
                    DockStep::Done(Err(DockError::RegistrationFailed))
                }
            },
            DockPhase::Querying { in_place } => {
                let target = outcome.rect.with_height(req.height);
                self.phase = DockPhase::Committing { in_place };
                self.target = target;
                DockStep::Perform(ShellRequest::SetPos { handle, rect: target })
            },
            DockPhase::Committing { in_place } => {
                if in_place && !outcome.accepted {
                    self.set(DockPhase::Styling, RegistrationState::Registering);
                    DockStep::Perform(ShellRequest::ExcludeFromSwitcher { handle })
                } else {
                    let r = outcome.rect;
                    self.phase = DockPhase::Placing;
                    self.target = r;
                    DockStep::Perform(
                        ShellRequest::PlaceWindow {
                            handle,
                            x: r.left,
                            y: r.top,
                            width: r.width(),
                            height: r.height(),
                        },
                    )
                }
            },
            DockPhase::Placing => {
                let r = self.target;
                self.phase = DockPhase::Idle;
                self.registration.reserved_rect = r;
                self.registration.state = RegistrationState::Registered;
                let width = span_to_u32(r.width());
                let height = span_to_u32(r.height());
                shared.bounds = Some((r.left, r.top, width, height));
                DockStep::Done(Ok(()))
            },
            DockPhase::Removing => {
                self.set(DockPhase::Idle, RegistrationState::Unregistered);
                DockStep::Done(Ok(()))
            },
        }
    }
}

/// Starts registering the window `hwnd` for the strip at `(x, y)` of the
/// given size on the top edge.
///
/// Whatever ran before is abandoned. If a registration is believed active it
/// is removed first; else the operation starts with the window style.
pub fn register_appbar(
    ctl: &mut DockController,
    hwnd: isize,
    x: i32,
    y: i32,
    width: i32,
    height: i32,
) -> (step: DockStep)
    ensures
        (*final(ctl), step) == old(ctl).register_start(
            DockRequest { handle: hwnd, x, y, width, height },
        ),
        final(ctl).wf(),
        step is Perform,
{
    ctl.begin_register(DockRequest { handle: hwnd, x, y, width, height })
}

/// Starts removing the reservation of `hwnd`.
///
/// When nothing is believed active the operation is over at once: the result
/// is success, no request goes out, and the controller is as it was.
pub fn unregister_appbar(ctl: &mut DockController, hwnd: isize) -> (step: DockStep)
    ensures
        (*final(ctl), step) == old(ctl).unregister_start(hwnd),
        !old(ctl).believes_active() ==> step == DockStep::Done(Ok(())) && *final(ctl) == *old(ctl),
        old(ctl).believes_active() ==> step == DockStep::Perform(
            ShellRequest::Remove { handle: hwnd },
        ),
        old(ctl).wf() ==> final(ctl).wf(),
{
    if !ctl.active() {
        DockStep::Done(Ok(()))
    } else {
        ctl.registration.host_handle = hwnd;
        ctl.request.handle = hwnd;
        ctl.set(DockPhase::Removing, RegistrationState::Unregistering);
        DockStep::Perform(ShellRequest::Remove { handle: hwnd })
    }
}

/// Starts moving the reservation of `hwnd` to the strip at `(x, y)` of the
/// given size.
///
/// Without a completed registration this is [`register_appbar`]. With one,
/// the new rectangle is negotiated in place; if the shell then rejects it,
/// the operation goes on as a full registration.
pub fn update_appbar_position(
    ctl: &mut DockController,
    hwnd: isize,
    x: i32,
    y: i32,
    width: i32,
    height: i32,
) -> (step: DockStep)
    ensures
        (*final(ctl), step) == old(ctl).update_start(
            DockRequest { handle: hwnd, x, y, width, height },
        ),
        final(ctl).wf(),
        step is Perform,
{
    let req = DockRequest { handle: hwnd, x, y, width, height };
    if !ctl.is_registered() {
        ctl.begin_register(req)
    } else {
        let rect = Rect::from_origin(x, y, width, height);
        ctl.request = req;
        ctl.target = rect;
        ctl.registration.host_handle = hwnd;
        ctl.set(DockPhase::Querying { in_place: true }, RegistrationState::Registered);
        DockStep::Perform(ShellRequest::QueryPos { handle: hwnd, rect })
    }
}

} // verus!
