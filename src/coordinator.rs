//! The shutdown coordinator: which trigger ended the run, and how the
//! machine is brought down for it.
//!
//! The driver races the triggers, reports the winner, then performs the
//! actions handed out here and reports their outcomes until `Finish`.
use vstd::prelude::*;

verus! {

/// The exit status of a run that a second user interrupt forced down.
pub const USER_FORCED_EXIT_CODE: i32 = 130;

/// The exit status of a graceful run.
pub const GRACEFUL_EXIT_CODE: i32 = 0;

/// What ended the run.
#[derive(Debug, Clone, Copy, PartialEq, Eq, Structural)]
pub enum ShutdownTrigger {
    CtrlC,
    AppExit,
    GuestStop,
    SignalStreamClosed,
}

/// The first of the raced sources to resolve, with what it delivered.
#[derive(Debug, Clone, Copy, PartialEq, Eq, Structural)]
pub enum RaceWinner {
    /// The host application asked to exit.
    AppExitRequested,
    /// The controller broadcast a shutdown notification.
    ShutdownNoticeReceived,
    /// The controller's shutdown broadcast failed (closed or lagged).
    ShutdownNoticeFailed,
    /// An OS interrupt arrived.
    InterruptReceived,
    /// The OS interrupt stream ended.
    InterruptStreamEnded,
}

/// What resolved first while a cooperative shutdown was awaited.
#[derive(Debug, Clone, Copy, PartialEq, Eq, Structural)]
pub enum CooperativeOutcome {
    /// The cooperative shutdown completed.
    Succeeded,
    /// The cooperative shutdown reported an error.
    Failed,
    /// A second interrupt arrived first.
    SecondInterrupt,
    /// The interrupt stream ended first.
    InterruptStreamEnded,
}

/// What the driver does next.
#[derive(Debug, Clone, Copy, PartialEq, Eq, Structural)]
pub enum CoordinatorAction {
    /// Request a cooperative shutdown, racing it against a second interrupt.
    RequestShutdown,
    /// Stop the machine by force.
    ForceStop,
    /// Nothing is left to do to the machine.
    Finish,
}

/// How the process ends once the machine is down.
#[derive(Debug, Clone, Copy, PartialEq, Eq, Structural)]
pub enum Disposition {
    /// Exit at once with the user-forced status.
    ExitUserForced,
    /// Answer the pending termination request of the host application.
    ReplyToTerminateRequest,
    /// Initiate termination unless it is already under way.
    InitiateTermination,
}

#[derive(Debug, Clone, Copy, PartialEq, Eq, Structural)]
pub enum Phase {
    /// A cooperative shutdown is awaited.
    AwaitingCooperative,
    /// A forced stop is awaited; `fallback` tells whether it is already the
    /// last resort.
    AwaitingForceStop { fallback: bool },
    Finished,
}

/// The coordinator's state as seen by contracts.
#[derive(Debug, Clone, Copy, PartialEq, Eq, Structural)]
pub struct CoordinatorView {
    pub trigger: ShutdownTrigger,
    pub phase: Phase,
    pub user_forced: bool,
}

pub open spec fn trigger_of(w: RaceWinner) -> ShutdownTrigger {
    match w {
        RaceWinner::AppExitRequested => ShutdownTrigger::AppExit,
        RaceWinner::ShutdownNoticeReceived => ShutdownTrigger::GuestStop,
        RaceWinner::ShutdownNoticeFailed => ShutdownTrigger::SignalStreamClosed,
        RaceWinner::InterruptReceived => ShutdownTrigger::CtrlC,
        RaceWinner::InterruptStreamEnded => ShutdownTrigger::SignalStreamClosed,
    }
}

pub open spec fn action_of(p: Phase) -> CoordinatorAction {
    match p {
        Phase::AwaitingCooperative => CoordinatorAction::RequestShutdown,
        Phase::AwaitingForceStop { .. } => CoordinatorAction::ForceStop,
        Phase::Finished => CoordinatorAction::Finish,
    }
}

/// The phase a run enters for its trigger.
pub open spec fn initial_phase(t: ShutdownTrigger) -> Phase {
    match t {
        ShutdownTrigger::GuestStop => Phase::Finished,
        ShutdownTrigger::AppExit => Phase::AwaitingForceStop { fallback: false },
        ShutdownTrigger::CtrlC | ShutdownTrigger::SignalStreamClosed => Phase::AwaitingCooperative,
    }
}

pub open spec fn begin_view(t: ShutdownTrigger) -> CoordinatorView {
    CoordinatorView { trigger: t, phase: initial_phase(t), user_forced: false }
}

/// The state after `o` resolved; outside the cooperative wait nothing changes.
pub open spec fn after_cooperative(v: CoordinatorView, o: CooperativeOutcome) -> CoordinatorView {
    if v.phase == Phase::AwaitingCooperative {
        match o {
            CooperativeOutcome::Succeeded => CoordinatorView { phase: Phase::Finished, ..v },
            CooperativeOutcome::SecondInterrupt => CoordinatorView {
                phase: Phase::AwaitingForceStop { fallback: true },
                user_forced: true,
                ..v
            },
            _ => CoordinatorView { phase: Phase::AwaitingForceStop { fallback: true }, ..v },
        }
    } else {
        v
    }
}

/// The state after a forced stop reported `ok`; a first forced stop that
/// fails is tried once more, a fallback ends the run whatever it reports.
pub open spec fn after_force_stop_report(v: CoordinatorView, ok: bool) -> CoordinatorView {
    match v.phase {
        Phase::AwaitingForceStop { fallback } => if ok || fallback {
            CoordinatorView { phase: Phase::Finished, ..v }
        } else {
            CoordinatorView { phase: Phase::AwaitingForceStop { fallback: true }, ..v }
        },
        _ => v,
    }
}

pub open spec fn disposition_of(v: CoordinatorView) -> Disposition {
    if v.user_forced {
        Disposition::ExitUserForced
    } else if v.trigger == ShutdownTrigger::AppExit {
        Disposition::ReplyToTerminateRequest
    } else {
        Disposition::InitiateTermination
    }
}

pub open spec fn exit_code_of(v: CoordinatorView) -> i32 {
    if v.user_forced {
        USER_FORCED_EXIT_CODE
    } else {
        GRACEFUL_EXIT_CODE
    }
}

/// Maps the winner of the race to the trigger of the shutdown.
pub fn resolve_trigger(winner: RaceWinner) -> (r: ShutdownTrigger)
    ensures
        r == trigger_of(winner),
{
    match winner {
        RaceWinner::AppExitRequested => ShutdownTrigger::AppExit,
        RaceWinner::ShutdownNoticeReceived => ShutdownTrigger::GuestStop,
        RaceWinner::ShutdownNoticeFailed => ShutdownTrigger::SignalStreamClosed,
        RaceWinner::InterruptReceived => ShutdownTrigger::CtrlC,
        RaceWinner::InterruptStreamEnded => ShutdownTrigger::SignalStreamClosed,
    }
}

/// The one-shot shutdown of a run, from its trigger to its disposition.
pub struct ShutdownCoordinator {
    trigger: ShutdownTrigger,
    phase: Phase,
    user_forced: bool,
}

impl View for ShutdownCoordinator {
    type V = CoordinatorView;

    closed spec fn view(&self) -> CoordinatorView {
        CoordinatorView { trigger: self.trigger, phase: self.phase, user_forced: self.user_forced }
    }
}

impl ShutdownCoordinator {
    /// Starts the shutdown for `trigger`: a guest stop needs nothing more, an
    /// application exit stops by force, an interrupt or a closed stream asks
    /// for a cooperative shutdown.
    pub fn new(trigger: ShutdownTrigger) -> (r: Self)
        ensures
            r@ == begin_view(trigger),
    {
        let phase = match trigger {
            ShutdownTrigger::GuestStop => Phase::Finished,
            ShutdownTrigger::AppExit => Phase::AwaitingForceStop { fallback: false },
            ShutdownTrigger::CtrlC | ShutdownTrigger::SignalStreamClosed => Phase::AwaitingCooperative,
        };
        ShutdownCoordinator { trigger, phase, user_forced: false }
    }

    pub fn trigger(&self) -> (r: ShutdownTrigger)
        ensures
            r == self@.trigger,
    {
        self.trigger
    }

    /// The action that the current phase calls for.
    pub fn next_action(&self) -> (r: CoordinatorAction)
        ensures
            r == action_of(self@.phase),
    {
        match self.phase {
            Phase::AwaitingCooperative => CoordinatorAction::RequestShutdown,
            Phase::AwaitingForceStop { .. } => CoordinatorAction::ForceStop,
            Phase::Finished => CoordinatorAction::Finish,
        }
    }

    /// Records what resolved first during the cooperative wait. A second
    /// interrupt escalates to a forced stop and marks the run user-forced;
    /// any other failure falls back to a forced stop.
    pub fn on_cooperative(&mut self, outcome: CooperativeOutcome) -> (r: CoordinatorAction)
        ensures
            final(self)@ == after_cooperative(old(self)@, outcome),
            r == action_of(final(self)@.phase),
    {
        if self.phase == Phase::AwaitingCooperative {
            match outcome {
                CooperativeOutcome::Succeeded => {
                    self.phase = Phase::Finished;
                },
                CooperativeOutcome::SecondInterrupt => {
                    self.phase = Phase::AwaitingForceStop { fallback: true };
                    self.user_forced = true;
                },
                CooperativeOutcome::Failed | CooperativeOutcome::InterruptStreamEnded => {
                    self.phase = Phase::AwaitingForceStop { fallback: true };
                },
            }
        }
        self.next_action()
    }

    /// Records whether the forced stop succeeded.
    pub fn on_force_stop(&mut self, ok: bool) -> (r: CoordinatorAction)
        ensures
            final(self)@ == after_force_stop_report(old(self)@, ok),
            r == action_of(final(self)@.phase),
    {
        match self.phase {
            Phase::AwaitingForceStop { fallback } => {
                if ok || fallback {
                    self.phase = Phase::Finished;
                } else {
                    self.phase = Phase::AwaitingForceStop { fallback: true };
                }
            },
            _ => {},
        }
        self.next_action()
    }

    /// How the process ends.
    pub fn disposition(&self) -> (r: Disposition)
        ensures
            r == disposition_of(self@),
    {
        if self.user_forced {
            Disposition::ExitUserForced
        } else if self.trigger == ShutdownTrigger::AppExit {
            Disposition::ReplyToTerminateRequest
        } else {
            Disposition::InitiateTermination
        }
    }

    /// The exit status of the process.
    pub fn exit_code(&self) -> (r: i32)
        ensures
            r == exit_code_of(self@),
    {
        if self.user_forced {
            USER_FORCED_EXIT_CODE
        } else {
            GRACEFUL_EXIT_CODE
        }
    }
}

/// When an interrupt (or the end of the interrupt stream) started a
/// cooperative shutdown, a second interrupt during the wait escalates to a
/// forced stop, and whatever that stop reports the run then finishes with the
/// user-forced exit status.
pub proof fn lemma_second_interrupt_forces_exit(t: ShutdownTrigger, ok: bool)
    requires
        t == ShutdownTrigger::CtrlC || t == ShutdownTrigger::SignalStreamClosed,
    ensures
        action_of(begin_view(t).phase) == CoordinatorAction::RequestShutdown,
        action_of(after_cooperative(begin_view(t), CooperativeOutcome::SecondInterrupt).phase)
            == CoordinatorAction::ForceStop,
        ({
            let v = after_force_stop_report(
                after_cooperative(begin_view(t), CooperativeOutcome::SecondInterrupt),
                ok,
            );
            &&& action_of(v.phase) == CoordinatorAction::Finish
            &&& exit_code_of(v) == USER_FORCED_EXIT_CODE
            &&& disposition_of(v) == Disposition::ExitUserForced
        }),
{
}

/// A run that a second interrupt forced keeps the user-forced exit status,
/// never the graceful one, whatever is reported afterwards.
pub proof fn lemma_user_forced_is_kept(v: CoordinatorView, o: CooperativeOutcome, ok: bool)
    requires
        v.user_forced,
    ensures
        exit_code_of(after_cooperative(v, o)) == USER_FORCED_EXIT_CODE,
        exit_code_of(after_force_stop_report(v, ok)) == USER_FORCED_EXIT_CODE,
{
}

} // verus!
