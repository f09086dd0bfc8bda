//! The state machine of one virtual machine.
//!
//! Every interaction with the host virtualization capability is split in two:
//! a plan, taken before the host is called, and a finish, which consumes what
//! the host reported. The driver performs the host calls in between.
use vstd::prelude::*;

use crate::error::VermudaError;
use crate::events::VmEvent;

verus! {

/// The lifecycle state of the virtual machine.
#[derive(Debug, Clone, Copy, PartialEq, Eq, Structural)]
pub enum VmState {
    Created,
    Running,
    Stopped,
    Error,
}

/// How a host completion handler finished, as relayed over a one-shot channel.
#[derive(Debug, Clone, PartialEq, Eq)]
pub enum Completion {
    /// The handler reported no error.
    Succeeded,
    /// The handler reported an error with this description.
    Failed(String),
    /// The channel closed before the handler reported anything.
    ChannelClosed,
}

/// What the shutdown broadcast delivered to a subscriber.
#[derive(Debug, Clone, Copy, PartialEq, Eq, Structural)]
pub enum ShutdownNotice {
    /// A shutdown notification arrived.
    Received,
    /// The subscriber fell behind and missed notifications.
    Lagged,
    /// Every sender was dropped.
    Closed,
}

/// What `start` has to do after looking at the current state.
#[derive(Debug, Clone, Copy, PartialEq, Eq, Structural)]
pub enum StartPlan {
    /// The machine already runs: nothing to do.
    AlreadyRunning,
    /// Ask the host whether it can start, then start it.
    InvokeHost,
}

/// What a stop operation has to do after looking at the current state.
#[derive(Debug, Clone, Copy, PartialEq, Eq, Structural)]
pub enum StopPlan {
    /// The machine is already stopped: nothing to do.
    AlreadyStopped,
    /// Call the host.
    InvokeHost,
}

/// The plan of `start` in state `s`: `Some(Err(()))` refuses a terminal state,
/// `None` stands for a missing machine handle.
pub open spec fn start_plan(s: VmState, vm_available: bool) -> Option<Result<StartPlan, ()>> {
    match s {
        VmState::Running => Some(Ok(StartPlan::AlreadyRunning)),
        VmState::Stopped | VmState::Error => Some(Err(())),
        VmState::Created => if vm_available {
            Some(Ok(StartPlan::InvokeHost))
        } else {
            None
        },
    }
}

/// The plan of a stop operation in state `s`; `None` stands for a missing
/// machine handle.
pub open spec fn stop_plan(s: VmState, vm_available: bool) -> Option<StopPlan> {
    if s == VmState::Stopped {
        Some(StopPlan::AlreadyStopped)
    } else if vm_available {
        Some(StopPlan::InvokeHost)
    } else {
        None
    }
}

/// The state after a start completion was observed in state `s`.
pub open spec fn after_start(s: VmState, c: Completion) -> VmState {
    match c {
        Completion::Succeeded => if s == VmState::Created {
            VmState::Running
        } else {
            s
        },
        _ => s,
    }
}

/// The state after a forced-stop completion was observed in state `s`.
pub open spec fn after_force_stop(s: VmState, c: Completion) -> VmState {
    match c {
        Completion::Succeeded => VmState::Stopped,
        Completion::Failed(_) => VmState::Error,
        Completion::ChannelClosed => s,
    }
}

/// The state after the listener handled `e` in state `s`.
pub open spec fn after_event(s: VmState, e: VmEvent) -> VmState {
    match e {
        VmEvent::GuestDidStop => VmState::Stopped,
        VmEvent::DidStopWithError(_) => VmState::Error,
        VmEvent::NetworkDisconnected(_) => s,
    }
}

/// Whether handling `e` broadcasts a shutdown notification.
pub open spec fn event_signals_shutdown(e: VmEvent) -> bool {
    !(e is NetworkDisconnected)
}

/// The controller's view of one virtual machine.
pub struct VmLifecycle {
    state: VmState,
}

impl View for VmLifecycle {
    type V = VmState;

    closed spec fn view(&self) -> VmState {
        self.state
    }
}

impl VmLifecycle {
    /// A controller for a machine that was built but not started.
    pub fn new() -> (r: Self)
        ensures
            r@ == VmState::Created,
    {
        VmLifecycle { state: VmState::Created }
    }

    /// Decides, from the host's `canStart` on a freshly built machine,
    /// whether the configuration is usable.
    pub fn check_buildable(can_start: bool) -> (r: Result<(), VermudaError>)
        ensures
            can_start ==> r is Ok,
            !can_start ==> (r matches Err(e) && e is Virtualization),
    {
        if can_start {
            Ok(())
        } else {
            Err(VermudaError::virtualization("VM cannot be started with current configuration"))
        }
    }

    pub fn state(&self) -> (r: VmState)
        ensures
            r == self@,
    {
        self.state
    }

    /// Decides what `start` does. A running machine needs nothing; a stopped
    /// or failed one is terminal and cannot start again.
    pub fn plan_start(&self, vm_available: bool) -> (r: Result<StartPlan, VermudaError>)
        ensures
            match start_plan(self@, vm_available) {
                Some(Ok(p)) => r == Ok::<StartPlan, VermudaError>(p),
                Some(Err(_)) => r matches Err(e) && e is OperationFailed,
                None => r matches Err(e) && e is ResourceUnavailable,
            },
    {
        match self.state {
            VmState::Running => Ok(StartPlan::AlreadyRunning),
            VmState::Stopped | VmState::Error => Err(
                VermudaError::operation_failed("VM has already stopped and cannot start again"),
            ),
            VmState::Created => {
                if vm_available {
                    Ok(StartPlan::InvokeHost)
                } else {
                    Err(VermudaError::resource_unavailable("VM not available"))
                }
            },
        }
    }

    /// Decides, from the host's `canStart`, whether the host start is invoked.
    pub fn start_gate(can_start: bool) -> (r: Result<(), VermudaError>)
        ensures
            can_start ==> r is Ok,
            !can_start ==> (r matches Err(e) && e is ValidationFailed),
    {
        if can_start {
            Ok(())
        } else {
            Err(VermudaError::validation_failed("VM cannot start with current configuration"))
        }
    }

    /// Consumes the start completion. Only a success moves a created machine
    /// to `Running`.
    pub fn finish_start(&mut self, completion: Completion) -> (r: Result<(), VermudaError>)
        ensures
            final(self)@ == after_start(old(self)@, completion),
            match completion {
                Completion::Succeeded => r is Ok,
                Completion::Failed(m) => r matches Err(e) && e is Virtualization
                    && e.message_view() == m@,
                Completion::ChannelClosed => r matches Err(e) && e is OperationFailed,
            },
    {
        match completion {
            Completion::Succeeded => {
                if self.state == VmState::Created {
                    self.state = VmState::Running;
                }
                Ok(())
            },
            Completion::Failed(m) => Err(VermudaError::Virtualization(m)),
            Completion::ChannelClosed => Err(
                VermudaError::operation_failed("VM start channel closed unexpectedly"),
            ),
        }
    }

    /// Decides what `request_shutdown` does in the current state.
    pub fn plan_request_shutdown(&self, vm_available: bool) -> (r: Result<StopPlan, VermudaError>)
        ensures
            match stop_plan(self@, vm_available) {
                Some(p) => r == Ok::<StopPlan, VermudaError>(p),
                None => r matches Err(e) && e is ResourceUnavailable,
            },
    {
        if self.state == VmState::Stopped {
            Ok(StopPlan::AlreadyStopped)
        } else if vm_available {
            Ok(StopPlan::InvokeHost)
        } else {
            Err(VermudaError::resource_unavailable("VM not available"))
        }
    }

    /// Decides, from the host's `canRequestStop`, whether the cooperative
    /// stop request is sent.
    pub fn stop_request_gate(can_request_stop: bool) -> (r: Result<(), VermudaError>)
        ensures
            can_request_stop ==> r is Ok,
            !can_request_stop ==> (r matches Err(e) && e is OperationFailed),
    {
        if can_request_stop {
            Ok(())
        } else {
            Err(VermudaError::operation_failed("VM cannot accept shutdown request in current state"))
        }
    }

    /// Maps the host's answer to the cooperative stop request; a refusal
    /// carries the host's description.
    pub fn stop_request_result(answer: Result<(), String>) -> (r: Result<(), VermudaError>)
        ensures
            match answer {
                Ok(()) => r is Ok,
                Err(m) => r matches Err(e) && e is Virtualization
                    && e.message_view() == "Failed to request shutdown: "@ + m@,
            },
    {
        match answer {
            Ok(()) => Ok(()),
            Err(m) => {
                let msg = "Failed to request shutdown: ".to_owned().concat(m.as_str());
                Err(VermudaError::Virtualization(msg))
            },
        }
    }

    /// Consumes what the shutdown broadcast delivered after a cooperative stop
    /// request. A lag means the stop was already observed.
    pub fn finish_request_shutdown(notice: ShutdownNotice) -> (r: Result<(), VermudaError>)
        ensures
            notice != ShutdownNotice::Closed ==> r is Ok,
            notice == ShutdownNotice::Closed ==> (r matches Err(e) && e is OperationFailed),
    {
        match notice {
            ShutdownNotice::Received | ShutdownNotice::Lagged => Ok(()),
            ShutdownNotice::Closed => Err(VermudaError::operation_failed("Shutdown channel closed")),
        }
    }

    /// Decides what `force_stop` does in the current state.
    pub fn plan_force_stop(&self, vm_available: bool) -> (r: Result<StopPlan, VermudaError>)
        ensures
            match stop_plan(self@, vm_available) {
                Some(p) => r == Ok::<StopPlan, VermudaError>(p),
                None => r matches Err(e) && e is ResourceUnavailable,
            },
    {
        self.plan_request_shutdown(vm_available)
    }

    /// Consumes the forced-stop completion: success stops the machine, a
    /// reported failure puts it in `Error`.
    pub fn finish_force_stop(&mut self, completion: Completion) -> (r: Result<(), VermudaError>)
        ensures
            final(self)@ == after_force_stop(old(self)@, completion),
            match completion {
                Completion::Succeeded => r is Ok,
                Completion::Failed(m) => r matches Err(e) && e is Virtualization
                    && e.message_view() == m@,
                Completion::ChannelClosed => r matches Err(e) && e is OperationFailed,
            },
    {
        match completion {
            Completion::Succeeded => {
                self.state = VmState::Stopped;
                Ok(())
            },
            Completion::Failed(m) => {
                self.state = VmState::Error;
                Err(VermudaError::Virtualization(m))
            },
            Completion::ChannelClosed => Err(VermudaError::operation_failed("Failed to stop VM")),
        }
    }

    /// Applies a delegate event; the result tells whether a shutdown
    /// notification is to be broadcast.
    pub fn apply_event(&mut self, event: &VmEvent) -> (r: bool)
        ensures
            final(self)@ == after_event(old(self)@, *event),
            r == event_signals_shutdown(*event),
    {
        match event {
            VmEvent::GuestDidStop => {
                self.state = VmState::Stopped;
                true
            },
            VmEvent::DidStopWithError(_) => {
                self.state = VmState::Error;
                true
            },
            VmEvent::NetworkDisconnected(_) => false,
        }
    }
}

/// One state-changing observation of the controller: a start completion, a
/// forced-stop completion, or an event handled by the listener. Plans never
/// change the state, so every reachable state is reached by these alone.
#[derive(Debug, Clone, PartialEq, Eq)]
pub enum Transition {
    StartCompleted(Completion),
    ForceStopCompleted(Completion),
    Event(VmEvent),
}

pub open spec fn step(s: VmState, t: Transition) -> VmState {
    match t {
        Transition::StartCompleted(c) => after_start(s, c),
        Transition::ForceStopCompleted(c) => after_force_stop(s, c),
        Transition::Event(e) => after_event(s, e),
    }
}

/// The state reached from `s` through the transitions `ts`, in order.
pub open spec fn run(s: VmState, ts: Seq<Transition>) -> VmState
    decreases ts.len(),
{
    if ts.len() == 0 {
        s
    } else {
        run(step(s, ts[0]), ts.drop_first())
    }
}

/// Whether `Running` is among the states met from `s` through `ts`.
pub open spec fn passes_running(s: VmState, ts: Seq<Transition>) -> bool
    decreases ts.len(),
{
    if s == VmState::Running {
        true
    } else if ts.len() == 0 {
        false
    } else {
        passes_running(step(s, ts[0]), ts.drop_first())
    }
}

/// Whether the guest reports a stop only to a machine that has run: no
/// `GuestDidStop` event comes before `Running` is met.
pub open spec fn guest_stops_after_start(s: VmState, ts: Seq<Transition>) -> bool
    decreases ts.len(),
{
    if s == VmState::Running || ts.len() == 0 {
        true
    } else {
        !(ts[0] matches Transition::Event(VmEvent::GuestDidStop))
            && guest_stops_after_start(step(s, ts[0]), ts.drop_first())
    }
}

/// Whether one of `ts` is a successful forced stop.
pub open spec fn has_forced_stop(ts: Seq<Transition>) -> bool {
    exists|i: int| 0 <= i < ts.len() && (#[trigger] ts[i] matches Transition::ForceStopCompleted(
        Completion::Succeeded,
    ))
}

proof fn lemma_stopped_from(s: VmState, ts: Seq<Transition>)
    requires
        guest_stops_after_start(s, ts),
    ensures
        run(s, ts) == VmState::Stopped ==> s == VmState::Stopped || passes_running(s, ts)
            || has_forced_stop(ts),
    decreases ts.len(),
{
    if ts.len() > 0 && s != VmState::Running {
        let rest = ts.drop_first();
        lemma_stopped_from(step(s, ts[0]), rest);
        if has_forced_stop(rest) {
            let i = choose|i: int| 0 <= i < rest.len() && (#[trigger] rest[i] matches Transition::ForceStopCompleted(
                Completion::Succeeded,
            ));
            assert(ts[i + 1] == rest[i]);
        }
        if ts[0] matches Transition::ForceStopCompleted(Completion::Succeeded) {
            assert(ts[0] matches Transition::ForceStopCompleted(Completion::Succeeded));
        }
    }
}

/// A machine that starts out created reaches `Stopped` only after it has
/// been `Running`, or through a successful forced stop; this holds for every
/// sequence in which the guest reports a stop only once the machine has run.
pub proof fn lemma_no_stop_without_running(ts: Seq<Transition>)
    requires
        guest_stops_after_start(VmState::Created, ts),
    ensures
        run(VmState::Created, ts) == VmState::Stopped ==> passes_running(VmState::Created, ts)
            || has_forced_stop(ts),
{
    lemma_stopped_from(VmState::Created, ts);
}

/// Asking a stopped machine to stop, cooperatively or by force, calls
/// nothing on the host and succeeds, whether or not the handle is there.
pub proof fn lemma_stopping_stopped_is_noop(vm_available: bool)
    ensures
        stop_plan(VmState::Stopped, vm_available) == Some(StopPlan::AlreadyStopped),
{
}

} // verus!
