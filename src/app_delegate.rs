//! The host application shell's side of termination: the flag that keeps
//! termination from being initiated twice, and the one-shot signal that
//! tells the runtime the application wants to exit.
use vstd::prelude::*;

verus! {

/// The answer to the host application's request to terminate.
#[derive(Debug, Clone, Copy, PartialEq, Eq, Structural)]
pub enum TerminateReply {
    /// Terminate now: termination was already under way.
    Now,
    /// Wait: the runtime was told to shut the machine down and will answer.
    Later,
}

/// The termination state of the host application shell. `S` is the sending
/// end of the exit signal.
pub struct VermudaAppDelegate<S> {
    terminating: bool,
    exit_tx: Option<S>,
}

impl<S> VermudaAppDelegate<S> {
    /// Whether termination is under way.
    pub closed spec fn is_terminating(&self) -> bool {
        self.terminating
    }

    /// The exit signal's sender, while it has not been handed out.
    pub closed spec fn exit_sender(&self) -> Option<S> {
        self.exit_tx
    }

    pub fn new() -> (r: Self)
        ensures
            !r.is_terminating(),
            r.exit_sender() is None,
    {
        VermudaAppDelegate { terminating: false, exit_tx: None }
    }

    /// Installs the sender of the exit signal.
    pub fn set_exit_sender(&mut self, tx: S)
        ensures
            final(self).exit_sender() == Some(tx),
            final(self).is_terminating() == old(self).is_terminating(),
    {
        self.exit_tx = Some(tx);
    }

    /// Marks termination as under way and tells whether it already was.
    pub fn set_terminating(&mut self) -> (was_terminating: bool)
        ensures
            was_terminating == old(self).is_terminating(),
            final(self).is_terminating(),
            final(self).exit_sender() == old(self).exit_sender(),
    {
        let was = self.terminating;
        self.terminating = true;
        was
    }

    /// Hands out the sender of the exit signal, once: later calls get `None`.
    pub fn send_exit_signal(&mut self) -> (r: Option<S>)
        ensures
            r == old(self).exit_sender(),
            final(self).exit_sender() is None,
            final(self).is_terminating() == old(self).is_terminating(),
    {
        self.exit_tx.take()
    }

    /// Answers the host application's request to terminate. The first
    /// request defers termination and hands out the exit signal's sender;
    /// any later one lets termination proceed.
    pub fn should_terminate(&mut self) -> (r: (TerminateReply, Option<S>))
        ensures
            final(self).is_terminating(),
            old(self).is_terminating() ==> r == (TerminateReply::Now, None::<S>)
                && final(self).exit_sender() == old(self).exit_sender(),
            !old(self).is_terminating() ==> r == (TerminateReply::Later, old(self).exit_sender())
                && final(self).exit_sender() is None,
    {
        if self.set_terminating() {
            (TerminateReply::Now, None)
        } else {
            let tx = self.send_exit_signal();
            (TerminateReply::Later, tx)
        }
    }
}

} // verus!
