//! Notifications that the host delivers through delegate callbacks.
use vstd::prelude::*;

verus! {

/// A notification from the virtualization capability's delegate.
#[derive(Debug, Clone, PartialEq, Eq)]
pub enum VmEvent {
    /// The guest stopped the machine by itself.
    GuestDidStop,
    /// The machine stopped because of an error, described by the message.
    DidStopWithError(String),
    /// A network attachment was disconnected, for the reason given.
    NetworkDisconnected(String),
}

/// A notification from the display window's delegate.
#[derive(Debug, Clone, Copy, PartialEq, Eq)]
pub enum WindowEvent {
    WillClose,
    WillMiniaturize,
    DidMiniaturize,
    DidDeminiaturize,
    DidBecomeKey,
    DidResignKey,
    DidResize,
}

} // verus!
