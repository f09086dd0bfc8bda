//! The error taxonomy shared by the lifecycle controller and the coordinator.
use vstd::prelude::*;

verus! {

/// An error raised by the lifecycle controller.
///
/// Each variant carries a human readable message.
#[derive(Debug, Clone, PartialEq, Eq)]
pub enum VermudaError {
    /// The host virtualization capability rejected an operation or reported
    /// a runtime failure.
    Virtualization(String),
    /// A precondition of the operation did not hold, or an internal channel
    /// closed unexpectedly.
    OperationFailed(String),
    /// An internal handle that the operation needs is missing.
    ResourceUnavailable(String),
    /// The configuration, or a precondition of starting, failed validation.
    ValidationFailed(String),
}

impl VermudaError {
    /// The message carried by the error.
    pub open spec fn message_view(&self) -> Seq<char> {
        match self {
            VermudaError::Virtualization(m) => m@,
            VermudaError::OperationFailed(m) => m@,
            VermudaError::ResourceUnavailable(m) => m@,
            VermudaError::ValidationFailed(m) => m@,
        }
    }

    pub fn virtualization(msg: &str) -> (r: Self)
        ensures
            r is Virtualization,
            r.message_view() == msg@,
    {
        VermudaError::Virtualization(msg.to_owned())
    }

    pub fn operation_failed(msg: &str) -> (r: Self)
        ensures
            r is OperationFailed,
            r.message_view() == msg@,
    {
        VermudaError::OperationFailed(msg.to_owned())
    }

    pub fn validation_failed(msg: &str) -> (r: Self)
        ensures
            r is ValidationFailed,
            r.message_view() == msg@,
    {
        VermudaError::ValidationFailed(msg.to_owned())
    }

    pub fn resource_unavailable(msg: &str) -> (r: Self)
        ensures
            r is ResourceUnavailable,
            r.message_view() == msg@,
    {
        VermudaError::ResourceUnavailable(msg.to_owned())
    }

    /// The text that reports the error: a prefix naming the kind, then the
    /// message.
    pub open spec fn description(&self) -> Seq<char> {
        match self {
            VermudaError::Virtualization(m) => "Virtualization error: "@ + m@,
            VermudaError::OperationFailed(m) => "VM operation failed: "@ + m@,
            VermudaError::ResourceUnavailable(m) => "Resource unavailable: "@ + m@,
            VermudaError::ValidationFailed(m) => "Validation failed: "@ + m@,
        }
    }

    /// The text that reports the error.
    pub fn describe(&self) -> (r: String)
        ensures
            r@ == self.description(),
    {
        match self {
            VermudaError::Virtualization(m) => "Virtualization error: ".to_owned().concat(m.as_str()),
            VermudaError::OperationFailed(m) => "VM operation failed: ".to_owned().concat(m.as_str()),
            VermudaError::ResourceUnavailable(m) => "Resource unavailable: ".to_owned().concat(
                m.as_str(),
            ),
            VermudaError::ValidationFailed(m) => "Validation failed: ".to_owned().concat(m.as_str()),
        }
    }

    /// The message carried by the error.
    pub fn message(&self) -> (r: &str)
        ensures
            r@ == self.message_view(),
    {
        match self {
            VermudaError::Virtualization(m) => m.as_str(),
            VermudaError::OperationFailed(m) => m.as_str(),
            VermudaError::ResourceUnavailable(m) => m.as_str(),
            VermudaError::ValidationFailed(m) => m.as_str(),
        }
    }
}

} // verus!
