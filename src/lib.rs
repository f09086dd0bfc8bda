//! Lifecycle control of a single virtual machine and the policy of the
//! packet bridge that links it to the host network.
//!
//! The host services (the virtualization capability, the network capability,
//! OS signals, threads and sockets) stay outside this crate. What is decided
//! about them is written here as state machines and step functions whose
//! results are fully specified, so that a driver only performs the actions
//! they return and feeds back what the host answered.
pub mod app_delegate;
pub mod bridge;
pub mod coordinator;
pub mod disk;
pub mod error;
pub mod events;
pub mod lifecycle;
pub mod storage;
