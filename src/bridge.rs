//! The policy of the packet bridge between the host network capability and
//! the socket pair handed to the machine.
//!
//! Two forwarders run, one per direction. Each reads one frame at a time and
//! asks these functions what to do with what the read returned; the
//! host-to-machine forwarder also asks how to answer a failed send.
use vstd::prelude::*;

verus! {

/// The largest payload of an Ethernet frame.
pub const MTU: usize = 1500;

/// The room for one frame with its headers.
pub const PACKET_BUFFER_SIZE: usize = MTU + 128;

/// How many times one frame is sent again while the socket lacks buffer space.
pub const MAX_ENOBUFS_RETRIES: usize = 100;

/// The send buffer of the bridge's own end of the socket pair.
pub const HOST_SEND_BUFFER_SIZE: i32 = 1024 * 1024;

/// The receive buffer of the bridge's own end of the socket pair.
pub const HOST_RECV_BUFFER_SIZE: i32 = 4 * 1024 * 1024;

/// The receive buffer of the machine's end of the socket pair.
pub const VM_RECV_BUFFER_SIZE: i32 = 4 * 1024 * 1024;

/// What one read from the host network capability returned.
#[derive(Debug, Clone, Copy, PartialEq, Eq, Structural)]
pub enum HostRead {
    /// A frame of this many bytes was read.
    Received(usize),
    /// No frame was waiting.
    Nothing,
    /// The read failed.
    Failed,
}

/// What one read from the bridge's end of the socket pair returned.
#[derive(Debug, Clone, Copy, PartialEq, Eq, Structural)]
pub enum SocketRead {
    /// A frame of this many bytes was read.
    Received(usize),
    /// The socket had nothing to read.
    WouldBlock,
    /// The read failed.
    Failed,
}

/// What a forwarder does after a read.
#[derive(Debug, Clone, Copy, PartialEq, Eq, Structural)]
pub enum ReadStep {
    /// Send on the first this-many bytes of the buffer.
    Forward(usize),
    /// Yield the thread and read again.
    Yield,
}

/// What one send to the bridge's end of the socket pair returned.
#[derive(Debug, Clone, Copy, PartialEq, Eq, Structural)]
pub enum SendOutcome {
    Sent,
    /// The socket's buffer was momentarily full.
    NoBufferSpace,
    /// Any other failure.
    Failed,
}

/// What the host-to-machine forwarder does after a send.
#[derive(Debug, Clone, Copy, PartialEq, Eq, Structural)]
pub enum SendStep {
    /// The frame got through.
    Delivered,
    /// Yield the thread and send the same frame again.
    Retry,
    /// Give the frame up and read the next one.
    Dropped,
}

pub open spec fn host_read_step(o: HostRead, capacity: usize) -> ReadStep {
    match o {
        HostRead::Received(n) => if 0 < n <= capacity {
            ReadStep::Forward(n)
        } else {
            ReadStep::Yield
        },
        _ => ReadStep::Yield,
    }
}

pub open spec fn socket_read_step(o: SocketRead, capacity: usize) -> ReadStep {
    match o {
        SocketRead::Received(n) => if 0 < n <= capacity {
            ReadStep::Forward(n)
        } else {
            ReadStep::Yield
        },
        _ => ReadStep::Yield,
    }
}

/// The retry count and the step after a send returned `o`, when `retries`
/// sends of the frame have already failed for want of buffer space.
pub open spec fn send_step(retries: nat, o: SendOutcome) -> (nat, SendStep) {
    match o {
        SendOutcome::Sent => (retries, SendStep::Delivered),
        SendOutcome::Failed => (retries, SendStep::Dropped),
        SendOutcome::NoBufferSpace => if retries + 1 > MAX_ENOBUFS_RETRIES {
            (retries, SendStep::Dropped)
        } else {
            ((retries + 1) as nat, SendStep::Retry)
        },
    }
}

/// Decides what the host-to-machine forwarder does with a read of a buffer
/// of `capacity` bytes: a non-empty frame that fits is forwarded whole.
pub fn after_host_read(outcome: HostRead, capacity: usize) -> (r: ReadStep)
    ensures
        r == host_read_step(outcome, capacity),
{
    match outcome {
        HostRead::Received(n) => {
            if 0 < n && n <= capacity {
                ReadStep::Forward(n)
            } else {
                ReadStep::Yield
            }
        },
        HostRead::Nothing | HostRead::Failed => ReadStep::Yield,
    }
}

/// Decides what the machine-to-host forwarder does with a read of a buffer
/// of `capacity` bytes: a non-empty frame that fits is forwarded whole.
pub fn after_socket_read(outcome: SocketRead, capacity: usize) -> (r: ReadStep)
    ensures
        r == socket_read_step(outcome, capacity),
{
    match outcome {
        SocketRead::Received(n) => {
            if 0 < n && n <= capacity {
                ReadStep::Forward(n)
            } else {
                ReadStep::Yield
            }
        },
        SocketRead::WouldBlock | SocketRead::Failed => ReadStep::Yield,
    }
}

/// The retry state of one frame on its way to the socket pair.
pub struct SendRetry {
    retries: usize,
}

impl View for SendRetry {
    type V = nat;

    closed spec fn view(&self) -> nat {
        self.retries as nat
    }
}

impl SendRetry {
    /// The state of a frame that has not been sent yet.
    pub fn new() -> (r: Self)
        ensures
            r@ == 0,
    {
        SendRetry { retries: 0 }
    }

    /// How many sends of the frame failed for want of buffer space.
    pub fn retries(&self) -> (r: usize)
        ensures
            r == self@,
    {
        self.retries
    }

    /// Records the outcome of a send and decides what follows: only a full
    /// buffer is retried, and at most `MAX_ENOBUFS_RETRIES` times.
    pub fn after_send(&mut self, outcome: SendOutcome) -> (r: SendStep)
        ensures
            (final(self)@, r) == send_step(old(self)@, outcome),
    {
        match outcome {
            SendOutcome::Sent => SendStep::Delivered,
            SendOutcome::Failed => SendStep::Dropped,
            SendOutcome::NoBufferSpace => {
                if self.retries >= MAX_ENOBUFS_RETRIES {
                    SendStep::Dropped
                } else {
                    self.retries = self.retries + 1;
                    SendStep::Retry
                }
            },
        }
    }
}

/// The step at which sending one frame ends, when `retries` sends already
/// failed for want of buffer space and the next `failures` sends fail the
/// same way before one gets through.
pub open spec fn send_run(retries: nat, failures: nat) -> SendStep
    decreases failures,
{
    if failures == 0 {
        send_step(retries, SendOutcome::Sent).1
    } else {
        let (next, st) = send_step(retries, SendOutcome::NoBufferSpace);
        if st == SendStep::Retry {
            send_run(next, (failures - 1) as nat)
        } else {
            st
        }
    }
}

/// The lengths of the frames that the host delivers and that fit the buffer,
/// in the order they are read.
pub open spec fn host_frames(reads: Seq<HostRead>, capacity: usize) -> Seq<usize>
    decreases reads.len(),
{
    if reads.len() == 0 {
        seq![]
    } else {
        let rest = host_frames(reads.drop_first(), capacity);
        match reads[0] {
            HostRead::Received(n) => if 0 < n <= capacity {
                seq![n].add(rest)
            } else {
                rest
            },
            _ => rest,
        }
    }
}

/// The lengths of the frames that the host-to-machine forwarder gets through
/// to the socket pair, when the send of the frame of read `i` first fails
/// `exhaustion[i]` times for want of buffer space.
pub open spec fn host_to_vm_delivered(
    reads: Seq<HostRead>,
    exhaustion: Seq<nat>,
    capacity: usize,
) -> Seq<usize>
    decreases reads.len(),
{
    if reads.len() == 0 || exhaustion.len() == 0 {
        seq![]
    } else {
        let rest = host_to_vm_delivered(reads.drop_first(), exhaustion.drop_first(), capacity);
        match host_read_step(reads[0], capacity) {
            ReadStep::Forward(n) => if send_run(0, exhaustion[0]) == SendStep::Delivered {
                seq![n].add(rest)
            } else {
                rest
            },
            ReadStep::Yield => rest,
        }
    }
}

/// The lengths of the frames read from the socket pair that fit the buffer,
/// in order.
pub open spec fn socket_frames(reads: Seq<SocketRead>, capacity: usize) -> Seq<usize>
    decreases reads.len(),
{
    if reads.len() == 0 {
        seq![]
    } else {
        let rest = socket_frames(reads.drop_first(), capacity);
        match reads[0] {
            SocketRead::Received(n) => if 0 < n <= capacity {
                seq![n].add(rest)
            } else {
                rest
            },
            _ => rest,
        }
    }
}

/// The lengths of the frames that the machine-to-host forwarder hands to the
/// host network capability, in order.
pub open spec fn vm_to_host_forwarded(reads: Seq<SocketRead>, capacity: usize) -> Seq<usize>
    decreases reads.len(),
{
    if reads.len() == 0 {
        seq![]
    } else {
        let rest = vm_to_host_forwarded(reads.drop_first(), capacity);
        match socket_read_step(reads[0], capacity) {
            ReadStep::Forward(n) => seq![n].add(rest),
            ReadStep::Yield => rest,
        }
    }
}

proof fn lemma_send_run_from(retries: nat, failures: nat)
    requires
        retries <= MAX_ENOBUFS_RETRIES,
    ensures
        (send_run(retries, failures) == SendStep::Delivered) <==> retries + failures
            <= MAX_ENOBUFS_RETRIES,
        send_run(retries, failures) != SendStep::Retry,
    decreases failures,
{
    if failures > 0 && retries + 1 <= MAX_ENOBUFS_RETRIES {
        lemma_send_run_from(retries + 1, (failures - 1) as nat);
    }
}

/// A frame gets through to the socket pair exactly when its sends fail for
/// want of buffer space at most `MAX_ENOBUFS_RETRIES` times; otherwise it
/// is dropped.
pub proof fn lemma_retry_bound(failures: nat)
    ensures
        (send_run(0, failures) == SendStep::Delivered) <==> failures <= MAX_ENOBUFS_RETRIES,
        failures > MAX_ENOBUFS_RETRIES ==> send_run(0, failures) == SendStep::Dropped,
{
    lemma_send_run_from(0, failures);
}

/// Every frame that the host delivers and that fits the buffer reaches the
/// socket pair whole and in order, as long as no frame meets buffer
/// exhaustion more than `MAX_ENOBUFS_RETRIES` times.
pub proof fn lemma_host_to_vm_in_order(
    reads: Seq<HostRead>,
    exhaustion: Seq<nat>,
    capacity: usize,
)
    requires
        reads.len() == exhaustion.len(),
        forall|i: int| 0 <= i < exhaustion.len() ==> #[trigger] exhaustion[i]
            <= MAX_ENOBUFS_RETRIES,
    ensures
        host_to_vm_delivered(reads, exhaustion, capacity) == host_frames(reads, capacity),
    decreases reads.len(),
{
    if reads.len() > 0 {
        let rest = exhaustion.drop_first();
        assert forall|i: int| 0 <= i < rest.len() implies #[trigger] rest[i]
            <= MAX_ENOBUFS_RETRIES by {
            assert(rest[i] == exhaustion[i + 1]);
        }
        lemma_host_to_vm_in_order(reads.drop_first(), rest, capacity);
        lemma_retry_bound(exhaustion[0]);
    }
}

/// Every frame read from the socket pair that fits the buffer is handed to
/// the host network capability whole and in order.
pub proof fn lemma_vm_to_host_in_order(reads: Seq<SocketRead>, capacity: usize)
    ensures
        vm_to_host_forwarded(reads, capacity) == socket_frames(reads, capacity),
    decreases reads.len(),
{
    if reads.len() > 0 {
        lemma_vm_to_host_in_order(reads.drop_first(), capacity);
    }
}

} // verus!
