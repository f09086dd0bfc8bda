use vermuda::bridge::{
    after_host_read, after_socket_read, HostRead, ReadStep, SendOutcome, SendRetry, SendStep,
    HOST_RECV_BUFFER_SIZE, HOST_SEND_BUFFER_SIZE, MAX_ENOBUFS_RETRIES, MTU, PACKET_BUFFER_SIZE,
    VM_RECV_BUFFER_SIZE,
};
use vermuda::bridge::SocketRead;

#[test]
fn buffer_sizes() {
    assert_eq!(MTU, 1500);
    assert_eq!(PACKET_BUFFER_SIZE, 1628);
    assert_eq!(MAX_ENOBUFS_RETRIES, 100);
    assert_eq!(HOST_SEND_BUFFER_SIZE, 1_048_576);
    assert_eq!(HOST_RECV_BUFFER_SIZE, 4_194_304);
    assert_eq!(VM_RECV_BUFFER_SIZE, 4_194_304);
}

#[test]
fn host_frames_are_forwarded_whole() {
    assert_eq!(after_host_read(HostRead::Received(60), PACKET_BUFFER_SIZE), ReadStep::Forward(60));
    assert_eq!(
        after_host_read(HostRead::Received(PACKET_BUFFER_SIZE), PACKET_BUFFER_SIZE),
        ReadStep::Forward(PACKET_BUFFER_SIZE)
    );
}

#[test]
fn empty_or_failed_host_reads_yield() {
    assert_eq!(after_host_read(HostRead::Received(0), PACKET_BUFFER_SIZE), ReadStep::Yield);
    assert_eq!(after_host_read(HostRead::Nothing, PACKET_BUFFER_SIZE), ReadStep::Yield);
    assert_eq!(after_host_read(HostRead::Failed, PACKET_BUFFER_SIZE), ReadStep::Yield);
    assert_eq!(
        after_host_read(HostRead::Received(PACKET_BUFFER_SIZE + 1), PACKET_BUFFER_SIZE),
        ReadStep::Yield
    );
}

#[test]
fn socket_reads_forward_frames_and_yield_otherwise() {
    assert_eq!(
        after_socket_read(SocketRead::Received(1514), PACKET_BUFFER_SIZE),
        ReadStep::Forward(1514)
    );
    assert_eq!(after_socket_read(SocketRead::Received(0), PACKET_BUFFER_SIZE), ReadStep::Yield);
    assert_eq!(after_socket_read(SocketRead::WouldBlock, PACKET_BUFFER_SIZE), ReadStep::Yield);
    assert_eq!(after_socket_read(SocketRead::Failed, PACKET_BUFFER_SIZE), ReadStep::Yield);
}

#[test]
fn frame_survives_exhaustion_up_to_the_bound() {
    let mut s = SendRetry::new();
    for i in 0..MAX_ENOBUFS_RETRIES {
        assert_eq!(s.after_send(SendOutcome::NoBufferSpace), SendStep::Retry);
        assert_eq!(s.retries(), i + 1);
    }
    assert_eq!(s.after_send(SendOutcome::Sent), SendStep::Delivered);
}

#[test]
fn frame_is_dropped_past_the_bound() {
    let mut s = SendRetry::new();
    for _ in 0..MAX_ENOBUFS_RETRIES {
        assert_eq!(s.after_send(SendOutcome::NoBufferSpace), SendStep::Retry);
    }
    assert_eq!(s.after_send(SendOutcome::NoBufferSpace), SendStep::Dropped);
    assert_eq!(s.retries(), MAX_ENOBUFS_RETRIES);
}

#[test]
fn other_send_failures_drop_the_frame_at_once() {
    let mut s = SendRetry::new();
    assert_eq!(s.after_send(SendOutcome::Failed), SendStep::Dropped);
    assert_eq!(s.retries(), 0);
    let mut t = SendRetry::new();
    assert_eq!(t.after_send(SendOutcome::Sent), SendStep::Delivered);
}

#[test]
fn frame_sequence_is_relayed_in_order() {
    let reads = [
        HostRead::Received(60),
        HostRead::Nothing,
        HostRead::Received(1514),
        HostRead::Failed,
        HostRead::Received(42),
    ];
    let exhaustion = [0usize, 0, 3, 0, 100];
    let mut delivered = Vec::new();
    for (read, fails) in reads.iter().zip(exhaustion.iter()) {
        if let ReadStep::Forward(n) = after_host_read(*read, PACKET_BUFFER_SIZE) {
            let mut s = SendRetry::new();
            let mut left = *fails;
            loop {
                let outcome = if left > 0 {
                    left -= 1;
                    SendOutcome::NoBufferSpace
                } else {
                    SendOutcome::Sent
                };
                match s.after_send(outcome) {
                    SendStep::Delivered => {
                        delivered.push(n);
                        break;
                    }
                    SendStep::Retry => {}
                    SendStep::Dropped => break,
                }
            }
        }
    }
    assert_eq!(delivered, vec![60, 1514, 42]);
}
