//! Lifecycle, ordering and backpressure tests for the relay session.

use iowatcherng_exporter::RelayError;
use iowatcherng_exporter::pipeline::select_single_key;
use iowatcherng_exporter::session::RelaySession;
use iowatcherng_exporter::session::SessionState;
use iowatcherng_exporter::session::TrustPolicy;

fn streaming_session() -> RelaySession {
    let mut s = RelaySession::new(TrustPolicy::VerifyPeer);
    s.start_connect();
    s.handshake_complete();
    s.begin_streaming();
    s
}

#[test]
fn trust_defaults_to_verification() {
    assert_eq!(TrustPolicy::default(), TrustPolicy::VerifyPeer);
}

#[test]
fn producer_lifecycle_reaches_closed() {
    let mut s = RelaySession::new(TrustPolicy::VerifyPeer);
    assert_eq!(s.state, SessionState::Idle);
    s.start_connect();
    assert_eq!(s.state, SessionState::Connecting);
    s.handshake_complete();
    assert_eq!(s.state, SessionState::Established);
    s.begin_streaming();
    assert_eq!(s.state, SessionState::Streaming);
    s.offer_frame(vec![1, 2, 3]);
    let f = s.begin_send();
    assert_eq!(f, vec![1, 2, 3]);
    s.send_complete();
    s.source_exhausted();
    assert_eq!(s.state, SessionState::Closing);
    s.close_complete();
    assert_eq!(s.state, SessionState::Closed);
}

#[test]
fn handshake_failure_is_terminal() {
    let mut s = RelaySession::new(TrustPolicy::VerifyPeer);
    s.start_connect();
    let e = s.handshake_failed();
    assert_eq!(e, RelayError::HandshakeFailure);
    assert_eq!(s.state, SessionState::Failed);
}

#[test]
fn transport_failure_is_terminal_and_drops_the_buffer() {
    let mut s = streaming_session();
    s.offer_frame(vec![9, 9]);
    let e = s.transport_failed();
    assert_eq!(e, RelayError::StreamFailure);
    assert_eq!(s.state, SessionState::Failed);
    assert_eq!(s.pending, None);
}

#[test]
fn stop_discards_the_partial_readahead() {
    let mut s = streaming_session();
    s.offer_frame(vec![5, 5, 5]);
    s.stop();
    assert_eq!(s.state, SessionState::Closing);
    assert_eq!(s.pending, None);
    s.close_complete();
    assert_eq!(s.state, SessionState::Closed);
}

#[test]
fn frames_leave_in_the_order_they_arrived() {
    let mut s = streaming_session();
    let inputs: Vec<Vec<u8>> = (0..10u8).map(|i| vec![i, i + 1, i + 2]).collect();
    let mut sent = Vec::new();
    for frame in &inputs {
        s.offer_frame(frame.clone());
        let f = s.begin_send();
        s.send_complete();
        sent.push(f);
    }
    assert_eq!(sent, inputs);
}

#[test]
fn two_sessions_interleaved_each_keep_their_order() {
    let mut a = streaming_session();
    let mut b = streaming_session();
    let input_a: Vec<Vec<u8>> = (0..6u8).map(|i| vec![0xA0, i]).collect();
    let input_b: Vec<Vec<u8>> = (0..6u8).map(|i| vec![0xB0, i]).collect();
    let mut sent_a = Vec::new();
    let mut sent_b = Vec::new();
    // Interleave the two pipelines step by step.
    for i in 0..6 {
        a.offer_frame(input_a[i].clone());
        b.offer_frame(input_b[i].clone());
        sent_b.push(b.begin_send());
        sent_a.push(a.begin_send());
        b.send_complete();
        a.send_complete();
    }
    assert_eq!(sent_a, input_a);
    assert_eq!(sent_b, input_b);
}

#[test]
fn at_most_one_frame_is_buffered_beyond_the_one_in_transit() {
    let mut s = streaming_session();
    s.offer_frame(vec![1]);
    let _in_transit = s.begin_send();
    // While one frame is in transit, exactly one more may be read ahead.
    s.offer_frame(vec![2]);
    assert!(s.pending.is_some());
    // The next read must wait until the buffered frame has left: the
    // session holds no queue to grow.
    s.send_complete();
    let second = s.begin_send();
    assert_eq!(second, vec![2]);
    s.send_complete();
    assert_eq!(s.pending, None);
}

#[test]
fn exactly_one_private_key_is_accepted() {
    assert_eq!(select_single_key(vec![vec![1, 2, 3]]), Ok(vec![1, 2, 3]));
    assert_eq!(select_single_key(Vec::new()), Err(RelayError::CredentialLoadFailure));
    assert_eq!(
        select_single_key(vec![vec![1], vec![2]]),
        Err(RelayError::CredentialLoadFailure)
    );
}
