//! The relay session: the one long-lived entity of the pipeline.  It owns
//! the lifecycle of a secure unidirectional stream between a producer and a
//! collector, and accounts for every frame the pipeline accepts and sends.
//!
//! The transport itself (handshake, transmission, shutdown) is outside
//! work; callers drive it and report each outcome back.  The session
//! decides what may happen next and its proofs pin two properties of the
//! pipeline: frames go out in exactly the order they came in, and at most
//! one frame beyond the one in transit is ever buffered — a slow peer
//! stalls the source instead of growing a queue.

use vstd::prelude::*;

use crate::RelayError;

verus! {

/// The lifecycle of a relay session.  `Failed` is reachable from every
/// non-terminal state; `Closed` and `Failed` are terminal.
#[derive(Clone, Copy, Debug, PartialEq, Eq, Structural)]
pub enum SessionState {
    Idle,
    Connecting,
    Established,
    Streaming,
    Closing,
    Closed,
    Failed,
}

/// How the peer's identity is checked during the handshake.
#[derive(Clone, Copy, Debug, PartialEq, Eq, Structural)]
pub enum TrustPolicy {
    /// Verify the peer against a configured authority.
    VerifyPeer,
    /// Skip verification; an explicit opt-in for test or bootstrap use.
    InsecureSkipVerify,
}

impl Default for TrustPolicy {
    /// Trust is verified unless insecure mode is explicitly chosen.
    fn default() -> (r: TrustPolicy)
        ensures
            r == TrustPolicy::VerifyPeer,
    {
        TrustPolicy::VerifyPeer
    }
}

/// The frame views of an optional in-transit frame.
pub open spec fn opt_inflight(o: Option<Seq<u8>>) -> Seq<Seq<u8>> {
    match o {
        Some(f) => seq![f],
        None => Seq::empty(),
    }
}

/// The frame views of an optional buffered frame.
pub open spec fn opt_pending(o: Option<Vec<u8>>) -> Seq<Seq<u8>> {
    match o {
        Some(v) => seq![v@],
        None => Seq::empty(),
    }
}

/// A relay session and its frame accounting.
///
/// `read_log` lists every frame accepted from the source, `sent_log` every
/// frame whose transmission completed.  While streaming, every accepted
/// frame is either sent, in transit, or the single buffered one; on
/// shutdown the one buffered frame may be discarded, never reordered.
pub struct RelaySession {
    /// Current lifecycle state.
    pub state: SessionState,
    /// How the peer is authenticated.
    pub trust: TrustPolicy,
    /// The single frame read from the source and not yet handed to the
    /// transport.  There is never more than one.
    pub pending: Option<Vec<u8>>,
    /// The frame handed to the transport whose outcome is not yet known.
    pub inflight: Ghost<Option<Seq<u8>>>,
    /// Every frame accepted from the source, in order.
    pub read_log: Ghost<Seq<Seq<u8>>>,
    /// Every frame sent, in order.
    pub sent_log: Ghost<Seq<Seq<u8>>>,
}

impl RelaySession {
    /// Every accepted frame that was sent, is in transit, or waits.
    pub open spec fn emitted(self) -> Seq<Seq<u8>> {
        self.sent_log@ + opt_inflight(self.inflight@) + opt_pending(self.pending)
    }

    /// The session invariant.
    pub open spec fn wf(self) -> bool {
        &&& self.sent_log@.is_prefix_of(self.read_log@)
        &&& self.read_log@.len() <= self.sent_log@.len() + 2
        &&& (self.state == SessionState::Streaming ==> self.read_log@ == self.emitted())
        &&& (self.pending is Some ==> self.state == SessionState::Streaming)
        &&& (self.inflight@ is Some ==> self.state == SessionState::Streaming)
        &&& (self.state == SessionState::Idle || self.state == SessionState::Connecting
            || self.state == SessionState::Established ==> self.read_log@.len() == 0
            && self.sent_log@.len() == 0)
    }

    /// A new session under the given trust policy, not yet connected.
    pub fn new(trust: TrustPolicy) -> (s: RelaySession)
        ensures
            s.wf(),
            s.state == SessionState::Idle,
            s.trust == trust,
            s.read_log@ == Seq::<Seq<u8>>::empty(),
            s.sent_log@ == Seq::<Seq<u8>>::empty(),
    {
        let s = RelaySession {
            state: SessionState::Idle,
            trust,
            pending: None,
            inflight: Ghost(None),
            read_log: Ghost(Seq::empty()),
            sent_log: Ghost(Seq::empty()),
        };
        proof {
            assert(s.sent_log@.is_prefix_of(s.read_log@));
            assert(s.read_log@ =~= s.emitted());
        }
        s
    }

    /// Starts the initiator side of the handshake.
    pub fn start_connect(&mut self)
        requires
            old(self).wf(),
            old(self).state == SessionState::Idle,
        ensures
            final(self).wf(),
            final(self).state == SessionState::Connecting,
            final(self).trust == old(self).trust,
            final(self).read_log == old(self).read_log,
            final(self).sent_log == old(self).sent_log,
    {
        self.state = SessionState::Connecting;
    }

    /// Starts the responder side of the handshake.
    pub fn start_accept(&mut self)
        requires
            old(self).wf(),
            old(self).state == SessionState::Idle,
        ensures
            final(self).wf(),
            final(self).state == SessionState::Connecting,
            final(self).trust == old(self).trust,
            final(self).read_log == old(self).read_log,
            final(self).sent_log == old(self).sent_log,
    {
        self.state = SessionState::Connecting;
    }

    /// Records that the handshake completed.
    pub fn handshake_complete(&mut self)
        requires
            old(self).wf(),
            old(self).state == SessionState::Connecting,
        ensures
            final(self).wf(),
            final(self).state == SessionState::Established,
            final(self).trust == old(self).trust,
            final(self).read_log == old(self).read_log,
            final(self).sent_log == old(self).sent_log,
    {
        self.state = SessionState::Established;
    }

    /// Records that the handshake failed: terminal, no retry.
    pub fn handshake_failed(&mut self) -> (e: RelayError)
        requires
            old(self).wf(),
            old(self).state == SessionState::Connecting,
        ensures
            final(self).wf(),
            final(self).state == SessionState::Failed,
            final(self).read_log == old(self).read_log,
            final(self).sent_log == old(self).sent_log,
            e == RelayError::HandshakeFailure,
    {
        self.state = SessionState::Failed;
        RelayError::HandshakeFailure
    }

    /// Opens the single unidirectional stream of the session.
    pub fn begin_streaming(&mut self)
        requires
            old(self).wf(),
            old(self).state == SessionState::Established,
        ensures
            final(self).wf(),
            final(self).state == SessionState::Streaming,
            final(self).trust == old(self).trust,
            final(self).read_log == old(self).read_log,
            final(self).sent_log == old(self).sent_log,
    {
        self.state = SessionState::Streaming;
        proof {
            assert(self.read_log@ =~= self.emitted());
        }
    }

    /// Accepts one frame from the source.  The pipeline may only read
    /// ahead by this one frame: a frame must leave for the transport
    /// before the next one may be accepted.
    pub fn offer_frame(&mut self, frame: Vec<u8>)
        requires
            old(self).wf(),
            old(self).state == SessionState::Streaming,
            old(self).pending is None,
        ensures
            final(self).wf(),
            final(self).state == SessionState::Streaming,
            final(self).pending == Some(frame),
            final(self).read_log@ == old(self).read_log@.push(frame@),
            final(self).sent_log == old(self).sent_log,
    {
        let ghost fv = frame@;
        self.pending = Some(frame);
        proof {
            self.read_log@ = self.read_log@.push(fv);
            assert(self.read_log@ =~= self.emitted());
            assert(old(self).sent_log@.is_prefix_of(self.read_log@)) by {
                assert(self.read_log@.subrange(0, old(self).sent_log@.len() as int)
                    =~= old(self).read_log@.subrange(0, old(self).sent_log@.len() as int));
            }
        }
    }

    /// Hands the buffered frame to the transport for transmission.
    pub fn begin_send(&mut self) -> (f: Vec<u8>)
        requires
            old(self).wf(),
            old(self).state == SessionState::Streaming,
            old(self).pending is Some,
            old(self).inflight@ is None,
        ensures
            final(self).wf(),
            final(self).state == SessionState::Streaming,
            final(self).pending is None,
            final(self).inflight@ == Some(f@),
            f@ == old(self).pending.unwrap()@,
            final(self).read_log == old(self).read_log,
            final(self).sent_log == old(self).sent_log,
    {
        let taken = self.pending.take();
        let f = match taken {
            Some(f) => f,
            None => unreached(),
        };
        proof {
            self.inflight@ = Some(f@);
            assert(self.emitted() =~= old(self).emitted());
        }
        f
    }

    /// Records that the transport confirmed the in-transit frame.
    pub fn send_complete(&mut self)
        requires
            old(self).wf(),
            old(self).state == SessionState::Streaming,
            old(self).inflight@ is Some,
        ensures
            final(self).wf(),
            final(self).state == SessionState::Streaming,
            final(self).inflight@ is None,
            final(self).pending == old(self).pending,
            final(self).read_log == old(self).read_log,
            final(self).sent_log@ == old(self).sent_log@.push(old(self).inflight@.unwrap()),
    {
        proof {
            self.sent_log@ = self.sent_log@.push(self.inflight@.unwrap());
            self.inflight@ = None;
            assert(self.emitted() =~= old(self).emitted());
            assert(self.sent_log@.is_prefix_of(self.read_log@)) by {
                assert(self.sent_log@
                    =~= self.read_log@.subrange(0, self.sent_log@.len() as int));
            }
        }
    }

    /// Records a clean end of the source at a frame boundary: the session
    /// moves to an orderly close once every accepted frame has been sent.
    pub fn source_exhausted(&mut self)
        requires
            old(self).wf(),
            old(self).state == SessionState::Streaming,
            old(self).pending is None,
            old(self).inflight@ is None,
        ensures
            final(self).wf(),
            final(self).state == SessionState::Closing,
            final(self).read_log == old(self).read_log,
            final(self).sent_log == old(self).sent_log,
    {
        self.state = SessionState::Closing;
        proof {
            assert(old(self).read_log@ =~= old(self).sent_log@);
        }
    }

    /// Records an explicit stop signal.  A frame that was read but not yet
    /// handed to the transport is discarded, never sent out of order; a
    /// transmission already in progress must first be confirmed or failed.
    pub fn stop(&mut self)
        requires
            old(self).wf(),
            old(self).state == SessionState::Streaming,
            old(self).inflight@ is None,
        ensures
            final(self).wf(),
            final(self).state == SessionState::Closing,
            final(self).pending is None,
            final(self).read_log == old(self).read_log,
            final(self).sent_log == old(self).sent_log,
    {
        self.state = SessionState::Closing;
        self.pending = None;
    }

    /// Records that the close was signalled to the peer and the stream
    /// released.
    pub fn close_complete(&mut self)
        requires
            old(self).wf(),
            old(self).state == SessionState::Closing,
        ensures
            final(self).wf(),
            final(self).state == SessionState::Closed,
            final(self).read_log == old(self).read_log,
            final(self).sent_log == old(self).sent_log,
    {
        self.state = SessionState::Closed;
    }

    /// Records a transport failure: terminal for the session, surfaced to
    /// the caller, never retried here.  Unsent frames are dropped.
    pub fn transport_failed(&mut self) -> (e: RelayError)
        requires
            old(self).wf(),
            old(self).state != SessionState::Closed,
            old(self).state != SessionState::Failed,
        ensures
            final(self).wf(),
            final(self).state == SessionState::Failed,
            final(self).read_log == old(self).read_log,
            final(self).sent_log == old(self).sent_log,
            e == RelayError::StreamFailure,
    {
        self.state = SessionState::Failed;
        self.pending = None;
        proof {
            self.inflight@ = None;
        }
        RelayError::StreamFailure
    }

    /// Ordering: frames leave in exactly the order they were accepted.
    /// The sent log is always a prefix of the read log, so the `i`-th
    /// frame sent is the `i`-th frame read.  Sessions share no state, so
    /// two sessions running concurrently each preserve the order of their
    /// own frames, whatever the interleaving.
    pub proof fn lemma_send_order(self)
        requires
            self.wf(),
        ensures
            self.sent_log@.len() <= self.read_log@.len(),
            forall|i: int| 0 <= i < self.sent_log@.len()
                ==> #[trigger] self.sent_log@[i] == self.read_log@[i],
    {
        assert forall|i: int| 0 <= i < self.sent_log@.len()
            implies #[trigger] self.sent_log@[i] == self.read_log@[i] by {
            assert(self.sent_log@[i]
                == self.read_log@.subrange(0, self.sent_log@.len() as int)[i]);
        }
    }

    /// Backpressure: beyond the frame in transit, at most one frame is
    /// ever buffered, so a slow peer stalls the source rather than growing
    /// a queue — no state of the session holds more than two accepted but
    /// unsent frames, and at most one of them outside the transport.
    pub proof fn lemma_backpressure(self)
        requires
            self.wf(),
        ensures
            opt_pending(self.pending).len() <= 1,
            self.read_log@.len() <= self.sent_log@.len() + 2,
    {
    }
}

} // verus!
