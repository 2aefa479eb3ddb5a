//! Verified core of a block-layer I/O trace relay.
//!
//! The crate decodes the packed binary records emitted by a kernel block
//! tracer, classifies each record into a closed set of event kinds, splits a
//! byte stream into self-delimiting frames without ever losing alignment, and
//! drives a relay session that moves raw frames to a collector with strict
//! ordering and bounded buffering.  All I/O (process, network, metrics
//! export) lives outside this crate; the functions here work on plain bytes
//! and values and carry proofs of their contracts.

use vstd::prelude::*;

pub mod classify;
pub mod frame;
pub mod pipeline;
pub mod record;
pub mod session;

verus! {

/// The terminal failures of the relay core.
///
/// A clean end of stream is not an error and is reported separately by the
/// frame reader.  An unrecognized action code is not an error either:
/// classification maps it to an `Unknown` kind and processing continues.
#[derive(Clone, Copy, Debug, PartialEq, Eq, Structural)]
pub enum RelayError {
    /// A short read strictly inside a header or inside a declared payload.
    TruncatedFrame,
    /// The format signature of a header did not match; alignment is lost.
    BadMagic,
    /// The transport handshake did not complete.
    HandshakeFailure,
    /// The established transport stream failed.
    StreamFailure,
    /// Credential material could not be obtained before the session started.
    CredentialLoadFailure,
}

} // verus!
