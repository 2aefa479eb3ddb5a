//! The shared per-frame processing step and the small decisions the relay
//! makes around its collaborators.
//!
//! Both entry points of the system — the producer-side preview and the
//! collector-side ingestion — decode and classify through the one function
//! here, so the two paths cannot drift apart.

use vstd::prelude::*;

use crate::RelayError;
use crate::classify::ClassifiedEvent;
use crate::classify::classify;
use crate::classify::spec_classify;
use crate::frame::Frame;
use crate::frame::spec_split;
use crate::frame::split_stream;
use crate::record::ACTION_OFFSET;
use crate::record::MAGIC_OFFSET;
use crate::record::TraceRecordHeader;
use crate::record::decode_header;
use crate::record::header_matches;
use crate::record::le32_at;
use crate::record::spec_magic_ok;

verus! {

/// Decodes and classifies one raw frame.  Succeeds exactly when the
/// frame's header carries the format signature; the decoded header then
/// holds the stored fields and the event is the classification of its
/// action word.  A frame with a bad signature is rejected before any
/// classification, because alignment beyond it cannot be trusted.
pub fn process_frame(frame: &Frame) -> (r: Result<(TraceRecordHeader, ClassifiedEvent), RelayError>)
    requires
        frame.wf(),
    ensures
        r is Ok <==> spec_magic_ok(le32_at(frame.bytes@, MAGIC_OFFSET as int)),
        r matches Ok((h, e)) ==> {
            &&& h.wf()
            &&& header_matches(h, frame.bytes@)
            &&& e == spec_classify(h.action)
            &&& e == spec_classify(le32_at(frame.bytes@, ACTION_OFFSET as int))
        },
        r matches Err(e) ==> e == RelayError::BadMagic,
{
    match decode_header(&frame.bytes) {
        Ok(header) => {
            let event = classify(&header);
            Ok((header, event))
        },
        Err(e) => Err(e),
    }
}

/// Whether every frame of `fs` carries the format signature.
pub open spec fn all_magic_ok(fs: Seq<Seq<u8>>) -> bool {
    forall|i: int| 0 <= i < fs.len()
        ==> spec_magic_ok(le32_at(#[trigger] fs[i], MAGIC_OFFSET as int))
}

/// Decodes and classifies a fully buffered stream.  Succeeds exactly when
/// the stream is a gapless concatenation of whole frames and every header
/// carries the format signature; the events are then the classifications
/// of the frames, in order.  A cut-off stream is truncation; a failed
/// signature abandons the stream, because alignment beyond it cannot be
/// trusted.
pub fn classify_stream(data: Vec<u8>) -> (r: Result<Vec<ClassifiedEvent>, RelayError>)
    ensures
        ({
            let split = spec_split(data@);
            match r {
                Ok(events) => {
                    &&& split matches Some(fs)
                    &&& all_magic_ok(fs)
                    &&& events@.len() == fs.len()
                    &&& forall|i: int| 0 <= i < fs.len() ==> events@[i] == spec_classify(
                        le32_at(#[trigger] fs[i], ACTION_OFFSET as int),
                    )
                },
                Err(e) => {
                    ||| (e == RelayError::TruncatedFrame && split is None)
                    ||| (e == RelayError::BadMagic
                        && (split matches Some(fs) && !all_magic_ok(fs)))
                },
            }
        }),
{
    let ghost d = data@;
    let frames = match split_stream(data) {
        Ok(frames) => frames,
        Err(e) => {
            return Err(e);
        },
    };
    let ghost fs = frames@.map_values(|f: Frame| f.bytes@);
    let mut events: Vec<ClassifiedEvent> = Vec::new();
    let n = frames.len();
    let mut i: usize = 0;
    while i < n
        invariant
            i <= n,
            n == frames@.len(),
            d == data@,
            spec_split(d) == Some(fs),
            fs == frames@.map_values(|f: Frame| f.bytes@),
            forall|k: int| 0 <= k < frames@.len() ==> (#[trigger] frames@[k]).wf(),
            events@.len() == i,
            forall|k: int| 0 <= k < i
                ==> spec_magic_ok(le32_at(#[trigger] fs[k], MAGIC_OFFSET as int)),
            forall|k: int| 0 <= k < i ==> events@[k] == spec_classify(
                le32_at(#[trigger] fs[k], ACTION_OFFSET as int),
            ),
        decreases n - i,
    {
        proof {
            assert(fs[i as int] == frames@[i as int].bytes@);
        }
        match process_frame(&frames[i]) {
            Ok((_header, event)) => {
                events.push(event);
            },
            Err(e) => {
                proof {
                    assert(!spec_magic_ok(le32_at(fs[i as int], MAGIC_OFFSET as int)));
                    assert(!all_magic_ok(fs));
                }
                return Err(e);
            },
        }
        i = i + 1;
    }
    Ok(events)
}

/// Chooses the collector's single private key from parsed credential
/// material.  Anything but exactly one key is a credential failure,
/// surfaced before any session starts.
pub fn select_single_key(keys: Vec<Vec<u8>>) -> (r: Result<Vec<u8>, RelayError>)
    ensures
        r is Ok <==> keys@.len() == 1,
        r matches Ok(k) ==> k == keys@[0],
        r matches Err(e) ==> e == RelayError::CredentialLoadFailure,
{
    let mut keys = keys;
    if keys.len() == 1 {
        match keys.pop() {
            Some(k) => Ok(k),
            None => unreached(),
        }
    } else {
        Err(RelayError::CredentialLoadFailure)
    }
}

} // verus!
