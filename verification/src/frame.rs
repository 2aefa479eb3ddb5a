//! Frame extraction: splitting a byte stream into self-delimiting trace
//! frames — a fixed-size header followed by the payload length the header
//! declares — without ever splitting or merging frames.
//!
//! The reader performs no interpretation beyond extracting the payload
//! length needed to keep frame boundaries aligned; signature validation is
//! the decoder's job.  A short read strictly inside a header or a declared
//! payload is truncation, a terminal condition distinct from a clean end of
//! stream at a frame boundary.

use vstd::prelude::*;

use crate::RelayError;
use crate::record::HEADER_SIZE;
use crate::record::PAYLOAD_LEN_OFFSET;
use crate::record::le16_at;
use crate::record::read_u16_le;

verus! {

/// The total length of the frame that starts at the head of `b`: the fixed
/// header plus the payload length the header declares.
pub open spec fn spec_frame_len(b: Seq<u8>) -> int
    recommends
        b.len() >= HEADER_SIZE,
{
    HEADER_SIZE + le16_at(b, PAYLOAD_LEN_OFFSET as int)
}

/// A byte sequence is one well-formed frame when it is exactly as long as
/// its header declares.
pub open spec fn frame_bytes_wf(b: Seq<u8>) -> bool {
    b.len() == spec_frame_len(b)
}

/// One raw frame: the header bytes and exactly the declared payload.
#[derive(Clone, Debug, PartialEq, Eq)]
pub struct Frame {
    pub bytes: Vec<u8>,
}

impl Frame {
    /// The frame is exactly as long as its header declares.
    pub open spec fn wf(self) -> bool {
        frame_bytes_wf(self.bytes@)
    }

    /// The payload bytes that trail the fixed header.
    pub fn payload(&self) -> (p: Vec<u8>)
        requires
            self.wf(),
        ensures
            p@ == self.bytes@.skip(HEADER_SIZE as int),
    {
        let mut p: Vec<u8> = Vec::new();
        let mut i: usize = HEADER_SIZE;
        let n = self.bytes.len();
        while i < n
            invariant
                HEADER_SIZE <= i <= n,
                n == self.bytes@.len(),
                p@ == self.bytes@.subrange(HEADER_SIZE as int, i as int),
            decreases n - i,
        {
            p.push(self.bytes[i]);
            i = i + 1;
            proof {
                assert(p@ =~= self.bytes@.subrange(HEADER_SIZE as int, i as int));
            }
        }
        proof {
            assert(self.bytes@.subrange(HEADER_SIZE as int, n as int)
                =~= self.bytes@.skip(HEADER_SIZE as int));
        }
        p
    }
}

/// What a pull on the reader yields.
#[derive(Debug)]
pub enum NextFrame {
    /// One complete frame, removed from the pending bytes.
    Ready(Frame),
    /// The source is still open and the pending bytes hold no complete
    /// frame yet.
    NeedMoreData,
    /// The source ended cleanly at a frame boundary.
    EndOfStream,
    /// The source ended strictly inside a header or a declared payload.
    Truncated,
}

/// Splits a byte stream into successive frames.  Bytes are fed in as they
/// arrive; frames come out whole, in order, and are never split or merged.
pub struct FragmentReader {
    /// All bytes accepted so far; the prefix before `pos` has been yielded.
    pub buf: Vec<u8>,
    /// The boundary of the next frame within `buf`.
    pub pos: usize,
    /// Whether the source has ended.
    pub closed: bool,
}

impl FragmentReader {
    /// The yielded prefix never passes the end of the buffer.
    pub open spec fn wf(self) -> bool {
        self.pos <= self.buf@.len()
    }

    /// The bytes accepted but not yet yielded as frames.
    pub open spec fn pending(self) -> Seq<u8> {
        self.buf@.skip(self.pos as int)
    }

    /// A fresh reader with an open source and nothing pending.
    pub fn new() -> (r: FragmentReader)
        ensures
            r.wf(),
            r.pending() == Seq::<u8>::empty(),
            !r.closed,
    {
        let r = FragmentReader { buf: Vec::new(), pos: 0, closed: false };
        proof {
            assert(r.pending() =~= Seq::<u8>::empty());
        }
        r
    }

    /// A reader over a fully buffered source, ended at its last byte.
    pub fn with_source(data: Vec<u8>) -> (r: FragmentReader)
        ensures
            r.wf(),
            r.pending() == data@,
            r.closed,
    {
        let r = FragmentReader { buf: data, pos: 0, closed: true };
        proof {
            assert(r.pending() =~= r.buf@);
        }
        r
    }

    /// Reclaims the yielded prefix, so the buffer never outgrows the
    /// pending bytes.
    fn compact(&mut self)
        requires
            old(self).wf(),
        ensures
            final(self).wf(),
            final(self).pending() == old(self).pending(),
            final(self).closed == old(self).closed,
            final(self).pos == 0,
    {
        if self.pos == 0 {
            return;
        }
        let n = self.buf.len();
        let mut rest: Vec<u8> = Vec::new();
        let mut i: usize = self.pos;
        while i < n
            invariant
                self.pos <= i <= n,
                n == self.buf@.len(),
                self.wf(),
                self.pos == old(self).pos,
                self.buf == old(self).buf,
                self.closed == old(self).closed,
                rest@ == self.buf@.subrange(self.pos as int, i as int),
            decreases n - i,
        {
            rest.push(self.buf[i]);
            i = i + 1;
            proof {
                assert(rest@ =~= self.buf@.subrange(self.pos as int, i as int));
            }
        }
        self.buf = rest;
        self.pos = 0;
        proof {
            assert(self.pending() =~= old(self).pending());
        }
    }

    /// Accepts the next bytes read from the source.  The bytes of frames
    /// already yielded are released first: the reader holds no more than
    /// the pending bytes and the new chunk.
    pub fn push_bytes(&mut self, chunk: &Vec<u8>)
        requires
            old(self).wf(),
            !old(self).closed,
        ensures
            final(self).wf(),
            final(self).pending() == old(self).pending() + chunk@,
            final(self).closed == old(self).closed,
            final(self).buf@.len() == final(self).pending().len(),
    {
        self.compact();
        let ghost base = self.buf@;
        proof {
            assert(base =~= old(self).pending());
        }
        let n = chunk.len();
        let mut i: usize = 0;
        while i < n
            invariant
                i <= n,
                n == chunk@.len(),
                self.wf(),
                self.closed == old(self).closed,
                self.pos == 0,
                base == old(self).pending(),
                self.buf@ == base + chunk@.subrange(0, i as int),
            decreases n - i,
        {
            self.buf.push(chunk[i]);
            i = i + 1;
            proof {
                assert(self.buf@ =~= base + chunk@.subrange(0, i as int));
            }
        }
        proof {
            assert(chunk@.subrange(0, n as int) =~= chunk@);
            assert(self.pending() =~= old(self).pending() + chunk@);
        }
    }

    /// Marks the source as ended: no more bytes will arrive.
    pub fn close_source(&mut self)
        requires
            old(self).wf(),
        ensures
            final(self).wf(),
            final(self).pending() == old(self).pending(),
            final(self).closed,
    {
        self.closed = true;
    }

    /// Yields the next frame if the pending bytes hold one whole frame.  At
    /// a frame boundary an ended source is a clean end of stream; an ended
    /// source strictly inside a header or a declared payload is truncation,
    /// and no short frame is ever yielded.
    pub fn next_frame(&mut self) -> (r: NextFrame)
        requires
            old(self).wf(),
        ensures
            final(self).wf(),
            final(self).closed == old(self).closed,
            ({
                let p = old(self).pending();
                if p.len() == 0 {
                    &&& (r is EndOfStream <==> old(self).closed)
                    &&& (r is NeedMoreData <==> !old(self).closed)
                    &&& final(self).pending() == p
                } else if p.len() < HEADER_SIZE || p.len() < spec_frame_len(p) {
                    &&& (r is Truncated <==> old(self).closed)
                    &&& (r is NeedMoreData <==> !old(self).closed)
                    &&& final(self).pending() == p
                } else {
                    &&& r matches NextFrame::Ready(f)
                        && f.wf()
                        && f.bytes@ == p.subrange(0, spec_frame_len(p))
                    &&& final(self).pending() == p.skip(spec_frame_len(p))
                }
            }),
    {
        let ghost p = self.pending();
        let rem = self.buf.len() - self.pos;
        if rem == 0 {
            if self.closed {
                return NextFrame::EndOfStream;
            } else {
                return NextFrame::NeedMoreData;
            }
        }
        if rem < HEADER_SIZE {
            if self.closed {
                return NextFrame::Truncated;
            } else {
                return NextFrame::NeedMoreData;
            }
        }
        let payload_len = read_u16_le(&self.buf, self.pos + PAYLOAD_LEN_OFFSET) as usize;
        proof {
            assert(p[PAYLOAD_LEN_OFFSET as int] == self.buf@[self.pos + PAYLOAD_LEN_OFFSET]);
            assert(p[PAYLOAD_LEN_OFFSET as int + 1] == self.buf@[self.pos + PAYLOAD_LEN_OFFSET + 1]);
            assert(le16_at(p, PAYLOAD_LEN_OFFSET as int)
                == le16_at(self.buf@, self.pos + PAYLOAD_LEN_OFFSET));
        }
        let frame_len = HEADER_SIZE + payload_len;
        if rem < frame_len {
            if self.closed {
                return NextFrame::Truncated;
            } else {
                return NextFrame::NeedMoreData;
            }
        }
        let mut bytes: Vec<u8> = Vec::new();
        let mut j: usize = 0;
        let n: usize = self.buf.len();
        while j < frame_len
            invariant
                j <= frame_len,
                self.wf(),
                n == self.buf@.len(),
                self.pos + frame_len <= n,
                bytes@ == self.buf@.subrange(self.pos as int, self.pos as int + j as int),
            decreases frame_len - j,
        {
            bytes.push(self.buf[self.pos + j]);
            j = j + 1;
            proof {
                assert(bytes@ =~= self.buf@.subrange(self.pos as int, self.pos as int + j as int));
            }
        }
        proof {
            assert(bytes@ =~= p.subrange(0, spec_frame_len(p)));
        }
        self.pos = self.pos + frame_len;
        proof {
            assert(self.pending() =~= p.skip(spec_frame_len(p)));
        }
        NextFrame::Ready(Frame { bytes })
    }
}

/// Splits a fully buffered stream into its frames.  Succeeds exactly when
/// the stream is a gapless concatenation of whole frames, and then yields
/// those frames in order; a stream cut off inside a header or a declared
/// payload is truncation, and no short frame is yielded.
pub fn split_stream(data: Vec<u8>) -> (r: Result<Vec<Frame>, RelayError>)
    ensures
        r is Ok <==> spec_split(data@) is Some,
        r matches Ok(frames) ==> spec_split(data@)
            == Some(frames@.map_values(|f: Frame| f.bytes@)),
        r matches Ok(frames) ==> forall|i: int|
            0 <= i < frames@.len() ==> (#[trigger] frames@[i]).wf(),
        r matches Err(e) ==> e == RelayError::TruncatedFrame,
{
    let mut reader = FragmentReader::with_source(data);
    let ghost all = reader.pending();
    let mut frames: Vec<Frame> = Vec::new();
    proof {
        assert(frames@.map_values(|f: Frame| f.bytes@) =~= Seq::<Seq<u8>>::empty());
    }
    loop
        invariant
            reader.wf(),
            reader.closed,
            forall|i: int| 0 <= i < frames@.len() ==> (#[trigger] frames@[i]).wf(),
            ({
                let acc = frames@.map_values(|f: Frame| f.bytes@);
                match spec_split(reader.pending()) {
                    Some(rest) => spec_split(all) == Some(acc + rest),
                    None => spec_split(all) is None,
                }
            }),
            spec_split(data@) == spec_split(all),
        decreases reader.pending().len(),
    {
        let ghost p = reader.pending();
        let ghost acc_old = frames@.map_values(|f: Frame| f.bytes@);
        match reader.next_frame() {
            NextFrame::Ready(f) => {
                let ghost fv = f.bytes@;
                frames.push(f);
                proof {
                    assert(frames@.map_values(|f: Frame| f.bytes@) =~= acc_old.push(fv));
                    assert(fv == p.subrange(0, spec_frame_len(p)));
                    assert(reader.pending() == p.skip(spec_frame_len(p)));
                    match spec_split(reader.pending()) {
                        Some(rest) => {
                            assert(spec_split(p) == Some(seq![fv] + rest));
                            assert(acc_old + (seq![fv] + rest) =~= acc_old.push(fv) + rest);
                        },
                        None => {
                            assert(spec_split(p) is None);
                        },
                    }
                }
            },
            NextFrame::EndOfStream => {
                proof {
                    assert(p.len() == 0);
                    assert(spec_split(p) == Some(Seq::<Seq<u8>>::empty()));
                    let acc = frames@.map_values(|f: Frame| f.bytes@);
                    assert(acc + Seq::<Seq<u8>>::empty() =~= acc);
                }
                return Ok(frames);
            },
            NextFrame::Truncated => {
                proof {
                    assert(spec_split(p) is None);
                }
                return Err(RelayError::TruncatedFrame);
            },
            NextFrame::NeedMoreData => {
                proof {
                    assert(false);
                }
            },
        }
    }
}

/// Whether every element of `fs` is one well-formed frame.
pub open spec fn frames_wf(fs: Seq<Seq<u8>>) -> bool {
    forall|i: int| 0 <= i < fs.len() ==> frame_bytes_wf(#[trigger] fs[i])
}

/// The byte stream formed by concatenating the frames of `fs` in order,
/// with no gaps.
pub open spec fn concat_frames(fs: Seq<Seq<u8>>) -> Seq<u8>
    decreases fs.len(),
{
    if fs.len() == 0 {
        Seq::empty()
    } else {
        fs[0] + concat_frames(fs.skip(1))
    }
}

/// The frames a stream splits into, walking frame by frame from the start:
/// `None` when the stream ends strictly inside a header or a declared
/// payload.
pub open spec fn spec_split(s: Seq<u8>) -> Option<Seq<Seq<u8>>>
    decreases s.len(),
{
    if s.len() == 0 {
        Some(Seq::empty())
    } else if s.len() < HEADER_SIZE {
        None
    } else if s.len() < spec_frame_len(s) {
        None
    } else {
        match spec_split(s.skip(spec_frame_len(s))) {
            Some(rest) => Some(seq![s.subrange(0, spec_frame_len(s))] + rest),
            None => None,
        }
    }
}

/// A successful split is a faithful framing: the frames it yields are well
/// formed and concatenate back to exactly the split stream, so no byte is
/// invented, lost or moved across a frame boundary.
pub proof fn lemma_concat_split(s: Seq<u8>)
    requires
        spec_split(s) is Some,
    ensures
        frames_wf(spec_split(s).unwrap()),
        concat_frames(spec_split(s).unwrap()) == s,
    decreases s.len(),
{
    let fs = spec_split(s).unwrap();
    if s.len() == 0 {
        assert(concat_frames(fs) =~= s);
    } else {
        let fl = spec_frame_len(s);
        let head = s.subrange(0, fl);
        let tail = s.skip(fl);
        lemma_concat_split(tail);
        let rest = spec_split(tail).unwrap();
        assert(fs == seq![head] + rest);
        assert(head[PAYLOAD_LEN_OFFSET as int] == s[PAYLOAD_LEN_OFFSET as int]);
        assert(head[PAYLOAD_LEN_OFFSET as int + 1] == s[PAYLOAD_LEN_OFFSET as int + 1]);
        assert(le16_at(head, PAYLOAD_LEN_OFFSET as int) == le16_at(s, PAYLOAD_LEN_OFFSET as int));
        assert(frame_bytes_wf(head));
        assert forall|i: int| 0 <= i < fs.len() implies frame_bytes_wf(#[trigger] fs[i]) by {
            if i == 0 {
                assert(fs[0] == head);
            } else {
                assert(fs[i] == rest[i - 1]);
            }
        }
        assert(fs.skip(1) =~= rest);
        assert(concat_frames(fs) == head + concat_frames(rest));
        assert(head + tail =~= s);
    }
}

/// Frame alignment: a stream formed by concatenating well-formed frames
/// splits back into exactly those frames, in order, each at its declared
/// header and payload boundary.  Together with the contract of
/// `FragmentReader::next_frame`, whose pulls walk `spec_split` one frame at
/// a time, a reader over such a stream yields exactly the concatenated
/// frames and then reports a clean end of stream.
pub proof fn lemma_split_concat(fs: Seq<Seq<u8>>)
    requires
        frames_wf(fs),
    ensures
        spec_split(concat_frames(fs)) == Some(fs),
    decreases fs.len(),
{
    if fs.len() == 0 {
        assert(fs =~= Seq::<Seq<u8>>::empty());
    } else {
        let c = concat_frames(fs);
        let f0 = fs[0];
        let rest = concat_frames(fs.skip(1));
        assert(frame_bytes_wf(f0));
        assert(c == f0 + rest);
        assert(c.len() == f0.len() + rest.len());
        assert(c[PAYLOAD_LEN_OFFSET as int] == f0[PAYLOAD_LEN_OFFSET as int]);
        assert(c[PAYLOAD_LEN_OFFSET as int + 1] == f0[PAYLOAD_LEN_OFFSET as int + 1]);
        assert(le16_at(c, PAYLOAD_LEN_OFFSET as int) == le16_at(f0, PAYLOAD_LEN_OFFSET as int));
        assert(spec_frame_len(c) == f0.len());
        assert(c.subrange(0, f0.len() as int) =~= f0);
        assert(c.skip(f0.len() as int) =~= rest);
        assert(frames_wf(fs.skip(1)));
        lemma_split_concat(fs.skip(1));
        assert(spec_split(c) == Some(seq![f0] + fs.skip(1)));
        assert(seq![f0] + fs.skip(1) =~= fs);
    }
}

} // verus!
