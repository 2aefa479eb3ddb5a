//! The fixed-size trace record header: its byte layout, a decoder that
//! validates the format signature, and an encoder used to build well-formed
//! headers.  All multi-byte fields are little-endian, as the tracing
//! subsystem produces them.

use vstd::prelude::*;

use crate::RelayError;

verus! {

/// Size in bytes of the fixed trace record header.
pub const HEADER_SIZE: usize = 64;

/// Byte offset of each header field.
pub const MAGIC_OFFSET: usize = 0;
pub const SEQUENCE_OFFSET: usize = 4;
pub const TIMESTAMP_OFFSET: usize = 8;
pub const SECTOR_OFFSET: usize = 16;
pub const BYTE_COUNT_OFFSET: usize = 24;
pub const ACTION_OFFSET: usize = 28;
pub const PID_OFFSET: usize = 32;
pub const DEVICE_ID_OFFSET: usize = 36;
pub const CPU_OFFSET: usize = 40;
pub const ERROR_OFFSET: usize = 44;
pub const PAYLOAD_LEN_OFFSET: usize = 46;
pub const COMMAND_NAME_OFFSET: usize = 48;

/// Length in bytes of the fixed, NUL-padded command name field.
pub const COMMAND_NAME_LEN: usize = 16;

/// Format signature: the top 24 bits of a valid magic field equal the top
/// 24 bits of this constant; the low 8 bits carry a version number.
pub const BLK_IO_TRACE_MAGIC: u32 = 0x65617400;

/// A decoded trace record header.
#[derive(Clone, Debug, PartialEq, Eq)]
pub struct TraceRecordHeader {
    /// Format signature; the top 24 bits are fixed, the low 8 a version.
    pub magic: u32,
    /// Monotonic per-stream sequence number.
    pub sequence: u32,
    /// Nanoseconds since an arbitrary epoch.
    pub timestamp: u64,
    /// Device sector address, 0 if not applicable.
    pub sector: u64,
    /// Size of the I/O in bytes.
    pub byte_count: u32,
    /// Packed bitfield: action code, cgroup flag and category flags.
    pub action: u32,
    /// Originating process id.
    pub pid: u32,
    /// Encoded major/minor device number.
    pub device_id: u32,
    /// CPU core that recorded the event.
    pub cpu: u32,
    /// Error code, 0 if none.
    pub error: u16,
    /// Length in bytes of the trailing payload.
    pub payload_len: u16,
    /// Truncated process name, NUL-padded to a fixed width.
    pub command_name: Vec<u8>,
}

impl TraceRecordHeader {
    /// A header is well formed when its command name has the fixed width.
    pub open spec fn wf(self) -> bool {
        self.command_name@.len() == COMMAND_NAME_LEN
    }
}

/// The unsigned 16-bit value stored little-endian at offset `i` of `b`.
pub open spec fn le16_at(b: Seq<u8>, i: int) -> u16 {
    (b[i] + b[i + 1] * 0x100) as u16
}

/// The unsigned 32-bit value stored little-endian at offset `i` of `b`.
pub open spec fn le32_at(b: Seq<u8>, i: int) -> u32 {
    (b[i] + b[i + 1] * 0x100 + b[i + 2] * 0x1_0000 + b[i + 3] * 0x100_0000) as u32
}

/// The unsigned 64-bit value stored little-endian at offset `i` of `b`.
pub open spec fn le64_at(b: Seq<u8>, i: int) -> u64 {
    (b[i] + b[i + 1] * 0x100 + b[i + 2] * 0x1_0000 + b[i + 3] * 0x100_0000
        + b[i + 4] * 0x1_0000_0000 + b[i + 5] * 0x100_0000_0000
        + b[i + 6] * 0x1_0000_0000_0000 + b[i + 7] * 0x100_0000_0000_0000) as u64
}

/// Whether a magic value carries the fixed 24-bit format signature.
pub open spec fn spec_magic_ok(magic: u32) -> bool {
    magic & 0xffff_ff00 == BLK_IO_TRACE_MAGIC
}

/// Whether header `h` holds exactly the fields stored in the first
/// `HEADER_SIZE` bytes of `b`.  Both the decoder and the encoder promise
/// this relation, which makes the round trip exact.
pub open spec fn header_matches(h: TraceRecordHeader, b: Seq<u8>) -> bool {
    &&& h.magic == le32_at(b, MAGIC_OFFSET as int)
    &&& h.sequence == le32_at(b, SEQUENCE_OFFSET as int)
    &&& h.timestamp == le64_at(b, TIMESTAMP_OFFSET as int)
    &&& h.sector == le64_at(b, SECTOR_OFFSET as int)
    &&& h.byte_count == le32_at(b, BYTE_COUNT_OFFSET as int)
    &&& h.action == le32_at(b, ACTION_OFFSET as int)
    &&& h.pid == le32_at(b, PID_OFFSET as int)
    &&& h.device_id == le32_at(b, DEVICE_ID_OFFSET as int)
    &&& h.cpu == le32_at(b, CPU_OFFSET as int)
    &&& h.error == le16_at(b, ERROR_OFFSET as int)
    &&& h.payload_len == le16_at(b, PAYLOAD_LEN_OFFSET as int)
    &&& h.command_name@ == b.subrange(
        COMMAND_NAME_OFFSET as int,
        COMMAND_NAME_OFFSET as int + COMMAND_NAME_LEN as int,
    )
}

/// Values stored in a common prefix are unchanged by growing the buffer.
pub proof fn lemma_le_prefix(a: Seq<u8>, b: Seq<u8>)
    requires
        a.len() <= b.len(),
        b.subrange(0, a.len() as int) == a,
    ensures
        forall|i: int| 0 <= i && i + 2 <= a.len() ==> #[trigger] le16_at(b, i) == le16_at(a, i),
        forall|i: int| 0 <= i && i + 4 <= a.len() ==> #[trigger] le32_at(b, i) == le32_at(a, i),
        forall|i: int| 0 <= i && i + 8 <= a.len() ==> #[trigger] le64_at(b, i) == le64_at(a, i),
{
    assert forall|j: int| 0 <= j < a.len() implies b[j] == a[j] by {
        assert(b.subrange(0, a.len() as int)[j] == a[j]);
    }
}

/// Reads the little-endian 16-bit value at offset `i` of `b`.
pub fn read_u16_le(b: &Vec<u8>, i: usize) -> (r: u16)
    requires
        i + 2 <= b@.len(),
    ensures
        r == le16_at(b@, i as int),
{
    // Reading the length ties it to a machine word, so the index sums
    // below are known to stay in bounds.
    let _n: usize = b.len();
    (b[i] as u16) + (b[i + 1] as u16) * 0x100
}

/// Reads the little-endian 32-bit value at offset `i` of `b`.
pub fn read_u32_le(b: &Vec<u8>, i: usize) -> (r: u32)
    requires
        i + 4 <= b@.len(),
    ensures
        r == le32_at(b@, i as int),
{
    // Reading the length ties it to a machine word, so the index sums
    // below are known to stay in bounds.
    let _n: usize = b.len();
    (b[i] as u32) + (b[i + 1] as u32) * 0x100 + (b[i + 2] as u32) * 0x1_0000
        + (b[i + 3] as u32) * 0x100_0000
}

/// Reads the little-endian 64-bit value at offset `i` of `b`.
pub fn read_u64_le(b: &Vec<u8>, i: usize) -> (r: u64)
    requires
        i + 8 <= b@.len(),
    ensures
        r == le64_at(b@, i as int),
{
    // Reading the length ties it to a machine word, so the index sums
    // below are known to stay in bounds.
    let _n: usize = b.len();
    (b[i] as u64) + (b[i + 1] as u64) * 0x100 + (b[i + 2] as u64) * 0x1_0000
        + (b[i + 3] as u64) * 0x100_0000 + (b[i + 4] as u64) * 0x1_0000_0000
        + (b[i + 5] as u64) * 0x100_0000_0000 + (b[i + 6] as u64) * 0x1_0000_0000_0000
        + (b[i + 7] as u64) * 0x100_0000_0000_0000
}

/// Whether `magic` carries the fixed format signature.
pub fn magic_ok(magic: u32) -> (r: bool)
    ensures
        r == spec_magic_ok(magic),
{
    magic & 0xffff_ff00 == BLK_IO_TRACE_MAGIC
}

/// Decodes the fixed header stored at the start of `b`, validating the
/// format signature.  Decoding is pure field extraction: it succeeds if and
/// only if the signature matches, and the decoded fields are exactly the
/// stored ones.
pub fn decode_header(b: &Vec<u8>) -> (r: Result<TraceRecordHeader, RelayError>)
    requires
        b@.len() >= HEADER_SIZE,
    ensures
        r is Ok <==> spec_magic_ok(le32_at(b@, MAGIC_OFFSET as int)),
        r matches Ok(h) ==> h.wf() && header_matches(h, b@),
        r matches Err(e) ==> e == RelayError::BadMagic,
{
    let magic = read_u32_le(b, MAGIC_OFFSET);
    if !magic_ok(magic) {
        return Err(RelayError::BadMagic);
    }
    let mut command_name: Vec<u8> = Vec::new();
    let mut i: usize = 0;
    while i < COMMAND_NAME_LEN
        invariant
            i <= COMMAND_NAME_LEN,
            b@.len() >= HEADER_SIZE,
            command_name@ == b@.subrange(
                COMMAND_NAME_OFFSET as int,
                COMMAND_NAME_OFFSET as int + i as int,
            ),
        decreases COMMAND_NAME_LEN - i,
    {
        command_name.push(b[COMMAND_NAME_OFFSET + i]);
        i = i + 1;
        proof {
            assert(command_name@ =~= b@.subrange(
                COMMAND_NAME_OFFSET as int,
                COMMAND_NAME_OFFSET as int + i as int,
            ));
        }
    }
    Ok(TraceRecordHeader {
        magic,
        sequence: read_u32_le(b, SEQUENCE_OFFSET),
        timestamp: read_u64_le(b, TIMESTAMP_OFFSET),
        sector: read_u64_le(b, SECTOR_OFFSET),
        byte_count: read_u32_le(b, BYTE_COUNT_OFFSET),
        action: read_u32_le(b, ACTION_OFFSET),
        pid: read_u32_le(b, PID_OFFSET),
        device_id: read_u32_le(b, DEVICE_ID_OFFSET),
        cpu: read_u32_le(b, CPU_OFFSET),
        error: read_u16_le(b, ERROR_OFFSET),
        payload_len: read_u16_le(b, PAYLOAD_LEN_OFFSET),
        command_name,
    })
}

/// Appends the two little-endian bytes of `x` to `out`.
fn push_u16_le(out: &mut Vec<u8>, x: u16)
    ensures
        final(out)@.len() == old(out)@.len() + 2,
        final(out)@.subrange(0, old(out)@.len() as int) == old(out)@,
        le16_at(final(out)@, old(out)@.len() as int) == x,
{
    let ghost n = out@.len() as int;
    let b0: u8 = (x % 0x100) as u8;
    let b1: u8 = (x / 0x100) as u8;
    out.push(b0);
    out.push(b1);
    proof {
        assert(out@.subrange(0, n) =~= old(out)@);
        assert(b0 == x % 0x100 && b1 == x / 0x100 ==> (b0 + b1 * 0x100) as u16 == x)
            by (bit_vector);
    }
}

/// Appends the four little-endian bytes of `x` to `out`.
fn push_u32_le(out: &mut Vec<u8>, x: u32)
    ensures
        final(out)@.len() == old(out)@.len() + 4,
        final(out)@.subrange(0, old(out)@.len() as int) == old(out)@,
        le32_at(final(out)@, old(out)@.len() as int) == x,
{
    let ghost n = out@.len() as int;
    let b0: u8 = (x % 0x100) as u8;
    let b1: u8 = ((x / 0x100) % 0x100) as u8;
    let b2: u8 = ((x / 0x1_0000) % 0x100) as u8;
    let b3: u8 = ((x / 0x100_0000) % 0x100) as u8;
    out.push(b0);
    out.push(b1);
    out.push(b2);
    out.push(b3);
    proof {
        assert(out@.subrange(0, n) =~= old(out)@);
        assert((b0 == x % 0x100 && b1 == (x / 0x100) % 0x100 && b2 == (x / 0x1_0000) % 0x100
            && b3 == (x / 0x100_0000) % 0x100) ==> (b0 + b1 * 0x100 + b2 * 0x1_0000
            + b3 * 0x100_0000) as u32 == x) by (bit_vector);
    }
}

/// Appends the eight little-endian bytes of `x` to `out`.
fn push_u64_le(out: &mut Vec<u8>, x: u64)
    ensures
        final(out)@.len() == old(out)@.len() + 8,
        final(out)@.subrange(0, old(out)@.len() as int) == old(out)@,
        le64_at(final(out)@, old(out)@.len() as int) == x,
{
    let ghost n = out@.len() as int;
    let b0: u8 = (x % 0x100) as u8;
    let b1: u8 = ((x / 0x100) % 0x100) as u8;
    let b2: u8 = ((x / 0x1_0000) % 0x100) as u8;
    let b3: u8 = ((x / 0x100_0000) % 0x100) as u8;
    let b4: u8 = ((x / 0x1_0000_0000) % 0x100) as u8;
    let b5: u8 = ((x / 0x100_0000_0000) % 0x100) as u8;
    let b6: u8 = ((x / 0x1_0000_0000_0000) % 0x100) as u8;
    let b7: u8 = ((x / 0x100_0000_0000_0000) % 0x100) as u8;
    out.push(b0);
    out.push(b1);
    out.push(b2);
    out.push(b3);
    out.push(b4);
    out.push(b5);
    out.push(b6);
    out.push(b7);
    proof {
        assert(out@.subrange(0, n) =~= old(out)@);
        assert((b0 == x % 0x100 && b1 == (x / 0x100) % 0x100 && b2 == (x / 0x1_0000) % 0x100
            && b3 == (x / 0x100_0000) % 0x100 && b4 == (x / 0x1_0000_0000) % 0x100
            && b5 == (x / 0x100_0000_0000) % 0x100 && b6 == (x / 0x1_0000_0000_0000) % 0x100
            && b7 == (x / 0x100_0000_0000_0000) % 0x100) ==> (b0 + b1 * 0x100 + b2 * 0x1_0000
            + b3 * 0x100_0000 + b4 * 0x1_0000_0000 + b5 * 0x100_0000_0000
            + b6 * 0x1_0000_0000_0000 + b7 * 0x100_0000_0000_0000) as u64 == x) by (bit_vector);
    }
}

/// Encodes `h` as the fixed header byte layout.  The result stores exactly
/// the fields of `h`, so decoding it reproduces them.
pub fn encode_header(h: &TraceRecordHeader) -> (r: Vec<u8>)
    requires
        h.wf(),
    ensures
        r@.len() == HEADER_SIZE,
        header_matches(*h, r@),
{
    let mut out: Vec<u8> = Vec::new();
    push_u32_le(&mut out, h.magic);
    let ghost s1 = out@;
    push_u32_le(&mut out, h.sequence);
    proof { lemma_le_prefix(s1, out@); }
    let ghost s2 = out@;
    push_u64_le(&mut out, h.timestamp);
    proof { lemma_le_prefix(s2, out@); }
    let ghost s3 = out@;
    push_u64_le(&mut out, h.sector);
    proof { lemma_le_prefix(s3, out@); }
    let ghost s4 = out@;
    push_u32_le(&mut out, h.byte_count);
    proof { lemma_le_prefix(s4, out@); }
    let ghost s5 = out@;
    push_u32_le(&mut out, h.action);
    proof { lemma_le_prefix(s5, out@); }
    let ghost s6 = out@;
    push_u32_le(&mut out, h.pid);
    proof { lemma_le_prefix(s6, out@); }
    let ghost s7 = out@;
    push_u32_le(&mut out, h.device_id);
    proof { lemma_le_prefix(s7, out@); }
    let ghost s8 = out@;
    push_u32_le(&mut out, h.cpu);
    proof { lemma_le_prefix(s8, out@); }
    let ghost s9 = out@;
    push_u16_le(&mut out, h.error);
    proof { lemma_le_prefix(s9, out@); }
    let ghost s10 = out@;
    push_u16_le(&mut out, h.payload_len);
    proof { lemma_le_prefix(s10, out@); }
    let ghost s11 = out@;
    let mut i: usize = 0;
    while i < COMMAND_NAME_LEN
        invariant
            i <= COMMAND_NAME_LEN,
            h.wf(),
            out@.len() == COMMAND_NAME_OFFSET + i,
            out@.subrange(0, COMMAND_NAME_OFFSET as int) == s11,
            out@.subrange(COMMAND_NAME_OFFSET as int, out@.len() as int)
                == h.command_name@.subrange(0, i as int),
        decreases COMMAND_NAME_LEN - i,
    {
        out.push(h.command_name[i]);
        i = i + 1;
        proof {
            assert(out@.subrange(0, COMMAND_NAME_OFFSET as int) =~= s11);
            assert(out@.subrange(COMMAND_NAME_OFFSET as int, out@.len() as int)
                =~= h.command_name@.subrange(0, i as int));
        }
    }
    proof {
        lemma_le_prefix(s11, out@);
        assert(out@.subrange(
            COMMAND_NAME_OFFSET as int,
            COMMAND_NAME_OFFSET as int + COMMAND_NAME_LEN as int,
        ) =~= h.command_name@);
    }
    out
}

/// Round trip: two well-formed headers that match the same bytes agree on
/// every field.  Since `encode_header` ensures the bytes it produces match
/// the encoded header and `decode_header` ensures the header it returns
/// matches the bytes it read, decoding an encoded header reproduces every
/// field exactly.
pub proof fn lemma_header_round_trip(h1: TraceRecordHeader, h2: TraceRecordHeader, b: Seq<u8>)
    requires
        h1.wf(),
        h2.wf(),
        header_matches(h1, b),
        header_matches(h2, b),
    ensures
        h1.magic == h2.magic,
        h1.sequence == h2.sequence,
        h1.timestamp == h2.timestamp,
        h1.sector == h2.sector,
        h1.byte_count == h2.byte_count,
        h1.action == h2.action,
        h1.pid == h2.pid,
        h1.device_id == h2.device_id,
        h1.cpu == h2.cpu,
        h1.error == h2.error,
        h1.payload_len == h2.payload_len,
        h1.command_name@ == h2.command_name@,
{
}

} // verus!
