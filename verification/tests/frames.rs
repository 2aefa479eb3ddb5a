//! Frame alignment and truncation tests for the fragment reader.

use iowatcherng_exporter::RelayError;
use iowatcherng_exporter::frame::FragmentReader;
use iowatcherng_exporter::frame::NextFrame;
use iowatcherng_exporter::frame::split_stream;
use iowatcherng_exporter::record::BLK_IO_TRACE_MAGIC;
use iowatcherng_exporter::record::HEADER_SIZE;
use iowatcherng_exporter::record::TraceRecordHeader;
use iowatcherng_exporter::record::encode_header;

fn frame_bytes(sequence: u32, payload: &[u8]) -> Vec<u8> {
    let h = TraceRecordHeader {
        magic: BLK_IO_TRACE_MAGIC | 0x07,
        sequence,
        timestamp: 1_000 + sequence as u64,
        sector: 0,
        byte_count: 512,
        action: 1,
        pid: 42,
        device_id: 0x0800_0000,
        cpu: 0,
        error: 0,
        payload_len: payload.len() as u16,
        command_name: vec![0u8; 16],
    };
    let mut bytes = encode_header(&h);
    bytes.extend_from_slice(payload);
    bytes
}

#[test]
fn alignment_over_varying_payload_lengths() {
    let frames = vec![
        frame_bytes(0, b""),
        frame_bytes(1, b"hello"),
        frame_bytes(2, &[0xAA; 300]),
        frame_bytes(3, b"x"),
        frame_bytes(4, &[0u8; 17]),
    ];
    let mut stream = Vec::new();
    for f in &frames {
        stream.extend_from_slice(f);
    }
    let got = split_stream(stream).expect("a gapless concatenation must split");
    assert_eq!(got.len(), frames.len());
    for (g, f) in got.iter().zip(frames.iter()) {
        assert_eq!(&g.bytes, f);
    }
}

#[test]
fn alignment_under_arbitrary_chunking() {
    let frames = vec![
        frame_bytes(0, b"abc"),
        frame_bytes(1, &[7u8; 129]),
        frame_bytes(2, b""),
    ];
    let mut stream = Vec::new();
    for f in &frames {
        stream.extend_from_slice(f);
    }
    // Feed the bytes in chunks that straddle every boundary.
    let mut reader = FragmentReader::new();
    let mut got: Vec<Vec<u8>> = Vec::new();
    for chunk in stream.chunks(23) {
        reader.push_bytes(&chunk.to_vec());
        loop {
            match reader.next_frame() {
                NextFrame::Ready(f) => got.push(f.bytes),
                NextFrame::NeedMoreData => break,
                other => panic!("unexpected outcome mid-stream: {:?}", other),
            }
        }
    }
    reader.close_source();
    match reader.next_frame() {
        NextFrame::EndOfStream => {},
        other => panic!("expected clean end of stream, got {:?}", other),
    }
    assert_eq!(got, frames);
}

#[test]
fn truncation_inside_payload() {
    // A complete header that declares five payload bytes, but only three
    // arrive: truncation, never a short frame.
    let full = frame_bytes(9, b"12345");
    let cut = full[..HEADER_SIZE + 3].to_vec();
    assert_eq!(split_stream(cut), Err(RelayError::TruncatedFrame));
}

#[test]
fn truncation_inside_header() {
    let full = frame_bytes(9, b"");
    let cut = full[..HEADER_SIZE - 5].to_vec();
    assert_eq!(split_stream(cut), Err(RelayError::TruncatedFrame));
}

#[test]
fn truncation_after_whole_frames() {
    let mut stream = frame_bytes(0, b"ok");
    stream.extend_from_slice(&frame_bytes(1, b"also ok"));
    let whole = stream.len();
    stream.extend_from_slice(&frame_bytes(2, b"cut off")[..HEADER_SIZE + 2]);

    assert_eq!(split_stream(stream.clone()), Err(RelayError::TruncatedFrame));

    // The reader still yields the whole frames before reporting truncation.
    let mut reader = FragmentReader::new();
    reader.push_bytes(&stream);
    reader.close_source();
    match reader.next_frame() {
        NextFrame::Ready(f) => assert_eq!(f.bytes, frame_bytes(0, b"ok")),
        other => panic!("expected first frame, got {:?}", other),
    }
    match reader.next_frame() {
        NextFrame::Ready(f) => assert_eq!(f.bytes, frame_bytes(1, b"also ok")),
        other => panic!("expected second frame, got {:?}", other),
    }
    match reader.next_frame() {
        NextFrame::Truncated => {},
        other => panic!("expected truncation, got {:?}", other),
    }
    let _ = whole;
}

#[test]
fn empty_stream_is_clean_end() {
    let got = split_stream(Vec::new()).expect("an empty stream is a clean end");
    assert_eq!(got.len(), 0);
}

#[test]
fn payload_is_the_declared_suffix() {
    let f = frame_bytes(3, b"payload bytes");
    let frames = split_stream(f).expect("one whole frame");
    assert_eq!(frames.len(), 1);
    assert_eq!(frames[0].payload(), b"payload bytes".to_vec());
}
