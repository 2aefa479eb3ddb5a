//! Round-trip and signature tests for the header codec.

use iowatcherng_exporter::RelayError;
use iowatcherng_exporter::record::BLK_IO_TRACE_MAGIC;
use iowatcherng_exporter::record::HEADER_SIZE;
use iowatcherng_exporter::record::TraceRecordHeader;
use iowatcherng_exporter::record::decode_header;
use iowatcherng_exporter::record::encode_header;

fn sample_header(magic: u32, seed: u64) -> TraceRecordHeader {
    // A deterministic pseudo-random spread of field values.
    let mix = |k: u64| -> u64 {
        let mut x = seed.wrapping_mul(0x9e37_79b9_7f4a_7c15).wrapping_add(k);
        x ^= x >> 30;
        x = x.wrapping_mul(0xbf58_476d_1ce4_e5b9);
        x ^= x >> 27;
        x
    };
    let mut command_name = Vec::new();
    for i in 0..16u64 {
        command_name.push(mix(100 + i) as u8);
    }
    TraceRecordHeader {
        magic,
        sequence: mix(1) as u32,
        timestamp: mix(2),
        sector: mix(3),
        byte_count: mix(4) as u32,
        action: mix(5) as u32,
        pid: mix(6) as u32,
        device_id: mix(7) as u32,
        cpu: mix(8) as u32,
        error: mix(9) as u16,
        payload_len: 0,
        command_name,
    }
}

#[test]
fn round_trip_zero_payload_headers() {
    for seed in 0..64u64 {
        let h = sample_header(BLK_IO_TRACE_MAGIC | (seed as u32 & 0xff), seed);
        let bytes = encode_header(&h);
        assert_eq!(bytes.len(), HEADER_SIZE);
        let d = decode_header(&bytes).expect("valid signature must decode");
        assert_eq!(d.magic, h.magic);
        assert_eq!(d.sequence, h.sequence);
        assert_eq!(d.timestamp, h.timestamp);
        assert_eq!(d.sector, h.sector);
        assert_eq!(d.byte_count, h.byte_count);
        assert_eq!(d.action, h.action);
        assert_eq!(d.pid, h.pid);
        assert_eq!(d.device_id, h.device_id);
        assert_eq!(d.cpu, h.cpu);
        assert_eq!(d.error, h.error);
        assert_eq!(d.payload_len, h.payload_len);
        assert_eq!(d.command_name, h.command_name);
    }
}

#[test]
fn decode_reads_little_endian_fields() {
    let mut bytes = vec![0u8; HEADER_SIZE];
    // magic: signature with version 0x07 in the low byte.
    bytes[0] = 0x07;
    bytes[1] = 0x74;
    bytes[2] = 0x61;
    bytes[3] = 0x65;
    // sequence = 0x0403_0201
    bytes[4] = 0x01;
    bytes[5] = 0x02;
    bytes[6] = 0x03;
    bytes[7] = 0x04;
    // timestamp = 0x0807_0605_0403_0201
    for i in 0..8 {
        bytes[8 + i] = (i + 1) as u8;
    }
    // sector = 0x1122_3344_5566_7788
    let sector: u64 = 0x1122_3344_5566_7788;
    bytes[16..24].copy_from_slice(&sector.to_le_bytes());
    // byte_count = 4096
    bytes[24..28].copy_from_slice(&4096u32.to_le_bytes());
    // action = 0x0002_0001
    bytes[28..32].copy_from_slice(&0x0002_0001u32.to_le_bytes());
    // pid = 1234
    bytes[32..36].copy_from_slice(&1234u32.to_le_bytes());
    // device_id = 0x0800_0010
    bytes[36..40].copy_from_slice(&0x0800_0010u32.to_le_bytes());
    // cpu = 3
    bytes[40..44].copy_from_slice(&3u32.to_le_bytes());
    // error = 0x1234
    bytes[44..46].copy_from_slice(&0x1234u16.to_le_bytes());
    // payload_len = 0
    bytes[46..48].copy_from_slice(&0u16.to_le_bytes());
    // command_name = "blktrace" padded with NULs
    let name = b"blktrace";
    bytes[48..48 + name.len()].copy_from_slice(name);

    let d = decode_header(&bytes).expect("valid signature must decode");
    assert_eq!(d.magic, 0x6561_7407);
    assert_eq!(d.sequence, 0x0403_0201);
    assert_eq!(d.timestamp, 0x0807_0605_0403_0201);
    assert_eq!(d.sector, 0x1122_3344_5566_7788);
    assert_eq!(d.byte_count, 4096);
    assert_eq!(d.action, 0x0002_0001);
    assert_eq!(d.pid, 1234);
    assert_eq!(d.device_id, 0x0800_0010);
    assert_eq!(d.cpu, 3);
    assert_eq!(d.error, 0x1234);
    assert_eq!(d.payload_len, 0);
    let mut expected_name = name.to_vec();
    expected_name.resize(16, 0);
    assert_eq!(d.command_name, expected_name);
}

#[test]
fn bad_magic_is_rejected() {
    let mut h = sample_header(BLK_IO_TRACE_MAGIC, 7);
    // Any difference in the top 24 bits must be rejected, whatever the
    // version byte says.
    h.magic = 0x6561_7507;
    let bytes = encode_header(&h);
    assert_eq!(decode_header(&bytes), Err(RelayError::BadMagic));

    h.magic = 0x0000_0000;
    let bytes = encode_header(&h);
    assert_eq!(decode_header(&bytes), Err(RelayError::BadMagic));

    // The version byte alone may vary freely.
    h.magic = BLK_IO_TRACE_MAGIC | 0xff;
    let bytes = encode_header(&h);
    assert!(decode_header(&bytes).is_ok());
}
