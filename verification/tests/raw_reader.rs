use sf2_riff::raw_chunk::RawChunk;
use sf2_riff::{RawChunkIterator, RiffError};

fn encode_normal(id: &[u8; 4], payload: &[u8]) -> Vec<u8> {
    let mut out = Vec::new();
    out.extend_from_slice(id);
    out.extend_from_slice(&(payload.len() as u32).to_le_bytes());
    out.extend_from_slice(payload);
    if payload.len() % 2 == 1 {
        out.push(0);
    }
    out
}

#[test]
fn reader_yields_each_sibling_in_order() {
    let mut buf = Vec::new();
    buf.extend_from_slice(&encode_normal(b"aaaa", b"hello"));
    buf.extend_from_slice(&encode_normal(b"bbbb", b"xy"));
    buf.extend_from_slice(&encode_normal(b"cccc", b""));

    let mut it = RawChunkIterator::new(&buf);
    match it.next() {
        Some(Ok(RawChunk::Normal { chunk_id, chunk_data })) => {
            assert_eq!(chunk_id, &b"aaaa"[..]);
            assert_eq!(chunk_data, &b"hello"[..]);
        }
        other => panic!("first chunk misread: {:?}", other.is_some()),
    }
    match it.next() {
        Some(Ok(RawChunk::Normal { chunk_id, chunk_data })) => {
            assert_eq!(chunk_id, &b"bbbb"[..]);
            assert_eq!(chunk_data, &b"xy"[..]);
        }
        _ => panic!("second chunk misread"),
    }
    match it.next() {
        Some(Ok(RawChunk::Normal { chunk_id, chunk_data })) => {
            assert_eq!(chunk_id, &b"cccc"[..]);
            assert_eq!(chunk_data, &b""[..]);
        }
        _ => panic!("third chunk misread"),
    }
    assert!(it.next().is_none());
    assert!(it.next().is_none());
}

#[test]
fn reader_decodes_container_header() {
    // A LIST whose payload is the 4-byte type tag plus one nested chunk.
    let nested = encode_normal(b"leaf", b"data");
    let mut payload = Vec::new();
    payload.extend_from_slice(b"wrap");
    payload.extend_from_slice(&nested);
    let mut buf = Vec::new();
    buf.extend_from_slice(b"LIST");
    buf.extend_from_slice(&(payload.len() as u32).to_le_bytes());
    buf.extend_from_slice(&payload);

    let mut it = RawChunkIterator::new(&buf);
    match it.next() {
        Some(Ok(RawChunk::Container { chunk_type, chunk_id, chunk_data })) => {
            assert_eq!(chunk_type, &b"LIST"[..]);
            assert_eq!(chunk_id, &b"wrap"[..]);
            assert_eq!(chunk_data, nested.as_slice());
        }
        _ => panic!("container misread"),
    }
    assert!(it.next().is_none());
}

#[test]
fn odd_payload_without_pad_misdecodes_next_header() {
    // Chunk "aaaa" declares a 1-byte payload but the writer leaves out the
    // pad byte; the reader still skips an assumed pad, so the next header is
    // read one byte into chunk "bbbb" and misdecodes. The fragility is
    // deliberate, not something the reader repairs.
    let mut buf = Vec::new();
    buf.extend_from_slice(b"aaaa");
    buf.extend_from_slice(&1u32.to_le_bytes());
    buf.push(b'q');
    buf.extend_from_slice(&encode_normal(b"bbbb", b"xy"));

    let mut it = RawChunkIterator::new(&buf);
    match it.next() {
        Some(Ok(RawChunk::Normal { chunk_id, chunk_data })) => {
            assert_eq!(chunk_id, &b"aaaa"[..]);
            assert_eq!(chunk_data, &b"q"[..]);
        }
        _ => panic!("first chunk misread"),
    }
    // The header at the rounded offset starts with "bbb" plus the first
    // length byte; its declared length reads far past the buffer.
    match it.next() {
        Some(Err(e)) => assert_eq!(e, RiffError::TruncatedChunkData),
        Some(Ok(RawChunk::Normal { chunk_id, .. })) => {
            assert_ne!(chunk_id, &b"bbbb"[..]);
        }
        other => panic!("expected a misdecode, got end: {}", other.is_none()),
    }
}

#[test]
fn declared_length_past_buffer_is_truncated() {
    let mut buf = Vec::new();
    buf.extend_from_slice(b"aaaa");
    buf.extend_from_slice(&100u32.to_le_bytes());
    buf.extend_from_slice(b"shor");

    let mut it = RawChunkIterator::new(&buf);
    match it.next() {
        Some(Err(e)) => assert_eq!(e, RiffError::TruncatedChunkData),
        _ => panic!("expected truncation"),
    }
    // The reader stops after surfacing the error once.
    assert!(it.next().is_none());
}

#[test]
fn container_too_short_for_type_tag_is_truncated() {
    let mut buf = Vec::new();
    buf.extend_from_slice(b"RIFF");
    buf.extend_from_slice(&2u32.to_le_bytes());
    buf.extend_from_slice(b"ab");

    let mut it = RawChunkIterator::new(&buf);
    match it.next() {
        Some(Err(e)) => assert_eq!(e, RiffError::TruncatedChunkData),
        _ => panic!("expected truncation"),
    }
}

#[test]
fn fewer_than_eight_bytes_is_end_not_error() {
    let buf = b"aaaa\x01\x00\x00";
    let mut it = RawChunkIterator::new(buf);
    assert!(it.next().is_none());

    let empty: &[u8] = b"";
    let mut it = RawChunkIterator::new(empty);
    assert!(it.next().is_none());
}
