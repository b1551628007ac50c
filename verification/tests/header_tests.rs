use lanshare::errors::TransferError;
use lanshare::header::MessageHeader;
use lanshare::stream::{MemSink, MemSource};
use sha2::{Digest, Sha256};

#[test]
fn test_message_header_serialization() {
    let mut hasher = Sha256::new();
    hasher.update(b"hello world");
    let hash_bytes = hasher.finalize();
    let as_array: Vec<u8> = hash_bytes.to_vec();
    assert_eq!(as_array.len(), 32);

    let header = MessageHeader {
        name: b"test_file.txt".to_vec(),
        size: 12345,
        sha256: as_array,
    };

    let mut buffer = MemSink::new();
    header.write_to(&mut buffer).unwrap();

    let mut cursor = MemSource::new(buffer.data);
    let deserialized_header = MessageHeader::read_from(&mut cursor).unwrap();

    assert_eq!(header.name, deserialized_header.name);
    assert_eq!(header.size, deserialized_header.size);
    assert_eq!(header.sha256, deserialized_header.sha256);
}

#[test]
fn header_is_296_bytes() {
    let header = MessageHeader {
        name: b"a.txt".to_vec(),
        size: 7,
        sha256: vec![0u8; 32],
    };
    let bytes = header.encode_bytes();
    assert_eq!(bytes.len(), 296);
    // name NUL-padded on the right
    assert_eq!(&bytes[0..5], b"a.txt");
    assert!(bytes[5..256].iter().all(|b| *b == 0));
    // size little-endian
    assert_eq!(&bytes[256..264], &[7, 0, 0, 0, 0, 0, 0, 0]);
    assert_eq!(&bytes[264..296], &[0u8; 32]);
}

#[test]
fn oversize_name_is_truncated_on_encode() {
    let header = MessageHeader {
        name: vec![b'x'; 300],
        size: 1,
        sha256: vec![9u8; 32],
    };
    let bytes = header.encode_bytes();
    assert_eq!(bytes.len(), 296);
    assert!(bytes[0..256].iter().all(|b| *b == b'x'));
    let mut cursor = MemSource::new(bytes);
    let decoded = MessageHeader::read_from(&mut cursor).unwrap();
    assert_eq!(decoded.name, vec![b'x'; 256]);
}

#[test]
fn interior_nul_survives_decode() {
    let header = MessageHeader {
        name: b"a\0b".to_vec(),
        size: 2,
        sha256: vec![1u8; 32],
    };
    let mut cursor = MemSource::new(header.encode_bytes());
    let decoded = MessageHeader::read_from(&mut cursor).unwrap();
    assert_eq!(decoded.name, b"a\0b".to_vec());
}

#[test]
fn short_header_fails_with_short_read() {
    let mut cursor = MemSource::new(vec![0u8; 100]);
    let r = MessageHeader::read_from(&mut cursor);
    assert!(matches!(r, Err(TransferError::ShortRead)));
}

#[test]
fn read_consumes_exactly_296_bytes() {
    let header = MessageHeader {
        name: b"n".to_vec(),
        size: 3,
        sha256: vec![5u8; 32],
    };
    let mut wire = header.encode_bytes();
    wire.extend_from_slice(b"xyz");
    let mut cursor = MemSource::new(wire);
    let decoded = MessageHeader::read_from(&mut cursor).unwrap();
    assert_eq!(decoded.size, 3);
    assert_eq!(cursor.pos, 296);
}
