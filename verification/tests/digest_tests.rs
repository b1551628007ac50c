use lanshare::digest::{hash_bytes, hash_chunks, DigestEngine};
use lanshare::errors::TransferError;
use lanshare::hexcode::{from_hex, to_hex};

const HELLO_WORLD_SHA: &[u8] = b"b94d27b9934d3e08a52e52d7da7dabfac484efe37a5380ee9088f7ace2efcde9";
const EMPTY_SHA: &[u8] = b"e3b0c44298fc1c149afbf4c8996fb92427ae41e4649b934ca495991b7852b855";

#[test]
fn hash_of_hello_world() {
    let digest = hash_bytes(b"hello world");
    assert_eq!(to_hex(&digest), HELLO_WORLD_SHA.to_vec());
}

#[test]
fn hash_of_empty_input() {
    let digest = hash_bytes(b"");
    assert_eq!(to_hex(&digest), EMPTY_SHA.to_vec());
}

#[test]
fn chunking_does_not_change_the_digest() {
    let whole = hash_bytes(b"hello world");
    let in_two = hash_chunks(&vec![b"hello ".to_vec(), b"world".to_vec()]);
    let byte_by_byte = hash_chunks(&b"hello world".iter().map(|b| vec![*b]).collect());
    assert_eq!(whole, in_two);
    assert_eq!(whole, byte_by_byte);
}

#[test]
fn streaming_engine_matches_one_shot_hash() {
    let mut engine = DigestEngine::new();
    engine.update(b"hello ");
    engine.update(b"world");
    assert_eq!(engine.clone_and_finalize(), hash_bytes(b"hello world"));
}

#[test]
fn finalize_clone_keeps_the_running_state() {
    let mut engine = DigestEngine::new();
    engine.update(b"hello ");
    let early = engine.clone_and_finalize();
    assert_eq!(early, hash_bytes(b"hello "));
    engine.update(b"world");
    assert_eq!(engine.clone_and_finalize(), hash_bytes(b"hello world"));
}

#[test]
fn hash_bytes_spans_chunk_boundaries() {
    // longer than one 8 KiB chunk, so the streaming loop takes several turns
    let data: Vec<u8> = (0..20000u32).map(|i| (i % 251) as u8).collect();
    let whole = hash_bytes(&data);
    let split = hash_chunks(&vec![data[..9000].to_vec(), data[9000..].to_vec()]);
    assert_eq!(whole, split);
}

#[test]
fn hex_encodes_lowercase() {
    assert_eq!(to_hex(&[0xbe, 0xef, 0x00, 0x0a]), b"beef000a".to_vec());
    assert_eq!(to_hex(&[]), Vec::<u8>::new());
}

#[test]
fn hex_decode_accepts_either_case() {
    assert_eq!(from_hex(b"beef"), Ok(vec![0xbe, 0xef]));
    assert_eq!(from_hex(b"BEeF"), Ok(vec![0xbe, 0xef]));
    assert_eq!(from_hex(b""), Ok(vec![]));
}

#[test]
fn hex_decode_rejects_bad_input() {
    assert_eq!(from_hex(b"zz"), Err(TransferError::InvalidInput));
    assert_eq!(from_hex(b"abc"), Err(TransferError::InvalidInput));
    assert_eq!(from_hex(b"0g"), Err(TransferError::InvalidInput));
}

#[test]
fn hex_round_trips() {
    let bytes: Vec<u8> = (0..=255u16).map(|b| b as u8).collect();
    assert_eq!(from_hex(&to_hex(&bytes)), Ok(bytes));
}
