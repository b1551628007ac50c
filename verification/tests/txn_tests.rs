use lanshare::digest::hash_bytes;
use lanshare::errors::TransferError;
use lanshare::filemsg::FileMessage;
use lanshare::header::MessageHeader;
use lanshare::meta::TransactionMeta;
use lanshare::session::{conclude_transfer, ingest_window, SessionOutcome};
use lanshare::storage::FileStorage;
use lanshare::stream::{ByteSink, MemSink, MemSource};
use lanshare::txn::{Transaction, TxState};

const HELLO_WORLD_SHA: &[u8] = b"b94d27b9934d3e08a52e52d7da7dabfac484efe37a5380ee9088f7ace2efcde9";

fn store() -> FileStorage {
    FileStorage::new(b"/storage".to_vec())
}

#[test]
fn s1_happy_path() {
    let payload = b"hello world".to_vec();
    let mut wire = MemSink::new();
    FileMessage::send(&mut wire, b"notes.txt", &payload).unwrap();

    let mut stream = MemSource::new(wire.data);
    let header = MessageHeader::read_from(&mut stream).unwrap();
    assert_eq!(header.name, b"notes.txt".to_vec());
    assert_eq!(header.size, 11);
    assert_eq!(lanshare::hexcode::to_hex(&header.sha256), HELLO_WORLD_SHA.to_vec());

    let tx = store().create_transaction(&header.name, header.size, header.sha256.clone());
    let mut writer = tx.writer(Vec::new());
    let res = FileMessage::receive(&mut stream, &mut writer, header.size);
    assert_eq!(res, Ok(()));

    let (mut tx, part, _meta) = writer.into_inner();
    assert_eq!(part, payload);
    match conclude_transfer(&mut tx, res) {
        SessionOutcome::Committed(action) => {
            assert_eq!(action.rename_to, b"/storage/final/notes.txt".to_vec());
            assert!(action.rename_from.starts_with(b"/storage/tmp/tx_"));
            assert!(action.rename_from.ends_with(b"/notes.txt.part"));
        }
        _ => panic!("expected a committed transfer"),
    }
    assert_eq!(tx.state, TxState::Committed);
}

#[test]
fn s2_digest_mismatch_rolls_back() {
    let tx = store().create_transaction(b"notes.txt", 11, vec![0u8; 32]);
    let mut writer = tx.writer(Vec::new());
    let mut stream = MemSource::new(b"hello world".to_vec());
    let res = FileMessage::receive(&mut stream, &mut writer, 11);
    assert_eq!(res, Ok(()));

    let (mut tx, _part, _meta) = writer.into_inner();
    match conclude_transfer(&mut tx, res) {
        SessionOutcome::RolledBack(action) => {
            assert!(action.remove_dir.starts_with(b"/storage/tmp/tx_"));
        }
        _ => panic!("expected a rollback"),
    }
    assert_eq!(tx.state, TxState::Aborted);
}

#[test]
fn s2_commit_reports_digest_mismatch() {
    let mut tx = store().create_transaction(b"notes.txt", 11, vec![0u8; 32]);
    tx.record_write(b"hello world", 11);
    assert!(matches!(tx.commit(), Err(TransferError::DigestMismatch)));
    assert_eq!(tx.state, TxState::Aborted);
}

#[test]
fn s3_truncated_transfer_keeps_staging() {
    let sha = hash_bytes(b"hello world");
    let header = MessageHeader { name: b"notes.txt".to_vec(), size: 11, sha256: sha };
    let mut wire = header.encode_bytes();
    wire.extend_from_slice(b"hello");

    let mut stream = MemSource::new(wire);
    let header = MessageHeader::read_from(&mut stream).unwrap();
    let tx = store().create_transaction(&header.name, header.size, header.sha256.clone());
    let mut writer = tx.writer(Vec::new());
    let res = FileMessage::receive(&mut stream, &mut writer, header.size);
    assert_eq!(res, Err(TransferError::ShortRead));

    let (mut tx, part, _meta) = writer.into_inner();
    assert_eq!(part, b"hello".to_vec());
    match conclude_transfer(&mut tx, res) {
        SessionOutcome::KeptForResume(m) => {
            assert_eq!(m.written_bytes, 5);
            assert_eq!(m.total_size, 11);
            assert_eq!(m.filename, b"notes.txt".to_vec());
            assert_eq!(m.expected_sha, HELLO_WORLD_SHA.to_vec());
        }
        _ => panic!("expected the staging to be kept"),
    }
    assert_eq!(tx.state, TxState::Open);
}

#[test]
fn s4_resume_to_completion() {
    // the staging pair as a truncated transfer leaves it
    let meta = TransactionMeta {
        id: b"tx_resume".to_vec(),
        filename: b"notes.txt".to_vec(),
        tmp_path: b"/storage/tmp/tx_resume".to_vec(),
        final_path: b"/storage/final/notes.txt".to_vec(),
        expected_sha: HELLO_WORLD_SHA.to_vec(),
        written_bytes: 5,
        total_size: 11,
    };
    let tx = Transaction::resume(meta, b"hello").unwrap();
    assert_eq!(tx.written_bytes, 5);
    assert_eq!(tx.total_size, 11);

    // a new connection replays the payload from the start
    let mut wire = MemSink::new();
    FileMessage::send(&mut wire, b"notes.txt", b"hello world").unwrap();
    let mut stream = MemSource::new(wire.data);
    let _header = MessageHeader::read_from(&mut stream).unwrap();

    let (skip, expect) = ingest_window(tx.written_bytes, tx.total_size);
    assert_eq!((skip, expect), (5, 6));
    FileMessage::skip_bytes(&mut stream, skip).unwrap();

    let mut writer = tx.writer(b"hello".to_vec());
    let res = FileMessage::receive(&mut stream, &mut writer, expect);
    assert_eq!(res, Ok(()));

    let (mut tx, part, _meta) = writer.into_inner();
    assert_eq!(part, b"hello world".to_vec());
    match conclude_transfer(&mut tx, res) {
        SessionOutcome::Committed(action) => {
            assert_eq!(action.rename_from, b"/storage/tmp/tx_resume/notes.txt.part".to_vec());
            assert_eq!(action.rename_to, b"/storage/final/notes.txt".to_vec());
            assert_eq!(action.remove_dir, b"/storage/tmp/tx_resume".to_vec());
        }
        _ => panic!("expected the resumed transfer to commit"),
    }
}

#[test]
fn s6_sidecar_persists_on_mib_boundary() {
    let tx = store().create_transaction(b"big.bin", 10_485_760, vec![7u8; 32]);
    let mut writer = tx.writer(Vec::new());

    let first = vec![0xABu8; 1_048_575];
    writer.write_all_chunk(&first).unwrap();
    // no boundary crossed yet: the sidecar still shows the initial progress
    assert_eq!(writer.last_meta.written_bytes, 0);

    writer.write_all_chunk(&[0xCDu8]).unwrap();
    assert_eq!(writer.last_meta.written_bytes, 1_048_576);
    assert_eq!(writer.tx.written_bytes, 1_048_576);
}

#[test]
fn p6_second_commit_fails() {
    let empty_sha = hash_bytes(b"");
    let mut tx = store().create_transaction(b"empty.bin", 0, empty_sha);
    assert!(tx.commit().is_ok());
    assert_eq!(tx.state, TxState::Committed);
    assert!(matches!(tx.commit(), Err(TransferError::Io)));
    assert_eq!(tx.state, TxState::Committed);
}

#[test]
fn commit_before_completion_is_incomplete_and_keeps_staging() {
    let mut tx = store().create_transaction(b"notes.txt", 11, vec![1u8; 32]);
    tx.record_write(b"hello", 5);
    assert!(matches!(tx.commit(), Err(TransferError::Incomplete)));
    assert_eq!(tx.state, TxState::Open);
    assert_eq!(tx.written_bytes, 5);
}

#[test]
fn rollback_after_commit_reports_benign_failure() {
    let empty_sha = hash_bytes(b"");
    let mut tx = store().create_transaction(b"empty.bin", 0, empty_sha);
    assert!(tx.commit().is_ok());
    assert!(matches!(tx.rollback(), Err(TransferError::Io)));
}

#[test]
fn rollback_erases_staging() {
    let mut tx = store().create_transaction(b"notes.txt", 11, vec![1u8; 32]);
    let action = tx.rollback().unwrap();
    assert!(action.remove_dir.starts_with(b"/storage/tmp/tx_"));
    assert_eq!(tx.state, TxState::Aborted);
}

#[test]
fn resume_rejects_meta_ahead_of_file() {
    let meta = TransactionMeta {
        id: b"tx_x".to_vec(),
        filename: b"n".to_vec(),
        tmp_path: b"/storage/tmp/tx_x".to_vec(),
        final_path: b"/storage/final/n".to_vec(),
        expected_sha: HELLO_WORLD_SHA.to_vec(),
        written_bytes: 6,
        total_size: 11,
    };
    assert!(matches!(Transaction::resume(meta, b"hello"), Err(TransferError::InvalidData)));
}

#[test]
fn resume_rejects_malformed_meta() {
    let mut bad_hex = TransactionMeta {
        id: b"tx_x".to_vec(),
        filename: b"n".to_vec(),
        tmp_path: b"/storage/tmp/tx_x".to_vec(),
        final_path: b"/storage/final/n".to_vec(),
        expected_sha: vec![b'g'; 64],
        written_bytes: 0,
        total_size: 11,
    };
    assert!(matches!(
        Transaction::resume(bad_hex.clone(), b""),
        Err(TransferError::InvalidData)
    ));

    bad_hex.expected_sha = HELLO_WORLD_SHA[..62].to_vec();
    assert!(matches!(
        Transaction::resume(bad_hex.clone(), b""),
        Err(TransferError::InvalidData)
    ));

    bad_hex.expected_sha = HELLO_WORLD_SHA.to_vec();
    bad_hex.written_bytes = 12;
    assert!(matches!(Transaction::resume(bad_hex, b""), Err(TransferError::InvalidData)));
}

#[test]
fn resume_ignores_trailing_bytes_beyond_recorded_progress() {
    let meta = TransactionMeta {
        id: b"tx_x".to_vec(),
        filename: b"notes.txt".to_vec(),
        tmp_path: b"/storage/tmp/tx_x".to_vec(),
        final_path: b"/storage/final/notes.txt".to_vec(),
        expected_sha: HELLO_WORLD_SHA.to_vec(),
        written_bytes: 5,
        total_size: 11,
    };
    // the part file holds garbage past the recorded 5 bytes; it is overwritten
    let tx = Transaction::resume(meta, b"helloXYZ").unwrap();
    let mut writer = tx.writer(b"hello".to_vec());
    writer.write_all_chunk(b" world").unwrap();
    let (mut tx, part, _meta) = writer.into_inner();
    assert_eq!(part, b"hello world".to_vec());
    assert!(tx.commit().is_ok());
}

#[test]
fn fresh_transaction_mints_distinct_prefixed_ids() {
    let a = store().create_transaction(b"x", 1, vec![0u8; 32]);
    let b = store().create_transaction(b"x", 1, vec![0u8; 32]);
    assert_eq!(a.id.len(), 39);
    assert!(a.id.starts_with(b"tx_"));
    assert!(a.id[3..].iter().all(|c| c.is_ascii_hexdigit() || *c == b'-'));
    assert_ne!(a.id, b.id);
    assert_eq!(a.meta_path, [b"/storage/tmp/".as_slice(), &a.id, b"/x.meta"].concat());
}

#[test]
fn to_meta_reflects_progress_and_hex_digest() {
    let mut tx = store().create_transaction(b"notes.txt", 11, hash_bytes(b"hello world"));
    tx.record_write(b"hel", 3);
    let m = tx.to_meta();
    assert_eq!(m.written_bytes, 3);
    assert_eq!(m.total_size, 11);
    assert_eq!(m.expected_sha, HELLO_WORLD_SHA.to_vec());
    assert_eq!(m.filename, b"notes.txt".to_vec());
    assert_eq!(m.tmp_path, tx.staging_dir);
    assert_eq!(m.final_path, b"/storage/final/notes.txt".to_vec());
    assert!(m.check());
}
