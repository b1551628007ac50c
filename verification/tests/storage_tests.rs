use lanshare::errors::TransferError;
use lanshare::filemsg::FileMessage;
use lanshare::header::MessageHeader;
use lanshare::session::{conclude_transfer, ingest_window, SessionOutcome};
use lanshare::storage::{FileStorage, StagingEntry};
use lanshare::stream::{ByteSource, MemSink, MemSource};
use lanshare::txn::Transaction;

#[test]
fn test_new() {
    let fs = FileStorage::new(b"/storage".to_vec());
    assert_eq!(fs.base_dir, b"/storage".to_vec());
    assert_eq!(fs.tmp_dir, b"/storage/tmp".to_vec());
    assert_eq!(fs.final_dir, b"/storage/final".to_vec());
}

fn entry(path: &[u8], is_dir: bool, names: &[&[u8]]) -> StagingEntry {
    StagingEntry {
        path: path.to_vec(),
        is_dir,
        file_names: names.iter().map(|n| n.to_vec()).collect(),
    }
}

#[test]
fn find_existing_meta_picks_first_complete_pair() {
    let entries = vec![
        // a directory without the pair
        entry(b"/storage/tmp/tx_a", true, &[b"other.part", b"other.meta"]),
        // a plain file is never a staging directory
        entry(b"/storage/tmp/stray", false, &[b"n.part", b"n.meta"]),
        // only half the pair
        entry(b"/storage/tmp/tx_b", true, &[b"n.part"]),
        // the first complete pair
        entry(b"/storage/tmp/tx_c", true, &[b"n.meta", b"n.part"]),
        // a later complete pair is ignored
        entry(b"/storage/tmp/tx_d", true, &[b"n.part", b"n.meta"]),
    ];
    assert_eq!(FileStorage::find_existing_meta(&entries, b"n"), Some(3));
}

#[test]
fn find_existing_meta_reports_no_match() {
    let entries = vec![entry(b"/storage/tmp/tx_a", true, &[b"m.part", b"m.meta"])];
    assert_eq!(FileStorage::find_existing_meta(&entries, b"n"), None);
    assert_eq!(FileStorage::find_existing_meta(&Vec::new(), b"n"), None);
}

#[test]
fn skip_bytes_discards_exactly_the_prefix() {
    let mut stream = MemSource::new(b"hello world".to_vec());
    FileMessage::skip_bytes(&mut stream, 6).unwrap();
    let rest = stream.read_chunk(100).unwrap();
    assert_eq!(rest, b"world".to_vec());
}

#[test]
fn skip_bytes_reports_short_stream() {
    let mut stream = MemSource::new(b"hi".to_vec());
    assert_eq!(FileMessage::skip_bytes(&mut stream, 3), Err(TransferError::ShortRead));
}

#[test]
fn s5_partial_send_then_full_send_completes() {
    let content: Vec<u8> = (0..10_485_760u32).map(|i| (i % 251) as u8).collect();

    // a deliberately interrupted send: header, then 1 MiB of payload
    let mut wire = MemSink::new();
    FileMessage::send_partial(&mut wire, b"file.bin", &content, 1_048_576).unwrap();
    assert_eq!(wire.data.len(), 296 + 1_048_576);

    let mut stream = MemSource::new(wire.data);
    let header = MessageHeader::read_from(&mut stream).unwrap();
    assert_eq!(header.size, 10_485_760);

    let store = FileStorage::new(b"/storage".to_vec());
    let tx = store.create_transaction(&header.name, header.size, header.sha256.clone());
    let mut writer = tx.writer(Vec::new());
    let res = FileMessage::receive(&mut stream, &mut writer, header.size);
    assert_eq!(res, Err(TransferError::ShortRead));

    let (mut tx, part, _meta) = writer.into_inner();
    assert_eq!(part.len(), 1_048_576);
    let kept = match conclude_transfer(&mut tx, res) {
        SessionOutcome::KeptForResume(m) => m,
        _ => panic!("expected the staging to be kept"),
    };
    assert_eq!(kept.written_bytes, 1_048_576);
    assert_eq!(kept.total_size, 10_485_760);

    // a subsequent full send completes the transfer
    let mut wire = MemSink::new();
    FileMessage::send(&mut wire, b"file.bin", &content).unwrap();
    let mut stream = MemSource::new(wire.data);
    let _header = MessageHeader::read_from(&mut stream).unwrap();

    let tx = Transaction::resume(kept, &part).unwrap();
    let (skip, expect) = ingest_window(tx.written_bytes, tx.total_size);
    FileMessage::skip_bytes(&mut stream, skip).unwrap();
    let mut writer = tx.writer(part);
    let res = FileMessage::receive(&mut stream, &mut writer, expect);
    assert_eq!(res, Ok(()));

    let (mut tx, part, _meta) = writer.into_inner();
    assert_eq!(part, content);
    match conclude_transfer(&mut tx, res) {
        SessionOutcome::Committed(action) => {
            assert_eq!(action.rename_to, b"/storage/final/file.bin".to_vec());
        }
        _ => panic!("expected the resumed transfer to commit"),
    }
}
