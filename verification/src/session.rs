use vstd::prelude::*;

use crate::digest::sha256_of;
use crate::errors::TransferError;
use crate::meta::TransactionMeta;
use crate::txn::{meta_matches, same_core, CleanupAction, CommitAction, Transaction, TxState};

verus! {

/// How a transfer session ends, and what filesystem work it asks for:
/// a promoted payload, a staging directory kept for a later resume, or a
/// staging directory to erase.
pub enum SessionOutcome {
    Committed(CommitAction),
    /// The staging stays for a later resume; the carried sidecar record is
    /// rewritten so that on-disk progress is accurate.
    KeptForResume(TransactionMeta),
    RolledBack(CleanupAction),
}

/// How much of an incoming payload stream to discard and how much to ingest:
/// a resuming sender replays the payload from the start, so the bytes already
/// staged are skipped and only the remainder is expected.
pub fn ingest_window(written_bytes: u64, total_size: u64) -> (r: (u64, u64))
    requires
        written_bytes <= total_size,
    ensures
        r.0 == written_bytes,
        r.1 == total_size - written_bytes,
{
    (written_bytes, total_size - written_bytes)
}

/// The receiving side's decision after ingest, exactly as the connection
/// handler takes it: on successful ingest try to commit, treating an
/// incomplete payload as resumable; on a premature end of stream keep the
/// staging when progress was made, and roll back when none was; on any other
/// ingest failure roll back.
pub fn conclude_transfer(tx: &mut Transaction, ingest: Result<(), TransferError>) -> (r:
    SessionOutcome)
    requires
        old(tx).wf(),
        old(tx).state == TxState::Open,
    ensures
        final(tx).wf(),
        same_core(*final(tx), *old(tx)),
        match r {
            SessionOutcome::Committed(a) => {
                &&& ingest is Ok
                &&& old(tx).written_bytes == old(tx).total_size
                &&& sha256_of(old(tx).content()) == old(tx).expected_sha@
                &&& final(tx).state == TxState::Committed
                &&& a.rename_from@ == old(tx).tmp_path@
                &&& a.rename_to@ == old(tx).final_path@
                &&& a.remove_dir@ == old(tx).staging_dir@
            },
            SessionOutcome::KeptForResume(m) => {
                &&& final(tx).state == TxState::Open
                &&& meta_matches(m, *old(tx))
                &&& m.written_bytes == old(tx).written_bytes
                &&& ((ingest is Ok && old(tx).written_bytes < old(tx).total_size) || (ingest
                    == Err::<(), TransferError>(TransferError::ShortRead) && old(tx).written_bytes
                    > 0))
            },
            SessionOutcome::RolledBack(a) => {
                &&& final(tx).state == TxState::Aborted
                &&& a.remove_dir@ == old(tx).staging_dir@
                &&& ((ingest is Ok && old(tx).written_bytes == old(tx).total_size && sha256_of(
                    old(tx).content(),
                ) != old(tx).expected_sha@) || (ingest == Err::<(), TransferError>(
                    TransferError::ShortRead,
                ) && old(tx).written_bytes == 0) || (ingest is Err && !(ingest == Err::<
                    (),
                    TransferError,
                >(TransferError::ShortRead))))
            },
        },
{
    match ingest {
        Ok(()) => {
            match tx.commit() {
                Ok(a) => SessionOutcome::Committed(a),
                Err(TransferError::Incomplete) => SessionOutcome::KeptForResume(tx.to_meta()),
                Err(_) => {
                    match tx.rollback() {
                        Ok(a) => SessionOutcome::RolledBack(a),
                        Err(_) => {
                            proof {
                                assert(false);
                            }
                            SessionOutcome::KeptForResume(tx.to_meta())
                        },
                    }
                },
            }
        },
        Err(TransferError::ShortRead) => {
            if tx.written_bytes > 0 {
                SessionOutcome::KeptForResume(tx.to_meta())
            } else {
                match tx.rollback() {
                    Ok(a) => SessionOutcome::RolledBack(a),
                    Err(_) => {
                        proof {
                            assert(false);
                        }
                        SessionOutcome::KeptForResume(tx.to_meta())
                    },
                }
            }
        },
        Err(_) => {
            match tx.rollback() {
                Ok(a) => SessionOutcome::RolledBack(a),
                Err(_) => {
                    proof {
                        assert(false);
                    }
                    SessionOutcome::KeptForResume(tx.to_meta())
                },
            }
        },
    }
}

} // verus!
