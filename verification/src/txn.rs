use vstd::prelude::*;

use crate::digest::{fed_bytes, sha256_of, DigestEngine};
use crate::errors::{StreamError, TransferError};
use crate::hexcode::{from_hex, spec_hex_decode, spec_hex_encode, to_hex};
use crate::meta::{meta_suffix, part_suffix, path_join, push_meta_suffix, push_part_suffix,
    spec_path_join, TransactionMeta};
use crate::stream::{append_slice, bytes_eq, ByteSink};

verus! {

/// Where a transaction stands in its life: open for writes, promoted, or erased.
#[derive(Clone, Copy, Debug, PartialEq, Eq, Structural)]
pub enum TxState {
    Open,
    Committed,
    Aborted,
}

/// The filesystem work a successful commit asks for: an atomic rename of the
/// payload into its final place, then removal of the staging directory.
pub struct CommitAction {
    pub rename_from: Vec<u8>,
    pub rename_to: Vec<u8>,
    pub remove_dir: Vec<u8>,
}

/// The filesystem work a rollback asks for: removal of the staging directory.
pub struct CleanupAction {
    pub remove_dir: Vec<u8>,
}

/// The bytes of the `tx_` prefix of a transaction token.
pub open spec fn tx_prefix() -> Seq<u8> {
    seq![116u8, 120u8, 95u8]
}

/// True for the bytes a random token renders to: lowercase hex digits and `-`.
pub open spec fn is_token_byte(b: u8) -> bool {
    (48 <= b && b <= 57) || (97 <= b && b <= 102) || b == 45
}

/// Relies on `uuid::Uuid::new_v4` and its text form: a fresh random token of
/// 36 ASCII bytes, lowercase hex digits and hyphens. Nothing is assumed of
/// which token comes back.
#[verifier::external_body]
fn mint_uuid_token() -> (r: Vec<u8>)
    ensures
        r@.len() == 36,
        forall|i: int| 0 <= i < 36 ==> is_token_byte(r@[i]),
{
    uuid::Uuid::new_v4().to_string().into_bytes()
}

/// A single resumable, commit-or-rollback write operation. The digest engine
/// has absorbed exactly the payload bytes recorded so far (`content()`), and
/// the paths name the staging files and the final destination.
pub struct Transaction {
    pub id: Vec<u8>,
    pub filename: Vec<u8>,
    /// The staging directory holding the partial file and its sidecar.
    pub staging_dir: Vec<u8>,
    /// Path of the partial payload file inside the staging directory.
    pub tmp_path: Vec<u8>,
    /// Path of the sidecar inside the staging directory.
    pub meta_path: Vec<u8>,
    /// Destination path of the payload on commit.
    pub final_path: Vec<u8>,
    pub engine: DigestEngine,
    /// Declared payload digest, 32 raw bytes.
    pub expected_sha: Vec<u8>,
    pub written_bytes: u64,
    pub total_size: u64,
    pub state: TxState,
}

/// True when a sidecar record describes this transaction, apart from progress.
pub open spec fn meta_matches(m: TransactionMeta, tx: Transaction) -> bool {
    &&& m.id@ == tx.id@
    &&& m.filename@ == tx.filename@
    &&& m.tmp_path@ == tx.staging_dir@
    &&& m.final_path@ == tx.final_path@
    &&& m.expected_sha@ == spec_hex_encode(tx.expected_sha@)
    &&& m.total_size == tx.total_size
}

/// True when two transaction values name the same transfer: everything but
/// the lifecycle state agrees.
pub open spec fn same_core(a: Transaction, b: Transaction) -> bool {
    &&& a.id@ == b.id@
    &&& a.filename@ == b.filename@
    &&& a.staging_dir@ == b.staging_dir@
    &&& a.tmp_path@ == b.tmp_path@
    &&& a.meta_path@ == b.meta_path@
    &&& a.final_path@ == b.final_path@
    &&& a.expected_sha@ == b.expected_sha@
    &&& a.written_bytes == b.written_bytes
    &&& a.total_size == b.total_size
    &&& a.content() == b.content()
}

/// The sidecar persistence rule: persist when a write crosses a 1 MiB
/// boundary of recorded progress, or when the payload is complete.
pub open spec fn spec_persist_due(written_after: u64, n: u64, total: u64) -> bool {
    written_after % 1048576 < n || written_after == total
}

impl Transaction {
    /// The payload bytes recorded (and hashed) so far.
    pub open spec fn content(&self) -> Seq<u8> {
        fed_bytes(self.engine)
    }

    /// Internal consistency: the digest state covers exactly the recorded
    /// progress, which never exceeds the declared total.
    pub open spec fn wf(&self) -> bool {
        &&& self.expected_sha@.len() == 32
        &&& self.written_bytes <= self.total_size
        &&& self.content().len() == self.written_bytes
    }

    /// Opens a fresh transaction: a newly minted `tx_` token, staging paths
    /// under `temp_dir/<token>/`, an empty digest, and no progress.
    pub fn new(
        filename: &[u8],
        expected_sha: Vec<u8>,
        total_size: u64,
        temp_dir: &[u8],
        final_dir: &[u8],
    ) -> (r: Transaction)
        requires
            expected_sha@.len() == 32,
        ensures
            r.wf(),
            r.state == TxState::Open,
            r.written_bytes == 0,
            r.total_size == total_size,
            r.content() == Seq::<u8>::empty(),
            r.expected_sha@ == expected_sha@,
            r.filename@ == filename@,
            r.id@.len() == 39,
            r.id@.take(3) == tx_prefix(),
            forall|i: int| 3 <= i < 39 ==> is_token_byte(r.id@[i]),
            r.staging_dir@ == spec_path_join(temp_dir@, r.id@),
            r.tmp_path@ == spec_path_join(r.staging_dir@, filename@ + part_suffix()),
            r.meta_path@ == spec_path_join(r.staging_dir@, filename@ + meta_suffix()),
            r.final_path@ == spec_path_join(final_dir@, filename@),
    {
        let token = mint_uuid_token();
        let mut id: Vec<u8> = Vec::new();
        id.push(116);
        id.push(120);
        id.push(95);
        append_slice(&mut id, token.as_slice());
        proof {
            assert(id@.take(3) =~= tx_prefix());
        }
        let staging_dir = path_join(temp_dir, id.as_slice());
        let mut part_path = path_join(staging_dir.as_slice(), filename);
        push_part_suffix(&mut part_path);
        let mut meta_path = path_join(staging_dir.as_slice(), filename);
        push_meta_suffix(&mut meta_path);
        let final_path = path_join(final_dir, filename);
        proof {
            assert(part_path@ =~= spec_path_join(staging_dir@, filename@ + part_suffix()));
            assert(meta_path@ =~= spec_path_join(staging_dir@, filename@ + meta_suffix()));
        }
        Transaction {
            id,
            filename: vstd::slice::slice_to_vec(filename),
            staging_dir,
            tmp_path: part_path,
            meta_path,
            final_path,
            engine: DigestEngine::new(),
            expected_sha,
            written_bytes: 0,
            total_size,
            state: TxState::Open,
        }
    }

    /// Rebuilds a transaction from its persisted sidecar and the bytes of the
    /// partial payload file. The digest is rebuilt over exactly the first
    /// `written_bytes` bytes; any trailing bytes are treated as absent.
    /// Rejects a sidecar that is malformed or ahead of the file.
    pub fn resume(meta: TransactionMeta, existing_part: &[u8]) -> (r: Result<
        Transaction,
        TransferError,
    >)
        ensures
            r is Ok <==> meta.wf() && existing_part@.len() >= meta.written_bytes,
            match r {
                Ok(tx) => {
                    &&& tx.wf()
                    &&& tx.state == TxState::Open
                    &&& tx.id@ == meta.id@
                    &&& tx.filename@ == meta.filename@
                    &&& tx.staging_dir@ == meta.tmp_path@
                    &&& tx.tmp_path@ == spec_path_join(
                        meta.tmp_path@,
                        meta.filename@ + part_suffix(),
                    )
                    &&& tx.meta_path@ == spec_path_join(
                        meta.tmp_path@,
                        meta.filename@ + meta_suffix(),
                    )
                    &&& tx.final_path@ == meta.final_path@
                    &&& tx.expected_sha@ == spec_hex_decode(meta.expected_sha@)
                    &&& tx.written_bytes == meta.written_bytes
                    &&& tx.total_size == meta.total_size
                    &&& tx.content() == existing_part@.take(meta.written_bytes as int)
                },
                Err(e) => e == TransferError::InvalidData,
            },
    {
        if !meta.check() {
            return Err(TransferError::InvalidData);
        }
        if (existing_part.len() as u64) < meta.written_bytes {
            return Err(TransferError::InvalidData);
        }
        let expected_sha = match from_hex(meta.expected_sha.as_slice()) {
            Ok(v) => v,
            Err(_) => {
                return Err(TransferError::InvalidData);
            },
        };
        let w = meta.written_bytes as usize;
        let mut engine = DigestEngine::new();
        crate::digest::engine_absorb(&mut engine, vstd::slice::slice_subrange(
            existing_part,
            0,
            w,
        ));
        proof {
            assert(Seq::<u8>::empty() + existing_part@.subrange(0, w as int) == existing_part@.take(
                w as int,
            ));
        }
        let TransactionMeta {
            id,
            filename,
            tmp_path: staging_dir,
            final_path,
            expected_sha: _,
            written_bytes,
            total_size,
        } = meta;
        let mut part_path = path_join(staging_dir.as_slice(), filename.as_slice());
        push_part_suffix(&mut part_path);
        let mut sidecar_path = path_join(staging_dir.as_slice(), filename.as_slice());
        push_meta_suffix(&mut sidecar_path);
        proof {
            assert(part_path@ =~= spec_path_join(meta.tmp_path@, meta.filename@ + part_suffix()));
            assert(sidecar_path@ =~= spec_path_join(
                meta.tmp_path@,
                meta.filename@ + meta_suffix(),
            ));
        }
        Ok(
            Transaction {
                id,
                filename,
                staging_dir,
                tmp_path: part_path,
                meta_path: sidecar_path,
                final_path,
                engine,
                expected_sha,
                written_bytes,
                total_size,
                state: TxState::Open,
            },
        )
    }

    /// The sidecar record describing the current progress of this transaction.
    pub fn to_meta(&self) -> (m: TransactionMeta)
        ensures
            meta_matches(m, *self),
            m.written_bytes == self.written_bytes,
            self.wf() ==> m.wf(),
    {
        proof {
            if self.wf() {
                crate::hexcode::lemma_hex_encode_len(self.expected_sha@);
                crate::hexcode::lemma_hex_encode_digits(self.expected_sha@);
            }
        }
        TransactionMeta {
            id: vstd::slice::slice_to_vec(self.id.as_slice()),
            filename: vstd::slice::slice_to_vec(self.filename.as_slice()),
            tmp_path: vstd::slice::slice_to_vec(self.staging_dir.as_slice()),
            final_path: vstd::slice::slice_to_vec(self.final_path.as_slice()),
            expected_sha: to_hex(self.expected_sha.as_slice()),
            written_bytes: self.written_bytes,
            total_size: self.total_size,
        }
    }

    /// Records `n` accepted bytes of `chunk`: hashes them, advances the
    /// progress counter, and reports whether the sidecar persistence rule
    /// asks for the sidecar to be rewritten now.
    pub fn record_write(&mut self, chunk: &[u8], n: usize) -> (persist: bool)
        requires
            old(self).wf(),
            old(self).state == TxState::Open,
            n <= chunk@.len(),
            old(self).written_bytes + n <= old(self).total_size,
        ensures
            final(self).wf(),
            final(self).state == TxState::Open,
            final(self).written_bytes == old(self).written_bytes + n,
            final(self).total_size == old(self).total_size,
            final(self).content() == old(self).content() + chunk@.take(n as int),
            final(self).id@ == old(self).id@,
            final(self).filename@ == old(self).filename@,
            final(self).staging_dir@ == old(self).staging_dir@,
            final(self).tmp_path@ == old(self).tmp_path@,
            final(self).meta_path@ == old(self).meta_path@,
            final(self).final_path@ == old(self).final_path@,
            final(self).expected_sha@ == old(self).expected_sha@,
            persist == spec_persist_due(
                (old(self).written_bytes + n) as u64,
                n as u64,
                old(self).total_size,
            ),
    {
        let accepted = vstd::slice::slice_subrange(chunk, 0, n);
        self.engine.update(accepted);
        self.written_bytes = self.written_bytes + (n as u64);
        self.written_bytes % 1048576 < (n as u64) || self.written_bytes == self.total_size
    }

    /// Commit: fails with `Incomplete` (leaving the staging usable) when the
    /// payload is not all there; on a digest mismatch aborts and fails with
    /// `DigestMismatch`; otherwise promotes the payload and returns the
    /// rename-and-clean work. A transaction that is no longer open fails with
    /// `Io`, as its staging files are already gone.
    pub fn commit(&mut self) -> (r: Result<CommitAction, TransferError>)
        requires
            old(self).wf(),
        ensures
            final(self).wf(),
            same_core(*final(self), *old(self)),
            match r {
                Ok(a) => {
                    &&& old(self).state == TxState::Open
                    &&& old(self).written_bytes == old(self).total_size
                    &&& sha256_of(old(self).content()) == old(self).expected_sha@
                    &&& final(self).state == TxState::Committed
                    &&& a.rename_from@ == old(self).tmp_path@
                    &&& a.rename_to@ == old(self).final_path@
                    &&& a.remove_dir@ == old(self).staging_dir@
                },
                Err(TransferError::Incomplete) => {
                    &&& old(self).state == TxState::Open
                    &&& old(self).written_bytes < old(self).total_size
                    &&& final(self).state == TxState::Open
                },
                Err(TransferError::DigestMismatch) => {
                    &&& old(self).state == TxState::Open
                    &&& old(self).written_bytes == old(self).total_size
                    &&& sha256_of(old(self).content()) != old(self).expected_sha@
                    &&& final(self).state == TxState::Aborted
                },
                Err(TransferError::Io) => {
                    &&& old(self).state != TxState::Open
                    &&& final(self).state == old(self).state
                },
                Err(_) => false,
            },
    {
        match self.state {
            TxState::Open => {},
            _ => {
                return Err(TransferError::Io);
            },
        }
        if self.written_bytes < self.total_size {
            return Err(TransferError::Incomplete);
        }
        let digest = self.engine.clone_and_finalize();
        if !bytes_eq(digest.as_slice(), self.expected_sha.as_slice()) {
            self.state = TxState::Aborted;
            return Err(TransferError::DigestMismatch);
        }
        self.state = TxState::Committed;
        Ok(
            CommitAction {
                rename_from: vstd::slice::slice_to_vec(self.tmp_path.as_slice()),
                rename_to: vstd::slice::slice_to_vec(self.final_path.as_slice()),
                remove_dir: vstd::slice::slice_to_vec(self.staging_dir.as_slice()),
            },
        )
    }

    /// Rollback: asks for the staging directory to be erased. Safe in any
    /// state except after a commit, when the staging is already gone and the
    /// call reports a benign `Io` failure instead.
    pub fn rollback(&mut self) -> (r: Result<CleanupAction, TransferError>)
        requires
            old(self).wf(),
        ensures
            final(self).wf(),
            same_core(*final(self), *old(self)),
            match r {
                Ok(a) => {
                    &&& old(self).state != TxState::Committed
                    &&& final(self).state == TxState::Aborted
                    &&& a.remove_dir@ == old(self).staging_dir@
                },
                Err(TransferError::Io) => {
                    &&& old(self).state == TxState::Committed
                    &&& final(self).state == TxState::Committed
                },
                Err(_) => false,
            },
    {
        match self.state {
            TxState::Committed => Err(TransferError::Io),
            _ => {
                self.state = TxState::Aborted;
                Ok(CleanupAction { remove_dir: vstd::slice::slice_to_vec(self.staging_dir.as_slice()) })
            },
        }
    }

    /// Turns an open transaction into its append writer, handing it the bytes
    /// of the partial payload recorded so far.
    pub fn writer(self, part: Vec<u8>) -> (w: TransactionWriter)
        requires
            self.wf(),
            self.state == TxState::Open,
            part@ == self.content(),
        ensures
            w.wf(),
            w.tx == self,
            w.part@ == part@,
            w.last_meta.written_bytes == self.written_bytes,
            meta_matches(w.last_meta, self),
    {
        let last_meta = self.to_meta();
        TransactionWriter { tx: self, part, last_meta }
    }
}

/// The append writer of a transaction: it owns the transaction and the bytes
/// of the partial payload file, and keeps the last persisted sidecar record.
/// Payload bytes, digest state and progress counter move together, and the
/// persisted sidecar never runs ahead of the payload.
pub struct TransactionWriter {
    pub tx: Transaction,
    /// The partial payload as written so far.
    pub part: Vec<u8>,
    /// The sidecar record as last persisted.
    pub last_meta: TransactionMeta,
}

impl TransactionWriter {
    pub open spec fn wf(&self) -> bool {
        &&& self.tx.wf()
        &&& self.tx.state == TxState::Open
        &&& self.part@ == self.tx.content()
        &&& meta_matches(self.last_meta, self.tx)
        &&& self.last_meta.written_bytes <= self.tx.written_bytes
    }

    /// Gives the transaction, payload bytes and last sidecar record back.
    pub fn into_inner(self) -> (r: (Transaction, Vec<u8>, TransactionMeta))
        ensures
            r.0 == self.tx,
            r.1 == self.part,
            r.2 == self.last_meta,
    {
        (self.tx, self.part, self.last_meta)
    }
}

impl ByteSink for TransactionWriter {
    open spec fn inv(&self) -> bool {
        self.wf()
    }

    open spec fn absorbed(&self) -> Seq<u8> {
        self.part@
    }

    /// Appends a chunk to the payload, hashes it, advances progress, and
    /// rewrites the sidecar record when the persistence rule asks for it.
    /// Refuses bytes beyond the declared total, leaving everything unchanged.
    fn write_all_chunk(&mut self, chunk: &[u8]) -> (r: Result<(), StreamError>)
        ensures
            r is Ok <==> old(self).tx.written_bytes + chunk@.len() <= old(self).tx.total_size,
            r is Err ==> *final(self) == *old(self),
            r is Ok ==> {
                &&& final(self).tx.written_bytes == old(self).tx.written_bytes + chunk@.len()
                &&& final(self).tx.total_size == old(self).tx.total_size
                &&& final(self).tx.expected_sha@ == old(self).tx.expected_sha@
                &&& final(self).part@ == old(self).part@ + chunk@
                &&& final(self).last_meta.written_bytes == (
                    if spec_persist_due(
                        (old(self).tx.written_bytes + chunk@.len()) as u64,
                        chunk@.len() as u64,
                        old(self).tx.total_size,
                    ) {
                        final(self).tx.written_bytes
                    } else {
                        old(self).last_meta.written_bytes
                    }
                )
            },
    {
        let len = chunk.len();
        if self.tx.total_size - self.tx.written_bytes < (len as u64) {
            return Err(StreamError);
        }
        append_slice(&mut self.part, chunk);
        let persist = self.tx.record_write(chunk, len);
        proof {
            assert(chunk@.take(len as int) == chunk@);
        }
        if persist {
            self.last_meta = self.tx.to_meta();
        }
        Ok(())
    }

    /// Persists the sidecar record unconditionally.
    fn flush_sink(&mut self) -> (r: Result<(), StreamError>)
        ensures
            r is Ok,
            final(self).tx == old(self).tx,
            final(self).part@ == old(self).part@,
            final(self).last_meta.written_bytes == old(self).tx.written_bytes,
    {
        self.last_meta = self.tx.to_meta();
        Ok(())
    }
}

/// Commit-time verification is over the full payload: for a well-formed
/// writer, the digest engine has absorbed exactly the staged payload bytes,
/// whatever sequence of fresh starts, resumes and appends produced them. A
/// commit therefore succeeds exactly when the SHA-256 of those bytes equals
/// the declared digest.
pub proof fn lemma_digest_covers_payload(w: TransactionWriter)
    requires
        w.wf(),
    ensures
        fed_bytes(w.tx.engine) == w.part@,
        w.part@.len() == w.tx.written_bytes,
{
}

/// Sidecar consistency: for a well-formed writer, the persisted record never
/// claims more bytes than the partial payload holds, and never more than the
/// declared total.
pub proof fn lemma_meta_consistency(w: TransactionWriter)
    requires
        w.wf(),
    ensures
        w.last_meta.written_bytes <= w.part@.len(),
        w.last_meta.written_bytes <= w.last_meta.total_size,
{
}

} // verus!
