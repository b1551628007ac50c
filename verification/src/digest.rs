use vstd::prelude::*;

use sha2::Digest;

verus! {

/// The SHA-256 digest of a byte sequence, as 32 bytes. The algorithm itself is
/// not written out here: the value is computed by the `sha2` crate, and this
/// name stands for its result, which depends on the input bytes alone.
pub uninterp spec fn sha256_of(bytes: Seq<u8>) -> Seq<u8>;

/// The bytes fed to a streaming digest engine so far.
pub uninterp spec fn fed_bytes(e: DigestEngine) -> Seq<u8>;

/// A streaming SHA-256 engine. It holds the `sha2` crate's hasher state, which
/// Verus does not look into; `fed_bytes` names the bytes absorbed so far.
#[verifier::external_body]
pub struct DigestEngine {
    inner: sha2::Sha256,
}

impl DigestEngine {
    /// Relies on `sha2::Sha256::new`: a fresh hasher has absorbed no bytes.
    #[verifier::external_body]
    pub fn new() -> (r: DigestEngine)
        ensures
            fed_bytes(r) == Seq::<u8>::empty(),
    {
        DigestEngine { inner: sha2::Sha256::new() }
    }

    /// Relies on `sha2`'s `Digest::update`: feeding more data appends it to the
    /// absorbed stream, exactly as if it had arrived in one call.
    #[verifier::external_body]
    pub fn update(&mut self, data: &[u8])
        ensures
            fed_bytes(*final(self)) == fed_bytes(*old(self)) + data@,
    {
        self.inner.update(data);
    }

    /// Relies on `sha2`'s `Digest::finalize` on a clone of the running state:
    /// it returns the 32-byte SHA-256 digest of the bytes absorbed so far and
    /// leaves the running state untouched.
    #[verifier::external_body]
    pub fn clone_and_finalize(&self) -> (r: Vec<u8>)
        ensures
            r@ == sha256_of(fed_bytes(*self)),
            r@.len() == 32,
    {
        self.inner.clone().finalize().to_vec()
    }
}

/// The contents of a sequence of chunks, joined in order.
pub open spec fn spec_concat_chunks(chunks: Seq<Seq<u8>>) -> Seq<u8>
    decreases chunks.len(),
{
    if chunks.len() == 0 {
        Seq::<u8>::empty()
    } else {
        spec_concat_chunks(chunks.drop_last()) + chunks.last()
    }
}

/// Hashes a byte string by streaming it through the engine in 8 KiB chunks.
pub fn hash_bytes(data: &[u8]) -> (r: Vec<u8>)
    ensures
        r@ == sha256_of(data@),
        r@.len() == 32,
{
    let mut engine = DigestEngine::new();
    let n = data.len();
    let mut pos: usize = 0;
    assert(data@.take(0int) == Seq::<u8>::empty());
    while pos < n
        invariant
            n == data@.len(),
            pos <= n,
            fed_bytes(engine) == data@.take(pos as int),
        decreases n - pos,
    {
        let step: usize = if n - pos < 8192 {
            n - pos
        } else {
            8192
        };
        let chunk = vstd::slice::slice_subrange(data, pos, pos + step);
        engine.update(chunk);
        proof {
            assert(data@.take(pos as int) + data@.subrange(pos as int, pos + step as int)
                == data@.take(pos + step as int));
        }
        pos = pos + step;
    }
    proof {
        assert(data@.take(n as int) == data@);
    }
    engine.clone_and_finalize()
}

/// Streams a byte string into a running engine in 8 KiB chunks.
pub fn engine_absorb(engine: &mut DigestEngine, data: &[u8])
    ensures
        fed_bytes(*final(engine)) == fed_bytes(*old(engine)) + data@,
{
    let n = data.len();
    let mut pos: usize = 0;
    assert(data@.take(0int) == Seq::<u8>::empty());
    assert(fed_bytes(*engine) + Seq::<u8>::empty() == fed_bytes(*engine));
    while pos < n
        invariant
            n == data@.len(),
            pos <= n,
            fed_bytes(*engine) == fed_bytes(*old(engine)) + data@.take(pos as int),
        decreases n - pos,
    {
        let step: usize = if n - pos < 8192 {
            n - pos
        } else {
            8192
        };
        let chunk = vstd::slice::slice_subrange(data, pos, pos + step);
        engine.update(chunk);
        proof {
            assert(data@.take(pos as int) + data@.subrange(pos as int, pos + step as int)
                == data@.take(pos + step as int));
            assert(fed_bytes(*engine) == fed_bytes(*old(engine)) + data@.take(pos + step as int));
        }
        pos = pos + step;
    }
    proof {
        assert(data@.take(n as int) == data@);
    }
}

/// Hashes chunks fed one by one; the digest is that of their concatenation,
/// whatever the chunking.
pub fn hash_chunks(chunks: &Vec<Vec<u8>>) -> (r: Vec<u8>)
    ensures
        r@ == sha256_of(spec_concat_chunks(chunks@.map_values(|c: Vec<u8>| c@))),
        r@.len() == 32,
{
    let mut engine = DigestEngine::new();
    let n = chunks.len();
    for i in 0..n
        invariant
            n == chunks@.len(),
            fed_bytes(engine) == spec_concat_chunks(
                chunks@.take(i as int).map_values(|c: Vec<u8>| c@),
            ),
    {
        engine.update(chunks[i].as_slice());
        proof {
            let mapped = chunks@.take(i + 1).map_values(|c: Vec<u8>| c@);
            assert(mapped.drop_last() =~= chunks@.take(i as int).map_values(|c: Vec<u8>| c@));
            assert(mapped.last() == chunks@[i as int]@);
        }
    }
    proof {
        assert(chunks@.take(n as int) == chunks@);
    }
    engine.clone_and_finalize()
}

} // verus!
