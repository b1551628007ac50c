use vstd::prelude::*;

use crate::errors::TransferError;
use crate::stream::{ByteSink, ByteSource};

verus! {

/// The number of bytes of the name field of an encoded header.
pub const NAME_FIELD_LEN: usize = 256;

/// The number of bytes of a whole encoded header: name, size, digest.
pub const HEADER_LEN: usize = 296;

/// The fixed-layout framing record that precedes every transfer:
/// a payload name, the payload length, and its SHA-256 digest.
pub struct MessageHeader {
    /// Payload name; encoded NUL-padded on the right to 256 bytes.
    pub name: Vec<u8>,
    /// Total payload length in bytes.
    pub size: u64,
    /// SHA-256 digest of the complete payload, 32 raw bytes.
    pub sha256: Vec<u8>,
}

impl MessageHeader {
    /// A header is well formed when its digest field holds exactly 32 bytes.
    pub open spec fn wf(&self) -> bool {
        self.sha256@.len() == 32
    }
}

/// The name field as encoded: truncated to 256 bytes, NUL-padded on the right.
pub open spec fn spec_padded_name(name: Seq<u8>) -> Seq<u8> {
    if name.len() >= 256 {
        name.take(256)
    } else {
        name + Seq::<u8>::new((256 - name.len()) as nat, |i: int| 0u8)
    }
}

/// The 296-byte encoding of a header.
pub open spec fn spec_encode_header(h: MessageHeader) -> Seq<u8> {
    spec_padded_name(h.name@) + vstd::bytes::spec_u64_to_le_bytes(h.size) + h.sha256@
}

/// A byte string with its trailing NUL bytes removed.
pub open spec fn spec_strip_trailing_nuls(s: Seq<u8>) -> Seq<u8>
    decreases s.len(),
{
    if s.len() > 0 && s.last() == 0 {
        spec_strip_trailing_nuls(s.drop_last())
    } else {
        s
    }
}

/// The name a decoder reads out of 296 header bytes.
pub open spec fn spec_decoded_name(bytes: Seq<u8>) -> Seq<u8> {
    spec_strip_trailing_nuls(bytes.take(256))
}

/// The size a decoder reads out of 296 header bytes.
pub open spec fn spec_decoded_size(bytes: Seq<u8>) -> u64 {
    vstd::bytes::spec_u64_from_le_bytes(bytes.subrange(256, 264))
}

/// The digest a decoder reads out of 296 header bytes.
pub open spec fn spec_decoded_sha(bytes: Seq<u8>) -> Seq<u8> {
    bytes.subrange(264, 296)
}

proof fn lemma_strip_of_padded(s: Seq<u8>, k: nat)
    requires
        s.len() == 0 || s.last() != 0,
    ensures
        spec_strip_trailing_nuls(s + Seq::<u8>::new(k, |i: int| 0u8)) == s,
    decreases k,
{
    if k == 0 {
        assert(s + Seq::<u8>::new(0, |i: int| 0u8) =~= s);
        assert(spec_strip_trailing_nuls(s) == s);
    } else {
        let padded = s + Seq::<u8>::new(k, |i: int| 0u8);
        assert(padded.last() == 0);
        assert(padded.drop_last() =~= s + Seq::<u8>::new((k - 1) as nat, |i: int| 0u8));
        lemma_strip_of_padded(s, (k - 1) as nat);
    }
}

/// Header round-trip: for a well-formed header whose name holds at most 256
/// bytes and no NUL byte, decoding the encoding gives back every field.
pub proof fn lemma_header_round_trip(h: MessageHeader)
    requires
        h.wf(),
        h.name@.len() <= 256,
        forall|i: int| 0 <= i < h.name@.len() ==> h.name@[i] != 0,
    ensures
        spec_encode_header(h).len() == 296,
        spec_decoded_name(spec_encode_header(h)) == h.name@,
        spec_decoded_size(spec_encode_header(h)) == h.size,
        spec_decoded_sha(spec_encode_header(h)) == h.sha256@,
{
    vstd::bytes::lemma_auto_spec_u64_to_from_le_bytes();
    let size_bytes = vstd::bytes::spec_u64_to_le_bytes(h.size);
    let e = spec_encode_header(h);
    let padded = spec_padded_name(h.name@);
    if h.name@.len() == 256 {
        assert(padded =~= h.name@ + Seq::<u8>::new(0, |i: int| 0u8));
    }
    assert(padded.len() == 256);
    assert(e.len() == 296);
    assert(e.take(256) =~= padded);
    if h.name@.len() > 0 {
        assert(h.name@.last() != 0);
    }
    lemma_strip_of_padded(h.name@, (256 - h.name@.len()) as nat);
    assert(spec_decoded_name(e) == h.name@);
    assert(e.subrange(256, 264) =~= size_bytes);
    assert(spec_decoded_size(e) == h.size);
    assert(e.subrange(264, 296) =~= h.sha256@);
}

impl MessageHeader {
    /// The 296 encoded bytes of this header.
    pub fn encode_bytes(&self) -> (r: Vec<u8>)
        requires
            self.wf(),
        ensures
            r@ == spec_encode_header(*self),
            r@.len() == 296,
    {
        proof {
            vstd::bytes::lemma_auto_spec_u64_to_from_le_bytes();
        }
        let mut out: Vec<u8> = Vec::new();
        let name_len = if self.name.len() < NAME_FIELD_LEN {
            self.name.len()
        } else {
            NAME_FIELD_LEN
        };
        crate::stream::append_slice(&mut out, vstd::slice::slice_subrange(
            self.name.as_slice(),
            0,
            name_len,
        ));
        let pad = NAME_FIELD_LEN - name_len;
        for j in 0..pad
            invariant
                pad == 256 - name_len,
                name_len <= self.name@.len(),
                out@ == self.name@.take(name_len as int) + Seq::<u8>::new(
                    j as nat,
                    |i: int| 0u8,
                ),
        {
            out.push(0u8);
            proof {
                assert(out@ =~= self.name@.take(name_len as int) + Seq::<u8>::new(
                    (j + 1) as nat,
                    |i: int| 0u8,
                ));
            }
        }
        proof {
            if self.name@.len() >= 256 {
                assert(out@ =~= spec_padded_name(self.name@));
            } else {
                assert(self.name@.take(name_len as int) == self.name@);
                assert(out@ =~= spec_padded_name(self.name@));
            }
        }
        let size_bytes = vstd::bytes::u64_to_le_bytes(self.size);
        crate::stream::append_slice(&mut out, size_bytes.as_slice());
        crate::stream::append_slice(&mut out, self.sha256.as_slice());
        proof {
            assert(out@ == spec_encode_header(*self));
        }
        out
    }

    /// Writes the 296-byte encoding of this header to a sink.
    pub fn write_to<T: ByteSink>(&self, stream: &mut T) -> (r: Result<(), TransferError>)
        requires
            self.wf(),
            old(stream).inv(),
        ensures
            final(stream).inv(),
            match r {
                Ok(()) => final(stream).absorbed() == old(stream).absorbed()
                    + spec_encode_header(*self),
                Err(e) => e == TransferError::Io,
            },
    {
        let bytes = self.encode_bytes();
        match stream.write_all_chunk(bytes.as_slice()) {
            Ok(()) => Ok(()),
            Err(_) => Err(TransferError::Io),
        }
    }

    /// Reads exactly 296 bytes from a source and decodes them: the name with
    /// trailing NULs stripped, the little-endian size, and the raw digest.
    /// Fails with `ShortRead` when the source ends first.
    pub fn read_from<T: ByteSource>(stream: &mut T) -> (r: Result<MessageHeader, TransferError>)
        requires
            old(stream).inv(),
        ensures
            final(stream).inv(),
            old(stream).delivered().is_prefix_of(final(stream).delivered()),
            match r {
                Ok(h) => {
                    let d = final(stream).delivered().skip(old(stream).delivered().len() as int);
                    &&& final(stream).delivered().len() == old(stream).delivered().len() + 296
                    &&& h.name@ == spec_decoded_name(d)
                    &&& h.size == spec_decoded_size(d)
                    &&& h.sha256@ == spec_decoded_sha(d)
                    &&& h.wf()
                },
                Err(TransferError::ShortRead) => final(stream).delivered().len() < old(
                    stream,
                ).delivered().len() + 296,
                Err(e) => e == TransferError::Io,
            },
    {
        let mut buf: Vec<u8> = Vec::new();
        let ghost start = stream.delivered();
        assert(start.skip(start.len() as int) == Seq::<u8>::empty());
        while buf.len() < HEADER_LEN
            invariant
                stream.inv(),
                start.is_prefix_of(stream.delivered()),
                start == old(stream).delivered(),
                buf@ == stream.delivered().skip(start.len() as int),
                buf@.len() <= 296,
            decreases 296 - buf@.len(),
        {
            let want = HEADER_LEN - buf.len();
            match stream.read_chunk(want) {
                Ok(chunk) => {
                    if chunk.len() == 0 {
                        return Err(TransferError::ShortRead);
                    }
                    crate::stream::append_slice(&mut buf, chunk.as_slice());
                    proof {
                        assert(stream.delivered().skip(start.len() as int) == buf@);
                    }
                },
                Err(_) => {
                    return Err(TransferError::Io);
                },
            }
        }
        let ghost d = stream.delivered().skip(start.len() as int);
        assert(buf@ == d && d.len() == 296);
        let name = take_stripped_name(&buf);
        let size = vstd::bytes::u64_from_le_bytes(vstd::slice::slice_subrange(
            buf.as_slice(),
            256,
            264,
        ));
        let sha256 = vstd::slice::slice_to_vec(vstd::slice::slice_subrange(
            buf.as_slice(),
            264,
            296,
        ));
        assert(size == spec_decoded_size(d));
        assert(sha256@ == spec_decoded_sha(d));
        Ok(MessageHeader { name, size, sha256 })
    }
}

/// A byte string whose suffix from `j` on is all NUL, with no NUL just before `j`,
/// strips to its first `j` bytes.
proof fn lemma_strip_take(s: Seq<u8>, j: int)
    requires
        0 <= j <= s.len(),
        forall|i: int| j <= i < s.len() ==> s[i] == 0,
        j > 0 ==> s[j - 1] != 0,
    ensures
        spec_strip_trailing_nuls(s) == s.take(j),
    decreases s.len(),
{
    if s.len() == j {
        assert(s.take(j) =~= s);
        if j > 0 {
            assert(s.last() != 0);
        }
    } else {
        assert(s.last() == 0);
        lemma_strip_take(s.drop_last(), j);
        assert(s.drop_last().take(j) =~= s.take(j));
    }
}

/// Copies the first 256 bytes of an encoded header, with trailing NULs stripped.
fn take_stripped_name(buf: &Vec<u8>) -> (r: Vec<u8>)
    requires
        buf@.len() == 296,
    ensures
        r@ == spec_decoded_name(buf@),
{
    let mut j: usize = 256;
    while j > 0 && buf[j - 1] == 0
        invariant
            j <= 256,
            buf@.len() == 296,
            forall|i: int| j <= i < 256 ==> buf@.take(256)[i] == 0,
        decreases j,
    {
        j = j - 1;
    }
    proof {
        lemma_strip_take(buf@.take(256), j as int);
    }
    let r = vstd::slice::slice_to_vec(vstd::slice::slice_subrange(buf.as_slice(), 0, j));
    proof {
        assert(buf@.take(256).take(j as int) =~= buf@.subrange(0, j as int));
    }
    r
}

} // verus!
