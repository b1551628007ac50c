use vstd::prelude::*;

use crate::digest::{hash_bytes, sha256_of};
use crate::errors::TransferError;
use crate::header::{spec_encode_header, MessageHeader};
use crate::stream::{ByteSink, ByteSource};

verus! {

/// The bytes a source handed out during a call, given its history before it.
pub open spec fn delivered_ext(before: Seq<u8>, after: Seq<u8>) -> Seq<u8> {
    after.skip(before.len() as int)
}

/// The framing operations of a transfer: bounded stream-to-sink copy on the
/// receiving side, header-plus-payload emission on the sending side.
pub struct FileMessage;

impl FileMessage {
    /// Copies exactly `size` bytes from `stream` to `writer` in chunks of at
    /// most 8 KiB. Every byte handed out by the source is passed to the sink,
    /// in order. Fails with `ShortRead` when the source ends first, and with
    /// `Io` when a source or sink call fails.
    pub fn receive<R: ByteSource, W: ByteSink>(stream: &mut R, writer: &mut W, size: u64) -> (r:
        Result<(), TransferError>)
        requires
            old(stream).inv(),
            old(writer).inv(),
        ensures
            final(stream).inv(),
            final(writer).inv(),
            old(stream).delivered().is_prefix_of(final(stream).delivered()),
            final(stream).delivered().len() <= old(stream).delivered().len() + size,
            match r {
                Ok(()) => {
                    &&& final(stream).delivered().len() == old(stream).delivered().len() + size
                    &&& final(writer).absorbed() == old(writer).absorbed() + delivered_ext(
                        old(stream).delivered(),
                        final(stream).delivered(),
                    )
                },
                Err(TransferError::ShortRead) => {
                    &&& final(stream).delivered().len() < old(stream).delivered().len() + size
                    &&& final(writer).absorbed() == old(writer).absorbed() + delivered_ext(
                        old(stream).delivered(),
                        final(stream).delivered(),
                    )
                },
                Err(TransferError::Io) => true,
                Err(_) => false,
            },
    {
        let ghost start = stream.delivered();
        let ghost base = writer.absorbed();
        let mut remaining: u64 = size;
        proof {
            assert(start.skip(start.len() as int) == Seq::<u8>::empty());
            assert(base + Seq::<u8>::empty() == base);
        }
        while remaining > 0
            invariant
                stream.inv(),
                writer.inv(),
                remaining <= size,
                start == old(stream).delivered(),
                base == old(writer).absorbed(),
                start.is_prefix_of(stream.delivered()),
                stream.delivered().len() == start.len() + size - remaining,
                writer.absorbed() == base + delivered_ext(start, stream.delivered()),
            decreases remaining,
        {
            let max: usize = if remaining < 8192 {
                remaining as usize
            } else {
                8192
            };
            match stream.read_chunk(max) {
                Ok(chunk) => {
                    if chunk.len() == 0 {
                        return Err(TransferError::ShortRead);
                    }
                    let ghost seen = stream.delivered();
                    match writer.write_all_chunk(chunk.as_slice()) {
                        Ok(()) => {
                            proof {
                                assert(seen.skip(start.len() as int) == delivered_ext(start, seen));
                                assert(delivered_ext(start, seen) =~= delivered_ext(
                                    start,
                                    seen.subrange(0, seen.len() - chunk@.len() as int),
                                ) + chunk@);
                            }
                            remaining = remaining - (chunk.len() as u64);
                        },
                        Err(_) => {
                            return Err(TransferError::Io);
                        },
                    }
                },
                Err(_) => {
                    return Err(TransferError::Io);
                },
            }
        }
        Ok(())
    }

    /// Emits a whole transfer to a sink: the 296-byte header naming the
    /// payload, its length and its SHA-256 digest, followed by every payload
    /// byte.
    pub fn send<W: ByteSink>(stream: &mut W, filename: &[u8], content: &[u8]) -> (r: Result<
        (),
        TransferError,
    >)
        requires
            old(stream).inv(),
        ensures
            final(stream).inv(),
            match r {
                Ok(()) => final(stream).absorbed() == old(stream).absorbed()
                    + crate::header::spec_padded_name(filename@)
                    + vstd::bytes::spec_u64_to_le_bytes(content@.len() as u64) + sha256_of(
                    content@,
                ) + content@,
                Err(e) => e == TransferError::Io,
            },
    {
        let sha256 = hash_bytes(content);
        let header = MessageHeader {
            name: vstd::slice::slice_to_vec(filename),
            size: content.len() as u64,
            sha256,
        };
        match header.write_to(stream) {
            Ok(()) => {},
            Err(_) => {
                return Err(TransferError::Io);
            },
        }
        match stream.write_all_chunk(content) {
            Ok(()) => {},
            Err(_) => {
                return Err(TransferError::Io);
            },
        }
        match stream.flush_sink() {
            Ok(()) => {},
            Err(_) => {
                return Err(TransferError::Io);
            },
        }
        proof {
            assert(spec_encode_header(header) == crate::header::spec_padded_name(filename@)
                + vstd::bytes::spec_u64_to_le_bytes(content@.len() as u64) + sha256_of(content@));
            assert(old(stream).absorbed() + spec_encode_header(header) + content@ == old(
                stream,
            ).absorbed() + crate::header::spec_padded_name(filename@)
                + vstd::bytes::spec_u64_to_le_bytes(content@.len() as u64) + sha256_of(content@)
                + content@);
        }
        Ok(())
    }

    /// Emits a header that declares the whole payload, then stops after
    /// `cutoff` payload bytes: a deliberately interrupted transfer, used to
    /// provoke a resumable staging on the receiving side.
    pub fn send_partial<W: ByteSink>(
        stream: &mut W,
        filename: &[u8],
        content: &[u8],
        cutoff: u64,
    ) -> (r: Result<(), TransferError>)
        requires
            old(stream).inv(),
        ensures
            final(stream).inv(),
            match r {
                Ok(()) => final(stream).absorbed() == old(stream).absorbed()
                    + crate::header::spec_padded_name(filename@)
                    + vstd::bytes::spec_u64_to_le_bytes(content@.len() as u64) + sha256_of(
                    content@,
                ) + content@.take(if cutoff < content@.len() {
                    cutoff as int
                } else {
                    content@.len() as int
                }),
                Err(e) => e == TransferError::Io,
            },
    {
        let sha256 = hash_bytes(content);
        let header = MessageHeader {
            name: vstd::slice::slice_to_vec(filename),
            size: content.len() as u64,
            sha256,
        };
        match header.write_to(stream) {
            Ok(()) => {},
            Err(_) => {
                return Err(TransferError::Io);
            },
        }
        let limit: usize = if cutoff < (content.len() as u64) {
            cutoff as usize
        } else {
            content.len()
        };
        match stream.write_all_chunk(vstd::slice::slice_subrange(content, 0, limit)) {
            Ok(()) => {},
            Err(_) => {
                return Err(TransferError::Io);
            },
        }
        proof {
            assert(old(stream).absorbed() + spec_encode_header(header) + content@.subrange(
                0,
                limit as int,
            ) == old(stream).absorbed() + crate::header::spec_padded_name(filename@)
                + vstd::bytes::spec_u64_to_le_bytes(content@.len() as u64) + sha256_of(content@)
                + content@.take(limit as int));
        }
        Ok(())
    }

    /// Reads and discards exactly `bytes_to_skip` bytes from a source. Fails
    /// with `ShortRead` when the source ends first.
    pub fn skip_bytes<R: ByteSource>(stream: &mut R, bytes_to_skip: u64) -> (r: Result<
        (),
        TransferError,
    >)
        requires
            old(stream).inv(),
        ensures
            final(stream).inv(),
            old(stream).delivered().is_prefix_of(final(stream).delivered()),
            final(stream).delivered().len() <= old(stream).delivered().len() + bytes_to_skip,
            match r {
                Ok(()) => final(stream).delivered().len() == old(stream).delivered().len()
                    + bytes_to_skip,
                Err(TransferError::ShortRead) => final(stream).delivered().len() < old(
                    stream,
                ).delivered().len() + bytes_to_skip,
                Err(TransferError::Io) => true,
                Err(_) => false,
            },
    {
        let ghost start = stream.delivered();
        let mut remaining: u64 = bytes_to_skip;
        while remaining > 0
            invariant
                stream.inv(),
                remaining <= bytes_to_skip,
                start == old(stream).delivered(),
                start.is_prefix_of(stream.delivered()),
                stream.delivered().len() == start.len() + bytes_to_skip - remaining,
            decreases remaining,
        {
            let max: usize = if remaining < 8192 {
                remaining as usize
            } else {
                8192
            };
            match stream.read_chunk(max) {
                Ok(chunk) => {
                    if chunk.len() == 0 {
                        return Err(TransferError::ShortRead);
                    }
                    remaining = remaining - (chunk.len() as u64);
                },
                Err(_) => {
                    return Err(TransferError::Io);
                },
            }
        }
        Ok(())
    }
}

} // verus!
