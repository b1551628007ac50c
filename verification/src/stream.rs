use vstd::prelude::*;

use crate::errors::StreamError;

verus! {

/// A byte-stream source, as the ingest driver sees it: `delivered` is the
/// sequence of bytes handed out so far, and each read extends it. An empty
/// chunk signals end of stream; a failing call hands out nothing.
pub trait ByteSource {
    open spec fn inv(&self) -> bool {
        true
    }

    open spec fn delivered(&self) -> Seq<u8> {
        Seq::<u8>::empty()
    }

    fn read_chunk(&mut self, max: usize) -> (r: Result<Vec<u8>, StreamError>)
        requires
            old(self).inv(),
            max >= 1,
        ensures
            final(self).inv(),
            match r {
                Ok(chunk) => chunk@.len() <= max && final(self).delivered() == old(
                    self,
                ).delivered() + chunk@,
                Err(_) => final(self).delivered() == old(self).delivered(),
            },
    ;
}

/// A byte-stream sink: `absorbed` is the sequence of bytes accepted so far.
/// A successful write accepts the whole chunk; a failing one promises nothing.
pub trait ByteSink {
    open spec fn inv(&self) -> bool {
        true
    }

    open spec fn absorbed(&self) -> Seq<u8> {
        Seq::<u8>::empty()
    }

    fn write_all_chunk(&mut self, chunk: &[u8]) -> (r: Result<(), StreamError>)
        requires
            old(self).inv(),
        ensures
            final(self).inv(),
            match r {
                Ok(()) => final(self).absorbed() == old(self).absorbed() + chunk@,
                Err(_) => true,
            },
    ;

    fn flush_sink(&mut self) -> (r: Result<(), StreamError>)
        requires
            old(self).inv(),
        ensures
            final(self).inv(),
            final(self).absorbed() == old(self).absorbed(),
    ;
}

/// An in-memory source over a fixed byte string; reads walk it front to back.
pub struct MemSource {
    pub data: Vec<u8>,
    pub pos: usize,
}

impl MemSource {
    pub fn new(data: Vec<u8>) -> (r: MemSource)
        ensures
            r.inv(),
            r.delivered() == Seq::<u8>::empty(),
            r.data@ == data@,
    {
        let r = MemSource { data, pos: 0 };
        assert(r.data@.take(0int) == Seq::<u8>::empty());
        r
    }
}

impl ByteSource for MemSource {
    open spec fn inv(&self) -> bool {
        self.pos <= self.data@.len()
    }

    open spec fn delivered(&self) -> Seq<u8> {
        self.data@.take(self.pos as int)
    }

    fn read_chunk(&mut self, max: usize) -> (r: Result<Vec<u8>, StreamError>)
        ensures
            r is Ok,
            final(self).data@ == old(self).data@,
            r matches Ok(chunk) ==> {
                let step = if old(self).data@.len() - old(self).pos < max {
                    old(self).data@.len() - old(self).pos
                } else {
                    max as int
                };
                &&& chunk@ == old(self).data@.subrange(
                    old(self).pos as int,
                    old(self).pos + step,
                )
                &&& final(self).pos == old(self).pos + step
            },
    {
        let remaining = self.data.len() - self.pos;
        let step: usize = if remaining < max {
            remaining
        } else {
            max
        };
        let mut chunk: Vec<u8> = Vec::new();
        let start = self.pos;
        let dlen = self.data.len();
        assert(self.data@.subrange(start as int, start as int) == Seq::<u8>::empty());
        for i in 0..step
            invariant
                dlen == self.data@.len(),
                start + step <= dlen,
                chunk@ == self.data@.subrange(start as int, start + i as int),
                self.pos == start,
                self.data@.len() == old(self).data@.len(),
                self.data@ == old(self).data@,
        {
            chunk.push(self.data[start + i]);
            proof {
                assert(self.data@.subrange(start as int, start + i + 1) == self.data@.subrange(
                    start as int,
                    start + i as int,
                ).push(self.data@[start + i]));
            }
        }
        self.pos = self.pos + step;
        proof {
            assert(self.data@.take(start + step as int) == self.data@.take(start as int)
                + self.data@.subrange(start as int, start + step as int));
        }
        Ok(chunk)
    }
}

/// An in-memory sink that keeps every byte written to it.
pub struct MemSink {
    pub data: Vec<u8>,
}

impl MemSink {
    pub fn new() -> (r: MemSink)
        ensures
            r.inv(),
            r.absorbed() == Seq::<u8>::empty(),
    {
        MemSink { data: Vec::new() }
    }
}

impl ByteSink for MemSink {
    open spec fn inv(&self) -> bool {
        true
    }

    open spec fn absorbed(&self) -> Seq<u8> {
        self.data@
    }

    fn write_all_chunk(&mut self, chunk: &[u8]) -> (r: Result<(), StreamError>)
        ensures
            r is Ok,
            final(self).data@ == old(self).data@ + chunk@,
    {
        append_slice(&mut self.data, chunk);
        Ok(())
    }

    fn flush_sink(&mut self) -> (r: Result<(), StreamError>)
        ensures
            r is Ok,
            *final(self) == *old(self),
    {
        Ok(())
    }
}

/// Compares two byte strings for equality.
pub fn bytes_eq(a: &[u8], b: &[u8]) -> (r: bool)
    ensures
        r <==> a@ == b@,
{
    let n = a.len();
    if n != b.len() {
        proof {
            assert(a@.len() != b@.len());
        }
        return false;
    }
    for i in 0..n
        invariant
            n == a@.len(),
            n == b@.len(),
            forall|j: int| 0 <= j < i ==> a@[j] == b@[j],
    {
        if a[i] != b[i] {
            proof {
                assert(a@[i as int] != b@[i as int]);
            }
            return false;
        }
    }
    proof {
        assert(a@ =~= b@);
    }
    true
}

/// Appends every byte of `chunk` to `out`.
pub fn append_slice(out: &mut Vec<u8>, chunk: &[u8])
    ensures
        final(out)@ == old(out)@ + chunk@,
{
    let n = chunk.len();
    for i in 0..n
        invariant
            n == chunk@.len(),
            out@ == old(out)@ + chunk@.take(i as int),
    {
        out.push(chunk[i]);
        proof {
            assert(old(out)@ + chunk@.take(i + 1) == (old(out)@ + chunk@.take(i as int)).push(
                chunk@[i as int],
            ));
        }
    }
    proof {
        assert(chunk@.take(n as int) == chunk@);
    }
}

} // verus!
