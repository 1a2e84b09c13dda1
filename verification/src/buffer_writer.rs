//! A writer that fills a caller-supplied byte buffer and never grows it.

use vstd::prelude::*;
use vstd::string::StringSliceAdditionalSpecFns;

verus! {

/// A write did not fit into what is left of the buffer.
#[derive(Debug, Clone, Copy, PartialEq, Eq, Structural)]
pub struct BufferFull;

/// Collects bytes at the front of a fixed buffer.
pub struct BufferWriter<'a> {
    buf: &'a mut [u8],
    /// Number of bytes written so far.
    pos: usize,
}

impl<'a> BufferWriter<'a> {
    /// The bytes written so far.
    pub closed spec fn view(&self) -> Seq<u8> {
        self.buf@.subrange(0, self.pos as int)
    }

    /// The size of the buffer.
    pub closed spec fn capacity(&self) -> nat {
        self.buf@.len()
    }

    /// What was written lies inside the buffer.
    pub closed spec fn wf(&self) -> bool {
        self.pos <= self.buf@.len()
    }

    /// What was written is never longer than the buffer.
    pub proof fn lemma_len_bounded(&self)
        requires
            self.wf(),
        ensures
            self@.len() <= self.capacity(),
    {
    }

    /// A writer over `buf` with nothing written yet.
    pub fn new(buf: &'a mut [u8]) -> (w: Self)
        ensures
            w.wf(),
            w@ == Seq::<u8>::empty(),
            w.capacity() == old(buf)@.len(),
    {
        Self { buf, pos: 0 }
    }

    /// The bytes written so far.
    pub fn as_bytes(&self) -> (b: &[u8])
        requires
            self.wf(),
        ensures
            b@ == self@,
    {
        vstd::slice::slice_subrange(self.buf, 0, self.pos)
    }

    /// Appends `bytes` if they fit into what is left of the buffer;
    /// otherwise writes nothing and reports `BufferFull`.
    pub fn write_bytes(&mut self, bytes: &[u8]) -> (r: Result<(), BufferFull>)
        requires
            old(self).wf(),
        ensures
            final(self).wf(),
            final(self).capacity() == old(self).capacity(),
            r is Ok <==> old(self)@.len() + bytes@.len() <= old(self).capacity(),
            r is Ok ==> final(self)@ == old(self)@ + bytes@,
            r is Err ==> final(self)@ == old(self)@,
    {
        let n: usize = bytes.len();
        let cap: usize = self.buf.len();
        if n > cap - self.pos {
            return Err(BufferFull);
        }
        let start: usize = self.pos;
        let mut i: usize = 0;
        while i < n
            invariant
                i <= n,
                n == bytes@.len(),
                start + n <= cap,
                cap == self.buf@.len(),
                self.pos == start,
                self.buf@.len() == old(self).buf@.len(),
                self.buf@.subrange(0, start as int) == old(self)@,
                self.buf@.subrange(start as int, start + i) == bytes@.subrange(0, i as int),
            decreases n - i,
        {
            let ghost before = self.buf@;
            self.buf[start + i] = bytes[i];
            assert(self.buf@.subrange(0, start as int) =~= before.subrange(0, start as int));
            assert(self.buf@.subrange(start as int, start + i + 1) =~= before.subrange(
                start as int,
                start + i,
            ).push(bytes@[i as int]));
            assert(bytes@.subrange(0, i + 1) =~= bytes@.subrange(0, i as int).push(
                bytes@[i as int],
            ));
            i = i + 1;
        }
        self.pos = start + n;
        assert(bytes@.subrange(0, n as int) =~= bytes@);
        assert(self.buf@.subrange(0, self.pos as int) =~= self.buf@.subrange(0, start as int)
            + self.buf@.subrange(start as int, start + n));
        Ok(())
    }

    /// Appends the bytes of `s` if they fit into what is left of the
    /// buffer; otherwise writes nothing and reports `BufferFull`.
    pub fn write_str(&mut self, s: &str) -> (r: Result<(), BufferFull>)
        requires
            old(self).wf(),
        ensures
            final(self).wf(),
            final(self).capacity() == old(self).capacity(),
            r is Ok <==> old(self)@.len() + s.spec_bytes().len() <= old(self).capacity(),
            r is Ok ==> final(self)@ == old(self)@ + s.spec_bytes(),
            r is Err ==> final(self)@ == old(self)@,
    {
        self.write_bytes(s.as_bytes())
    }
}

} // verus!
