//! The reader's fill buffer: a fixed array of bytes with a read and a write cursor.

use vstd::prelude::*;
use vstd::slice::slice_subrange;

verus! {

/// Bytes that the fill buffer holds.
pub const BUFFER_SIZE: usize = 8192;

/// A fixed-capacity byte buffer with two cursors. The bytes before the read cursor are
/// consumed, those between the cursors are unconverted, those from the write cursor on
/// are free.
pub struct FillBuffer {
    buf: Vec<u8>,
    read_pos: usize,
    write_pos: usize,
}

impl FillBuffer {
    /// The buffer has its fixed size, and the cursors lie in it, in order.
    pub closed spec fn wf(&self) -> bool {
        &&& self.buf@.len() == BUFFER_SIZE
        &&& self.read_pos <= self.write_pos
        &&& self.write_pos <= BUFFER_SIZE
    }

    /// The three parts fill the buffer.
    pub proof fn law_parts(&self)
        requires
            self.wf(),
        ensures
            self.consumed().len() + self.unconverted().len() + self.spare().len() == BUFFER_SIZE,
    {
    }

    /// The bytes already consumed, which compaction drops.
    pub closed spec fn consumed(&self) -> Seq<u8> {
        self.buf@.subrange(0, self.read_pos as int)
    }

    /// The unconverted bytes, oldest first.
    pub closed spec fn unconverted(&self) -> Seq<u8> {
        self.buf@.subrange(self.read_pos as int, self.write_pos as int)
    }

    /// The free tail.
    pub closed spec fn spare(&self) -> Seq<u8> {
        self.buf@.subrange(self.write_pos as int, self.buf@.len() as int)
    }

    /// An empty buffer of `BUFFER_SIZE` zero bytes.
    pub fn new() -> (fill: Self)
        ensures
            fill.wf(),
            fill.consumed().len() == 0,
            fill.unconverted().len() == 0,
            fill.spare().len() == BUFFER_SIZE,
    {
        let mut buf: Vec<u8> = Vec::new();
        buf.resize(BUFFER_SIZE, 0u8);
        FillBuffer { buf, read_pos: 0, write_pos: 0 }
    }

    /// Whether nothing unconverted is left.
    pub fn is_drained(&self) -> (drained: bool)
        requires
            self.wf(),
        ensures
            drained == (self.unconverted().len() == 0),
    {
        self.read_pos == self.write_pos
    }

    /// The unconverted bytes.
    pub fn window(&self) -> (window: &[u8])
        requires
            self.wf(),
        ensures
            window@ == self.unconverted(),
    {
        slice_subrange(self.buf.as_slice(), self.read_pos, self.write_pos)
    }

    /// The number of free bytes at the tail.
    pub fn spare_len(&self) -> (n: usize)
        requires
            self.wf(),
        ensures
            n == self.spare().len(),
    {
        self.buf.len() - self.write_pos
    }

    /// Marks the first `n` unconverted bytes as consumed.
    pub fn consume(&mut self, n: usize)
        requires
            old(self).wf(),
            n <= old(self).unconverted().len(),
        ensures
            final(self).wf(),
            final(self).consumed() == old(self).consumed() + old(self).unconverted().take(n as int),
            final(self).unconverted() == old(self).unconverted().skip(n as int),
            final(self).spare() == old(self).spare(),
    {
        self.read_pos = self.read_pos + n;
    }

    /// Counts the first `n` free bytes, which the source has written, as unconverted.
    pub fn commit(&mut self, n: usize)
        requires
            old(self).wf(),
            n <= old(self).spare().len(),
        ensures
            final(self).wf(),
            final(self).consumed() == old(self).consumed(),
            final(self).unconverted() == old(self).unconverted() + old(self).spare().take(n as int),
            final(self).spare() == old(self).spare().skip(n as int),
    {
        let capacity: usize = self.buf.len();
        assert(self.write_pos + n <= capacity);
        self.write_pos = self.write_pos + n;
    }

    /// Moves the unconverted bytes to the front of the buffer, dropping the consumed
    /// ones, so that all free space lies at the tail.
    pub fn compact(&mut self)
        requires
            old(self).wf(),
        ensures
            final(self).wf(),
            final(self).consumed().len() == 0,
            final(self).unconverted() == old(self).unconverted(),
            final(self).spare().len() == BUFFER_SIZE - old(self).unconverted().len(),
    {
        if self.read_pos > 0 {
            let capacity: usize = self.buf.len();
            let from: usize = self.read_pos;
            let count: usize = self.write_pos - self.read_pos;
            let mut i: usize = 0;
            while i < count
                invariant
                    i <= count,
                    0 < from,
                    from + count <= capacity,
                    capacity == self.buf@.len(),
                    self.buf@.len() == old(self).buf@.len(),
                    self.read_pos == old(self).read_pos,
                    self.write_pos == old(self).write_pos,
                    forall|k: int| 0 <= k < i ==> self.buf@[k] == old(self).buf@[from + k],
                    forall|k: int| from + i <= k < self.buf@.len() ==> self.buf@[k] == old(self).buf@[k],
                decreases count - i,
            {
                let byte: u8 = self.buf[from + i];
                self.buf[i] = byte;
                i = i + 1;
            }
            self.write_pos = count;
            self.read_pos = 0;
            assert(self.unconverted() =~= old(self).unconverted());
        }
    }

    /// Compacts the buffer and hands out its free tail for the source to write into.
    /// The buffer is well formed again once the window is given back, since a slice
    /// keeps its length.
    pub fn fill_window(&mut self) -> (window: &mut [u8])
        requires
            old(self).wf(),
        ensures
            window@.len() == BUFFER_SIZE - old(self).unconverted().len(),
            final(window)@.len() == window@.len() ==> final(self).wf(),
            final(self).consumed().len() == 0,
            final(self).unconverted() == old(self).unconverted(),
            final(self).spare() == final(window)@,
    {
        self.compact();
        let at: usize = self.write_pos;
        let (_head, tail) = self.buf.as_mut_slice().split_at_mut(at);
        tail
    }
}

} // verus!
