//! The unread tail of one connection, held in memory with a cursor.

use vstd::prelude::*;

verus! {

/// A sequentially readable view of the bytes of one connection. The cursor
/// only moves forward; the bytes themselves never change.
#[derive(Debug)]
pub struct ByteSource {
    data: Vec<u8>,
    pos: usize,
}

impl ByteSource {
    /// The cursor lies within the data.
    #[verifier::type_invariant]
    spec fn wf(&self) -> bool {
        self.pos <= self.data@.len()
    }

    /// Every byte of the connection, read or not.
    pub closed spec fn bytes(&self) -> Seq<u8> {
        self.data@
    }

    /// How many bytes have been consumed so far.
    pub closed spec fn cursor(&self) -> nat {
        self.pos as nat
    }

    /// The bytes that have not been consumed yet.
    pub open spec fn unread(&self) -> Seq<u8> {
        self.bytes().subrange(self.cursor() as int, self.bytes().len() as int)
    }

    /// A source over `data` with the cursor at its first byte.
    pub fn new(data: Vec<u8>) -> (src: ByteSource)
        ensures
            src.bytes() == data@,
            src.cursor() == 0,
    {
        ByteSource { data, pos: 0 }
    }

    /// The number of bytes consumed so far.
    pub fn position(&self) -> (p: usize)
        ensures
            p == self.cursor(),
            p <= self.bytes().len(),
    {
        proof {
            use_type_invariant(self);
        }
        self.pos
    }

    /// The number of bytes not consumed yet.
    pub fn available(&self) -> (n: usize)
        ensures
            n == self.unread().len(),
    {
        proof {
            use_type_invariant(self);
        }
        self.data.len() - self.pos
    }

    /// Copies the next `count` unread bytes to the front of `buf` and moves
    /// the cursor past them.
    pub fn take(&mut self, buf: &mut [u8], count: usize)
        requires
            count <= old(buf)@.len(),
            count <= old(self).unread().len(),
        ensures
            final(self).bytes() == old(self).bytes(),
            final(self).cursor() == old(self).cursor() + count,
            final(buf)@ == old(self).unread().take(count as int) + old(buf)@.skip(count as int),
    {
        proof {
            use_type_invariant(&*self);
        }
        let len: usize = self.data.len();
        let mut i: usize = 0;
        while i < count
            invariant
                i <= count,
                len == self.data@.len(),
                count <= buf@.len(),
                buf@.len() == old(buf)@.len(),
                self.pos + count <= self.data@.len(),
                *self == *old(self),
                buf@ == old(self).unread().take(i as int) + old(buf)@.skip(i as int),
            decreases count - i,
        {
            buf[i] = self.data[self.pos + i];
            i += 1;
        }
        self.pos += count;
    }

    /// Moves the cursor past the next `count` unread bytes without copying
    /// them anywhere.
    pub fn skip(&mut self, count: usize)
        requires
            count <= old(self).unread().len(),
        ensures
            final(self).bytes() == old(self).bytes(),
            final(self).cursor() == old(self).cursor() + count,
    {
        proof {
            use_type_invariant(&*self);
        }
        let len: usize = self.data.len();
        assert(self.pos + count <= len);
        self.pos += count;
    }

    /// The whole buffer behind the source, consumed bytes included.
    pub fn data(&self) -> (all: &Vec<u8>)
        ensures
            all@ == self.bytes(),
    {
        &self.data
    }
}

} // verus!
