//! Bounded views over host-supplied buffers.
//!
//! A buffer arrives from the host as a (pointer, length) pair.  Validating
//! it yields a [`UserSlicePtr`]; from that, exactly one reader or writer is
//! drawn.  A reader hands bytes out front-to-back, a writer takes bytes in
//! front-to-back, and every transfer moves exactly the smaller of the
//! requested amount and the remaining length, so no transfer ever crosses
//! the bound the view was declared with.

use vstd::math::min;
use vstd::prelude::*;

use crate::error::{Error, KernelResult};

verus! {

/// A validated view over a host-supplied buffer.
///
/// Holds the buffer's bytes; its view `@` is their sequence.  It is consumed
/// to draw one reader or one writer over the whole buffer.
pub struct UserSlicePtr {
    data: Vec<u8>,
}

impl View for UserSlicePtr {
    type V = Seq<u8>;

    closed spec fn view(&self) -> Seq<u8> {
        self.data@
    }
}

impl UserSlicePtr {
    /// Validates a host-supplied buffer against its declared length.
    ///
    /// The declared length must name exactly the bytes the host made
    /// accessible; any other declaration is an addressing failure, reported
    /// as `EFAULT` before a single byte moves.
    pub fn new(buf: Vec<u8>, len: usize) -> (r: KernelResult<UserSlicePtr>)
        ensures
            len == buf@.len() ==> (r matches Ok(u) && u@ == buf@),
            len != buf@.len() ==> (r matches Err(e) && e == Error::EFAULT),
    {
        if len == buf.len() {
            Ok(UserSlicePtr { data: buf })
        } else {
            Err(Error::EFAULT)
        }
    }

    /// The declared length of the view, in bytes.
    pub fn len(&self) -> (n: usize)
        ensures
            n == self@.len(),
    {
        self.data.len()
    }

    /// Turns the view into a reader that consumes the buffer front-to-back.
    pub fn reader(self) -> (r: UserSlicePtrReader)
        ensures
            r.buf() == self@,
            r.consumed() == 0,
    {
        UserSlicePtrReader { data: self.data, pos: 0 }
    }

    /// Turns the view into a writer that fills the buffer front-to-back.
    pub fn writer(self) -> (r: UserSlicePtrWriter)
        ensures
            r.buf() == self@,
            r.written() == 0,
    {
        UserSlicePtrWriter { data: self.data, pos: 0 }
    }
}

/// Reads bytes out of a bounded view, front-to-back.
pub struct UserSlicePtrReader {
    data: Vec<u8>,
    pos: usize,
}

impl UserSlicePtrReader {
    /// The bytes of the underlying buffer.
    pub closed spec fn buf(self) -> Seq<u8> {
        self.data@
    }

    /// How many bytes have been read out so far.
    pub closed spec fn consumed(self) -> int {
        self.pos as int
    }

    /// The position never passes the declared bound.
    #[verifier::type_invariant]
    pub open spec fn wf(self) -> bool {
        0 <= self.consumed() <= self.total()
    }

    /// The declared length of the view.
    pub open spec fn total(self) -> int {
        self.buf().len() as int
    }

    /// How many bytes are still available.
    pub open spec fn remaining_spec(self) -> int {
        self.total() - self.consumed()
    }

    /// How a reader may change while borrowed by driver code: the buffer is
    /// untouched and the position only moves forward, never past the bound.
    pub open spec fn evolves_to(self, post: Self) -> bool {
        &&& post.buf() == self.buf()
        &&& self.consumed() <= post.consumed() <= self.total()
    }

    /// The remaining length, so a caller can compute bytes actually
    /// transferred as `original length - remaining length`.
    pub fn len(&self) -> (n: usize)
        ensures
            n == self.remaining_spec(),
    {
        proof {
            use_type_invariant(self);
        }
        self.data.len() - self.pos
    }

    /// Copies out up to `n` bytes, advances, and returns the bytes copied:
    /// exactly the smaller of `n` and the remaining length.
    pub fn read(&mut self, n: usize) -> (out: Vec<u8>)
        ensures
            out@.len() == min(n as int, old(self).remaining_spec()),
            out@ == old(self).buf().subrange(
                old(self).consumed(),
                old(self).consumed() + out@.len(),
            ),
            final(self).buf() == old(self).buf(),
            final(self).consumed() == old(self).consumed() + out@.len(),
            old(self).evolves_to(*final(self)),
    {
        proof {
            use_type_invariant(&*self);
        }
        let take = if n <= self.data.len() - self.pos {
            n
        } else {
            self.data.len() - self.pos
        };
        let mut out: Vec<u8> = Vec::new();
        let mut i: usize = 0;
        while i < take
            invariant
                i <= take,
                self.pos + take <= self.data.len(),
                out@.len() == i as int,
                out@ == self.data@.subrange(self.pos as int, self.pos + i),
            decreases take - i,
        {
            out.push(self.data[self.pos + i]);
            proof {
                assert(out@ == self.data@.subrange(self.pos as int, self.pos + i + 1));
            }
            i = i + 1;
        }
        self.pos = self.pos + take;
        out
    }

    /// Copies out everything that remains.
    pub fn read_all(&mut self) -> (out: Vec<u8>)
        ensures
            out@.len() == old(self).remaining_spec(),
            out@ == old(self).buf().subrange(old(self).consumed(), old(self).total()),
            final(self).buf() == old(self).buf(),
            final(self).remaining_spec() == 0,
            old(self).evolves_to(*final(self)),
    {
        proof {
            use_type_invariant(&*self);
        }
        let n = self.data.len() - self.pos;
        self.read(n)
    }
}

/// Writes bytes into a bounded view, front-to-back.
pub struct UserSlicePtrWriter {
    data: Vec<u8>,
    pos: usize,
}

impl UserSlicePtrWriter {
    /// The current bytes of the underlying buffer.
    pub closed spec fn buf(self) -> Seq<u8> {
        self.data@
    }

    /// How many bytes have been written so far.
    pub closed spec fn written(self) -> int {
        self.pos as int
    }

    /// The position never passes the declared bound.
    #[verifier::type_invariant]
    pub open spec fn wf(self) -> bool {
        0 <= self.written() <= self.total()
    }

    /// The declared length of the view.
    pub open spec fn total(self) -> int {
        self.buf().len() as int
    }

    /// How many bytes can still be written.
    pub open spec fn remaining_spec(self) -> int {
        self.total() - self.written()
    }

    /// How a writer may change while borrowed by driver code: the bound is
    /// fixed, the position only moves forward and never past the bound, and
    /// bytes beyond the final position are untouched.
    pub open spec fn evolves_to(self, post: Self) -> bool {
        &&& post.total() == self.total()
        &&& self.written() <= post.written() <= self.total()
        &&& forall|i: int|
            post.written() <= i < post.total() ==> post.buf()[i] == self.buf()[i]
    }

    /// The remaining length, so a caller can compute bytes actually
    /// transferred as `original length - remaining length`.
    pub fn len(&self) -> (n: usize)
        ensures
            n == self.remaining_spec(),
    {
        proof {
            use_type_invariant(self);
        }
        self.data.len() - self.pos
    }

    /// Copies in up to `src.len()` bytes, advances, and returns the number
    /// of bytes copied: exactly the smaller of `src.len()` and the remaining
    /// length.  Bytes outside the range written are untouched.
    pub fn write(&mut self, src: &[u8]) -> (n: usize)
        ensures
            n == min(src@.len() as int, old(self).remaining_spec()),
            final(self).written() == old(self).written() + n,
            final(self).total() == old(self).total(),
            forall|i: int| 0 <= i < n ==> final(self).buf()[old(self).written() + i] == src@[i],
            forall|i: int|
                0 <= i < old(self).total() && !(old(self).written() <= i < old(self).written()
                    + n) ==> final(self).buf()[i] == old(self).buf()[i],
            old(self).evolves_to(*final(self)),
    {
        proof {
            use_type_invariant(&*self);
        }
        let take = if src.len() <= self.data.len() - self.pos {
            src.len()
        } else {
            self.data.len() - self.pos
        };
        let mut i: usize = 0;
        while i < take
            invariant
                i <= take,
                self.pos + take <= self.data.len(),
                take <= src@.len(),
                self.data@.len() == old(self).data@.len(),
                self.pos == old(self).pos,
                forall|j: int| 0 <= j < i ==> self.data@[self.pos + j] == src@[j],
                forall|j: int|
                    0 <= j < self.data@.len() && !(self.pos <= j < self.pos + i)
                        ==> self.data@[j] == old(self).data@[j],
            decreases take - i,
        {
            let slot = &mut self.data[self.pos + i];
            *slot = src[i];
            i = i + 1;
        }
        self.pos = self.pos + take;
        take
    }

    /// Gives the buffer back, with everything written in place, so the host
    /// side of a transfer can observe it.
    pub fn into_data(self) -> (out: Vec<u8>)
        ensures
            out@ == self.buf(),
    {
        self.data
    }
}

/// Over a writer's whole lifetime the total number of bytes taken in never
/// passes the length the view was declared with, however many transfers
/// driver code makes.
pub proof fn lemma_writer_lifetime_bound(pre: UserSlicePtrWriter, post: UserSlicePtrWriter)
    requires
        pre.evolves_to(post),
    ensures
        post.written() - pre.written() <= pre.remaining_spec(),
        post.written() <= post.total(),
{
}

/// Over a reader's whole lifetime the total number of bytes handed out never
/// passes the length the view was declared with, however many transfers
/// driver code makes.
pub proof fn lemma_reader_lifetime_bound(pre: UserSlicePtrReader, post: UserSlicePtrReader)
    requires
        pre.evolves_to(post),
    ensures
        post.consumed() - pre.consumed() <= pre.remaining_spec(),
        post.consumed() <= post.total(),
{
}

} // verus!

