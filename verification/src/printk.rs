//! The bounded line buffer behind console logging.
//!
//! The console itself is an external collaborator; what this layer owns is
//! the line buffer a formatted message is assembled in before it is handed
//! over: a fixed-capacity byte buffer that accepts text front-to-back and
//! silently drops whatever would cross its bound.

use vstd::math::min;
use vstd::prelude::*;

use crate::error::KernelResult;

verus! {

/// The longest line the host's console accepts.
pub const LOG_LINE_MAX: usize = 1024 - 32;

/// A fixed-capacity buffer a log line is assembled in.
pub struct LogLineWriter {
    data: Vec<u8>,
    pos: usize,
}

impl LogLineWriter {
    /// The buffer's bytes.
    pub closed spec fn buf(self) -> Seq<u8> {
        self.data@
    }

    /// How many bytes of the line are filled.
    pub closed spec fn filled(self) -> int {
        self.pos as int
    }

    /// The buffer always spans exactly the console's line capacity, and the
    /// fill position never passes it.
    #[verifier::type_invariant]
    pub open spec fn wf(self) -> bool {
        &&& self.buf().len() == LOG_LINE_MAX
        &&& 0 <= self.filled() <= LOG_LINE_MAX
    }

    /// Creates an empty line buffer.
    pub fn new() -> (r: LogLineWriter)
        ensures
            r.filled() == 0,
            r.buf().len() == LOG_LINE_MAX,
            forall|i: int| 0 <= i < LOG_LINE_MAX ==> r.buf()[i] == 0u8,
    {
        LogLineWriter { data: vec![0u8; LOG_LINE_MAX], pos: 0 }
    }

    /// Returns the filled part of the buffer as a byte slice.
    pub fn as_bytes(&self) -> (r: &[u8])
        ensures
            r@ == self.buf().subrange(0, self.filled()),
    {
        proof {
            use_type_invariant(self);
        }
        let s = self.data.as_slice();
        &s[0..self.pos]
    }

    /// Appends text to the line: exactly the smaller of the text's length
    /// and the room left is copied, and the rest of the text is dropped, so
    /// a line never grows past the console's capacity.
    pub fn write_str(&mut self, s: &[u8]) -> (r: KernelResult<()>)
        ensures
            r is Ok,
            ({
                let k = min(s@.len() as int, LOG_LINE_MAX - old(self).filled());
                &&& final(self).filled() == old(self).filled() + k
                &&& (forall|i: int|
                    0 <= i < k ==> final(self).buf()[old(self).filled() + i] == s@[i])
                &&& (forall|i: int|
                    0 <= i < LOG_LINE_MAX && !(old(self).filled() <= i < old(self).filled() + k)
                        ==> final(self).buf()[i] == old(self).buf()[i])
            }),
    {
        proof {
            use_type_invariant(&*self);
        }
        let copy_len = if s.len() <= self.data.len() - self.pos {
            s.len()
        } else {
            self.data.len() - self.pos
        };
        let mut i: usize = 0;
        while i < copy_len
            invariant
                i <= copy_len,
                self.pos + copy_len <= self.data.len(),
                copy_len <= s@.len(),
                self.data@.len() == old(self).data@.len(),
                self.data@.len() == LOG_LINE_MAX,
                self.pos == old(self).pos,
                forall|j: int| 0 <= j < i ==> self.data@[self.pos + j] == s@[j],
                forall|j: int|
                    0 <= j < self.data@.len() && !(self.pos <= j < self.pos + i) ==> self.data@[j]
                        == old(self).data@[j],
            decreases copy_len - i,
        {
            let slot = &mut self.data[self.pos + i];
            *slot = s[i];
            i = i + 1;
        }
        self.pos = self.pos + copy_len;
        Ok(())
    }
}

impl Default for LogLineWriter {
    /// An empty line buffer.
    fn default() -> (r: LogLineWriter)
        ensures
            r.filled() == 0,
            r.buf().len() == LOG_LINE_MAX,
    {
        LogLineWriter::new()
    }
}

} // verus!
