//! The data chunk handed to the consumer by a successful poll.
//!
//! A chunk is an immutable snapshot of the region of the stream's buffer
//! that the last read filled, together with a cursor. Handing out an owned
//! snapshot (rather than a raw view into the shared buffer) keeps the
//! reusable buffer free to be refilled as soon as the chunk is released.

use vstd::prelude::*;

verus! {

/// The data chunk type produced by a stream body.
///
/// Its view is the sequence of bytes not yet advanced past.
pub struct StreamData {
    bytes: Vec<u8>,
    pos: usize,
}

impl View for StreamData {
    type V = Seq<u8>;

    closed spec fn view(&self) -> Seq<u8> {
        self.bytes@.subrange(self.pos as int, self.bytes@.len() as int)
    }
}

impl StreamData {
    /// The cursor never runs past the end of the snapshot.
    pub closed spec fn wf(&self) -> bool {
        self.pos <= self.bytes@.len()
    }

    /// Snapshots `s` into a fresh chunk with the cursor at the start.
    pub fn new(s: &[u8]) -> (d: StreamData)
        ensures
            d.wf(),
            d@ == s@,
    {
        let bytes = vstd::slice::slice_to_vec(s);
        proof {
            assert(bytes@.subrange(0, bytes@.len() as int) =~= s@);
        }
        StreamData { bytes, pos: 0 }
    }

    /// How many bytes are left to read.
    pub fn remaining(&self) -> (n: usize)
        requires
            self.wf(),
        ensures
            n == self@.len(),
    {
        self.bytes.len() - self.pos
    }

    /// The bytes not yet advanced past.
    pub fn chunk(&self) -> (s: &[u8])
        requires
            self.wf(),
        ensures
            s@ == self@,
    {
        vstd::slice::slice_subrange(self.bytes.as_slice(), self.pos, self.bytes.len())
    }

    /// Moves the cursor forward by `cnt` bytes; those bytes are gone for
    /// good (nothing advanced past is ever replayed).
    pub fn advance(&mut self, cnt: usize)
        requires
            old(self).wf(),
            cnt <= old(self)@.len(),
        ensures
            final(self).wf(),
            final(self)@ == old(self)@.subrange(cnt as int, old(self)@.len() as int),
    {
        let n = self.bytes.len();
        self.pos = self.pos + cnt;
        proof {
            assert(self@ =~= old(self)@.subrange(cnt as int, old(self)@.len() as int));
        }
    }
}

} // verus!
