//! A cursor that hands out consecutive chunks of a byte slice.
use vstd::prelude::*;
use crate::error::{ElucidatorError, ElucidatorErrorV};

verus! {

/// Reads a byte slice front to back.
#[derive(Debug, Clone, PartialEq)]
pub struct Buffer<'a> {
    /// The current position of the buffer cursor
    position: usize,
    /// The underlying data slice
    slice: &'a [u8],
}

impl<'a> Buffer<'a> {
    /// The cursor lies within the slice.
    pub open spec fn wf(&self) -> bool {
        self.position() <= self.data().len()
    }

    pub closed spec fn position(&self) -> nat {
        self.position as nat
    }

    pub closed spec fn data(&self) -> Seq<u8> {
        self.slice@
    }

    /// The bytes not yet handed out.
    pub open spec fn rest(&self) -> Seq<u8> {
        self.data().subrange(self.position() as int, self.data().len() as int)
    }

    /// Make a new Buffer from a slice
    pub fn new(slice: &'a [u8]) -> (b: Self)
        ensures
            b.wf(),
            b.data() == slice@,
            b.position() == 0,
    {
        Buffer { position: 0, slice }
    }

    /// The next `n` bytes, moving past them; when fewer are left, the cursor moves to the end
    /// so that every later call fails too, and the error says how many were wanted and left.
    pub fn grab(&mut self, n: usize) -> (r: Result<Vec<u8>, ElucidatorError>)
        requires
            old(self).wf(),
        ensures
            final(self).wf(),
            final(self).data() == old(self).data(),
            old(self).position() + n <= old(self).data().len() ==> {
                &&& r matches Ok(v) && v@ == old(self).data().subrange(
                    old(self).position() as int,
                    old(self).position() + n,
                )
                &&& final(self).position() == old(self).position() + n
            },
            old(self).position() + n > old(self).data().len() ==> {
                &&& r matches Err(e) && e@ == (ElucidatorErrorV::BufferSizing {
                    expected: n,
                    found: (old(self).data().len() - old(self).position()) as usize,
                })
                &&& final(self).position() == old(self).data().len()
            },
    {
        let curr_pos = self.position;
        let left = self.slice.len() - curr_pos;
        if n > left {
            // Advance to end so that all future calls fail
            self.position = self.slice.len();
            Err(ElucidatorError::BufferSizing { expected: n, found: left })
        } else {
            let end = curr_pos + n;
            self.position = end;
            let mut v: Vec<u8> = Vec::new();
            let mut i = curr_pos;
            while i < end
                invariant
                    curr_pos <= i <= end <= self.slice@.len(),
                    end == curr_pos + n,
                    v@ == self.slice@.subrange(curr_pos as int, i as int),
                decreases end - i,
            {
                v.push(self.slice[i]);
                i = i + 1;
            }
            Ok(v)
        }
    }
}

/// Law: once a grab has failed, the cursor is at the end, so every later grab of at least one
/// byte fails too.
pub proof fn lemma_exhausted_buffer_fails(b: Buffer, n: nat)
    requires
        b.wf(),
        b.position() == b.data().len(),
        n > 0,
    ensures
        b.position() + n > b.data().len(),
{
}

} // verus!
