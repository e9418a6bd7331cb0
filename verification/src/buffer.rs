//! The shared receive buffer: a fixed capacity of eight bytes, written whole
//! by the receive path and snapshotted whole by the parser.
//!
//! On the target the two sides are an interrupt-adjacent writer and a task
//! reader, kept apart by a short interrupt-free critical section. Here that
//! scoped exclusive access is the `&mut` borrow: each of the two operations
//! holds the buffer exclusively for its whole duration and releases it on
//! return, so a snapshot can never observe a write in progress.

use vstd::prelude::*;

verus! {

/// The fixed capacity of the receive buffer, in bytes.
pub const BUFFER_SIZE: usize = 8;

/// The bounded byte buffer shared between the receive path and the parser.
pub struct SharedBuffer {
    data: Vec<u8>,
}

impl View for SharedBuffer {
    type V = Seq<u8>;

    closed spec fn view(&self) -> Seq<u8> {
        self.data@
    }
}

impl SharedBuffer {
    /// The capacity never changes: the buffer always holds exactly
    /// `BUFFER_SIZE` bytes.
    pub open spec fn wf(&self) -> bool {
        self@.len() == BUFFER_SIZE
    }

    /// A fresh buffer, zero-filled.
    pub fn new() -> (buffer: SharedBuffer)
        ensures
            buffer.wf(),
            forall|i: int| 0 <= i < BUFFER_SIZE ==> buffer@[i] == 0u8,
    {
        let mut data: Vec<u8> = Vec::new();
        let mut i: usize = 0;
        while i < BUFFER_SIZE
            invariant
                i <= BUFFER_SIZE,
                data@.len() == i,
                forall|j: int| 0 <= j < i ==> data@[j] == 0u8,
            decreases BUFFER_SIZE - i,
        {
            data.push(0);
            i = i + 1;
        }
        SharedBuffer { data }
    }

    /// The receive path's whole-buffer write: replaces every byte with the
    /// freshly read chunk. Nothing of the previous contents survives.
    pub fn store(&mut self, chunk: &[u8])
        requires
            old(self).wf(),
            chunk@.len() == BUFFER_SIZE,
        ensures
            final(self).wf(),
            final(self)@ == chunk@,
    {
        let mut i: usize = 0;
        while i < BUFFER_SIZE
            invariant
                i <= BUFFER_SIZE,
                self.data@.len() == BUFFER_SIZE,
                chunk@.len() == BUFFER_SIZE,
                forall|j: int| 0 <= j < i ==> self.data@[j] == chunk@[j],
            decreases BUFFER_SIZE - i,
        {
            self.data.set(i, chunk[i]);
            i = i + 1;
        }
        proof {
            assert(self.data@ =~= chunk@);
        }
    }

    /// The parser's snapshot: a copy of the whole buffer, taken under the
    /// same exclusive access as the writes.
    pub fn snapshot(&self) -> (copy_out: Vec<u8>)
        requires
            self.wf(),
        ensures
            copy_out@ == self@,
    {
        let mut copy_out: Vec<u8> = Vec::new();
        let mut i: usize = 0;
        while i < BUFFER_SIZE
            invariant
                i <= BUFFER_SIZE,
                self.data@.len() == BUFFER_SIZE,
                copy_out@.len() == i,
                forall|j: int| 0 <= j < i ==> copy_out@[j] == self.data@[j],
            decreases BUFFER_SIZE - i,
        {
            copy_out.push(self.data[i]);
            i = i + 1;
        }
        proof {
            assert(copy_out@ =~= self@);
        }
        copy_out
    }
}

/// The buffer contents after a sequence of whole-buffer writes: the last
/// write, or the initial contents when no write has happened.
pub open spec fn contents_after(init: Seq<u8>, writes: Seq<Seq<u8>>) -> Seq<u8> {
    if writes.len() == 0 {
        init
    } else {
        writes.last()
    }
}

/// Shared-buffer exclusivity: a snapshot taken after any sequence of
/// whole-buffer writes is exactly the last write — never an interleaving of
/// two writes, and no byte of an earlier write or of the initial contents
/// shows through.
pub proof fn lemma_snapshot_is_one_write(init: Seq<u8>, writes: Seq<Seq<u8>>, other: Seq<u8>)
    requires
        writes.len() > 0,
        other != writes.last(),
    ensures
        contents_after(init, writes) == writes.last(),
        contents_after(init, writes) != other,
{
}

} // verus!
