//! The buffer pool behind zero-copy payload loaning: a stack of
//! pre-allocated buffers handed out and taken back, and the size check a
//! loan request must pass.
use vstd::prelude::*;

use crate::RcpError;

verus! {

/// `n` zero octets.
pub open spec fn zero_buffer(n: nat) -> Seq<u8> {
    Seq::new(n, |_i: int| 0u8)
}

/// Pre-allocated buffers, handed out last-returned first.
pub struct BufferPool {
    free: Vec<Vec<u8>>,
    size: usize,
}

impl BufferPool {
    /// The buffers available, bottom of the stack first.
    pub closed spec fn free_buffers(&self) -> Seq<Seq<u8>> {
        self.free@.map_values(|b: Vec<u8>| b@)
    }

    /// The size of the buffers this pool was made with.
    pub closed spec fn size_of(&self) -> usize {
        self.size
    }

    /// A pool of `count` buffers of `size` zero octets each.
    pub fn new(count: usize, size: usize) -> (r: BufferPool)
        ensures
            r.size_of() == size,
            r.free_buffers() == Seq::new(count as nat, |_i: int| zero_buffer(size as nat)),
    {
        let mut free: Vec<Vec<u8>> = Vec::new();
        let mut i: usize = 0;
        while i < count
            invariant
                i <= count,
                free@.len() == i,
                forall|j: int| 0 <= j < i ==> (#[trigger] free@[j])@ == zero_buffer(size as nat),
            decreases count - i,
        {
            let mut b: Vec<u8> = Vec::new();
            let mut k: usize = 0;
            while k < size
                invariant
                    k <= size,
                    b@ == zero_buffer(k as nat),
                decreases size - k,
            {
                b.push(0u8);
                k = k + 1;
                assert(b@ =~= zero_buffer(k as nat));
            }
            free.push(b);
            i = i + 1;
        }
        let r = BufferPool { free, size };
        assert(r.free_buffers() =~= Seq::new(count as nat, |_i: int| zero_buffer(size as nat)));
        r
    }

    /// The size of the buffers this pool was made with.
    pub fn buffer_size(&self) -> (r: usize)
        ensures
            r == self.size_of(),
    {
        self.size
    }

    /// How many buffers are available.
    pub fn available(&self) -> (r: usize)
        ensures
            r == self.free_buffers().len(),
    {
        self.free.len()
    }

    /// Hand out the buffer on top of the stack, or `None` when the pool is
    /// empty.
    pub fn take(&mut self) -> (r: Option<Vec<u8>>)
        ensures
            final(self).size_of() == old(self).size_of(),
            old(self).free_buffers().len() == 0 ==> r is None && final(self).free_buffers()
                == old(self).free_buffers(),
            old(self).free_buffers().len() > 0 ==> (r matches Some(b) && b@ == old(
                self,
            ).free_buffers().last() && final(self).free_buffers() == old(
                self,
            ).free_buffers().drop_last()),
    {
        let r = self.free.pop();
        proof {
            if old(self).free@.len() > 0 {
                assert(self.free@ =~= old(self).free@.drop_last());
                assert(self.free_buffers() =~= old(self).free_buffers().drop_last());
            }
        }
        r
    }

    /// Put `buf` back on top of the stack.
    pub fn give_back(&mut self, buf: Vec<u8>)
        ensures
            final(self).size_of() == old(self).size_of(),
            final(self).free_buffers() == old(self).free_buffers().push(buf@),
    {
        self.free.push(buf);
        assert(self.free_buffers() =~= old(self).free_buffers().push(buf@));
    }
}

/// A loan of `size` octets is possible from buffers of `buffer_size` octets
/// exactly when it fits; otherwise `PayloadTooLarge`.
pub fn check_loan_size(size: usize, buffer_size: usize) -> (r: Result<(), RcpError>)
    ensures
        r == (if size > buffer_size {
            Err(RcpError::PayloadTooLarge)
        } else {
            Ok(())
        }),
{
    if size > buffer_size {
        Err(RcpError::PayloadTooLarge)
    } else {
        Ok(())
    }
}

/// Taking a buffer and giving the same buffer back leaves the pool's free
/// buffers as they were.
pub proof fn lemma_take_give_back(before: BufferPool, taken: BufferPool, after: BufferPool, buf: Seq<u8>)
    requires
        before.free_buffers().len() > 0,
        buf == before.free_buffers().last(),
        taken.free_buffers() == before.free_buffers().drop_last(),
        after.free_buffers() == taken.free_buffers().push(buf),
    ensures
        after.free_buffers() == before.free_buffers(),
{
    assert(before.free_buffers().drop_last().push(before.free_buffers().last()) =~= before.free_buffers());
}

} // verus!
