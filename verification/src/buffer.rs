//! The buffer ownership primitive: a growable, heap-allocated byte array that
//! is handed back and forth between two independent memory managers.
//!
//! One side fills the buffer, the other eventually releases it; exactly one
//! side owns the block at any time.  The type models the classic
//! pointer/length/capacity triple: the backing vector plays the allocated
//! block and `null` records whether the struct currently owns a block at all,
//! so that a release can be observed and is idempotent.

use vstd::prelude::*;

verus! {

/// A sized byte array for passing heap-allocated memory across the memory
/// boundary between the native side and the foreign runtime.
///
/// Invariant: a buffer whose pointer analogue is null holds no bytes at all
/// ([`RawVec::wf`]).  Growth never shrinks and never loses bytes: growing at
/// the back preserves the old contents as a prefix, growing at the front
/// preserves them as a suffix.  Release resets the buffer to the null state
/// and is safe to call repeatedly.
pub struct RawVec {
    data: Vec<u8>,
    null: bool,
}

impl View for RawVec {
    type V = Seq<u8>;

    closed spec fn view(&self) -> Seq<u8> {
        self.data@
    }
}

impl RawVec {
    /// The buffer owns no block: the pointer analogue is null.
    pub closed spec fn is_null(&self) -> bool {
        self.null
    }

    /// Well-formedness: a null buffer has length zero.
    pub closed spec fn wf(&self) -> bool {
        self.null ==> self.data@.len() == 0
    }

    /// Allocate a zero-initialized buffer of `size` bytes.
    ///
    /// A request for zero bytes still yields a valid, releasable buffer.
    pub fn new(size: usize) -> (r: Self)
        ensures
            r.wf(),
            !r.is_null(),
            r@ == Seq::new(size as nat, |i: int| 0u8),
    {
        RawVec { data: zero_block(size), null: false }
    }

    /// Wrap a block that the caller already allocated; the buffer becomes its
    /// sole owner.
    pub fn from_vec(data: Vec<u8>) -> (r: Self)
        ensures
            r.wf(),
            !r.is_null(),
            r@ == data@,
    {
        RawVec { data, null: false }
    }

    /// Surrender the owned block to the caller.
    pub fn into_vec(self) -> (r: Vec<u8>)
        ensures
            r@ == self@,
    {
        self.data
    }

    /// The number of valid bytes.
    pub fn len(&self) -> (r: usize)
        ensures
            r == self@.len(),
    {
        self.data.len()
    }

    pub fn is_empty(&self) -> (r: bool)
        ensures
            r == (self@.len() == 0),
    {
        self.data.len() == 0
    }

    /// Read one byte.
    pub fn get(&self, i: usize) -> (r: u8)
        requires
            i < self@.len(),
        ensures
            r == self@[i as int],
    {
        self.data[i]
    }

    /// Overwrite one byte in place.
    pub fn set(&mut self, i: usize, value: u8)
        requires
            old(self).wf(),
            i < old(self)@.len(),
        ensures
            final(self).wf(),
            final(self).is_null() == old(self).is_null(),
            final(self)@ == old(self)@.update(i as int, value),
    {
        self.data[i] = value;
    }

    /// A read-only view of the valid bytes.
    pub fn as_slice(&self) -> (r: &[u8])
        ensures
            r@ == self@,
    {
        self.data.as_slice()
    }

    /// Release the owned block and put the buffer into the null/empty state.
    ///
    /// Releasing twice never double-frees: a second call finds the buffer
    /// already null and leaves it exactly as it is.
    pub fn free(&mut self)
        requires
            old(self).wf(),
        ensures
            final(self).wf(),
            final(self).is_null(),
            final(self)@.len() == 0,
            old(self).is_null() ==> *final(self) == *old(self),
    {
        if !self.null {
            self.data = Vec::new();
            self.null = true;
        }
    }

    /// Grow the buffer at the back to `newsize` bytes.
    ///
    /// If `newsize` does not exceed the current length this is a no-op (the
    /// buffer never shrinks).  Otherwise the buffer afterwards holds exactly
    /// `newsize` bytes: the old contents as a prefix, zeroes after them.
    /// Growing an empty buffer behaves as a plain allocation.
    pub fn realloc(&mut self, newsize: usize)
        requires
            old(self).wf(),
        ensures
            final(self).wf(),
            newsize <= old(self)@.len() ==> *final(self) == *old(self),
            newsize > old(self)@.len() ==> {
                &&& !final(self).is_null()
                &&& final(self)@.len() == newsize
                &&& final(self)@ == old(self)@ + Seq::new(
                    (newsize - old(self)@.len()) as nat,
                    |i: int| 0u8,
                )
            },
    {
        if newsize <= self.data.len() {
            return ;
        }
        let mut block = zero_block(newsize);
        let mut i: usize = 0;
        while i < self.data.len()
            invariant
                *self == *old(self),
                i <= self.data@.len() < newsize,
                block@.len() == newsize,
                forall|j: int| 0 <= j < i ==> block@[j] == self.data@[j],
                forall|j: int| i <= j < newsize ==> block@[j] == 0u8,
            decreases self.data@.len() - i,
        {
            let b = self.data[i];
            block[i] = b;
            i += 1;
        }
        self.data = block;
        self.null = false;
        proof {
            assert(final(self)@ =~= old(self)@ + Seq::new(
                (newsize - old(self)@.len()) as nat,
                |i: int| 0u8,
            ));
        }
    }

    /// Grow the buffer at the front to `newsize` bytes.
    ///
    /// If `newsize` does not exceed the current length this is a no-op.
    /// Otherwise the buffer afterwards holds exactly `newsize` bytes: zeroes
    /// first, then the old contents right-aligned as a suffix.  Used when data
    /// must be prepended.
    pub fn realloc_end(&mut self, newsize: usize)
        requires
            old(self).wf(),
        ensures
            final(self).wf(),
            newsize <= old(self)@.len() ==> *final(self) == *old(self),
            newsize > old(self)@.len() ==> {
                &&& !final(self).is_null()
                &&& final(self)@.len() == newsize
                &&& final(self)@ == Seq::new(
                    (newsize - old(self)@.len()) as nat,
                    |i: int| 0u8,
                ) + old(self)@
            },
    {
        if newsize <= self.data.len() {
            return ;
        }
        let mut block = zero_block(newsize);
        let offset = newsize - self.data.len();
        let mut i: usize = 0;
        while i < self.data.len()
            invariant
                *self == *old(self),
                offset == newsize - self.data@.len(),
                i <= self.data@.len() < newsize,
                block@.len() == newsize,
                forall|j: int| 0 <= j < offset ==> block@[j] == 0u8,
                forall|j: int| 0 <= j < i ==> block@[offset + j] == self.data@[j],
                forall|j: int| offset + i <= j < newsize ==> block@[j] == 0u8,
            decreases self.data@.len() - i,
        {
            let b = self.data[i];
            block[offset + i] = b;
            i += 1;
        }
        self.data = block;
        self.null = false;
        proof {
            assert(final(self)@ =~= Seq::new(
                (newsize - old(self)@.len()) as nat,
                |i: int| 0u8,
            ) + old(self)@);
        }
    }
}

/// A fresh zero-filled block of `size` bytes.
fn zero_block(size: usize) -> (r: Vec<u8>)
    ensures
        r@ == Seq::new(size as nat, |i: int| 0u8),
{
    let mut v: Vec<u8> = Vec::new();
    while v.len() < size
        invariant
            v@.len() <= size,
            forall|i: int| 0 <= i < v@.len() ==> v@[i] == 0u8,
        decreases size - v@.len(),
    {
        v.push(0u8);
    }
    proof {
        assert(v@ =~= Seq::new(size as nat, |i: int| 0u8));
    }
    v
}

/// Foreign-requested allocation: overwrite `vec` with a fresh zero-filled
/// buffer of `size` bytes that this side's allocator backs.  The previous
/// contents, if any, are dropped by this side's allocator.
pub fn rust_allocate_memory(size: usize, vec: &mut RawVec)
    ensures
        final(vec).wf(),
        !final(vec).is_null(),
        final(vec)@ == Seq::new(size as nat, |i: int| 0u8),
{
    *vec = RawVec::new(size);
}

/// Foreign-requested reallocation preserving a prefix: grow `vec` at the back
/// to `size` bytes in place.
pub fn rust_reallocate_memory(size: usize, vec: &mut RawVec)
    requires
        old(vec).wf(),
    ensures
        final(vec).wf(),
        size <= old(vec)@.len() ==> *final(vec) == *old(vec),
        size > old(vec)@.len() ==> final(vec)@ == old(vec)@ + Seq::new(
            (size - old(vec)@.len()) as nat,
            |i: int| 0u8,
        ),
{
    vec.realloc(size);
}

/// Foreign-requested reallocation preserving a suffix: grow `vec` at the front
/// to `size` bytes in place.
pub fn rust_reallocate_end_memory(size: usize, vec: &mut RawVec)
    requires
        old(vec).wf(),
    ensures
        final(vec).wf(),
        size <= old(vec)@.len() ==> *final(vec) == *old(vec),
        size > old(vec)@.len() ==> final(vec)@ == Seq::new(
            (size - old(vec)@.len()) as nat,
            |i: int| 0u8,
        ) + old(vec)@,
{
    vec.realloc_end(size);
}

} // verus!
