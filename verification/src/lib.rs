//! An early-boot memory allocator: one contiguous extent served from both
//! ends, with byte-granularity allocations growing upward from the low end
//! and page-granularity allocations growing downward from the high end.
//!
//! ```text
//! [ bytes-used | avail-area | pages-used ]
//! |            | -->    <-- |            |
//! start       b_pos        p_pos        end
//! ```
//!
//! The allocator keeps no per-allocation metadata: the byte zone records only
//! the number of outstanding allocations and is reclaimed in bulk when that
//! number returns to zero; the page zone is never reclaimed. The caller must
//! serialize access externally (single-writer contract).

pub mod laws;
pub mod model;

use vstd::prelude::*;

use crate::model::{
    is_pow2, lemma_align_down, lemma_align_up, lemma_pow2_pos, lemma_quot_scale_beyond,
    lemma_quot_scale_within, AllocState,
};

verus! {

/// The only error this allocator reports: the request cannot be satisfied
/// without the byte zone and the page zone overlapping.
#[derive(Clone, Copy, Debug, PartialEq, Eq)]
pub enum AllocError {
    NoMemory,
}

/// Early memory allocator, to be used before the permanent byte and page
/// allocators can work. `PAGE_SIZE` is the fixed page size of the page zone
/// and must be a power of two.
pub struct EarlyAllocator<const PAGE_SIZE: usize> {
    b_pos: usize,
    p_pos: usize,
    count: usize,
    start: usize,
    size: usize,
}

impl<const PAGE_SIZE: usize> View for EarlyAllocator<PAGE_SIZE> {
    type V = AllocState;

    closed spec fn view(&self) -> AllocState {
        AllocState {
            start: self.start as int,
            size: self.size as int,
            b_pos: self.b_pos as int,
            p_pos: self.p_pos as int,
            count: self.count as int,
            page_size: PAGE_SIZE as int,
        }
    }
}

impl<const PAGE_SIZE: usize> EarlyAllocator<PAGE_SIZE> {
    /// A fresh allocator with every cursor at zero; it owns no memory until
    /// `init` is called.
    pub fn new() -> (r: Self)
        ensures
            r@ == AllocState::init_state(0, 0, PAGE_SIZE as int),
            is_pow2(PAGE_SIZE as int) ==> r@.inv(),
    {
        Self { b_pos: 0, p_pos: 0, count: 0, start: 0, size: 0 }
    }

    /// Resets the allocator to own the extent `[start, start + size)`; both
    /// zones become empty. Any prior allocations are silently discarded.
    pub fn init(&mut self, start: usize, size: usize)
        requires
            start + size <= usize::MAX,
            is_pow2(PAGE_SIZE as int),
        ensures
            final(self)@ == AllocState::init_state(start as int, size as int, PAGE_SIZE as int),
            final(self)@.inv(),
    {
        self.b_pos = start;
        self.p_pos = start + size;
        self.count = 0;
        self.start = start;
        self.size = size;
    }

    /// This allocator owns exactly one fixed extent and cannot be extended:
    /// every call fails and leaves the state untouched.
    pub fn add_memory(&mut self, _start: usize, _size: usize) -> (r: Result<(), AllocError>)
        ensures
            r == Err::<(), AllocError>(AllocError::NoMemory),
            final(self)@ == old(self)@,
    {
        Err(AllocError::NoMemory)
    }

    /// Byte-zone allocation: the byte cursor rounded up to `align` becomes
    /// the returned address, and the cursor moves past `size` bytes. Fails
    /// with `NoMemory`, changing nothing, exactly when the allocation would
    /// run into the page zone.
    pub fn alloc_bytes(&mut self, size: usize, align: usize) -> (r: Result<usize, AllocError>)
        requires
            old(self)@.inv(),
            is_pow2(align as int),
            old(self)@.count < usize::MAX,
        ensures
            final(self)@.inv(),
            old(self)@.can_alloc(size as int, align as int) ==> {
                &&& r == Ok::<usize, AllocError>(
                    old(self)@.byte_alloc_start(align as int) as usize,
                )
                &&& final(self)@ == old(self)@.do_alloc(size as int, align as int)
                &&& old(self)@.byte_alloc_start(align as int) % (align as int) == 0
                &&& old(self)@.b_pos <= old(self)@.byte_alloc_start(align as int)
            },
            !old(self)@.can_alloc(size as int, align as int) ==> {
                &&& r == Err::<usize, AllocError>(AllocError::NoMemory)
                &&& final(self)@ == old(self)@
            },
    {
        proof {
            lemma_pow2_pos(align as int);
            lemma_align_up(old(self)@.b_pos, align as int);
        }
        let rem: usize = self.b_pos % align;
        let pad: usize = if rem == 0 {
            0
        } else {
            align - rem
        };
        if pad > usize::MAX - self.b_pos {
            // The aligned start itself overflows the address space, so the
            // allocation cannot end below the page cursor.
            return Err(AllocError::NoMemory);
        }
        let alloc_start: usize = self.b_pos + pad;
        if size > usize::MAX - alloc_start {
            return Err(AllocError::NoMemory);
        }
        let alloc_end: usize = alloc_start + size;
        if alloc_end > self.p_pos {
            return Err(AllocError::NoMemory);
        }
        self.b_pos = alloc_end;
        self.count = self.count + 1;
        Ok(alloc_start)
    }

    /// Byte-zone deallocation. No per-block bookkeeping is done: the address
    /// and layout arguments are ignored, only the outstanding-allocation
    /// counter drops, and when it reaches zero the whole byte zone is
    /// reclaimed in one step. Calling this more often than `alloc_bytes` succeeded
    /// breaks the caller contract and is ruled out here.
    pub fn dealloc_bytes(&mut self, _pos: usize, _size: usize, _align: usize)
        requires
            old(self)@.inv(),
            1 <= old(self)@.count,
        ensures
            final(self)@ == old(self)@.do_dealloc(),
            final(self)@.inv(),
    {
        self.count = self.count - 1;
        if self.count == 0 {
            self.b_pos = self.start;
        }
    }

    /// Total length of the backing extent in bytes.
    pub fn total_bytes(&self) -> (r: usize)
        ensures
            r as int == self@.total_bytes(),
    {
        self.size
    }

    /// Bytes consumed by the byte zone so far.
    pub fn used_bytes(&self) -> (r: usize)
        requires
            self@.inv(),
        ensures
            r as int == self@.used_bytes(),
    {
        self.b_pos - self.start
    }

    /// Bytes still free between the byte zone and the page zone.
    pub fn available_bytes(&self) -> (r: usize)
        requires
            self@.inv(),
        ensures
            r as int == self@.avail_bytes(),
    {
        self.p_pos - self.b_pos
    }

    /// Page-zone allocation of `num_pages` whole pages: the page cursor moves
    /// down by `num_pages * PAGE_SIZE` bytes, rounded down to `align_pow2`,
    /// and the new cursor is returned. Rounding down may permanently consume
    /// more than the requested length. Fails with `NoMemory`, changing
    /// nothing, exactly when the allocation would run into the byte zone.
    pub fn alloc_pages(&mut self, num_pages: usize, align_pow2: usize) -> (r: Result<
        usize,
        AllocError,
    >)
        requires
            old(self)@.inv(),
            is_pow2(align_pow2 as int),
        ensures
            final(self)@.inv(),
            old(self)@.can_alloc_pages(num_pages as int, align_pow2 as int) ==> {
                &&& r == Ok::<usize, AllocError>(
                    old(self)@.page_alloc_start(num_pages as int, align_pow2 as int) as usize,
                )
                &&& final(self)@ == old(self)@.do_alloc_pages(num_pages as int, align_pow2 as int)
                &&& old(self)@.page_alloc_start(num_pages as int, align_pow2 as int) % (
                align_pow2 as int) == 0
                &&& old(self)@.page_alloc_start(num_pages as int, align_pow2 as int) + old(
                    self,
                )@.pages_len(num_pages as int) <= old(self)@.p_pos
                &&& 1 <= num_pages ==> old(self)@.page_alloc_start(
                    num_pages as int,
                    align_pow2 as int,
                ) < old(self)@.p_pos
            },
            !old(self)@.can_alloc_pages(num_pages as int, align_pow2 as int) ==> {
                &&& r == Err::<usize, AllocError>(AllocError::NoMemory)
                &&& final(self)@ == old(self)@
            },
    {
        proof {
            lemma_pow2_pos(align_pow2 as int);
            lemma_pow2_pos(PAGE_SIZE as int);
        }
        if num_pages > usize::MAX / PAGE_SIZE {
            // The requested length alone exceeds the address space, so the
            // candidate start lies below every possible byte cursor.
            proof {
                lemma_quot_scale_beyond(num_pages as int, PAGE_SIZE as int, usize::MAX as int);
                lemma_align_down(
                    old(self)@.p_pos - old(self)@.pages_len(num_pages as int),
                    align_pow2 as int,
                );
            }
            return Err(AllocError::NoMemory);
        }
        proof {
            lemma_quot_scale_within(num_pages as int, PAGE_SIZE as int, usize::MAX as int);
            lemma_align_down(
                old(self)@.p_pos - old(self)@.pages_len(num_pages as int),
                align_pow2 as int,
            );
        }
        let len: usize = num_pages * PAGE_SIZE;
        if len > self.p_pos {
            return Err(AllocError::NoMemory);
        }
        let base: usize = self.p_pos - len;
        let pages_start: usize = (base / align_pow2) * align_pow2;
        if pages_start < self.b_pos {
            return Err(AllocError::NoMemory);
        }
        self.p_pos = pages_start;
        proof {
            if 1 <= num_pages {
                assert(PAGE_SIZE as int <= num_pages as int * PAGE_SIZE as int)
                    by (nonlinear_arith)
                    requires
                        1 <= num_pages as int,
                        1 <= PAGE_SIZE as int,
                ;
            }
        }
        Ok(pages_start)
    }

    /// Page-zone deallocation is a no-op by design: the page zone is only
    /// reclaimed in bulk when the allocator is retired.
    pub fn dealloc_pages(&mut self, _pos: usize, _num_pages: usize)
        ensures
            final(self)@ == old(self)@,
    {
    }

    /// Page-zone capacity: whole pages in the backing extent.
    pub fn total_pages(&self) -> (r: usize)
        requires
            self@.inv(),
        ensures
            r as int == self@.total_pages(),
    {
        proof {
            lemma_pow2_pos(PAGE_SIZE as int);
        }
        self.size / PAGE_SIZE
    }

    /// Whole pages consumed by the page zone so far.
    pub fn used_pages(&self) -> (r: usize)
        requires
            self@.inv(),
        ensures
            r as int == self@.used_pages(),
    {
        proof {
            lemma_pow2_pos(PAGE_SIZE as int);
        }
        (self.size - (self.p_pos - self.start)) / PAGE_SIZE
    }

    /// Whole pages still free between the byte zone and the page zone.
    pub fn available_pages(&self) -> (r: usize)
        requires
            self@.inv(),
        ensures
            r as int == self@.avail_pages(),
    {
        proof {
            lemma_pow2_pos(PAGE_SIZE as int);
        }
        (self.p_pos - self.b_pos) / PAGE_SIZE
    }
}

} // verus!
