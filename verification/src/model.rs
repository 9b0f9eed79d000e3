//! Mathematical model of the dual-region early allocator.
//!
//! `AllocState` mirrors the allocator's five cursor/counter fields plus its
//! fixed page size as unbounded integers; the executable operations are
//! specified as transitions on this state.

use vstd::prelude::*;
use vstd::arithmetic::div_mod::{
    lemma_fundamental_div_mod, lemma_fundamental_div_mod_converse,
    lemma_mod_division_less_than_divisor,
};

verus! {

/// `pos` rounded up to the next multiple of `align` (meaningful for `align >= 1`).
pub open spec fn align_up(pos: int, align: int) -> int {
    ((pos + align - 1) / align) * align
}

/// `pos` rounded down to a multiple of `align` (meaningful for `align >= 1`).
pub open spec fn align_down(pos: int, align: int) -> int {
    (pos / align) * align
}

/// `n` is a power of two.
pub open spec fn is_pow2(n: int) -> bool
    decreases n,
{
    if n <= 0 {
        false
    } else if n == 1 {
        true
    } else {
        n % 2 == 0 && is_pow2(n / 2)
    }
}

/// A power of two is positive.
pub proof fn lemma_pow2_pos(n: int)
    requires
        is_pow2(n),
    ensures
        1 <= n,
{
}

/// How `align_up` relates to its argument: it never moves past the next
/// multiple of `align`, lands on a multiple, and equals `pos` plus the
/// padding that the remainder of `pos` dictates.
pub proof fn lemma_align_up(pos: int, align: int)
    requires
        0 <= pos,
        1 <= align,
    ensures
        pos <= align_up(pos, align) < pos + align,
        align_up(pos, align) % align == 0,
        align_up(pos, align) == pos + (if pos % align == 0 { 0int } else { align - pos % align }),
{
    let q = pos / align;
    let r = pos % align;
    lemma_fundamental_div_mod(pos, align);
    lemma_mod_division_less_than_divisor(pos, align);
    if r == 0 {
        assert(pos + align - 1 == q * align + (align - 1)) by (nonlinear_arith)
            requires
                pos == align * q + r,
                r == 0;
        lemma_fundamental_div_mod_converse(pos + align - 1, align, q, align - 1);
        assert(align_up(pos, align) == q * align);
        assert(q * align == pos) by (nonlinear_arith)
            requires
                pos == align * q + r,
                r == 0;
        lemma_fundamental_div_mod_converse(pos, align, q, 0);
    } else {
        assert(pos + align - 1 == (q + 1) * align + (r - 1)) by (nonlinear_arith)
            requires
                pos == align * q + r;
        lemma_fundamental_div_mod_converse(pos + align - 1, align, q + 1, r - 1);
        assert(align_up(pos, align) == (q + 1) * align);
        assert((q + 1) * align == pos + align - r) by (nonlinear_arith)
            requires
                pos == align * q + r;
        lemma_fundamental_div_mod_converse(pos + align - r, align, q + 1, 0);
    }
}

/// How `align_down` relates to its argument: it moves down by less than
/// `align`, lands on a multiple, and equals `pos` minus its remainder.
pub proof fn lemma_align_down(pos: int, align: int)
    requires
        1 <= align,
    ensures
        pos - align < align_down(pos, align) <= pos,
        align_down(pos, align) % align == 0,
        align_down(pos, align) == pos - pos % align,
{
    let q = pos / align;
    let r = pos % align;
    lemma_fundamental_div_mod(pos, align);
    lemma_mod_division_less_than_divisor(pos, align);
    assert(q * align == pos - r) by (nonlinear_arith)
        requires
            pos == align * q + r;
    lemma_fundamental_div_mod_converse(pos - r, align, q, 0);
}

/// `n * d` stays within `max` when `n` is at most `max / d`.
pub proof fn lemma_quot_scale_within(n: int, d: int, max: int) by (nonlinear_arith)
    requires
        1 <= d,
        0 <= n,
        0 <= max,
        n <= max / d,
    ensures
        n * d <= max,
{
}

/// `n * d` exceeds `max` when `n` is above `max / d`.
pub proof fn lemma_quot_scale_beyond(n: int, d: int, max: int) by (nonlinear_arith)
    requires
        1 <= d,
        0 <= max,
        max / d < n,
    ensures
        max < n * d,
{
}

/// The abstract state of the dual-region early allocator.
pub ghost struct AllocState {
    /// Base address of the owned extent; fixed after `init`.
    pub start: int,
    /// Total extent length in bytes; fixed after `init`.
    pub size: int,
    /// Byte-zone cursor, growing upward from `start`.
    pub b_pos: int,
    /// Page-zone cursor, growing downward from `start + size`.
    pub p_pos: int,
    /// Number of outstanding byte allocations.
    pub count: int,
    /// Fixed page size; a power of two chosen at construction.
    pub page_size: int,
}

impl AllocState {
    /// Well-formedness: the two cursors stay inside the extent and never
    /// cross, the byte cursor sits at `start` whenever no byte allocation is
    /// outstanding, and the page size is a power of two.
    pub open spec fn inv(self) -> bool {
        &&& 0 <= self.start <= self.b_pos <= self.p_pos <= self.start + self.size
        &&& self.start + self.size <= usize::MAX
        &&& 0 <= self.count
        &&& self.count == 0 ==> self.b_pos == self.start
        &&& is_pow2(self.page_size)
    }

    /// The state immediately after `init(start, size)`.
    pub open spec fn init_state(start: int, size: int, page_size: int) -> AllocState {
        AllocState { start, size, b_pos: start, p_pos: start + size, count: 0, page_size }
    }

    /// Start address a byte allocation with this alignment would get.
    pub open spec fn byte_alloc_start(self, align: int) -> int {
        align_up(self.b_pos, align)
    }

    /// One-past-the-end address of that byte allocation.
    pub open spec fn byte_alloc_end(self, size: int, align: int) -> int {
        self.byte_alloc_start(align) + size
    }

    /// The byte allocation fits without running into the page zone.
    pub open spec fn can_alloc(self, size: int, align: int) -> bool {
        self.byte_alloc_end(size, align) <= self.p_pos
    }

    /// State after a successful byte allocation.
    pub open spec fn do_alloc(self, size: int, align: int) -> AllocState {
        AllocState { b_pos: self.byte_alloc_end(size, align), count: self.count + 1, ..self }
    }

    /// State after one `dealloc`: the counter drops, and when it reaches
    /// zero the whole byte zone is reclaimed in one step.
    pub open spec fn do_dealloc(self) -> AllocState {
        if self.count == 1 {
            AllocState { count: 0, b_pos: self.start, ..self }
        } else {
            AllocState { count: self.count - 1, ..self }
        }
    }

    /// Total length in bytes of a page allocation of `num_pages` pages.
    pub open spec fn pages_len(self, num_pages: int) -> int {
        num_pages * self.page_size
    }

    /// Start address a page allocation would get: the page cursor moved down
    /// by the requested length, rounded down to the alignment.
    pub open spec fn page_alloc_start(self, num_pages: int, align: int) -> int {
        align_down(self.p_pos - self.pages_len(num_pages), align)
    }

    /// The page allocation fits without running into the byte zone.
    pub open spec fn can_alloc_pages(self, num_pages: int, align: int) -> bool {
        self.b_pos <= self.page_alloc_start(num_pages, align)
    }

    /// State after a successful page allocation.
    pub open spec fn do_alloc_pages(self, num_pages: int, align: int) -> AllocState {
        AllocState { p_pos: self.page_alloc_start(num_pages, align), ..self }
    }

    /// Byte-zone capacity: the whole extent length.
    pub open spec fn total_bytes(self) -> int {
        self.size
    }

    /// Bytes consumed by the byte zone so far.
    pub open spec fn used_bytes(self) -> int {
        self.b_pos - self.start
    }

    /// Bytes still free between the two zones.
    pub open spec fn avail_bytes(self) -> int {
        self.p_pos - self.b_pos
    }

    /// Page-zone capacity in whole pages.
    pub open spec fn total_pages(self) -> int {
        self.size / self.page_size
    }

    /// Whole pages consumed by the page zone so far.
    pub open spec fn used_pages(self) -> int {
        (self.size - (self.p_pos - self.start)) / self.page_size
    }

    /// Whole pages still free between the two zones.
    pub open spec fn avail_pages(self) -> int {
        (self.p_pos - self.b_pos) / self.page_size
    }
}

} // verus!
