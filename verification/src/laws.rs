//! Laws the allocator obeys over whole histories of operations, stated on the
//! abstract state and proved by induction on the operation sequence.

use vstd::prelude::*;

use crate::model::{is_pow2, lemma_align_down, lemma_align_up, lemma_pow2_pos, AllocState};

verus! {

/// One allocator operation, as it acts on the abstract state. Arguments that
/// the operation ignores (the address and layout handed to the two
/// deallocations) are left out, since the state transition never reads them.
pub ghost enum AllocOp {
    /// A byte-zone allocation request.
    AllocBytes { size: int, align: int },
    /// A byte-zone deallocation.
    DeallocBytes,
    /// A page-zone allocation request.
    AllocPages { num_pages: int, align_pow2: int },
    /// A page-zone deallocation (a no-op by design).
    DeallocPages,
    /// An attempt to extend the backing extent (always refused).
    AddMemory,
}

/// When an operation may be issued: alignments must be powers of two, and a
/// byte-zone deallocation needs an outstanding byte allocation to balance.
/// Allocation requests that fail with `NoMemory` are still enabled; they
/// simply leave the state unchanged.
pub open spec fn op_enabled(s: AllocState, op: AllocOp) -> bool {
    match op {
        AllocOp::AllocBytes { size, align } => 0 <= size && is_pow2(align),
        AllocOp::DeallocBytes => 1 <= s.count,
        AllocOp::AllocPages { num_pages, align_pow2 } => 0 <= num_pages && is_pow2(align_pow2),
        AllocOp::DeallocPages => true,
        AllocOp::AddMemory => true,
    }
}

/// The state after one operation: allocations that fit commit their cursor
/// move, allocations that would make the zones overlap change nothing, and
/// the remaining operations act as their contracts state.
pub open spec fn step(s: AllocState, op: AllocOp) -> AllocState {
    match op {
        AllocOp::AllocBytes { size, align } => if s.can_alloc(size, align) {
            s.do_alloc(size, align)
        } else {
            s
        },
        AllocOp::DeallocBytes => s.do_dealloc(),
        AllocOp::AllocPages { num_pages, align_pow2 } => if s.can_alloc_pages(
            num_pages,
            align_pow2,
        ) {
            s.do_alloc_pages(num_pages, align_pow2)
        } else {
            s
        },
        AllocOp::DeallocPages => s,
        AllocOp::AddMemory => s,
    }
}

/// The state after a whole sequence of operations, applied in order.
pub open spec fn apply_ops(s: AllocState, ops: Seq<AllocOp>) -> AllocState
    decreases ops.len(),
{
    if ops.len() == 0 {
        s
    } else {
        apply_ops(step(s, ops.first()), ops.drop_first())
    }
}

/// Every operation of the sequence is enabled in the state it runs from.
pub open spec fn ops_enabled(s: AllocState, ops: Seq<AllocOp>) -> bool
    decreases ops.len(),
{
    ops.len() == 0 || (op_enabled(s, ops.first()) && ops_enabled(step(s, ops.first()), ops.drop_first()))
}

/// Number of byte-zone allocation requests in the sequence.
pub open spec fn count_allocs(ops: Seq<AllocOp>) -> int
    decreases ops.len(),
{
    if ops.len() == 0 {
        0
    } else {
        (match ops.first() {
            AllocOp::AllocBytes { .. } => 1int,
            _ => 0int,
        }) + count_allocs(ops.drop_first())
    }
}

/// Number of byte-zone deallocations in the sequence.
pub open spec fn count_deallocs(ops: Seq<AllocOp>) -> int
    decreases ops.len(),
{
    if ops.len() == 0 {
        0
    } else {
        (match ops.first() {
            AllocOp::DeallocBytes => 1int,
            _ => 0int,
        }) + count_deallocs(ops.drop_first())
    }
}

/// One enabled operation keeps the state well-formed, never touches the
/// extent (`start`, `size`) or the page size, only ever moves the page
/// cursor downward, and only ever moves the byte cursor upward — except for
/// the one reset back to `start` when the byte zone is reclaimed in bulk.
pub proof fn lemma_step_preserves_inv(s: AllocState, op: AllocOp)
    requires
        s.inv(),
        op_enabled(s, op),
    ensures
        step(s, op).inv(),
        step(s, op).start == s.start,
        step(s, op).size == s.size,
        step(s, op).page_size == s.page_size,
        step(s, op).p_pos <= s.p_pos,
        step(s, op).b_pos >= s.b_pos || step(s, op).b_pos == s.start,
{
    match op {
        AllocOp::AllocBytes { size, align } => {
            lemma_pow2_pos(align);
            lemma_align_up(s.b_pos, align);
        },
        AllocOp::AllocPages { num_pages, align_pow2 } => {
            lemma_pow2_pos(align_pow2);
            lemma_pow2_pos(s.page_size);
            assert(0 <= num_pages * s.page_size) by (nonlinear_arith)
                requires
                    0 <= num_pages,
                    0 <= s.page_size,
            ;
            lemma_align_down(s.p_pos - s.pages_len(num_pages), align_pow2);
        },
        _ => {},
    }
}

/// Invariant preservation: from a well-formed state, every enabled sequence
/// of operations ends in a well-formed state, with the extent and the page
/// size untouched and the page cursor no higher than it began.
pub proof fn lemma_ops_preserve_inv(s: AllocState, ops: Seq<AllocOp>)
    requires
        s.inv(),
        ops_enabled(s, ops),
    ensures
        apply_ops(s, ops).inv(),
        apply_ops(s, ops).start == s.start,
        apply_ops(s, ops).size == s.size,
        apply_ops(s, ops).page_size == s.page_size,
        apply_ops(s, ops).p_pos <= s.p_pos,
    decreases ops.len(),
{
    if ops.len() > 0 {
        lemma_step_preserves_inv(s, ops.first());
        lemma_ops_preserve_inv(step(s, ops.first()), ops.drop_first());
    }
}

/// The outstanding-allocation counter never exceeds its start value plus the
/// byte allocations issued, less the byte deallocations issued (allocations
/// that fail with `NoMemory` do not raise it).
pub proof fn lemma_count_bound(s: AllocState, ops: Seq<AllocOp>)
    requires
        ops_enabled(s, ops),
    ensures
        apply_ops(s, ops).count <= s.count + count_allocs(ops) - count_deallocs(ops),
    decreases ops.len(),
{
    if ops.len() > 0 {
        lemma_count_bound(step(s, ops.first()), ops.drop_first());
    }
}

/// Byte-zone bulk reclaim: starting with no outstanding byte allocation, any
/// enabled history whose byte deallocations balance its byte allocations
/// ends with the byte zone empty again — the byte cursor back at `start` and
/// every byte between the cursors available.
pub proof fn lemma_bulk_reclaim(s: AllocState, ops: Seq<AllocOp>)
    requires
        s.inv(),
        ops_enabled(s, ops),
        s.count == 0,
        count_deallocs(ops) == count_allocs(ops),
    ensures
        apply_ops(s, ops).count == 0,
        apply_ops(s, ops).b_pos == s.start,
        apply_ops(s, ops).avail_bytes() == apply_ops(s, ops).p_pos - s.start,
{
    lemma_ops_preserve_inv(s, ops);
    lemma_count_bound(s, ops);
}

/// Capacity accounting for the byte zone: what is used and what is still
/// available always add up to the span from `start` to the page cursor.
pub proof fn lemma_byte_capacity_accounting(s: AllocState)
    requires
        s.inv(),
    ensures
        s.used_bytes() + s.avail_bytes() == s.p_pos - s.start,
{
}

/// Capacity accounting for the page zone, in the states where its page
/// counts add up exactly: while no allocation is outstanding in either zone,
/// used and available pages add up to the pages of the span from `start` to
/// the page cursor. (Once a page allocation has moved the cursor, the used
/// region above it holds more pages than that span, so the sum overshoots.)
pub proof fn lemma_page_capacity_accounting(s: AllocState)
    requires
        s.inv(),
        s.b_pos == s.start,
        s.p_pos == s.start + s.size,
    ensures
        s.used_pages() + s.avail_pages() == (s.p_pos - s.start) / s.page_size,
{
    lemma_pow2_pos(s.page_size);
}

} // verus!
