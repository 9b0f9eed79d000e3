//! Concrete end-to-end scenarios for the dual-region early allocator.

use bump_allocator::{AllocError, EarlyAllocator};

const PAGE_SIZE: usize = 0x1000;

fn fresh() -> EarlyAllocator<PAGE_SIZE> {
    let mut a = EarlyAllocator::new();
    a.init(0x1000, 0x2000);
    a
}

#[test]
fn init_reports_whole_extent() {
    let a = fresh();
    assert_eq!(a.total_bytes(), 0x2000);
    assert_eq!(a.used_bytes(), 0);
    assert_eq!(a.available_bytes(), 0x2000);
    assert_eq!(a.total_pages(), 2);
    assert_eq!(a.used_pages(), 0);
    assert_eq!(a.available_pages(), 2);
}

#[test]
fn first_byte_alloc_starts_at_extent_base() {
    let mut a = fresh();
    assert_eq!(a.alloc_bytes(0x10, 0x10), Ok(0x1000));
    assert_eq!(a.used_bytes(), 0x10);
}

#[test]
fn page_alloc_moves_zone_boundary_down() {
    let mut a = fresh();
    assert_eq!(a.alloc_bytes(0x10, 0x10), Ok(0x1000));
    // One page comes off the high end: the boundary drops from 0x3000 to
    // 0x2000, so 0x2000 - 0x1010 bytes remain between the zones.
    assert_eq!(a.alloc_pages(1, 0x1000), Ok(0x2000));
    assert_eq!(a.available_bytes(), 0xff0);
    assert_eq!(a.used_pages(), 1);
    assert_eq!(a.available_pages(), 0);
}

#[test]
fn byte_alloc_colliding_with_page_zone_fails_unchanged() {
    let mut a = fresh();
    assert_eq!(a.alloc_bytes(0x10, 0x10), Ok(0x1000));
    assert_eq!(a.alloc_pages(1, 0x1000), Ok(0x2000));
    // 0x1010 + 0x1000 would end above the page cursor at 0x2000.
    assert_eq!(a.alloc_bytes(0x1000, 1), Err(AllocError::NoMemory));
    assert_eq!(a.used_bytes(), 0x10);
    assert_eq!(a.available_bytes(), 0xff0);
    assert_eq!(a.used_pages(), 1);
}

#[test]
fn byte_zone_resets_only_when_count_returns_to_zero() {
    let mut a = fresh();
    assert_eq!(a.alloc_bytes(0x10, 1), Ok(0x1000));
    assert_eq!(a.alloc_bytes(0x10, 1), Ok(0x1010));
    a.dealloc_bytes(0x1000, 0x10, 1);
    // One allocation is still outstanding: the cursor must not move.
    assert_eq!(a.used_bytes(), 0x20);
    a.dealloc_bytes(0x1010, 0x10, 1);
    // The counter reached zero: the whole byte zone is reclaimed at once.
    assert_eq!(a.used_bytes(), 0);
    assert_eq!(a.available_bytes(), 0x2000);
}
