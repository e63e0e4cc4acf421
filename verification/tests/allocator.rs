use alloc_adapter::allocator::get_malloc_map;
use alloc_adapter::allocator::FatalError;

#[test]
fn malloc_then_free_round_trip() {
    let mut r = get_malloc_map();
    let a = r.malloc(64);
    assert_ne!(a, 0);
    assert!(r.is_live(a));
    assert_eq!(r.block_size(a), Some(64));
    assert_eq!(r.live_count(), 1);
    assert_eq!(r.free(a), Ok(()));
    assert!(!r.is_live(a));
    assert_eq!(r.live_count(), 0);
}

#[test]
fn addresses_are_aligned_and_deterministic() {
    let mut r = get_malloc_map();
    assert_eq!(r.malloc(16), 8);
    assert_eq!(r.malloc(1), 24);
    assert_eq!(r.malloc(0), 32);
    assert_eq!(r.malloc(9), 40);
    assert_eq!(r.malloc(8), 56);
    for a in [8, 24, 32, 40, 56] {
        assert!(r.is_live(a));
        assert_eq!(a % 8, 0);
    }
    assert_eq!(r.live_count(), 5);
}

#[test]
fn malloc_zero_size_gives_valid_empty_block() {
    let mut r = get_malloc_map();
    let a = r.malloc(0);
    assert_ne!(a, 0);
    assert_eq!(r.block_size(a), Some(0));
    assert_eq!(r.read_byte(a, 0), None);
    assert_eq!(r.free(a), Ok(()));
}

#[test]
fn calloc_is_zero_initialized() {
    let mut r = get_malloc_map();
    let a = r.calloc(4, 8);
    assert_ne!(a, 0);
    assert_eq!(r.block_size(a), Some(32));
    for off in 0..32 {
        assert_eq!(r.read_byte(a, off), Some(0));
    }
}

#[test]
fn calloc_overflow_is_rejected() {
    let mut r = get_malloc_map();
    let a = r.calloc(usize::MAX, 2);
    assert_eq!(a, 0);
    assert_eq!(r.live_count(), 0);
    let b = r.calloc(usize::MAX / 2 + 1, 2);
    assert_eq!(b, 0);
    assert_eq!(r.live_count(), 0);
}

#[test]
fn calloc_zero_count_gives_valid_empty_block() {
    let mut r = get_malloc_map();
    let a = r.calloc(0, 16);
    assert_ne!(a, 0);
    assert_eq!(r.block_size(a), Some(0));
}

#[test]
fn realloc_grow_preserves_prefix() {
    let mut r = get_malloc_map();
    let a = r.malloc(8);
    for off in 0..8 {
        assert!(r.write_byte(a, off, 0xA0 + off as u8));
    }
    let b = r.realloc(a, 16).unwrap();
    assert_ne!(b, 0);
    assert!(!r.is_live(a));
    assert_eq!(r.block_size(b), Some(16));
    for off in 0..8 {
        assert_eq!(r.read_byte(b, off), Some(0xA0 + off as u8));
    }
}

#[test]
fn realloc_shrink_preserves_prefix() {
    let mut r = get_malloc_map();
    let a = r.malloc(8);
    for off in 0..8 {
        assert!(r.write_byte(a, off, 0x10 + off as u8));
    }
    let b = r.realloc(a, 3).unwrap();
    assert_eq!(r.block_size(b), Some(3));
    for off in 0..3 {
        assert_eq!(r.read_byte(b, off), Some(0x10 + off as u8));
    }
    assert_eq!(r.read_byte(b, 3), None);
}

#[test]
fn realloc_null_behaves_like_malloc() {
    let mut via_realloc = get_malloc_map();
    let mut via_malloc = get_malloc_map();
    let a = via_realloc.realloc(0, 32).unwrap();
    let b = via_malloc.malloc(32);
    assert_eq!(a, b);
    assert_eq!(via_realloc.block_size(a), via_malloc.block_size(b));
    assert_eq!(via_realloc.live_count(), via_malloc.live_count());
    assert_eq!(via_realloc.free(a), Ok(()));
    assert_eq!(via_malloc.free(b), Ok(()));
    assert_eq!(via_realloc.live_count(), 0);
    assert_eq!(via_malloc.live_count(), 0);
}

#[test]
fn realloc_to_zero_size_gives_valid_empty_block() {
    let mut r = get_malloc_map();
    let a = r.malloc(24);
    let b = r.realloc(a, 0).unwrap();
    assert_ne!(b, 0);
    assert!(!r.is_live(a));
    assert_eq!(r.block_size(b), Some(0));
    assert_eq!(r.free(b), Ok(()));
}

#[test]
fn free_null_is_a_noop() {
    let mut r = get_malloc_map();
    assert_eq!(r.free(0), Ok(()));
    let a = r.malloc(4);
    assert_eq!(r.free(0), Ok(()));
    assert_eq!(r.live_count(), 1);
    assert!(r.is_live(a));
}

#[test]
fn double_free_is_fatal() {
    let mut r = get_malloc_map();
    let a = r.malloc(16);
    assert_eq!(r.free(a), Ok(()));
    assert_eq!(r.free(a), Err(FatalError::UnknownAddress));
    assert_eq!(r.live_count(), 0);
}

#[test]
fn free_of_foreign_address_is_fatal() {
    let mut r = get_malloc_map();
    let _ = r.malloc(16);
    assert_eq!(r.free(12345), Err(FatalError::UnknownAddress));
    assert_eq!(r.live_count(), 1);
}

#[test]
fn realloc_of_foreign_address_is_fatal() {
    let mut r = get_malloc_map();
    let _ = r.malloc(16);
    assert_eq!(r.realloc(12345, 4), Err(FatalError::UnknownAddress));
    assert_eq!(r.live_count(), 1);
}

#[test]
fn interleaved_calls_keep_addresses_unique_and_counted() {
    let mut r = get_malloc_map();
    let mut live: Vec<usize> = Vec::new();
    for i in 0..10 {
        live.push(r.malloc(i * 3));
    }
    for _ in 0..5 {
        let a = live.remove(0);
        assert_eq!(r.free(a), Ok(()));
    }
    for i in 0..10 {
        live.push(r.calloc(i, 2));
    }
    assert_eq!(r.live_count(), live.len());
    for (i, a) in live.iter().enumerate() {
        assert_ne!(*a, 0);
        assert!(r.is_live(*a));
        for b in live[i + 1..].iter() {
            assert_ne!(*a, *b);
        }
    }
}

#[test]
fn write_byte_refuses_out_of_bounds_and_dead_addresses() {
    let mut r = get_malloc_map();
    let a = r.malloc(4);
    assert!(r.write_byte(a, 3, 1));
    assert!(!r.write_byte(a, 4, 1));
    assert_eq!(r.free(a), Ok(()));
    assert!(!r.write_byte(a, 0, 1));
    assert_eq!(r.read_byte(a, 0), None);
}
