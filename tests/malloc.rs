use rtt_rust::malloc::{non_null, rt_safe_free, rt_safe_malloc, AllocStep, FreeStep, ReallocStep, RttAlloc};

#[test]
fn zero_size_allocation_is_null_without_kernel_call() {
    assert_eq!(RttAlloc.allocate(0, 4), AllocStep::Null);
    assert_eq!(RttAlloc.allocate(0, 64), AllocStep::Null);
}

#[test]
fn small_alignment_takes_plain_path() {
    assert_eq!(RttAlloc.allocate(16, 1), AllocStep::Plain { size: 16 });
    assert_eq!(RttAlloc.allocate(16, 8), AllocStep::Plain { size: 16 });
}

#[test]
fn large_alignment_takes_aligned_path() {
    assert_eq!(RttAlloc.allocate(100, 16), AllocStep::Aligned { size: 100, align: 16 });
    assert_eq!(RttAlloc.allocate(1, 4096), AllocStep::Aligned { size: 1, align: 4096 });
}

#[test]
fn dealloc_follows_the_alignment() {
    assert_eq!(RttAlloc.dealloc(0, 8), FreeStep::Nothing);
    assert_eq!(RttAlloc.dealloc(0x100, 8), FreeStep::Plain { ptr: 0x100 });
    assert_eq!(RttAlloc.dealloc(0x100, 32), FreeStep::Aligned { ptr: 0x100 });
}

#[test]
fn realloc_to_zero_frees() {
    assert_eq!(RttAlloc.realloc(0x200, 10, 8, 0), ReallocStep::Free(FreeStep::Plain { ptr: 0x200 }));
    assert_eq!(RttAlloc.realloc(0x200, 10, 64, 0), ReallocStep::Free(FreeStep::Aligned { ptr: 0x200 }));
}

#[test]
fn realloc_of_null_allocates() {
    assert_eq!(RttAlloc.realloc(0, 0, 8, 24), ReallocStep::Alloc(AllocStep::Plain { size: 24 }));
    assert_eq!(RttAlloc.realloc(0, 0, 16, 24), ReallocStep::Alloc(AllocStep::Aligned { size: 24, align: 16 }));
}

#[test]
fn aligned_realloc_moves_the_common_prefix() {
    assert_eq!(
        RttAlloc.realloc(0x300, 40, 16, 100),
        ReallocStep::Move { ptr: 0x300, size: 100, align: 16, copy_len: 40 }
    );
    assert_eq!(
        RttAlloc.realloc(0x300, 40, 16, 10),
        ReallocStep::Move { ptr: 0x300, size: 10, align: 16, copy_len: 10 }
    );
}

#[test]
fn plain_realloc_resizes_in_kernel() {
    assert_eq!(RttAlloc.realloc(0x400, 40, 4, 80), ReallocStep::Resize { ptr: 0x400, size: 80 });
}

#[test]
fn checked_malloc_and_free() {
    assert_eq!(rt_safe_malloc(0, 0x500), None);
    assert_eq!(rt_safe_malloc(8, 0), None);
    assert_eq!(rt_safe_malloc(8, 0x500), Some(0x500));
    assert!(!rt_safe_free(0));
    assert!(rt_safe_free(0x500));
    assert_eq!(non_null(0), None);
    assert_eq!(non_null(7), Some(7));
}
