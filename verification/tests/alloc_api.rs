use vonneumann::{AllocError, ExecutableAllocator, MapRequest, PageSize, Protection, ReleaseRequest};

fn allocator(page: i64) -> ExecutableAllocator {
    ExecutableAllocator::new(PageSize::new(page).unwrap())
}

#[test]
fn allocator_keeps_its_page_size() {
    assert_eq!(allocator(4096).page_size().get(), 4096);
    assert_eq!(allocator(65_536).page_size().get(), 65_536);
}

#[test]
fn allocate_plans_whole_pages() {
    assert_eq!(
        allocator(4096).allocate(2, 1),
        Ok(MapRequest {
            length: 4096,
            protection: Protection { read: true, write: true, execute: true },
            anonymous: true,
            private: true,
        })
    );
    assert_eq!(allocator(4096).allocate(4097, 8).map(|r| r.length), Ok(8192));
    assert_eq!(allocator(4096).allocate(0, 1).map(|r| r.length), Ok(4096));
}

#[test]
fn allocate_accepts_an_alignment_of_one_page() {
    assert_eq!(allocator(4096).allocate(16, 4096).map(|r| r.length), Ok(4096));
}

#[test]
fn allocate_refuses_an_alignment_above_the_page_size() {
    assert_eq!(allocator(4096).allocate(16, 8192), Err(AllocError::ContractViolation));
    assert_eq!(allocator(4096).allocate(16, 4097), Err(AllocError::ContractViolation));
    assert_eq!(allocator(4096).allocate(0, usize::MAX), Err(AllocError::ContractViolation));
}

#[test]
fn allocate_judges_the_alignment_before_the_size() {
    assert_eq!(allocator(4096).allocate(usize::MAX, 8192), Err(AllocError::ContractViolation));
    assert_eq!(allocator(4096).allocate(usize::MAX, 8), Err(AllocError::AllocationTooLarge));
}

#[test]
fn deallocate_names_the_length_that_allocate_reserved() {
    let allocator = allocator(4096);
    for size in [0usize, 1, 2, 4095, 4096, 4097, 10_000, 1 << 20] {
        let reserved = allocator.allocate(size, 8).unwrap();
        assert_eq!(
            allocator.deallocate(0x7000, size, 8),
            Ok(ReleaseRequest { address: 0x7000, length: reserved.length })
        );
    }
    assert_eq!(
        allocator.deallocate(0x7000, 10_000, 8),
        Ok(ReleaseRequest { address: 0x7000, length: 12_288 })
    );
}

#[test]
fn deallocate_ignores_the_alignment() {
    let allocator = allocator(4096);
    assert_eq!(allocator.deallocate(0x7000, 100, 1), allocator.deallocate(0x7000, 100, 1 << 20));
}

#[test]
fn deallocate_of_a_size_never_reserved_is_too_large() {
    assert_eq!(
        allocator(4096).deallocate(0x7000, usize::MAX, 1),
        Err(AllocError::AllocationTooLarge)
    );
}

#[test]
fn grow_keeps_the_old_contents() {
    let old_block: Vec<u8> = (0..4096u32).map(|i| (i % 253) as u8).collect();
    let mut new_block = vec![0xee_u8; 8192];
    assert_eq!(allocator(4096).grow(&old_block, &mut new_block), Ok(()));
    assert_eq!(new_block[..4096], old_block[..]);
    assert!(new_block[4096..].iter().all(|&byte| byte == 0xee));
}

#[test]
fn grow_to_the_same_size_copies_everything() {
    let old_block = [1u8, 2, 3, 4];
    let mut new_block = [0u8; 4];
    assert_eq!(allocator(4096).grow(&old_block, &mut new_block), Ok(()));
    assert_eq!(new_block, old_block);
}

#[test]
fn grow_into_a_shorter_block_is_refused() {
    let old_block = [1u8, 2, 3, 4];
    let mut new_block = [9u8; 3];
    assert_eq!(
        allocator(4096).grow(&old_block, &mut new_block),
        Err(AllocError::ContractViolation)
    );
    assert_eq!(new_block, [9, 9, 9]);
}
