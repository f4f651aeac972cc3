use vonneumann::exec_alloc::{alloc_executable_memory, dealloc_executable_memory, mapped_base};
use vonneumann::{AllocError, MapReply, MapRequest, PageSize, Protection, ReleaseRequest};

fn pages_of(bytes: i64) -> PageSize {
    PageSize::new(bytes).unwrap()
}

#[test]
fn request_asks_for_read_write_execute() {
    let request = alloc_executable_memory(1, pages_of(4096)).unwrap();
    assert_eq!(request.protection, Protection { read: true, write: true, execute: true });
}

#[test]
fn request_is_anonymous_and_private() {
    let request = alloc_executable_memory(10_000, pages_of(4096)).unwrap();
    assert!(request.anonymous);
    assert!(request.private);
}

#[test]
fn request_for_one_byte_is_one_page() {
    assert_eq!(
        alloc_executable_memory(1, pages_of(4096)),
        Ok(MapRequest {
            length: 4096,
            protection: Protection { read: true, write: true, execute: true },
            anonymous: true,
            private: true,
        })
    );
}

#[test]
fn request_for_nothing_is_still_one_page() {
    assert_eq!(alloc_executable_memory(0, pages_of(4096)).map(|r| r.length), Ok(4096));
    assert_eq!(alloc_executable_memory(0, pages_of(65_536)).map(|r| r.length), Ok(65_536));
}

#[test]
fn request_of_at_most_a_page_is_exactly_a_page() {
    let page = pages_of(512);
    let mut desired: usize = 0;
    while desired <= 512 {
        assert_eq!(alloc_executable_memory(desired, page).map(|r| r.length), Ok(512));
        desired += 1;
    }
    assert_eq!(alloc_executable_memory(513, page).map(|r| r.length), Ok(1024));
}

#[test]
fn request_is_whole_pages_and_covers_the_size() {
    let page = pages_of(4096);
    for desired in [0usize, 1, 4095, 4096, 4097, 8191, 8192, 8193, 1_000_000, 123_456_789] {
        let length = alloc_executable_memory(desired, page).unwrap().length;
        assert_eq!(length % 4096, 0);
        assert!(length >= desired);
        assert!(length >= 4096);
    }
    assert_eq!(alloc_executable_memory(1_000_000, page).map(|r| r.length), Ok(1_003_520));
}

#[test]
fn request_for_the_largest_size_is_too_large() {
    assert_eq!(
        alloc_executable_memory(usize::MAX, pages_of(4096)),
        Err(AllocError::AllocationTooLarge)
    );
    assert_eq!(
        alloc_executable_memory(usize::MAX - 4094, pages_of(4096)),
        Err(AllocError::AllocationTooLarge)
    );
}

#[test]
fn request_just_below_the_limit_is_served() {
    assert_eq!(
        alloc_executable_memory(usize::MAX - 4095, pages_of(4096)).map(|r| r.length),
        Ok(usize::MAX - 4095)
    );
}

#[test]
fn denied_reply_is_an_allocation_failure() {
    assert_eq!(mapped_base(MapReply::Denied), Err(AllocError::AllocationFailed));
}

#[test]
fn null_reply_is_an_allocation_failure() {
    assert_eq!(mapped_base(MapReply::Address(0)), Err(AllocError::AllocationFailed));
}

#[test]
fn any_other_reply_is_the_base() {
    assert_eq!(mapped_base(MapReply::Address(0x1000)), Ok(0x1000));
    assert_eq!(mapped_base(MapReply::Address(1)), Ok(1));
    assert_eq!(mapped_base(MapReply::Address(usize::MAX)), Ok(usize::MAX));
}

#[test]
fn release_names_the_reservation() {
    assert_eq!(
        dealloc_executable_memory(0x4000, 8192),
        ReleaseRequest { address: 0x4000, length: 8192 }
    );
}
