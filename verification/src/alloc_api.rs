//! The allocator by which a growable buffer keeps its storage in executable
//! memory: it answers requests by size and alignment with the reservation
//! and release calls to make.

use vstd::prelude::*;
use crate::error::AllocError;
use crate::exec_alloc::{
    alloc_executable_memory, dealloc_executable_memory, map_request, reserved_size, MapRequest,
    ReleaseRequest,
};
use crate::memory::copy_to_front;
use crate::page::PageSize;

verus! {

/// How a request for `size` bytes at alignment `align` is answered: an
/// alignment coarser than a page is a breach of contract, judged before
/// anything else; a size that cannot be rounded is too large; every other
/// request gets its reservation call.
pub open spec fn allocation(size: int, align: int, page_size: int) -> Result<MapRequest, AllocError>
    recommends
        size >= 0,
        page_size > 0,
{
    if align > page_size {
        Err(AllocError::ContractViolation)
    } else if reserved_size(size, page_size) > usize::MAX {
        Err(AllocError::AllocationTooLarge)
    } else {
        Ok(map_request(size, page_size))
    }
}

/// How a block of `size` bytes at `address` is given back: with the number
/// of bytes that was reserved for that size.
pub open spec fn deallocation(address: usize, size: int, page_size: int) -> Result<
    ReleaseRequest,
    AllocError,
>
    recommends
        size >= 0,
        page_size > 0,
{
    if reserved_size(size, page_size) > usize::MAX {
        Err(AllocError::AllocationTooLarge)
    } else {
        Ok(ReleaseRequest { address, length: reserved_size(size, page_size) as usize })
    }
}

/// A block is released with exactly the length it was reserved with:
/// whenever a request was answered with a reservation call, giving back a
/// block of the same size names the same number of bytes.
pub proof fn lemma_release_matches_reservation(
    address: usize,
    size: int,
    align: int,
    page_size: int,
)
    requires
        size >= 0,
        page_size > 0,
        allocation(size, align, page_size) is Ok,
    ensures
        deallocation(address, size, page_size) == Ok::<ReleaseRequest, AllocError>(
            ReleaseRequest { address, length: allocation(size, align, page_size)->Ok_0.length },
        ),
{
}

/// An allocator that maps whole pages, readable, writable and executable.
#[derive(Clone, Copy, Debug)]
pub struct ExecutableAllocator {
    page_size: PageSize,
}

impl ExecutableAllocator {
    /// The page size that this allocator rounds to.
    pub closed spec fn spec_page_size(&self) -> int {
        self.page_size@
    }

    /// An allocator for a system with pages of `page_size` bytes.
    pub fn new(page_size: PageSize) -> (allocator: Self)
        ensures
            allocator.spec_page_size() == page_size@,
    {
        ExecutableAllocator { page_size }
    }

    /// The page size that this allocator rounds to.
    pub fn page_size(&self) -> (page_size: PageSize)
        ensures
            page_size@ == self.spec_page_size(),
    {
        self.page_size
    }

    /// Plans the reservation for a block of `size` bytes aligned to `align`.
    ///
    /// Memory from this allocator is aligned to pages and to nothing
    /// coarser, so an alignment above the page size is refused with
    /// `ContractViolation`.
    pub fn allocate(&self, size: usize, align: usize) -> (request: Result<MapRequest, AllocError>)
        ensures
            request == allocation(size as int, align as int, self.spec_page_size()),
    {
        if align > self.page_size.get() {
            return Err(AllocError::ContractViolation);
        }
        alloc_executable_memory(size, self.page_size)
    }

    /// Plans the release of the block of `size` bytes at `address`: the
    /// length is recomputed from `size` by the rounding that `allocate`
    /// applied, so that release and reservation agree. The alignment plays
    /// no part.
    pub fn deallocate(&self, address: usize, size: usize, align: usize) -> (request: Result<
        ReleaseRequest,
        AllocError,
    >)
        ensures
            request == deallocation(address, size as int, self.spec_page_size()),
    {
        match alloc_executable_memory(size, self.page_size) {
            Ok(reserved) => Ok(dealloc_executable_memory(address, reserved.length)),
            Err(e) => Err(e),
        }
    }

    /// Moves the contents of a block into the larger block that replaces
    /// it. Nothing is resized in place: growing is a new reservation, this
    /// copy, and the release of the old block.
    ///
    /// A replacement shorter than the old block is refused with
    /// `ContractViolation`, and nothing is copied.
    pub fn grow(&self, old_block: &[u8], new_block: &mut [u8]) -> (moved: Result<(), AllocError>)
        ensures
            match moved {
                Ok(_) => {
                    &&& old_block@.len() <= old(new_block)@.len()
                    &&& final(new_block)@ == old_block@ + old(new_block)@.subrange(
                        old_block@.len() as int,
                        old(new_block)@.len() as int,
                    )
                },
                Err(e) => {
                    &&& e == AllocError::ContractViolation
                    &&& old_block@.len() > old(new_block)@.len()
                    &&& final(new_block)@ == old(new_block)@
                },
            },
    {
        if old_block.len() > new_block.len() {
            return Err(AllocError::ContractViolation);
        }
        copy_to_front(new_block, old_block);
        Ok(())
    }
}

} // verus!
