//! The owning handle over one reservation of executable memory.

use vstd::prelude::*;
use crate::error::AllocError;
use crate::exec_alloc::{
    alloc_executable_memory, dealloc_executable_memory, mapped_base, reply_base, reserved_size,
    MapReply, ReleaseRequest,
};
use crate::page::{is_page_multiple, PageSize};

verus! {

/// The first `n` bytes of `mem`, for writing.
///
/// This is the standard library's `IndexMut::index_mut` of a slice by a
/// `RangeTo<usize>`, written `&mut mem[..n]`. It is believed, not proved:
/// the call hands out that prefix and leaves the bytes behind it alone, it
/// panics only when `n` exceeds the length, and a slice keeps its length
/// however it is written through.
#[verifier::external_body]
fn prefix_mut<'b>(mem: &'b mut [u8], n: usize) -> (head: &'b mut [u8])
    requires
        n <= old(mem)@.len(),
    ensures
        head@ == old(mem)@.subrange(0, n as int),
        final(head)@.len() == n,
        final(mem)@ == final(head)@ + old(mem)@.subrange(n as int, old(mem)@.len() as int),
    no_unwind
{
    &mut mem[..n]
}

/// Why a reservation of `mapped` bytes, obtained with `reply`, cannot serve
/// a request of `desired` bytes; `None` when it can.
///
/// The size is judged first and the reply second. What is left is to hold
/// the reservation against the request: it must start on a page boundary
/// and be exactly as long as was asked for, and one that is not was not
/// made for this request.
pub open spec fn adoption_error(desired: int, page_size: int, reply: MapReply, mapped: int) -> Option<
    AllocError,
> {
    if reserved_size(desired, page_size) > usize::MAX {
        Some(AllocError::AllocationTooLarge)
    } else if reply_base(reply) is None {
        Some(AllocError::AllocationFailed)
    } else if !is_page_multiple(reply_base(reply)->0 as int, page_size)
        || mapped != reserved_size(desired, page_size) {
        Some(AllocError::ContractViolation)
    } else {
        None
    }
}

/// Copies `src` over the start of `dst` and leaves the rest of `dst` alone.
pub(crate) fn copy_to_front(dst: &mut [u8], src: &[u8])
    requires
        src@.len() <= old(dst)@.len(),
    ensures
        final(dst)@ == src@ + old(dst)@.subrange(src@.len() as int, old(dst)@.len() as int),
{
    let n: usize = src.len();
    let mut i: usize = 0;
    while i < n
        invariant
            n == src@.len(),
            i <= n <= dst@.len(),
            dst@.len() == old(dst)@.len(),
            forall|j: int| 0 <= j < i ==> dst@[j] == src@[j],
            forall|j: int| i <= j < dst@.len() ==> dst@[j] == old(dst)@[j],
        decreases n - i,
    {
        dst[i] = src[i];
        i += 1;
    }
}

/// One reservation of executable memory and the part of it that is in use.
///
/// The handle is the only way to the bytes, and it cannot be copied: giving
/// it up with [`ExecutableMemory::release`] is the one way to the release
/// call, so no reservation is released twice.
#[derive(Debug)]
pub struct ExecutableMemory<'a> {
    /// Where the operating system placed the reservation.
    base: usize,
    /// Every byte of the reservation.
    mem: &'a mut [u8],
    /// How many bytes, from the start, are in use.
    len: usize,
    /// The page size that the reservation was made with.
    page_size: PageSize,
}

impl<'a> View for ExecutableMemory<'a> {
    type V = Seq<u8>;

    /// The bytes in use.
    closed spec fn view(&self) -> Seq<u8> {
        self.mem@.subrange(0, self.len as int)
    }
}

/// Two regions are equal when they start at the same address and have the
/// same number of bytes in use. How much is reserved plays no part.
impl<'a> PartialEq for ExecutableMemory<'a> {
    fn eq(&self, other: &Self) -> (equal: bool) {
        self.base == other.base && self.len == other.len
    }
}

impl<'a> Eq for ExecutableMemory<'a> {

}

impl<'a> vstd::std_specs::cmp::PartialEqSpecImpl for ExecutableMemory<'a> {
    open spec fn obeys_eq_spec() -> bool {
        true
    }

    open spec fn eq_spec(&self, other: &Self) -> bool {
        self.spec_as_ptr() == other.spec_as_ptr() && self.spec_len() == other.spec_len()
    }
}

impl<'a> ExecutableMemory<'a> {
    #[verifier::type_invariant]
    spec fn well_formed(&self) -> bool {
        &&& self.len <= self.mem@.len()
        &&& self.base != 0
        &&& self.page_size@ > 0
        &&& is_page_multiple(self.base as int, self.page_size@)
        &&& is_page_multiple(self.mem@.len() as int, self.page_size@)
        &&& self.mem@.len() >= self.page_size@
    }

    /// The address of the first byte.
    pub closed spec fn spec_as_ptr(&self) -> usize {
        self.base
    }

    /// The number of bytes in use.
    pub closed spec fn spec_len(&self) -> usize {
        self.len
    }

    /// The number of bytes reserved.
    pub closed spec fn spec_capacity(&self) -> nat {
        self.mem@.len()
    }

    /// The page size that the reservation was made with.
    pub closed spec fn spec_page_size(&self) -> int {
        self.page_size@
    }

    /// Takes charge of a fresh reservation made for `desired_size` bytes.
    ///
    /// `reply` is what the operating system answered to the reservation
    /// call, and `mem` the bytes it reserved. The whole reservation counts
    /// as in use.
    pub fn new(desired_size: usize, page_size: PageSize, reply: MapReply, mem: &'a mut [u8]) -> (region:
        Result<Self, AllocError>)
        ensures
            match region {
                Ok(r) => {
                    &&& adoption_error(
                        desired_size as int,
                        page_size@,
                        reply,
                        old(mem)@.len() as int,
                    ) is None
                    &&& Some(r.spec_as_ptr()) == reply_base(reply)
                    &&& r.spec_capacity() == reserved_size(desired_size as int, page_size@)
                    &&& r.spec_len() == r.spec_capacity()
                    &&& r@ == old(mem)@
                    &&& r.spec_page_size() == page_size@
                    &&& is_page_multiple(r.spec_as_ptr() as int, page_size@)
                    &&& is_page_multiple(r.spec_capacity() as int, page_size@)
                    &&& r.spec_capacity() >= desired_size
                    &&& desired_size <= page_size@ ==> r.spec_capacity() == page_size@
                },
                Err(e) => {
                    &&& adoption_error(
                        desired_size as int,
                        page_size@,
                        reply,
                        old(mem)@.len() as int,
                    ) == Some(e)
                    &&& final(mem)@ == old(mem)@
                },
            },
    {
        proof {
            use_type_invariant(page_size);
        }
        let request = match alloc_executable_memory(desired_size, page_size) {
            Ok(request) => request,
            Err(e) => {
                return Err(e);
            },
        };
        let base = match mapped_base(reply) {
            Ok(base) => base,
            Err(e) => {
                return Err(e);
            },
        };
        if base % page_size.get() != 0 || mem.len() != request.length {
            return Err(AllocError::ContractViolation);
        }
        let len: usize = mem.len();
        assert(mem@.subrange(0, len as int) =~= mem@);
        Ok(ExecutableMemory { base, mem, len, page_size })
    }

    /// Takes charge of a fresh reservation made for `data` and copies `data`
    /// to its start. Only the copy counts as in use.
    pub fn with_contents(data: &[u8], page_size: PageSize, reply: MapReply, mem: &'a mut [u8]) -> (region:
        Result<Self, AllocError>)
        ensures
            match region {
                Ok(r) => {
                    &&& adoption_error(
                        data@.len() as int,
                        page_size@,
                        reply,
                        old(mem)@.len() as int,
                    ) is None
                    &&& Some(r.spec_as_ptr()) == reply_base(reply)
                    &&& r.spec_capacity() == reserved_size(data@.len() as int, page_size@)
                    &&& r.spec_len() == data@.len()
                    &&& r@ == data@
                    &&& r.spec_page_size() == page_size@
                    &&& is_page_multiple(r.spec_as_ptr() as int, page_size@)
                    &&& is_page_multiple(r.spec_capacity() as int, page_size@)
                    &&& r.spec_capacity() >= data@.len()
                    &&& data@.len() <= page_size@ ==> r.spec_capacity() == page_size@
                },
                Err(e) => {
                    &&& adoption_error(
                        data@.len() as int,
                        page_size@,
                        reply,
                        old(mem)@.len() as int,
                    ) == Some(e)
                    &&& final(mem)@ == old(mem)@
                },
            },
    {
        proof {
            use_type_invariant(page_size);
        }
        let request = match alloc_executable_memory(data.len(), page_size) {
            Ok(request) => request,
            Err(e) => {
                return Err(e);
            },
        };
        let base = match mapped_base(reply) {
            Ok(base) => base,
            Err(e) => {
                return Err(e);
            },
        };
        if base % page_size.get() != 0 || mem.len() != request.length {
            return Err(AllocError::ContractViolation);
        }
        copy_to_front(mem, data);
        Ok(ExecutableMemory { base, mem, len: data.len(), page_size })
    }

    /// The address of the first byte of the reservation.
    #[verifier::when_used_as_spec(spec_as_ptr)]
    pub fn as_ptr(&self) -> (address: usize)
        ensures
            address == self.spec_as_ptr(),
            address != 0,
            is_page_multiple(address as int, self.spec_page_size()),
    {
        proof {
            use_type_invariant(self);
        }
        self.base
    }

    /// The number of bytes in use.
    #[verifier::when_used_as_spec(spec_len)]
    pub fn len(&self) -> (len: usize)
        ensures
            len == self.spec_len(),
            len == self@.len(),
            len <= self.spec_capacity(),
    {
        proof {
            use_type_invariant(self);
        }
        self.len
    }

    /// Whether no byte is in use.
    pub fn is_empty(&self) -> (empty: bool)
        ensures
            empty <==> self@.len() == 0,
    {
        proof {
            use_type_invariant(self);
        }
        self.len == 0
    }

    /// The number of bytes reserved, in use or not.
    pub fn capacity(&self) -> (capacity: usize)
        ensures
            capacity == self.spec_capacity(),
            capacity >= self.spec_len(),
            capacity >= self.spec_page_size(),
            is_page_multiple(capacity as int, self.spec_page_size()),
    {
        proof {
            use_type_invariant(self);
        }
        self.mem.len()
    }

    /// The page size that the reservation was made with.
    pub fn page_size(&self) -> (page_size: PageSize)
        ensures
            page_size@ == self.spec_page_size(),
    {
        self.page_size
    }

    /// The bytes in use, for reading.
    pub fn as_slice(&self) -> (bytes: &[u8])
        ensures
            bytes@ == self@,
    {
        proof {
            use_type_invariant(self);
        }
        &self.mem[0..self.len]
    }

    /// The bytes in use, for writing. Whatever is written through the slice
    /// is what the region then holds; its address, its length and its
    /// capacity stay.
    pub fn as_slice_mut(&mut self) -> (bytes: &mut [u8])
        ensures
            bytes@ == old(self)@,
            final(self)@ == final(bytes)@,
            final(self).spec_as_ptr() == old(self).spec_as_ptr(),
            final(self).spec_len() == old(self).spec_len(),
            final(self).spec_capacity() == old(self).spec_capacity(),
            final(self).spec_page_size() == old(self).spec_page_size(),
    {
        proof {
            use_type_invariant(&*self);
        }
        prefix_mut(self.mem, self.len)
    }

    /// Gives the region up. The answer is the release call that returns
    /// the reservation to the operating system: every reserved byte, from
    /// the address where the reservation was made.
    pub fn release(self) -> (request: ReleaseRequest)
        ensures
            request.address == self.spec_as_ptr(),
            request.length == self.spec_capacity(),
    {
        dealloc_executable_memory(self.base, self.mem.len())
    }
}

} // verus!
