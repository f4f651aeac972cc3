//! What to ask of the operating system for a block of executable memory, and
//! what to make of its answer. The calls themselves are made by the caller:
//! this module decides their arguments and reads their results.

use vstd::prelude::*;
use vstd::arithmetic::div_mod::{lemma_mod_pos_bound, lemma_mod_self_0, lemma_small_mod};
use crate::error::AllocError;
use crate::page::{
    is_page_multiple, lemma_round_up_bounds, lemma_round_up_within_first_page, round_to, round_up,
    PageSize,
};

verus! {

/// The access rights of a mapping.
#[derive(Clone, Copy, Debug, PartialEq, Eq, Structural)]
pub struct Protection {
    pub read: bool,
    pub write: bool,
    pub execute: bool,
}

/// The arguments of one reservation call: so many bytes of fresh memory,
/// backed by no file and shared with no other process.
#[derive(Clone, Copy, Debug, PartialEq, Eq, Structural)]
pub struct MapRequest {
    /// Bytes to reserve: a whole number of pages, and at least one.
    pub length: usize,
    /// Rights to reserve them with.
    pub protection: Protection,
    /// The mapping is backed by no file.
    pub anonymous: bool,
    /// The mapping is visible to this process alone.
    pub private: bool,
}

/// What the operating system answered to a reservation call.
#[derive(Clone, Copy, Debug, PartialEq, Eq, Structural)]
pub enum MapReply {
    /// The call reported failure.
    Denied,
    /// The call returned this address.
    Address(usize),
}

/// The arguments of one release call.
#[derive(Clone, Copy, Debug, PartialEq, Eq, Structural)]
pub struct ReleaseRequest {
    /// Where the reservation starts.
    pub address: usize,
    /// How many bytes were reserved there.
    pub length: usize,
}

/// Read, write and execute, all at once.
pub open spec fn read_write_execute() -> Protection {
    Protection { read: true, write: true, execute: true }
}

/// The number of bytes reserved for a request of `desired` bytes: `desired`
/// rounded up to whole pages, and one page for an empty request.
pub open spec fn reserved_size(desired: int, page_size: int) -> int
    recommends
        desired >= 0,
        page_size > 0,
{
    if desired == 0 {
        page_size
    } else {
        round_up(desired, page_size)
    }
}

/// The reservation call that serves a request of `desired` bytes.
pub open spec fn map_request(desired: int, page_size: int) -> MapRequest
    recommends
        0 <= reserved_size(desired, page_size) <= usize::MAX,
{
    MapRequest {
        length: reserved_size(desired, page_size) as usize,
        protection: read_write_execute(),
        anonymous: true,
        private: true,
    }
}

/// The base address that a reply stands for, if it stands for one: a denied
/// call gives none, and neither does the null address.
pub open spec fn reply_base(reply: MapReply) -> Option<usize> {
    match reply {
        MapReply::Denied => None,
        MapReply::Address(address) => if address == 0 {
            None
        } else {
            Some(address)
        },
    }
}

/// Every request of at most one page reserves exactly one page.
pub proof fn lemma_small_request_reserves_one_page(desired: int, page_size: int)
    requires
        0 <= desired <= page_size,
        page_size > 0,
    ensures
        reserved_size(desired, page_size) == page_size,
{
    if desired > 0 {
        lemma_round_up_within_first_page(desired, page_size);
    }
}

/// A reservation is a whole number of pages, at least one, and covers the
/// request with less than a page to spare beyond the first.
pub proof fn lemma_reserved_size_covers_request(desired: int, page_size: int)
    requires
        desired >= 0,
        page_size > 0,
    ensures
        is_page_multiple(reserved_size(desired, page_size), page_size),
        reserved_size(desired, page_size) >= desired,
        reserved_size(desired, page_size) >= page_size,
        reserved_size(desired, page_size) < desired + page_size || desired == 0,
{
    lemma_mod_self_0(page_size);
    lemma_round_up_bounds(desired, page_size);
    if desired > 0 {
        let r = round_up(desired, page_size);
        if r < page_size {
            lemma_small_mod(r as nat, page_size as nat);
        }
    }
}

/// The largest size there is cannot be reserved, unless the page size
/// happens to divide it: rounding it up would pass the end of `usize`.
pub proof fn lemma_largest_request_is_too_large(page_size: int)
    requires
        page_size > 0,
        (usize::MAX as int) % page_size != 0,
    ensures
        reserved_size(usize::MAX as int, page_size) > usize::MAX,
{
    lemma_mod_pos_bound(usize::MAX as int, page_size);
}

/// Plans the reservation for `desired` bytes: whole pages, readable,
/// writable and executable, anonymous and private.
///
/// Fails with `AllocationTooLarge` exactly when the page-rounded size does
/// not fit in a `usize`.
pub fn alloc_executable_memory(desired: usize, page_size: PageSize) -> (request: Result<
    MapRequest,
    AllocError,
>)
    ensures
        match request {
            Ok(req) => reserved_size(desired as int, page_size@) <= usize::MAX
                && req == map_request(desired as int, page_size@),
            Err(e) => e == AllocError::AllocationTooLarge
                && reserved_size(desired as int, page_size@) > usize::MAX,
        },
        request is Ok ==> is_page_multiple(request->Ok_0.length as int, page_size@),
        request is Ok ==> request->Ok_0.length >= desired,
        request is Ok && desired <= page_size@ ==> request->Ok_0.length == page_size@,
{
    let page: usize = page_size.get();
    proof {
        lemma_reserved_size_covers_request(desired as int, page_size@);
        if desired <= page {
            lemma_small_request_reserves_one_page(desired as int, page_size@);
        }
    }
    let length: usize = if desired == 0 {
        page
    } else {
        match round_to(desired, page) {
            Ok(n) => n,
            Err(e) => {
                return Err(e);
            },
        }
    };
    Ok(
        MapRequest {
            length,
            protection: Protection { read: true, write: true, execute: true },
            anonymous: true,
            private: true,
        },
    )
}

/// Reads the answer to a reservation call.
///
/// Fails with `AllocationFailed` when the call was denied, and also when it
/// returned the null address: no block is ever handed out at address zero.
pub fn mapped_base(reply: MapReply) -> (base: Result<usize, AllocError>)
    ensures
        match base {
            Ok(address) => reply_base(reply) == Some(address),
            Err(e) => e == AllocError::AllocationFailed && reply_base(reply) is None,
        },
{
    match reply {
        MapReply::Denied => Err(AllocError::AllocationFailed),
        MapReply::Address(address) => {
            if address == 0 {
                Err(AllocError::AllocationFailed)
            } else {
                Ok(address)
            }
        },
    }
}

/// Plans the release of a reservation: exactly the bytes that were
/// reserved, from the address where they were reserved.
pub fn dealloc_executable_memory(address: usize, capacity: usize) -> (request: ReleaseRequest)
    ensures
        request == (ReleaseRequest { address, length: capacity }),
{
    ReleaseRequest { address, length: capacity }
}

} // verus!
