//! Page arithmetic: rounding sizes up to the granularity of the operating
//! system's virtual memory.

use vstd::prelude::*;
use vstd::arithmetic::div_mod::{
    lemma_fundamental_div_mod, lemma_mod_multiples_basic, lemma_mod_self_0, lemma_small_mod,
};
use crate::error::AllocError;

verus! {

/// `n` is a whole number of pages.
pub open spec fn is_page_multiple(n: int, page_size: int) -> bool
    recommends
        page_size > 0,
{
    n % page_size == 0
}

/// `desired` rounded up to the next multiple of `page_size`; a multiple is
/// left as it is.
pub open spec fn round_up(desired: int, page_size: int) -> int
    recommends
        desired >= 0,
        page_size > 0,
{
    let rem = desired % page_size;
    if rem == 0 {
        desired
    } else {
        desired - rem + page_size
    }
}

/// `round_up` gives a multiple of the page size that is at least `desired`
/// and less than one page above it.
pub proof fn lemma_round_up_bounds(desired: int, page_size: int)
    requires
        desired >= 0,
        page_size > 0,
    ensures
        is_page_multiple(round_up(desired, page_size), page_size),
        desired <= round_up(desired, page_size) < desired + page_size,
{
    let rem = desired % page_size;
    lemma_fundamental_div_mod(desired, page_size);
    if rem != 0 {
        let q = desired / page_size;
        assert(desired - rem + page_size == (q + 1) * page_size) by (nonlinear_arith)
            requires
                desired == page_size * q + rem,
        ;
        lemma_mod_multiples_basic(q + 1, page_size);
    }
}

/// No multiple of the page size lies between `desired` and its rounding:
/// `round_up` is the smallest multiple that is at least `desired`.
pub proof fn lemma_round_up_is_least(desired: int, page_size: int, other: int)
    requires
        desired >= 0,
        page_size > 0,
        is_page_multiple(other, page_size),
        other >= desired,
    ensures
        round_up(desired, page_size) <= other,
{
    let rem = desired % page_size;
    if rem != 0 {
        let q = desired / page_size;
        let k = other / page_size;
        lemma_fundamental_div_mod(desired, page_size);
        lemma_fundamental_div_mod(other, page_size);
        assert(k > q) by (nonlinear_arith)
            requires
                page_size > 0,
                0 < rem,
                desired == page_size * q + rem,
                other == page_size * k,
                other >= desired,
        ;
        assert(page_size * k >= page_size * (q + 1)) by (nonlinear_arith)
            requires
                page_size > 0,
                k >= q + 1,
        ;
        assert(page_size * (q + 1) == desired - rem + page_size) by (nonlinear_arith)
            requires
                desired == page_size * q + rem,
        ;
    }
}

/// Rounding is idempotent: a rounded size is its own rounding.
pub proof fn lemma_round_up_idempotent(desired: int, page_size: int)
    requires
        desired >= 0,
        page_size > 0,
    ensures
        round_up(round_up(desired, page_size), page_size) == round_up(desired, page_size),
{
    lemma_round_up_bounds(desired, page_size);
}

/// A size of at most one page rounds to exactly one page, unless it is zero.
pub proof fn lemma_round_up_within_first_page(desired: int, page_size: int)
    requires
        0 < desired <= page_size,
    ensures
        round_up(desired, page_size) == page_size,
{
    if desired < page_size {
        lemma_small_mod(desired as nat, page_size as nat);
    } else {
        lemma_mod_self_0(page_size);
    }
}

/// Rounds `desired` up to the nearest multiple of `page_size`.
///
/// Fails with `AllocationTooLarge` exactly when that multiple does not fit in
/// a `usize`; the sum is never allowed to wrap.
pub fn round_to(desired: usize, page_size: usize) -> (rounded: Result<usize, AllocError>)
    requires
        page_size > 0,
    ensures
        match rounded {
            Ok(n) => n == round_up(desired as int, page_size as int),
            Err(e) => e == AllocError::AllocationTooLarge
                && round_up(desired as int, page_size as int) > usize::MAX,
        },
{
    let rem: usize = desired % page_size;
    if rem == 0 {
        Ok(desired)
    } else {
        match desired.checked_add(page_size - rem) {
            Some(n) => Ok(n),
            None => Err(AllocError::AllocationTooLarge),
        }
    }
}

/// The granularity at which the operating system maps memory: a positive
/// number of bytes.
#[derive(Clone, Copy, Debug)]
pub struct PageSize {
    bytes: usize,
}

impl View for PageSize {
    type V = int;

    closed spec fn view(&self) -> int {
        self.bytes as int
    }
}

impl PageSize {
    /// A page holds at least one byte.
    #[verifier::type_invariant]
    pub open spec fn positive(self) -> bool {
        self@ > 0
    }

    /// Accepts the figure that the operating system reported for its page
    /// size or allocation granularity. A figure that is not positive, such
    /// as the `-1` by which a failed query answers, or one that no `usize`
    /// holds, is no page size.
    pub fn new(reported: i64) -> (page: Option<PageSize>)
        ensures
            page is Some <==> 0 < reported <= usize::MAX,
            page is Some ==> page->0@ == reported,
    {
        match usize::try_from(reported) {
            Ok(bytes) => {
                if bytes > 0 {
                    Some(PageSize { bytes })
                } else {
                    None
                }
            },
            Err(_) => None,
        }
    }

    /// The page size in bytes.
    pub fn get(&self) -> (bytes: usize)
        ensures
            bytes == self@,
            bytes > 0,
    {
        proof {
            use_type_invariant(self);
        }
        self.bytes
    }
}

} // verus!
