use vstd::prelude::*;

verus! {

/// Why a request for executable memory was turned down.
#[derive(Clone, Copy, Debug, PartialEq, Eq, Structural)]
pub enum AllocError {
    /// The requested size cannot be rounded up to whole pages without
    /// exceeding the largest representable size.
    AllocationTooLarge,
    /// The operating system declined the mapping.
    AllocationFailed,
    /// The caller broke a rule of the interface, for instance by asking for
    /// an alignment coarser than a page.
    ContractViolation,
}

} // verus!
