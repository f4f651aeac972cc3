//! A verified core for handing out readable, writable and executable memory.

pub mod alloc_api;
pub mod error;
pub mod exec_alloc;
pub mod memory;
pub mod page;

pub use alloc_api::ExecutableAllocator;
pub use error::AllocError;
pub use exec_alloc::{MapReply, MapRequest, Protection, ReleaseRequest};
pub use memory::ExecutableMemory;
pub use page::{round_to, PageSize};
