//! Verified core of a memory-mapped file library.
//!
//! The crate models one open mapping as a typed value with three access
//! modes (read-only, read-write, copy-on-write), enforces bounds and
//! alignment on every access, drives a configurable write-durability
//! policy, and supports resizing the mapping while it is live.  The
//! operating-system mapping itself is held behind a small set of trusted
//! declarations over `memmap2`; everything that decides — bounds checks,
//! mode dispatch, flush accounting, the resize protocol — is verified.

pub mod advise;
pub mod atomic;
pub mod decimal;
pub mod errors;
pub mod flush;
pub mod iterator;
pub mod manager;
pub mod mmap;
pub mod segment;
pub mod utils;
pub mod watch;

pub use errors::MmapIoError;
pub use manager::{flush, update_region};
pub use mmap::{MemoryMappedFile, MmapMode};
