//! Memory advice: access-pattern hints for the operating system.
//!
//! Advice is purely advisory — it never affects correctness, and the OS may
//! ignore it.  The range an advice call covers goes through the same
//! bounds discipline as every access
//! (see [`crate::mmap::MemoryMappedFile::hint_span`]); issuing the hint
//! itself is platform work outside this crate.

use vstd::prelude::*;

verus! {

/// Memory access pattern advice for the OS.
#[derive(Debug, Clone, Copy, PartialEq, Eq)]
pub enum MmapAdvice {
    /// Normal access pattern (default).
    Normal,
    /// Random access pattern.
    Random,
    /// Sequential access pattern.
    Sequential,
    /// Will need this range soon.
    WillNeed,
    /// Won't need this range soon.
    DontNeed,
}

} // verus!
