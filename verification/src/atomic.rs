//! Validation for lock-free atomic word views into a mapping.
//!
//! An atomic view bypasses the mutual-exclusion discipline of a read-write
//! mapping: it is sanctioned only at an offset that satisfies the word's
//! natural alignment and whose words fit within the current length.  This
//! module verifies exactly that check; materializing the word reference
//! itself is platform work outside this crate.  Never mixing atomic and
//! non-atomic access to the same bytes concurrently remains the caller's
//! documented obligation — nothing the type system enforces.

use vstd::prelude::*;
use vstd::arithmetic::div_mod::lemma_fundamental_div_mod;

use crate::errors::MmapIoError;
use crate::mmap::MemoryMappedFile;

verus! {

/// Does a run of `count` words of `word_size` bytes at `offset` satisfy the
/// word's natural alignment and fit within `total` bytes?
pub open spec fn atomic_access_ok(offset: u64, word_size: u64, count: u64, total: u64) -> bool {
    offset % word_size == 0 && offset + word_size * count <= total
}

/// The byte length a run of `count` words of `word_size` bytes is reported
/// with, stopping at the largest `u64`.
pub open spec fn atomic_span_bytes(word_size: u64, count: u64) -> u64 {
    if word_size * count > u64::MAX {
        u64::MAX
    } else {
        (word_size * count) as u64
    }
}

impl MemoryMappedFile {
    /// Validate an atomic view of `count` words of `word_size` bytes
    /// (4 or 8) at `offset`: alignment is checked first, then bounds
    /// against the current length.  On success the offset comes back as a
    /// slice position.
    pub fn check_atomic_access(&self, offset: u64, word_size: u64, count: u64) -> (r: Result<
        usize,
        MmapIoError,
    >)
        requires
            self.wf(),
            word_size == 4 || word_size == 8,
        ensures
            r is Ok <==> atomic_access_ok(offset, word_size, count, self.cached_len),
            r is Ok ==> r == Ok::<usize, MmapIoError>(offset as usize),
            offset % word_size != 0 ==> r == Err::<usize, MmapIoError>(
                MmapIoError::Misaligned { required: word_size, offset },
            ),
            offset % word_size == 0 && offset + word_size * count > self.cached_len ==> r == Err::<
                usize,
                MmapIoError,
            >(
                MmapIoError::OutOfBounds {
                    offset,
                    len: atomic_span_bytes(word_size, count),
                    total: self.cached_len,
                },
            ),
    {
        if offset % word_size != 0 {
            return Err(MmapIoError::Misaligned { required: word_size, offset });
        }
        if count > u64::MAX / word_size {
            proof {
                lemma_fundamental_div_mod(u64::MAX as int, word_size as int);
                assert((word_size as int) * (count as int) >= (word_size as int) * ((u64::MAX
                    / word_size) as int + 1)) by (nonlinear_arith)
                    requires
                        count >= u64::MAX / word_size + 1,
                        word_size > 0,
                ;
            }
            return Err(
                MmapIoError::OutOfBounds { offset, len: u64::MAX, total: self.cached_len },
            );
        }
        proof {
            lemma_fundamental_div_mod(u64::MAX as int, word_size as int);
            assert((word_size as int) * (count as int) <= (word_size as int) * ((u64::MAX
                / word_size) as int)) by (nonlinear_arith)
                requires
                    count <= u64::MAX / word_size,
                    word_size > 0,
            ;
        }
        let span = word_size * count;
        if offset > self.cached_len || span > self.cached_len - offset {
            return Err(MmapIoError::OutOfBounds { offset, len: span, total: self.cached_len });
        }
        Ok(offset as usize)
    }
}

} // verus!
