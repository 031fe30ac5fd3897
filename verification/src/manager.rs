//! Convenience functions over the mapping core, mirroring its contracts.

use vstd::prelude::*;

use crate::errors::MmapIoError;
use crate::flush::{acc_after_write, policy_triggers};
use crate::mmap::{splice_bytes, MemoryMappedFile, MmapMode};
use crate::utils::range_in_bounds;

verus! {

/// Update a region in an existing mapping (read-write only): the
/// free-function form of
/// [`update_region`](MemoryMappedFile::update_region).
pub fn update_region(mmap: &mut MemoryMappedFile, offset: u64, data: &[u8]) -> (r: Result<
    (),
    MmapIoError,
>)
    requires
        old(mmap).wf(),
    ensures
        final(mmap).wf(),
        final(mmap).same_config(old(mmap)),
        final(mmap).cached_len == old(mmap).cached_len,
        final(mmap).mode_spec() == old(mmap).mode_spec(),
        data@.len() == 0 ==> r is Ok && *final(mmap) == *old(mmap),
        data@.len() > 0 && old(mmap).mode_spec() != MmapMode::ReadWrite ==> (r matches Err(
            MmapIoError::InvalidMode(_),
        )) && *final(mmap) == *old(mmap),
        data@.len() > 0 && old(mmap).mode_spec() == MmapMode::ReadWrite && !range_in_bounds(
            offset,
            data@.len() as u64,
            old(mmap).cached_len,
        ) ==> r == Err::<(), MmapIoError>(
            MmapIoError::OutOfBounds {
                offset,
                len: data@.len() as u64,
                total: old(mmap).cached_len,
            },
        ) && *final(mmap) == *old(mmap),
        data@.len() > 0 && old(mmap).mode_spec() == MmapMode::ReadWrite && range_in_bounds(
            offset,
            data@.len() as u64,
            old(mmap).cached_len,
        ) ==> final(mmap).bytes() == splice_bytes(old(mmap).bytes(), offset as int, data@) && ({
            let a = acc_after_write(
                old(mmap).flush_policy,
                old(mmap).written_since_last_flush,
                data@.len() as u64,
            );
            if policy_triggers(old(mmap).flush_policy, a) {
                (r is Ok && final(mmap).written_since_last_flush == 0) || (r matches Err(
                    MmapIoError::FlushFailed(_),
                ) && final(mmap).written_since_last_flush == a)
            } else {
                r is Ok && final(mmap).written_since_last_flush == a
            }
        }),
{
    mmap.update_region(offset, data)
}

/// Flush changes for an existing mapping: the free-function form of
/// [`flush`](MemoryMappedFile::flush).
pub fn flush(mmap: &mut MemoryMappedFile) -> (r: Result<(), MmapIoError>)
    requires
        old(mmap).wf(),
    ensures
        final(mmap).wf(),
        final(mmap).same_config(old(mmap)),
        final(mmap).map == old(mmap).map,
        final(mmap).cached_len == old(mmap).cached_len,
        old(mmap).mode_spec() != MmapMode::ReadWrite ==> r is Ok && *final(mmap) == *old(mmap),
        old(mmap).written_since_last_flush == 0 ==> r is Ok && *final(mmap) == *old(mmap),
        old(mmap).mode_spec() == MmapMode::ReadWrite && old(mmap).written_since_last_flush > 0
            ==> ((r is Ok && final(mmap).written_since_last_flush == 0) || (r matches Err(
            MmapIoError::FlushFailed(_),
        ) && final(mmap).written_since_last_flush == old(mmap).written_since_last_flush)),
{
    mmap.flush()
}

} // verus!
