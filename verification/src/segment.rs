//! Segment views into a memory-mapped file: an offset/length window
//! validated once at construction, delegating every access to the owner.
//!
//! A segment does not pin the owner against a later resize: a window valid
//! at construction can legitimately fail on a later access if the owner has
//! since shrunk below it — observably, never silently
//! (see [`lemma_segment_outlives_shrink`]).  Accessors therefore take the
//! owning mapping, which also leaves the owner free to be resized between
//! accesses.

use vstd::prelude::*;

use crate::errors::MmapIoError;
use crate::flush::{acc_after_write, policy_triggers};
use crate::mmap::{MemoryMappedFile, MmapMode, splice_bytes};
use crate::utils::range_in_bounds;

verus! {

/// Immutable view into a region of a memory-mapped file.
#[derive(Debug, Clone, Copy, PartialEq, Eq)]
pub struct Segment {
    /// Offset of the window in the file.
    pub offset: u64,
    /// Length of the window.
    pub len: u64,
}

impl Segment {
    /// The window's offset in the file.
    pub open spec fn offset_spec(&self) -> u64 {
        self.offset
    }

    /// The window's length.
    pub open spec fn len_spec(&self) -> u64 {
        self.len
    }

    /// Create a new immutable segment view, bounds-checked once against the
    /// owner's length at this moment.
    pub fn new(parent: &MemoryMappedFile, offset: u64, len: u64) -> (r: Result<
        Segment,
        MmapIoError,
    >)
        requires
            parent.wf(),
        ensures
            r is Ok <==> range_in_bounds(offset, len, parent.cached_len),
            r matches Ok(s) ==> s.offset_spec() == offset && s.len_spec() == len,
            r is Err ==> r == Err::<Segment, MmapIoError>(
                MmapIoError::OutOfBounds { offset, len, total: parent.cached_len },
            ),
    {
        match crate::utils::ensure_in_bounds(offset, len, parent.cached_len) {
            Ok(()) => Ok(Segment { offset, len }),
            Err(e) => Err(e),
        }
    }

    /// The segment as a read-only byte slice of its owner.  The window is
    /// re-checked against the owner's current length: an owner that shrank
    /// below the window since construction makes this fail, out loud.
    pub fn as_slice<'a>(&self, parent: &'a MemoryMappedFile) -> (r: Result<&'a [u8], MmapIoError>)
        requires
            parent.wf(),
        ensures
            r is Ok <==> range_in_bounds(self.offset_spec(), self.len_spec(), parent.cached_len)
                && parent.mode_spec() != MmapMode::ReadWrite,
            r matches Ok(s) ==> s@ == parent.bytes().subrange(
                self.offset_spec() as int,
                self.offset_spec() + self.len_spec(),
            ),
            !range_in_bounds(self.offset_spec(), self.len_spec(), parent.cached_len) ==> r
                == Err::<&[u8], MmapIoError>(
                MmapIoError::OutOfBounds {
                    offset: self.offset_spec(),
                    len: self.len_spec(),
                    total: parent.cached_len,
                },
            ),
    {
        parent.as_slice(self.offset, self.len)
    }

    /// Read the segment's bytes from its owner into `buf`, which is resized
    /// to the window's length.  Works for every mode, re-checking the window
    /// against the owner's current length.
    pub fn read(&self, parent: &MemoryMappedFile, buf: &mut Vec<u8>) -> (r: Result<(), MmapIoError>)
        requires
            parent.wf(),
        ensures
            r is Ok <==> range_in_bounds(self.offset_spec(), self.len_spec(), parent.cached_len),
            r is Ok ==> final(buf)@ == parent.bytes().subrange(
                self.offset_spec() as int,
                self.offset_spec() + self.len_spec(),
            ),
            r is Err ==> final(buf)@ == old(buf)@ && r == Err::<(), MmapIoError>(
                MmapIoError::OutOfBounds {
                    offset: self.offset_spec(),
                    len: self.len_spec(),
                    total: parent.cached_len,
                },
            ),
    {
        match crate::utils::ensure_in_bounds(self.offset, self.len, parent.cached_len) {
            Err(e) => {
                return Err(e);
            },
            Ok(()) => {},
        }
        let mut data: Vec<u8> = Vec::new();
        data.resize(self.len as usize, 0u8);
        match parent.read_into(self.offset, &mut data) {
            Ok(()) => {
                *buf = data;
                Ok(())
            },
            Err(e) => Err(e),
        }
    }

    /// Length of the segment.
    pub fn len(&self) -> (r: u64)
        ensures
            r == self.len_spec(),
    {
        self.len
    }

    /// Whether the segment is empty.
    pub fn is_empty(&self) -> (r: bool)
        ensures
            r == (self.len_spec() == 0),
    {
        self.len == 0
    }

    /// Offset of the segment in the file.
    pub fn offset(&self) -> (r: u64)
        ensures
            r == self.offset_spec(),
    {
        self.offset
    }
}

/// Mutable view into a region of a memory-mapped file.  Mutable access goes
/// through the owner on demand; nothing is held between calls.
#[derive(Debug, Clone, Copy, PartialEq, Eq)]
pub struct SegmentMut {
    /// Offset of the window in the file.
    pub offset: u64,
    /// Length of the window.
    pub len: u64,
}

impl SegmentMut {
    /// The window's offset in the file.
    pub open spec fn offset_spec(&self) -> u64 {
        self.offset
    }

    /// The window's length.
    pub open spec fn len_spec(&self) -> u64 {
        self.len
    }

    /// Create a new mutable segment view, bounds-checked once against the
    /// owner's length at this moment.
    pub fn new(parent: &MemoryMappedFile, offset: u64, len: u64) -> (r: Result<
        SegmentMut,
        MmapIoError,
    >)
        requires
            parent.wf(),
        ensures
            r is Ok <==> range_in_bounds(offset, len, parent.cached_len),
            r matches Ok(s) ==> s.offset_spec() == offset && s.len_spec() == len,
            r is Err ==> r == Err::<SegmentMut, MmapIoError>(
                MmapIoError::OutOfBounds { offset, len, total: parent.cached_len },
            ),
    {
        match crate::utils::ensure_in_bounds(offset, len, parent.cached_len) {
            Ok(()) => Ok(SegmentMut { offset, len }),
            Err(e) => Err(e),
        }
    }

    /// Write bytes into this segment of the owner, starting at the window's
    /// offset.  Delegates to the owner's bounds-checked write, so the flush
    /// policy applies as for any other write; `data` shorter or longer than
    /// the window is simply written at the offset and checked against the
    /// owner's current length.
    pub fn write(&self, parent: &mut MemoryMappedFile, data: &[u8]) -> (r: Result<(), MmapIoError>)
        requires
            old(parent).wf(),
        ensures
            final(parent).wf(),
            final(parent).same_config(old(parent)),
            final(parent).cached_len == old(parent).cached_len,
            final(parent).mode_spec() == old(parent).mode_spec(),
            data@.len() > 0 && old(parent).mode_spec() == MmapMode::ReadWrite && range_in_bounds(
                self.offset_spec(),
                data@.len() as u64,
                old(parent).cached_len,
            ) ==> final(parent).bytes() == splice_bytes(
                old(parent).bytes(),
                self.offset_spec() as int,
                data@,
            ) && ({
                let a = acc_after_write(
                    old(parent).flush_policy,
                    old(parent).written_since_last_flush,
                    data@.len() as u64,
                );
                if policy_triggers(old(parent).flush_policy, a) {
                    (r is Ok && final(parent).written_since_last_flush == 0) || (r matches Err(
                        MmapIoError::FlushFailed(_),
                    ) && final(parent).written_since_last_flush == a)
                } else {
                    r is Ok && final(parent).written_since_last_flush == a
                }
            }),
            data@.len() == 0 ==> r is Ok && *final(parent) == *old(parent),
            data@.len() > 0 && old(parent).mode_spec() != MmapMode::ReadWrite ==> (r matches Err(
                MmapIoError::InvalidMode(_),
            )) && *final(parent) == *old(parent),
            data@.len() > 0 && old(parent).mode_spec() == MmapMode::ReadWrite && !range_in_bounds(
                self.offset_spec(),
                data@.len() as u64,
                old(parent).cached_len,
            ) ==> r == Err::<(), MmapIoError>(
                MmapIoError::OutOfBounds {
                    offset: self.offset_spec(),
                    len: data@.len() as u64,
                    total: old(parent).cached_len,
                },
            ) && *final(parent) == *old(parent),
    {
        parent.update_region(self.offset, data)
    }

    /// Length of the segment.
    pub fn len(&self) -> (r: u64)
        ensures
            r == self.len_spec(),
    {
        self.len
    }

    /// Whether the segment is empty.
    pub fn is_empty(&self) -> (r: bool)
        ensures
            r == (self.len_spec() == 0),
    {
        self.len == 0
    }

    /// Offset of the segment in the file.
    pub fn offset(&self) -> (r: u64)
        ensures
            r == self.offset_spec(),
    {
        self.offset
    }
}

/// Law: a segment window that exceeds the owner's length fails at
/// construction, and one constructed validly — `offset + len` within the
/// length at that time — still fails on a later access once the owner has
/// shrunk below the window: validation at construction and on access are
/// both against the owner's length at that moment.
pub proof fn lemma_segment_outlives_shrink(
    offset: u64,
    len: u64,
    total_at_construction: u64,
    total_after_shrink: u64,
)
    requires
        offset + len <= total_at_construction,
        total_after_shrink < offset + len,
    ensures
        range_in_bounds(offset, len, total_at_construction),
        !range_in_bounds(offset, len, total_after_shrink),
{
}

} // verus!
