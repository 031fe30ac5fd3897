//! Cursor-based access for sequential processing of a mapped file in
//! fixed-size chunks.
//!
//! Each cursor snapshots the owner's length at construction and walks
//! `[0, total)` in `chunk_size` steps, the final chunk possibly shorter.
//! The snapshot is not re-queried per step, so an owner that shrank
//! meanwhile makes a later step fail out loud, like any other stale access.

use vstd::prelude::*;
use vstd::arithmetic::div_mod::lemma_fundamental_div_mod;

use crate::errors::MmapIoError;
use crate::mmap::MemoryMappedFile;
use crate::utils::range_in_bounds;

verus! {

/// The length of the chunk that starts at `cur` in a snapshot of `total`
/// bytes walked in `size`-byte steps.
pub open spec fn chunk_len_spec(cur: u64, total: u64, size: usize) -> u64 {
    if total - cur < size as int {
        (total - cur) as u64
    } else {
        size as u64
    }
}

/// The number of `size`-byte chunks that cover `remaining` bytes.
pub open spec fn chunk_count_spec(remaining: u64, size: usize) -> int {
    if remaining % (size as u64) == 0 {
        remaining as int / (size as int)
    } else {
        remaining as int / (size as int) + 1
    }
}

/// Iterator over fixed-size chunks of a memory-mapped file, yielding owned
/// byte vectors.  Lazy, finite, and not restartable.
#[derive(Debug, Clone, Copy, PartialEq, Eq)]
pub struct ChunkIterator {
    /// Size of each chunk in bytes; the final chunk may be shorter.
    pub chunk_size: usize,
    /// Offset the next chunk starts at.
    pub current_offset: u64,
    /// Length snapshot taken at construction.
    pub total_len: u64,
}

impl ChunkIterator {
    /// Create a new chunk cursor over the owner's current length.
    pub fn new(parent: &MemoryMappedFile, chunk_size: usize) -> (r: ChunkIterator)
        requires
            parent.wf(),
            chunk_size > 0,
        ensures
            r.chunk_size == chunk_size,
            r.current_offset == 0,
            r.total_len == parent.cached_len,
    {
        ChunkIterator { chunk_size, current_offset: 0, total_len: parent.cached_len }
    }

    /// Produce the next chunk of the owner, or `None` once the snapshot is
    /// exhausted.  A chunk that no longer fits the owner's current length
    /// (the owner shrank since construction) comes back as an error.
    pub fn next_chunk(&mut self, parent: &MemoryMappedFile) -> (r: Option<
        Result<Vec<u8>, MmapIoError>,
    >)
        requires
            parent.wf(),
            old(self).chunk_size > 0,
        ensures
            final(self).chunk_size == old(self).chunk_size,
            final(self).total_len == old(self).total_len,
            old(self).current_offset >= old(self).total_len ==> r is None
                && *final(self) == *old(self),
            old(self).current_offset < old(self).total_len ==> ({
                let cur = old(self).current_offset;
                let clen = chunk_len_spec(cur, old(self).total_len, old(self).chunk_size);
                if range_in_bounds(cur, clen, parent.cached_len) {
                    &&& r matches Some(c)
                    &&& c matches Ok(v)
                    &&& v@ == parent.bytes().subrange(cur as int, cur + clen)
                    &&& final(self).current_offset == cur + clen
                } else {
                    &&& r == Some(
                        Err::<Vec<u8>, MmapIoError>(
                            MmapIoError::OutOfBounds {
                                offset: cur,
                                len: clen,
                                total: parent.cached_len,
                            },
                        ),
                    )
                    &&& final(self).current_offset == cur
                }
            }),
    {
        if self.current_offset >= self.total_len {
            return None;
        }
        let remaining = self.total_len - self.current_offset;
        let chunk_len = if remaining < self.chunk_size as u64 {
            remaining
        } else {
            self.chunk_size as u64
        };
        let mut buf: Vec<u8> = Vec::new();
        buf.resize(chunk_len as usize, 0u8);
        match parent.read_into(self.current_offset, &mut buf) {
            Ok(()) => {
                self.current_offset = self.current_offset + chunk_len;
                Some(Ok(buf))
            },
            Err(e) => Some(Err(e)),
        }
    }

    /// How many chunks remain: exact, so the lower and upper bounds agree.
    pub fn size_hint(&self) -> (r: (usize, Option<usize>))
        requires
            self.chunk_size > 0,
            self.total_len <= usize::MAX,
        ensures
            ({
                let remaining = if self.current_offset >= self.total_len {
                    0u64
                } else {
                    (self.total_len - self.current_offset) as u64
                };
                r.0 == chunk_count_spec(remaining, self.chunk_size) && r.1 == Some(r.0)
            }),
    {
        let remaining = if self.current_offset >= self.total_len {
            0u64
        } else {
            self.total_len - self.current_offset
        };
        let size = self.chunk_size as u64;
        let q = remaining / size;
        let chunks = if remaining % size != 0 {
            proof {
                lemma_fundamental_div_mod(remaining as int, size as int);
                assert(size != 1);
                assert(2 * (q as int) <= (q as int) * (size as int)) by (nonlinear_arith)
                    requires
                        size >= 2,
                        q >= 0,
                ;
            }
            q + 1
        } else {
            q
        };
        ((chunks as usize), Some(chunks as usize))
    }
}

/// Iterator over page-sized chunks of a memory-mapped file: a chunk cursor
/// whose step is the operating system's page size, which the caller queries
/// and passes in.
#[derive(Debug, Clone, Copy, PartialEq, Eq)]
pub struct PageIterator {
    /// The underlying chunk cursor, stepping one page at a time.
    pub inner: ChunkIterator,
}

impl PageIterator {
    /// Create a new page cursor; `page_size` is the OS allocation
    /// granularity.
    pub fn new(parent: &MemoryMappedFile, page_size: usize) -> (r: PageIterator)
        requires
            parent.wf(),
            page_size > 0,
        ensures
            r.inner.chunk_size == page_size,
            r.inner.current_offset == 0,
            r.inner.total_len == parent.cached_len,
    {
        PageIterator { inner: ChunkIterator::new(parent, page_size) }
    }

    /// Produce the next page-sized chunk, or `None` once exhausted.
    pub fn next_chunk(&mut self, parent: &MemoryMappedFile) -> (r: Option<
        Result<Vec<u8>, MmapIoError>,
    >)
        requires
            parent.wf(),
            old(self).inner.chunk_size > 0,
        ensures
            final(self).inner.chunk_size == old(self).inner.chunk_size,
            final(self).inner.total_len == old(self).inner.total_len,
            old(self).inner.current_offset >= old(self).inner.total_len ==> r is None
                && *final(self) == *old(self),
            old(self).inner.current_offset < old(self).inner.total_len ==> ({
                let cur = old(self).inner.current_offset;
                let clen = chunk_len_spec(
                    cur,
                    old(self).inner.total_len,
                    old(self).inner.chunk_size,
                );
                if range_in_bounds(cur, clen, parent.cached_len) {
                    &&& r matches Some(c)
                    &&& c matches Ok(v)
                    &&& v@ == parent.bytes().subrange(cur as int, cur + clen)
                    &&& final(self).inner.current_offset == cur + clen
                } else {
                    &&& r == Some(
                        Err::<Vec<u8>, MmapIoError>(
                            MmapIoError::OutOfBounds {
                                offset: cur,
                                len: clen,
                                total: parent.cached_len,
                            },
                        ),
                    )
                    &&& final(self).inner.current_offset == cur
                }
            }),
    {
        self.inner.next_chunk(parent)
    }

    /// How many pages remain: exact, so the lower and upper bounds agree.
    pub fn size_hint(&self) -> (r: (usize, Option<usize>))
        requires
            self.inner.chunk_size > 0,
            self.inner.total_len <= usize::MAX,
        ensures
            ({
                let remaining = if self.inner.current_offset >= self.inner.total_len {
                    0u64
                } else {
                    (self.inner.total_len - self.inner.current_offset) as u64
                };
                r.0 == chunk_count_spec(remaining, self.inner.chunk_size) && r.1 == Some(r.0)
            }),
    {
        self.inner.size_hint()
    }
}

/// Mutable chunk cursor: because handing out overlapping mutable borrows
/// across iterations would alias, it only yields the offset/length of each
/// chunk; the caller performs each mutation through the owner's
/// bounds-checked write path and releases it before advancing.
#[derive(Debug, Clone, Copy, PartialEq, Eq)]
pub struct ChunkIteratorMut {
    /// Size of each chunk in bytes; the final chunk may be shorter.
    pub chunk_size: usize,
    /// Offset the next chunk starts at.
    pub current_offset: u64,
    /// Length snapshot taken at construction.
    pub total_len: u64,
}

impl ChunkIteratorMut {
    /// Create a new mutable chunk cursor over the owner's current length.
    pub fn new(parent: &MemoryMappedFile, chunk_size: usize) -> (r: ChunkIteratorMut)
        requires
            parent.wf(),
            chunk_size > 0,
        ensures
            r.chunk_size == chunk_size,
            r.current_offset == 0,
            r.total_len == parent.cached_len,
    {
        ChunkIteratorMut { chunk_size, current_offset: 0, total_len: parent.cached_len }
    }

    /// The next chunk's offset and length, or `None` once the snapshot is
    /// exhausted.
    pub fn next_range(&mut self) -> (r: Option<(u64, u64)>)
        requires
            old(self).chunk_size > 0,
        ensures
            final(self).chunk_size == old(self).chunk_size,
            final(self).total_len == old(self).total_len,
            old(self).current_offset >= old(self).total_len ==> r is None
                && *final(self) == *old(self),
            old(self).current_offset < old(self).total_len ==> ({
                let cur = old(self).current_offset;
                let clen = chunk_len_spec(cur, old(self).total_len, old(self).chunk_size);
                r == Some((cur, clen)) && final(self).current_offset == cur + clen
            }),
    {
        if self.current_offset >= self.total_len {
            return None;
        }
        let remaining = self.total_len - self.current_offset;
        let chunk_len = if remaining < self.chunk_size as u64 {
            remaining
        } else {
            self.chunk_size as u64
        };
        let cur = self.current_offset;
        self.current_offset = cur + chunk_len;
        Some((cur, chunk_len))
    }
}

impl MemoryMappedFile {
    /// An iterator over fixed-size chunks of the file, each an owned byte
    /// vector.
    pub fn chunks(&self, chunk_size: usize) -> (r: ChunkIterator)
        requires
            self.wf(),
            chunk_size > 0,
        ensures
            r.chunk_size == chunk_size,
            r.current_offset == 0,
            r.total_len == self.cached_len,
    {
        ChunkIterator::new(self, chunk_size)
    }

    /// An iterator over page-sized chunks of the file; `page_size` is the
    /// OS allocation granularity, which the caller queries.
    pub fn pages(&self, page_size: usize) -> (r: PageIterator)
        requires
            self.wf(),
            page_size > 0,
        ensures
            r.inner.chunk_size == page_size,
            r.inner.current_offset == 0,
            r.inner.total_len == self.cached_len,
    {
        PageIterator::new(self, page_size)
    }

    /// A mutable chunk cursor over the file, yielding chunk ranges for the
    /// caller to write through the bounds-checked write path.
    pub fn chunks_mut(&self, chunk_size: usize) -> (r: ChunkIteratorMut)
        requires
            self.wf(),
            chunk_size > 0,
        ensures
            r.chunk_size == chunk_size,
            r.current_offset == 0,
            r.total_len == self.cached_len,
    {
        ChunkIteratorMut::new(self, chunk_size)
    }
}

} // verus!
