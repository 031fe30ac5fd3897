//! The mapping core: one open memory-mapped file with a mode-dependent
//! mutation contract, cached length, flush accounting, and a remap-on-resize
//! protocol.
//!
//! The operating-system mapping is a `memmap2` value held opaquely; its
//! contents are named by the uninterpreted functions [`ro_bytes`] and
//! [`rw_bytes`], and the few trusted wrappers below state over those names
//! exactly what `memmap2`'s safe accessors do.  Establishing a mapping needs
//! a file handle and an `unsafe` call, so construction happens outside this
//! crate and the finished mapping value is handed in; everything that
//! decides — bounds checks, mode dispatch, flush accounting, resizing — is
//! verified here.

use vstd::prelude::*;
use vstd::slice::slice_to_vec;
use vstd::string::StringExecFns;

use crate::decimal::{dec_digits, u64_to_string};
use crate::errors::MmapIoError;
use crate::flush::{acc_after_write, policy_triggers, record_write, FlushPolicy};
use crate::utils::{ensure_in_bounds, range_in_bounds};

verus! {

/// Access mode for a memory-mapped file.
#[derive(Debug, Clone, Copy, PartialEq, Eq)]
pub enum MmapMode {
    /// Read-only mapping.
    ReadOnly,
    /// Read-write mapping.
    ReadWrite,
    /// Copy-on-write (private) mapping.  All mutation through this variant
    /// is rejected for now, even though the OS primitive would allow
    /// private writes; this is a deliberate restriction.
    CopyOnWrite,
}

#[verifier::external_type_specification]
#[verifier::external_body]
pub struct ExMmap(memmap2::Mmap);

#[verifier::external_type_specification]
#[verifier::external_body]
pub struct ExMmapMut(memmap2::MmapMut);

/// The bytes of an immutable mapping.
pub uninterp spec fn ro_bytes(m: memmap2::Mmap) -> Seq<u8>;

/// The bytes of a mutable mapping.
pub uninterp spec fn rw_bytes(m: memmap2::MmapMut) -> Seq<u8>;

/// Relies on `memmap2::Mmap`'s `Deref` to `[u8]` and `[u8]::len`:
/// the length of the mapped region.
#[verifier::external_body]
fn ro_len(m: &memmap2::Mmap) -> (r: usize)
    ensures
        r == ro_bytes(*m).len(),
{
    m.len()
}

/// Relies on `memmap2::MmapMut`'s `Deref` to `[u8]` and `[u8]::len`:
/// the length of the mapped region.
#[verifier::external_body]
fn rw_len(m: &memmap2::MmapMut) -> (r: usize)
    ensures
        r == rw_bytes(*m).len(),
{
    m.len()
}

/// Relies on `memmap2::Mmap`'s `Deref` to `[u8]` and range indexing:
/// the bytes `[start, end)` of the mapped region.
#[verifier::external_body]
fn ro_slice<'a>(m: &'a memmap2::Mmap, start: usize, end: usize) -> (r: &'a [u8])
    requires
        start <= end <= ro_bytes(*m).len(),
    ensures
        r@ == ro_bytes(*m).subrange(start as int, end as int),
{
    &m[start..end]
}

/// Relies on `memmap2::MmapMut`'s `Deref` to `[u8]` and range indexing:
/// the bytes `[start, end)` of the mapped region.
#[verifier::external_body]
fn rw_slice<'a>(m: &'a memmap2::MmapMut, start: usize, end: usize) -> (r: &'a [u8])
    requires
        start <= end <= rw_bytes(*m).len(),
    ensures
        r@ == rw_bytes(*m).subrange(start as int, end as int),
{
    &m[start..end]
}

/// Relies on `memmap2::MmapMut`'s `DerefMut` to `[u8]` and
/// `[u8]::copy_from_slice`: overwrites the bytes starting at `start` with
/// `data`, leaving everything else unchanged.
#[verifier::external_body]
fn rw_write(m: &mut memmap2::MmapMut, start: usize, data: &[u8])
    requires
        start + data@.len() <= rw_bytes(*old(m)).len(),
    ensures
        rw_bytes(*final(m)) == rw_bytes(*old(m)).subrange(0, start as int) + data@ + rw_bytes(
            *old(m),
        ).subrange(start + data@.len(), rw_bytes(*old(m)).len() as int),
{
    m[start..start + data.len()].copy_from_slice(data);
}

/// Relies on `memmap2::MmapMut::flush`: synchronously writes dirty pages of
/// the whole mapping back to the file; `Err` carries the OS error text.
/// The mapped bytes themselves are not changed.
#[verifier::external_body]
fn rw_flush(m: &memmap2::MmapMut) -> (r: Result<(), String>)
{
    match m.flush() {
        Ok(()) => Ok(()),
        Err(e) => Err(format!("{e}")),
    }
}

/// Relies on `memmap2::MmapMut::flush_async`: initiates writing dirty pages
/// of the whole mapping back to the file without waiting for completion —
/// the inexpensive hint tried before a full synchronous flush.  The mapped
/// bytes themselves are not changed.
#[verifier::external_body]
fn rw_flush_hint(m: &memmap2::MmapMut) -> (r: Result<(), String>)
{
    match m.flush_async() {
        Ok(()) => Ok(()),
        Err(e) => Err(format!("{e}")),
    }
}

/// Relies on `memmap2::MmapMut::flush_async_range`: initiates writing dirty
/// pages of `[start, start + len)` back to the file without waiting for
/// completion.  The mapped bytes are not changed.
#[verifier::external_body]
fn rw_flush_range_hint(m: &memmap2::MmapMut, start: usize, len: usize) -> (r: Result<(), String>)
{
    match m.flush_async_range(start, len) {
        Ok(()) => Ok(()),
        Err(e) => Err(format!("{e}")),
    }
}

/// Relies on `memmap2::MmapMut::flush_range`: synchronously writes dirty
/// pages of `[start, start + len)` back to the file; out-of-range arguments
/// come back as `Err` from `memmap2` itself.  The mapped bytes are not
/// changed.
#[verifier::external_body]
fn rw_flush_range(m: &memmap2::MmapMut, start: usize, len: usize) -> (r: Result<(), String>)
{
    match m.flush_range(start, len) {
        Ok(()) => Ok(()),
        Err(e) => Err(format!("{e}")),
    }
}

/// The active mapping: immutable, mutable, or private copy-on-write.
/// Only `Rw` supports mutation; resizing never changes the variant kind.
pub enum MapVariant {
    /// Immutable mapping.
    Ro(memmap2::Mmap),
    /// Mutable mapping.
    Rw(memmap2::MmapMut),
    /// Private copy-on-write mapping; the backing file is never modified.
    Cow(memmap2::Mmap),
}

impl MapVariant {
    /// The access mode this variant implements.
    pub open spec fn mode_spec(&self) -> MmapMode {
        match self {
            MapVariant::Ro(_) => MmapMode::ReadOnly,
            MapVariant::Rw(_) => MmapMode::ReadWrite,
            MapVariant::Cow(_) => MmapMode::CopyOnWrite,
        }
    }

    /// The full physical contents of the mapped region.
    pub open spec fn raw_bytes(&self) -> Seq<u8> {
        match self {
            MapVariant::Ro(m) => ro_bytes(*m),
            MapVariant::Rw(m) => rw_bytes(*m),
            MapVariant::Cow(m) => ro_bytes(*m),
        }
    }
}

/// Memory-mapped file with bounds-checked region access.
///
/// `cached_len` is the authoritative length: every read and write is checked
/// against it, and only resizing changes it.  For `Rw` mappings it may be
/// smaller than the physical mapping after a virtual shrink (see
/// [`MemoryMappedFile::resize_request`]); it never exceeds the physical size,
/// which is what keeps every validated access inside the mapped region.
pub struct MemoryMappedFile {
    /// The active mapping.
    pub map: MapVariant,
    /// Path of the backing file, kept for diagnostics.
    pub path: String,
    /// Cached total length in bytes; updated only by resizing.
    pub cached_len: u64,
    /// When to flush implicitly after writes.
    pub flush_policy: FlushPolicy,
    /// Bytes or write calls since the last successful flush.
    pub written_since_last_flush: u64,
    /// Whether this platform can truncate a file with a live mapping.
    /// Where it cannot, a shrink is honored virtually: only `cached_len`
    /// shrinks, and the physical mapping stays until a later grow.
    pub shrink_truncates: bool,
}

impl MemoryMappedFile {
    /// The structural invariant: the cached length never exceeds the
    /// physical mapping (and equals it for immutable variants), and
    /// immutable variants carry no flush debt.
    pub open spec fn wf(&self) -> bool {
        &&& self.map.raw_bytes().len() <= usize::MAX
        &&& match self.map {
            MapVariant::Rw(_) => self.cached_len <= self.map.raw_bytes().len(),
            _ => self.cached_len == self.map.raw_bytes().len()
                && self.written_since_last_flush == 0,
        }
    }

    /// The access mode.
    pub open spec fn mode_spec(&self) -> MmapMode {
        self.map.mode_spec()
    }

    /// The accessible contents: the first `cached_len` bytes of the mapping.
    pub open spec fn bytes(&self) -> Seq<u8> {
        self.map.raw_bytes().subrange(0, self.cached_len as int)
    }

    /// Everything a resize leaves untouched besides the mapping and length.
    pub open spec fn same_config(&self, other: &Self) -> bool {
        &&& self.path == other.path
        &&& self.flush_policy == other.flush_policy
        &&& self.shrink_truncates == other.shrink_truncates
    }

    /// Wrap a fresh mutable mapping as a read-write mapped file.
    ///
    /// `shrink_truncates` states whether this platform can truncate the
    /// backing file while the mapping is live.
    pub fn from_rw_map(
        map: memmap2::MmapMut,
        path: String,
        flush_policy: FlushPolicy,
        shrink_truncates: bool,
    ) -> (r: MemoryMappedFile)
        ensures
            r.wf(),
            r.mode_spec() == MmapMode::ReadWrite,
            r.cached_len == rw_bytes(map).len(),
            r.bytes() == rw_bytes(map),
            r.flush_policy == flush_policy,
            r.written_since_last_flush == 0,
            r.shrink_truncates == shrink_truncates,
            r.path == path,
    {
        let len = rw_len(&map);
        let r = MemoryMappedFile {
            map: MapVariant::Rw(map),
            path,
            cached_len: len as u64,
            flush_policy,
            written_since_last_flush: 0,
            shrink_truncates,
        };
        proof {
            assert(r.bytes() =~= rw_bytes(map));
        }
        r
    }

    /// Wrap a fresh immutable mapping as a read-only mapped file.
    pub fn from_ro_map(map: memmap2::Mmap, path: String) -> (r: MemoryMappedFile)
        ensures
            r.wf(),
            r.mode_spec() == MmapMode::ReadOnly,
            r.cached_len == ro_bytes(map).len(),
            r.bytes() == ro_bytes(map),
            r.flush_policy == FlushPolicy::Never,
            r.written_since_last_flush == 0,
            r.path == path,
    {
        let len = ro_len(&map);
        let r = MemoryMappedFile {
            map: MapVariant::Ro(map),
            path,
            cached_len: len as u64,
            flush_policy: FlushPolicy::Never,
            written_since_last_flush: 0,
            shrink_truncates: true,
        };
        proof {
            assert(r.bytes() =~= ro_bytes(map));
        }
        r
    }

    /// Wrap a fresh private mapping as a copy-on-write mapped file.
    pub fn from_cow_map(map: memmap2::Mmap, path: String) -> (r: MemoryMappedFile)
        ensures
            r.wf(),
            r.mode_spec() == MmapMode::CopyOnWrite,
            r.cached_len == ro_bytes(map).len(),
            r.bytes() == ro_bytes(map),
            r.flush_policy == FlushPolicy::Never,
            r.written_since_last_flush == 0,
            r.path == path,
    {
        let len = ro_len(&map);
        let r = MemoryMappedFile {
            map: MapVariant::Cow(map),
            path,
            cached_len: len as u64,
            flush_policy: FlushPolicy::Never,
            written_since_last_flush: 0,
            shrink_truncates: true,
        };
        proof {
            assert(r.bytes() =~= ro_bytes(map));
        }
        r
    }

    /// Return the current mapping mode.
    pub fn mode(&self) -> (r: MmapMode)
        ensures
            r == self.mode_spec(),
    {
        match &self.map {
            MapVariant::Ro(_) => MmapMode::ReadOnly,
            MapVariant::Rw(_) => MmapMode::ReadWrite,
            MapVariant::Cow(_) => MmapMode::CopyOnWrite,
        }
    }

    /// Total length of the mapped file in bytes (cached; resizing is the
    /// sole mutator, so the filesystem is never re-queried).
    pub fn len(&self) -> (r: u64)
        ensures
            r == self.cached_len,
    {
        self.cached_len
    }

    /// Whether the mapped file is empty.
    pub fn is_empty(&self) -> (r: bool)
        ensures
            r == (self.cached_len == 0),
    {
        self.cached_len == 0
    }

    /// The up-to-date file length (cached); kept fallible for interface
    /// stability although the cache itself cannot fail.
    pub fn current_len(&self) -> (r: Result<u64, MmapIoError>)
        ensures
            r == Ok::<u64, MmapIoError>(self.cached_len),
    {
        Ok(self.cached_len)
    }

    /// Bytes or write calls recorded against the flush policy since the
    /// last successful flush: the accumulator that drives implicit flushes.
    pub fn pending_writes(&self) -> (r: u64)
        ensures
            r == self.written_since_last_flush,
    {
        self.written_since_last_flush
    }

    /// Path of the backing file.
    pub fn path(&self) -> (r: &String)
        ensures
            r == &self.path,
    {
        &self.path
    }

    fn mode_is_rw(&self) -> (r: bool)
        ensures
            r == (self.mode_spec() == MmapMode::ReadWrite),
    {
        matches!(&self.map, MapVariant::Rw(_))
    }

    /// Zero-copy read-only view of `[offset, offset + len)`.
    ///
    /// Valid for read-only and copy-on-write mappings.  A read-write mapping
    /// refuses: a slice borrowed from its exclusively-guarded buffer cannot
    /// be returned by value — use `read_into` there.
    pub fn as_slice<'a>(&'a self, offset: u64, len: u64) -> (r: Result<&'a [u8], MmapIoError>)
        requires
            self.wf(),
        ensures
            r is Ok <==> range_in_bounds(offset, len, self.cached_len) && self.mode_spec()
                != MmapMode::ReadWrite,
            r matches Ok(s) ==> s@ == self.bytes().subrange(offset as int, offset + len),
            !range_in_bounds(offset, len, self.cached_len) ==> r == Err::<&[u8], MmapIoError>(
                MmapIoError::OutOfBounds { offset, len, total: self.cached_len },
            ),
            range_in_bounds(offset, len, self.cached_len) && self.mode_spec()
                == MmapMode::ReadWrite ==> (r matches Err(MmapIoError::InvalidMode(s))
                && s@ == "use read_into for RW mappings"@),
    {
        let total = self.cached_len;
        match ensure_in_bounds(offset, len, total) {
            Err(e) => {
                return Err(e);
            },
            Ok(()) => {},
        }
        match &self.map {
            MapVariant::Ro(m) => {
                let s = ro_slice(m, offset as usize, (offset + len) as usize);
                proof {
                    assert(s@ =~= self.bytes().subrange(offset as int, offset + len));
                }
                Ok(s)
            },
            MapVariant::Rw(_) => Err(MmapIoError::InvalidMode("use read_into for RW mappings")),
            MapVariant::Cow(m) => {
                let s = ro_slice(m, offset as usize, (offset + len) as usize);
                proof {
                    assert(s@ =~= self.bytes().subrange(offset as int, offset + len));
                }
                Ok(s)
            },
        }
    }

    /// Read bytes into the provided buffer, starting at `offset`; the length
    /// read is the buffer's length.  Works uniformly across all three
    /// variants; on error the buffer is untouched.
    pub fn read_into(&self, offset: u64, buf: &mut Vec<u8>) -> (r: Result<(), MmapIoError>)
        requires
            self.wf(),
        ensures
            r is Ok <==> range_in_bounds(offset, old(buf)@.len() as u64, self.cached_len),
            r is Ok ==> final(buf)@ == self.bytes().subrange(
                offset as int,
                offset + old(buf)@.len(),
            ),
            r is Err ==> final(buf)@ == old(buf)@ && r == Err::<(), MmapIoError>(
                MmapIoError::OutOfBounds {
                    offset,
                    len: old(buf)@.len() as u64,
                    total: self.cached_len,
                },
            ),
    {
        let total = self.cached_len;
        let len = buf.len() as u64;
        match ensure_in_bounds(offset, len, total) {
            Err(e) => {
                return Err(e);
            },
            Ok(()) => {},
        }
        let start = offset as usize;
        let end = (offset + len) as usize;
        let data = match &self.map {
            MapVariant::Ro(m) => slice_to_vec(ro_slice(m, start, end)),
            MapVariant::Rw(m) => slice_to_vec(rw_slice(m, start, end)),
            MapVariant::Cow(m) => slice_to_vec(ro_slice(m, start, end)),
        };
        proof {
            assert(data@ =~= self.bytes().subrange(offset as int, offset + old(buf)@.len()));
        }
        *buf = data;
        Ok(())
    }

    /// Verified range validation for operating-system hints (memory advice,
    /// page locking): a zero-length range is a documented no-op, anything
    /// else must lie in bounds and comes back as slice positions.
    pub fn hint_span(&self, offset: u64, len: u64) -> (r: Result<
        Option<(usize, usize)>,
        MmapIoError,
    >)
        requires
            self.wf(),
        ensures
            len == 0 ==> (r matches Ok(o) && o is None),
            len > 0 && range_in_bounds(offset, len, self.cached_len) ==> (r matches Ok(o)
                && o == Some(((offset as usize), ((offset + len) as usize)))),
            len > 0 && !range_in_bounds(offset, len, self.cached_len) ==> r == Err::<
                Option<(usize, usize)>,
                MmapIoError,
            >(MmapIoError::OutOfBounds { offset, len, total: self.cached_len }),
    {
        if len == 0 {
            return Ok(None);
        }
        match crate::utils::slice_range(offset, len, self.cached_len) {
            Ok((start, end)) => Ok(Some((start, end))),
            Err(e) => Err(e),
        }
    }

    /// Copy `data` into the mapped file at `offset`.
    ///
    /// Only a read-write mapping accepts writes; empty `data` is a no-op.
    /// The write is bounds-checked, then the byte count feeds the flush
    /// policy's accumulator, possibly triggering an implicit flush; the
    /// accumulator resets only when that flush succeeds.
    pub fn update_region(&mut self, offset: u64, data: &[u8]) -> (r: Result<(), MmapIoError>)
        requires
            old(self).wf(),
        ensures
            final(self).wf(),
            final(self).same_config(old(self)),
            final(self).cached_len == old(self).cached_len,
            final(self).mode_spec() == old(self).mode_spec(),
            data@.len() == 0 ==> r is Ok && *final(self) == *old(self),
            data@.len() > 0 && old(self).mode_spec() != MmapMode::ReadWrite ==> (r matches Err(
                MmapIoError::InvalidMode(s),
            ) && s@ == "Update region requires ReadWrite mode."@) && *final(self) == *old(self),
            data@.len() > 0 && old(self).mode_spec() == MmapMode::ReadWrite && !range_in_bounds(
                offset,
                data@.len() as u64,
                old(self).cached_len,
            ) ==> r == Err::<(), MmapIoError>(
                MmapIoError::OutOfBounds {
                    offset,
                    len: data@.len() as u64,
                    total: old(self).cached_len,
                },
            ) && *final(self) == *old(self),
            data@.len() > 0 && old(self).mode_spec() == MmapMode::ReadWrite && range_in_bounds(
                offset,
                data@.len() as u64,
                old(self).cached_len,
            ) ==> final(self).bytes() == splice_bytes(old(self).bytes(), offset as int, data@) && ({
                let a = acc_after_write(
                    old(self).flush_policy,
                    old(self).written_since_last_flush,
                    data@.len() as u64,
                );
                if policy_triggers(old(self).flush_policy, a) {
                    (r is Ok && final(self).written_since_last_flush == 0) || (r matches Err(
                        MmapIoError::FlushFailed(_),
                    ) && final(self).written_since_last_flush == a)
                } else {
                    r is Ok && final(self).written_since_last_flush == a
                }
            }),
    {
        if data.len() == 0 {
            return Ok(());
        }
        if !self.mode_is_rw() {
            return Err(MmapIoError::InvalidMode("Update region requires ReadWrite mode."));
        }
        let len = data.len() as u64;
        let total = self.cached_len;
        match ensure_in_bounds(offset, len, total) {
            Err(e) => {
                return Err(e);
            },
            Ok(()) => {},
        }
        match &mut self.map {
            MapVariant::Rw(m) => {
                rw_write(m, offset as usize, data);
            },
            MapVariant::Ro(_) => {
                return Err(MmapIoError::InvalidMode("Update region requires ReadWrite mode."));
            },
            MapVariant::Cow(_) => {
                return Err(MmapIoError::InvalidMode("Update region requires ReadWrite mode."));
            },
        }
        proof {
            assert(self.bytes() =~= splice_bytes(old(self).bytes(), offset as int, data@));
        }
        let (acc, do_flush) = record_write(self.flush_policy, self.written_since_last_flush, len);
        self.written_since_last_flush = acc;
        if do_flush {
            self.flush()
        } else {
            Ok(())
        }
    }

    /// Flush changes to disk.  For read-only and copy-on-write mappings this
    /// is a no-op, as is a flush with no pending writes; otherwise the dirty
    /// pages are synchronized and the accumulator resets on success only.
    pub fn flush(&mut self) -> (r: Result<(), MmapIoError>)
        requires
            old(self).wf(),
        ensures
            final(self).wf(),
            final(self).same_config(old(self)),
            final(self).map == old(self).map,
            final(self).cached_len == old(self).cached_len,
            old(self).mode_spec() != MmapMode::ReadWrite ==> r is Ok && *final(self) == *old(self),
            old(self).written_since_last_flush == 0 ==> r is Ok && *final(self) == *old(self),
            old(self).mode_spec() == MmapMode::ReadWrite && old(self).written_since_last_flush
                > 0 ==> ((r is Ok && final(self).written_since_last_flush == 0) || (r matches Err(
                MmapIoError::FlushFailed(_),
            ) && final(self).written_since_last_flush == old(self).written_since_last_flush)),
    {
        match &self.map {
            MapVariant::Ro(_) => Ok(()),
            MapVariant::Cow(_) => Ok(()),
            MapVariant::Rw(m) => {
                if self.written_since_last_flush == 0 {
                    return Ok(());
                }
                // Try the inexpensive asynchronous sync hint first; fall
                // back to a full synchronous flush when it fails.
                match rw_flush_hint(m) {
                    Ok(()) => {
                        self.written_since_last_flush = 0;
                        return Ok(());
                    },
                    Err(_) => {},
                }
                match rw_flush(m) {
                    Ok(()) => {
                        self.written_since_last_flush = 0;
                        Ok(())
                    },
                    Err(s) => Err(MmapIoError::FlushFailed(s)),
                }
            },
        }
    }

    /// Flush a specific byte range to disk.  A zero-length range is a no-op;
    /// the range must lie in bounds; read-only and copy-on-write mappings,
    /// and mappings with no pending writes, skip the work.
    pub fn flush_range(&mut self, offset: u64, len: u64) -> (r: Result<(), MmapIoError>)
        requires
            old(self).wf(),
        ensures
            final(self).wf(),
            final(self).same_config(old(self)),
            final(self).map == old(self).map,
            final(self).cached_len == old(self).cached_len,
            len == 0 ==> r is Ok && *final(self) == *old(self),
            len > 0 && !range_in_bounds(offset, len, old(self).cached_len) ==> r == Err::<
                (),
                MmapIoError,
            >(MmapIoError::OutOfBounds { offset, len, total: old(self).cached_len }) && *final(self)
                == *old(self),
            len > 0 && range_in_bounds(offset, len, old(self).cached_len) && (old(self).mode_spec()
                != MmapMode::ReadWrite || old(self).written_since_last_flush == 0) ==> r is Ok
                && *final(self) == *old(self),
            len > 0 && range_in_bounds(offset, len, old(self).cached_len) && old(self).mode_spec()
                == MmapMode::ReadWrite && old(self).written_since_last_flush > 0 ==> ((r is Ok
                && final(self).written_since_last_flush == 0) || (r matches Err(
                MmapIoError::FlushFailed(_),
            ) && final(self).written_since_last_flush == old(self).written_since_last_flush)),
    {
        if len == 0 {
            return Ok(());
        }
        let total = self.cached_len;
        match ensure_in_bounds(offset, len, total) {
            Err(e) => {
                return Err(e);
            },
            Ok(()) => {},
        }
        match &self.map {
            MapVariant::Ro(_) => Ok(()),
            MapVariant::Cow(_) => Ok(()),
            MapVariant::Rw(m) => {
                if self.written_since_last_flush == 0 {
                    return Ok(());
                }
                // Try the inexpensive asynchronous sync hint for the
                // range first; fall back to a full range flush.
                match rw_flush_range_hint(m, offset as usize, len as usize) {
                    Ok(()) => {
                        self.written_since_last_flush = 0;
                        return Ok(());
                    },
                    Err(_) => {},
                }
                match rw_flush_range(m, offset as usize, len as usize) {
                    Ok(()) => {
                        self.written_since_last_flush = 0;
                        Ok(())
                    },
                    Err(s) => Err(MmapIoError::FlushFailed(s)),
                }
            },
        }
    }
}

/// Maximum safe mapping size, 128 terabytes: far above realistic use, yet it
/// rejects pathological requests such as an unsigned-maximum size before
/// they can exhaust address space or disk.
pub const MAX_MMAP_SIZE: u64 = 0x8000_0000_0000;

/// The refusal message for a size beyond [`MAX_MMAP_SIZE`].
pub open spec fn size_limit_msg(prefix: Seq<char>, size: u64) -> Seq<char> {
    prefix + dec_digits(size as nat) + " exceeds maximum safe limit of "@ + dec_digits(
        MAX_MMAP_SIZE as nat,
    ) + " bytes"@
}

fn build_size_limit_msg(prefix: &str, size: u64) -> (r: String)
    ensures
        r@ == size_limit_msg(prefix@, size),
{
    let mut m = String::from_str(prefix);
    let s = u64_to_string(size);
    m.append(s.as_str());
    m.append(" exceeds maximum safe limit of ");
    let x = u64_to_string(MAX_MMAP_SIZE);
    m.append(x.as_str());
    m.append(" bytes");
    m
}

/// Validate a requested size for creating a read-write mapping: zero and
/// over-maximum sizes are rejected.
pub fn check_create_size(size: u64) -> (r: Result<(), MmapIoError>)
    ensures
        r is Ok <==> 0 < size <= MAX_MMAP_SIZE,
        size == 0 ==> (r matches Err(MmapIoError::ResizeFailed(s)) && s@
            == "Size must be greater than zero"@),
        size > MAX_MMAP_SIZE ==> (r matches Err(MmapIoError::ResizeFailed(s)) && s@
            == size_limit_msg("Size "@, size)),
{
    if size == 0 {
        return Err(MmapIoError::ResizeFailed(String::from_str("Size must be greater than zero")));
    }
    if size > MAX_MMAP_SIZE {
        return Err(MmapIoError::ResizeFailed(build_size_limit_msg("Size ", size)));
    }
    Ok(())
}

/// Validate the on-disk length found when opening an existing file:
/// a zero-length region cannot be mapped read-write or copy-on-write.
pub fn check_open_len(mode: MmapMode, len: u64) -> (r: Result<(), MmapIoError>)
    ensures
        r is Ok <==> (mode == MmapMode::ReadOnly || len > 0),
        r is Err ==> (r matches Err(MmapIoError::ResizeFailed(s)) && s@
            == "Cannot map zero-length file"@),
{
    match mode {
        MmapMode::ReadOnly => Ok(()),
        _ => {
            if len == 0 {
                Err(MmapIoError::ResizeFailed(String::from_str("Cannot map zero-length file")))
            } else {
                Ok(())
            }
        },
    }
}

/// What a validated resize request asks the caller to do.
#[derive(Debug, Clone, Copy, PartialEq, Eq)]
pub enum ResizeAction {
    /// Extend or truncate the backing file to the new size, build a fresh
    /// mapping of it, and install it with
    /// [`MemoryMappedFile::install_remapped`].
    Remap,
    /// Only shrink the cached length, with
    /// [`MemoryMappedFile::apply_virtual_shrink`]; the file and mapping keep
    /// their size until a later grow reconciles them.
    VirtualShrink,
    /// The size is unchanged; nothing to do.
    NoChange,
}

impl MemoryMappedFile {
    /// Validate a resize to `new_size` and decide how it must be honored.
    ///
    /// Resizing is valid only for read-write mappings and only to a size in
    /// `(0, MAX_MMAP_SIZE]`.  On a platform that can truncate a mapped file
    /// the answer is always [`ResizeAction::Remap`].  One target platform
    /// refuses to truncate a file with a live mapping; there a shrink is
    /// honored virtually and an equal size is left alone — a deliberate,
    /// documented divergence, not an oversight.
    pub fn resize_request(&self, new_size: u64) -> (r: Result<ResizeAction, MmapIoError>)
        requires
            self.wf(),
        ensures
            self.mode_spec() != MmapMode::ReadWrite ==> (r matches Err(MmapIoError::InvalidMode(s))
                && s@ == "Resize requires ReadWrite mode"@),
            self.mode_spec() == MmapMode::ReadWrite && new_size == 0 ==> (r matches Err(
                MmapIoError::ResizeFailed(s),
            ) && s@ == "New size must be greater than zero"@),
            self.mode_spec() == MmapMode::ReadWrite && new_size > MAX_MMAP_SIZE ==> (r matches Err(
                MmapIoError::ResizeFailed(s),
            ) && s@ == size_limit_msg("New size "@, new_size)),
            self.mode_spec() == MmapMode::ReadWrite && 0 < new_size <= MAX_MMAP_SIZE ==> r == Ok::<
                ResizeAction,
                MmapIoError,
            >(
                if !self.shrink_truncates && new_size < self.cached_len {
                    ResizeAction::VirtualShrink
                } else if !self.shrink_truncates && new_size == self.cached_len {
                    ResizeAction::NoChange
                } else {
                    ResizeAction::Remap
                },
            ),
    {
        if !self.mode_is_rw() {
            return Err(MmapIoError::InvalidMode("Resize requires ReadWrite mode"));
        }
        if new_size == 0 {
            return Err(
                MmapIoError::ResizeFailed(String::from_str("New size must be greater than zero")),
            );
        }
        if new_size > MAX_MMAP_SIZE {
            return Err(MmapIoError::ResizeFailed(build_size_limit_msg("New size ", new_size)));
        }
        if !self.shrink_truncates && new_size < self.cached_len {
            Ok(ResizeAction::VirtualShrink)
        } else if !self.shrink_truncates && new_size == self.cached_len {
            Ok(ResizeAction::NoChange)
        } else {
            Ok(ResizeAction::Remap)
        }
    }

    /// Honor a shrink virtually: only the cached length changes; the
    /// physical mapping keeps its size.  Every byte within the new bound is
    /// untouched — the half of the grow-then-shrink law that the mapping
    /// core can promise by itself.
    pub fn apply_virtual_shrink(&mut self, new_size: u64)
        requires
            old(self).wf(),
            old(self).mode_spec() == MmapMode::ReadWrite,
            new_size <= old(self).cached_len,
        ensures
            final(self).wf(),
            final(self).same_config(old(self)),
            final(self).map == old(self).map,
            final(self).cached_len == new_size,
            final(self).written_since_last_flush == old(self).written_since_last_flush,
            final(self).bytes() == old(self).bytes().subrange(0, new_size as int),
    {
        self.cached_len = new_size;
        proof {
            assert(self.bytes() =~= old(self).bytes().subrange(0, new_size as int));
        }
    }

    /// Install a freshly built mapping of exactly `new_size` bytes,
    /// completing a resize: the old mapping stays valid until the new one is
    /// installed — there is no unmapped window — and the cached length is
    /// updated together with it.  The write accumulator is kept: resizing is
    /// not a flush.
    pub fn install_remapped(&mut self, new_map: memmap2::MmapMut, new_size: u64) -> (r: Result<
        (),
        MmapIoError,
    >)
        requires
            old(self).wf(),
        ensures
            final(self).wf(),
            final(self).same_config(old(self)),
            old(self).mode_spec() != MmapMode::ReadWrite ==> (r matches Err(
                MmapIoError::InvalidMode(s),
            ) && s@ == "Resize requires ReadWrite mode"@) && *final(self) == *old(self),
            old(self).mode_spec() == MmapMode::ReadWrite && rw_bytes(new_map).len() != new_size
                ==> (r matches Err(MmapIoError::ResizeFailed(s)) && s@
                == "mapping does not match the requested size"@) && *final(self) == *old(self),
            old(self).mode_spec() == MmapMode::ReadWrite && rw_bytes(new_map).len() == new_size
                ==> r is Ok && final(self).mode_spec() == MmapMode::ReadWrite
                && final(self).cached_len == new_size && final(self).bytes() == rw_bytes(new_map)
                && final(self).written_since_last_flush == old(self).written_since_last_flush,
    {
        if !self.mode_is_rw() {
            return Err(MmapIoError::InvalidMode("Resize requires ReadWrite mode"));
        }
        let len = rw_len(&new_map);
        if len as u64 != new_size {
            return Err(
                MmapIoError::ResizeFailed(
                    String::from_str("mapping does not match the requested size"),
                ),
            );
        }
        self.map = MapVariant::Rw(new_map);
        self.cached_len = new_size;
        proof {
            assert(self.bytes() =~= rw_bytes(new_map));
        }
        Ok(())
    }

    /// Builder for constructing a mapped file with custom options.
    pub fn builder(path: String) -> (b: MemoryMappedFileBuilder)
        ensures
            b.path == path,
            b.size is None,
            b.mode is None,
            b.flush_policy == FlushPolicy::Never,
            !b.huge_pages,
    {
        MemoryMappedFileBuilder {
            path,
            size: None,
            mode: None,
            flush_policy: FlushPolicy::Never,
            huge_pages: false,
        }
    }
}

/// Fluent assembly of a mapped file from path, mode, size, flush policy,
/// and a large-page preference.  `create_plan` and `open_plan` validate the
/// configuration and say which file operation must precede the matching
/// `from_*` constructor.
pub struct MemoryMappedFileBuilder {
    /// Path of the backing file.
    pub path: String,
    /// Size, required when creating a read-write mapping.
    pub size: Option<u64>,
    /// Requested mode; `create_plan` defaults to read-write, `open_plan` to
    /// read-only.
    pub mode: Option<MmapMode>,
    /// Flush policy for read-write mappings.
    pub flush_policy: FlushPolicy,
    /// Prefer large pages; best-effort, falling back to normal pages.
    pub huge_pages: bool,
}

/// The file operation a validated builder configuration resolves to.
#[derive(Debug, Clone, Copy, PartialEq, Eq)]
pub enum MapPlan {
    /// Create (truncating if present) a file of `size` bytes and map it
    /// read-write.
    CreateRw {
        /// Size of the new file in bytes.
        size: u64,
        /// Flush policy of the new mapping.
        flush_policy: FlushPolicy,
        /// Prefer large pages.
        huge_pages: bool,
    },
    /// Open the existing file and map it read-only.
    OpenRo,
    /// Open the existing file read-write; its length must first pass
    /// [`check_open_len`].
    OpenRw {
        /// Flush policy of the mapping.
        flush_policy: FlushPolicy,
        /// Prefer large pages.
        huge_pages: bool,
    },
    /// Open the existing file and map it privately (copy-on-write); its
    /// length must first pass [`check_open_len`].
    OpenCow,
}

impl MemoryMappedFileBuilder {
    /// Specify the size (required to create a read-write mapping).
    pub fn size(self, size: u64) -> (r: Self)
        ensures
            r.path == self.path,
            r.size == Some(size),
            r.mode == self.mode,
            r.flush_policy == self.flush_policy,
            r.huge_pages == self.huge_pages,
    {
        Self { size: Some(size), ..self }
    }

    /// Specify the mode.
    pub fn mode(self, mode: MmapMode) -> (r: Self)
        ensures
            r.path == self.path,
            r.size == self.size,
            r.mode == Some(mode),
            r.flush_policy == self.flush_policy,
            r.huge_pages == self.huge_pages,
    {
        Self { mode: Some(mode), ..self }
    }

    /// Specify the flush policy.
    pub fn flush_policy(self, policy: FlushPolicy) -> (r: Self)
        ensures
            r.path == self.path,
            r.size == self.size,
            r.mode == self.mode,
            r.flush_policy == policy,
            r.huge_pages == self.huge_pages,
    {
        Self { flush_policy: policy, ..self }
    }

    /// Request large pages; an unsupported platform silently falls back to
    /// normal pages.
    pub fn huge_pages(self, enable: bool) -> (r: Self)
        ensures
            r.path == self.path,
            r.size == self.size,
            r.mode == self.mode,
            r.flush_policy == self.flush_policy,
            r.huge_pages == enable,
    {
        Self { huge_pages: enable, ..self }
    }

    /// Validate this configuration for creating a new mapping
    /// (mode defaults to read-write, which requires a size).
    pub fn create_plan(&self) -> (r: Result<MapPlan, MmapIoError>)
        ensures
            ({
                let mode = if self.mode is Some {
                    self.mode->0
                } else {
                    MmapMode::ReadWrite
                };
                match mode {
                    MmapMode::ReadWrite => match self.size {
                        None => (r matches Err(MmapIoError::ResizeFailed(s)) && s@
                            == "Size must be set for create() in ReadWrite mode"@),
                        Some(size) => {
                            &&& size == 0 ==> (r matches Err(MmapIoError::ResizeFailed(s)) && s@
                                == "Size must be greater than zero"@)
                            &&& size > MAX_MMAP_SIZE ==> (r matches Err(
                                MmapIoError::ResizeFailed(s),
                            ) && s@ == size_limit_msg("Size "@, size))
                            &&& 0 < size <= MAX_MMAP_SIZE ==> r == Ok::<MapPlan, MmapIoError>(
                                MapPlan::CreateRw {
                                    size,
                                    flush_policy: self.flush_policy,
                                    huge_pages: self.huge_pages,
                                },
                            )
                        },
                    },
                    MmapMode::ReadOnly => r == Ok::<MapPlan, MmapIoError>(MapPlan::OpenRo),
                    MmapMode::CopyOnWrite => r == Ok::<MapPlan, MmapIoError>(MapPlan::OpenCow),
                }
            }),
    {
        let mode = match &self.mode {
            Some(m) => *m,
            None => MmapMode::ReadWrite,
        };
        match mode {
            MmapMode::ReadWrite => {
                let size = match &self.size {
                    Some(s) => *s,
                    None => {
                        return Err(
                            MmapIoError::ResizeFailed(
                                String::from_str("Size must be set for create() in ReadWrite mode"),
                            ),
                        );
                    },
                };
                match check_create_size(size) {
                    Err(e) => Err(e),
                    Ok(()) => Ok(
                        MapPlan::CreateRw {
                            size,
                            flush_policy: self.flush_policy,
                            huge_pages: self.huge_pages,
                        },
                    ),
                }
            },
            MmapMode::ReadOnly => Ok(MapPlan::OpenRo),
            MmapMode::CopyOnWrite => Ok(MapPlan::OpenCow),
        }
    }

    /// Resolve this configuration for opening an existing file
    /// (mode defaults to read-only; the size option is ignored).
    pub fn open_plan(&self) -> (r: MapPlan)
        ensures
            ({
                let mode = if self.mode is Some {
                    self.mode->0
                } else {
                    MmapMode::ReadOnly
                };
                match mode {
                    MmapMode::ReadOnly => r == MapPlan::OpenRo,
                    MmapMode::ReadWrite => r == (MapPlan::OpenRw {
                        flush_policy: self.flush_policy,
                        huge_pages: self.huge_pages,
                    }),
                    MmapMode::CopyOnWrite => r == MapPlan::OpenCow,
                }
            }),
    {
        let mode = match &self.mode {
            Some(m) => *m,
            None => MmapMode::ReadOnly,
        };
        match mode {
            MmapMode::ReadOnly => MapPlan::OpenRo,
            MmapMode::ReadWrite => MapPlan::OpenRw {
                flush_policy: self.flush_policy,
                huge_pages: self.huge_pages,
            },
            MmapMode::CopyOnWrite => MapPlan::OpenCow,
        }
    }
}

/// The bytes of `b` with `data` written at `offset`.
pub open spec fn splice_bytes(b: Seq<u8>, offset: int, data: Seq<u8>) -> Seq<u8> {
    b.subrange(0, offset) + data + b.subrange(offset + data.len(), b.len() as int)
}

/// Law: writing and reading back round-trip.  Splicing `data` into `b` at
/// `offset` keeps the length of `b`, and reading `data.len()` bytes back
/// from `offset` yields exactly `data` — the model over which
/// `update_region` and `read_into` are specified; `flush` leaves the bytes
/// unchanged, so it cannot disturb the round trip.
pub proof fn lemma_write_read_round_trip(b: Seq<u8>, offset: u64, data: Seq<u8>)
    requires
        offset + data.len() <= b.len(),
    ensures
        splice_bytes(b, offset as int, data).len() == b.len(),
        splice_bytes(b, offset as int, data).subrange(offset as int, offset + data.len()) == data,
{
    assert(splice_bytes(b, offset as int, data).subrange(offset as int, offset + data.len())
        =~= data);
}

} // verus!
