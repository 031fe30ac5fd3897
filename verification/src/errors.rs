//! Error types for mapping, bounds, flush, and advisory failures.

use vstd::prelude::*;
use vstd::string::StringExecFns;

use crate::decimal::{dec_digits, u64_to_string};

verus! {

/// Error type covering filesystem, mapping, bounds, and concurrency issues.
#[derive(Debug)]
pub enum MmapIoError {
    /// An operating-system level failure, described by its message.
    Io(String),
    /// The operation is not allowed in the mapping's current access mode.
    InvalidMode(&'static str),
    /// A requested offset/length pair falls outside the mapping.
    OutOfBounds {
        /// Requested offset.
        offset: u64,
        /// Requested length.
        len: u64,
        /// Total size of the mapped file.
        total: u64,
    },
    /// A flush operation failed.
    FlushFailed(String),
    /// Resizing is not allowed or failed.
    ResizeFailed(String),
    /// A memory-advice hint failed.
    AdviceFailed(String),
    /// A page-lock operation failed.
    LockFailed(String),
    /// A page-unlock operation failed.
    UnlockFailed(String),
    /// An atomic view was requested at an unaligned offset.
    Misaligned {
        /// Required alignment in bytes.
        required: u64,
        /// Provided offset in bytes.
        offset: u64,
    },
    /// Starting or running a file watcher failed.
    WatchFailed(String),
}

impl MmapIoError {
    /// The characters of the error's stable, human-readable description.
    pub open spec fn message_spec(&self) -> Seq<char> {
        match self {
            MmapIoError::Io(s) => "I/O error: "@ + s@,
            MmapIoError::InvalidMode(s) => "invalid access mode: "@ + s@,
            MmapIoError::OutOfBounds { offset, len, total } => "range out of bounds: offset="@
                + dec_digits(*offset as nat) + ", len="@ + dec_digits(*len as nat) + ", total="@
                + dec_digits(*total as nat),
            MmapIoError::FlushFailed(s) => "flush failed: "@ + s@,
            MmapIoError::ResizeFailed(s) => "resize failed: "@ + s@,
            MmapIoError::AdviceFailed(s) => "advice failed: "@ + s@,
            MmapIoError::LockFailed(s) => "lock failed: "@ + s@,
            MmapIoError::UnlockFailed(s) => "unlock failed: "@ + s@,
            MmapIoError::Misaligned { required, offset } => "atomic alignment error: required="@
                + dec_digits(*required as nat) + ", offset="@ + dec_digits(*offset as nat),
            MmapIoError::WatchFailed(s) => "watch failed: "@ + s@,
        }
    }

    /// The error's stable, human-readable description.
    pub fn message(&self) -> (r: String)
        ensures
            r@ == self.message_spec(),
    {
        match self {
            MmapIoError::Io(s) => String::from_str("I/O error: ").concat(s.as_str()),
            MmapIoError::InvalidMode(s) => String::from_str("invalid access mode: ").concat(s),
            MmapIoError::OutOfBounds { offset, len, total } => {
                let mut m = String::from_str("range out of bounds: offset=");
                let o = u64_to_string(*offset);
                m.append(o.as_str());
                m.append(", len=");
                let l = u64_to_string(*len);
                m.append(l.as_str());
                m.append(", total=");
                let t = u64_to_string(*total);
                m.append(t.as_str());
                m
            },
            MmapIoError::FlushFailed(s) => String::from_str("flush failed: ").concat(s.as_str()),
            MmapIoError::ResizeFailed(s) => String::from_str("resize failed: ").concat(s.as_str()),
            MmapIoError::AdviceFailed(s) => String::from_str("advice failed: ").concat(s.as_str()),
            MmapIoError::LockFailed(s) => String::from_str("lock failed: ").concat(s.as_str()),
            MmapIoError::UnlockFailed(s) => String::from_str("unlock failed: ").concat(s.as_str()),
            MmapIoError::Misaligned { required, offset } => {
                let mut m = String::from_str("atomic alignment error: required=");
                let q = u64_to_string(*required);
                m.append(q.as_str());
                m.append(", offset=");
                let o = u64_to_string(*offset);
                m.append(o.as_str());
                m
            },
            MmapIoError::WatchFailed(s) => String::from_str("watch failed: ").concat(s.as_str()),
        }
    }
}

} // verus!
