//! Flush policy: when writes to a read-write mapping reach the backing file.
//!
//! A mapping carries an accumulator counting bytes (or write calls) since the
//! last successful flush.  The policy decides when the accumulator demands an
//! implicit flush; the accumulator resets only when a flush succeeds, so a
//! failed flush keeps its debt for the next attempt.

use vstd::prelude::*;

verus! {

/// Policy controlling when to flush dirty pages to disk.
#[derive(Debug, Clone, Copy, PartialEq, Eq)]
pub enum FlushPolicy {
    /// Never flush implicitly; `flush` must be called by the user.
    Never,
    /// Alias of `Never` for semantic clarity when using the builder.
    Manual,
    /// Flush after every write.
    Always,
    /// Flush once at least this many bytes were written since the last flush.
    EveryBytes(usize),
    /// Flush after this many write calls.
    EveryWrites(usize),
    /// Reserved for future time-based flushing; behaves as `Manual` by
    /// design — no timer thread is spawned.
    EveryMillis(u64),
}

/// `a + b`, stopping at the largest `u64` value.
pub open spec fn saturating_add_spec(a: u64, b: u64) -> u64 {
    if a + b > u64::MAX {
        u64::MAX
    } else {
        (a + b) as u64
    }
}

/// The accumulator after one write of `written` bytes is recorded,
/// before any implicit flush runs.
pub open spec fn acc_after_write(p: FlushPolicy, acc: u64, written: u64) -> u64 {
    match p {
        FlushPolicy::Never => acc,
        FlushPolicy::Manual => acc,
        FlushPolicy::EveryMillis(_) => acc,
        FlushPolicy::Always => saturating_add_spec(acc, written),
        FlushPolicy::EveryBytes(n) => if n == 0 {
            acc
        } else {
            saturating_add_spec(acc, written)
        },
        FlushPolicy::EveryWrites(w) => if w == 0 {
            acc
        } else {
            saturating_add_spec(acc, 1)
        },
    }
}

/// Does the policy demand an implicit flush at accumulator value `acc`?
pub open spec fn policy_triggers(p: FlushPolicy, acc: u64) -> bool {
    match p {
        FlushPolicy::Always => true,
        FlushPolicy::EveryBytes(n) => n > 0 && acc >= n,
        FlushPolicy::EveryWrites(w) => w > 0 && acc >= w,
        _ => false,
    }
}

/// Record one write of `written` bytes against the accumulator `acc`:
/// the new accumulator, and whether the policy now demands a flush.
pub fn record_write(p: FlushPolicy, acc: u64, written: u64) -> (r: (u64, bool))
    ensures
        r.0 == acc_after_write(p, acc, written),
        r.1 == policy_triggers(p, acc_after_write(p, acc, written)),
{
    match p {
        FlushPolicy::Never => (acc, false),
        FlushPolicy::Manual => (acc, false),
        FlushPolicy::EveryMillis(_) => (acc, false),
        FlushPolicy::Always => (saturating_add(acc, written), true),
        FlushPolicy::EveryBytes(n) => {
            if n == 0 {
                (acc, false)
            } else {
                let a = saturating_add(acc, written);
                (a, a >= n as u64)
            }
        },
        FlushPolicy::EveryWrites(w) => {
            if w == 0 {
                (acc, false)
            } else {
                let a = saturating_add(acc, 1);
                (a, a >= w as u64)
            }
        },
    }
}

/// Law: under `EveryBytes(n)` with `n > 0`, a single write of exactly `n`
/// bytes from a clean accumulator reaches the threshold, so the write
/// itself triggers the implicit flush — no explicit flush call is needed
/// for a subsequent reader of the backing file to observe it.
pub proof fn lemma_every_bytes_threshold_triggers(n: usize)
    requires
        n > 0,
    ensures
        policy_triggers(
            FlushPolicy::EveryBytes(n),
            acc_after_write(FlushPolicy::EveryBytes(n), 0, n as u64),
        ),
{
}

/// Law: under `EveryWrites(w)` with `w > 0`, the `w`-th write call from a
/// clean accumulator reaches the threshold, whatever its byte count.
pub proof fn lemma_every_writes_threshold_triggers(w: usize, written: u64)
    requires
        w > 0,
    ensures
        policy_triggers(
            FlushPolicy::EveryWrites(w),
            acc_after_write(FlushPolicy::EveryWrites(w), (w - 1) as u64, written),
        ),
{
}

fn saturating_add(a: u64, b: u64) -> (r: u64)
    ensures
        r == saturating_add_spec(a, b),
{
    if b > u64::MAX - a {
        u64::MAX
    } else {
        a + b
    }
}

} // verus!
