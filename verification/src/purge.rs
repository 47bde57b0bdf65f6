//! The namespace-wide cache purge. The store is enumerated with an
//! incremental cursor-based scan in bounded batches, never a blocking
//! full-keyspace listing; the keys of each batch are deleted and
//! counted. The network calls are performed by the surrounding
//! program; the cursor bookkeeping and the final report are made here.

use vstd::prelude::*;
use vstd::string::StringExecFns;
use crate::digits::dec_rep;
use crate::digits::u64_to_dec_string;

verus! {

/// The progress of one purge: the cursor to hand to the next scan,
/// and how many keys the finished batches deleted.
pub struct ScanProgress {
    pub cursor: u64,
    pub total_deleted: u64,
}

/// A fresh purge: the first scan starts at cursor zero. That first
/// scan is always issued, so a purge over an empty namespace
/// completes with zero deletions and no error.
pub fn clear_all_begin() -> (p: ScanProgress)
    ensures
        p.cursor == 0,
        p.total_deleted == 0,
{
    ScanProgress { cursor: 0, total_deleted: 0 }
}

/// Books one finished batch: the scan returned `next_cursor` and the
/// batch's keys were deleted, `batch_deleted` of them (zero when the
/// scan returned no keys and no delete was sent). The purge is done
/// exactly when the returned cursor is zero again.
pub fn record_scan_batch(p: ScanProgress, next_cursor: u64, batch_deleted: u64) -> (r: (
    ScanProgress,
    bool,
))
    requires
        p.total_deleted + batch_deleted <= u64::MAX,
    ensures
        r.0.cursor == next_cursor,
        r.0.total_deleted == p.total_deleted + batch_deleted,
        r.1 == (next_cursor == 0),
{
    let total = p.total_deleted + batch_deleted;
    (ScanProgress { cursor: next_cursor, total_deleted: total }, next_cursor == 0)
}

/// The report of a cache purge.
pub struct ClearCacheResponse {
    /// Whether the purge succeeded.
    pub success: bool,
    /// Human-readable summary.
    pub message: String,
    /// How many entries were removed.
    pub deleted_count: u64,
}

/// The exact summary text for a purge that removed `n` entries.
pub open spec fn clear_message_spec(n: nat) -> Seq<char> {
    "Cleared "@ + dec_rep(n) + " cache entries"@
}

/// The report for a completed purge: success, the count as it stands,
/// and the summary naming that count.
pub fn clear_cache_response(deleted_count: u64) -> (r: ClearCacheResponse)
    ensures
        r.success == true,
        r.deleted_count == deleted_count,
        r.message@ == clear_message_spec(deleted_count as nat),
{
    let mut message = "Cleared ".to_owned();
    let count = u64_to_dec_string(deleted_count);
    message.append(count.as_str());
    message.append(" cache entries");
    ClearCacheResponse { success: true, message, deleted_count }
}

} // verus!
