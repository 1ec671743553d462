//! Transfer accounting: resume planning, the decision on the server's
//! answer, chunk bookkeeping with throttled progress emission, and the law
//! that resumption reproduces the full file byte for byte.
//!
//! The surrounding I/O (the request itself, the disk writes) is performed by
//! the caller; every decision it acts on is computed and specified here.

use crate::error::MediaError;
use crate::text::{spec_decimal, u64_to_string};
use vstd::prelude::*;

verus! {

/// The least time between two progress emissions, in milliseconds.
pub const THROTTLE_MS: u64 = 100;

/// What to ask of the server: a transfer beginning at `range_start`.
/// A positive offset becomes a `bytes=<offset>-` range header.
#[derive(Debug, Clone, Copy, PartialEq, Eq, Structural)]
pub struct TransferPlan {
    pub range_start: u64,
}

impl TransferPlan {
    /// Plans the request from the size of what is already on disk: resume
    /// right after the existing bytes, or start at zero.
    pub fn from_existing(existing_size: Option<u64>) -> (r: TransferPlan)
        ensures
            r.range_start == (match existing_size {
                Some(n) => n,
                None => 0u64,
            }),
    {
        TransferPlan {
            range_start: match existing_size {
                Some(n) => n,
                None => 0,
            },
        }
    }
}

/// Whether an HTTP status means success.
pub open spec fn spec_is_success(status: u16) -> bool {
    200 <= status < 300
}

/// The whole-file total when `content_length` more bytes follow what is
/// already on disk, saturating at `u64::MAX`.
pub open spec fn spec_resumed_total(content_length: int, range_start: int) -> int {
    if content_length + range_start > u64::MAX {
        u64::MAX as int
    } else {
        content_length + range_start
    }
}

/// The running state of one transfer, all sizes in bytes.
#[derive(Debug, Clone, Copy, PartialEq, Eq, Structural)]
pub struct TransferSession {
    /// How many bytes on disk are kept and counted as already transferred.
    pub resumed_from: u64,
    /// Bytes accounted for so far, the kept ones included.
    pub downloaded: u64,
    /// The size of the whole file, when the server said.
    pub total: Option<u64>,
    /// Whether the destination is opened for appending (a honored resume)
    /// or truncated (a fresh start).
    pub append: bool,
    /// When a progress snapshot was last emitted.
    pub last_emit_ms: u64,
}

/// The whole contract of `begin_transfer`. A non-success status is refused
/// with the status itself. A planned resume that the server did not honor
/// with a partial-content answer starts fresh: nothing kept, destination
/// truncated. Otherwise the existing bytes are kept, the destination is
/// appended to, and the announced length counts on top of them.
pub open spec fn begin_contract(
    plan: TransferPlan,
    status: u16,
    partial: bool,
    content_length: Option<u64>,
    now_ms: u64,
    r: Result<TransferSession, u16>,
) -> bool {
    if !spec_is_success(status) {
        r == Err::<TransferSession, u16>(status)
    } else if plan.range_start > 0 && !partial {
        r == Ok::<TransferSession, u16>(
            TransferSession {
                resumed_from: 0,
                downloaded: 0,
                total: content_length,
                append: false,
                last_emit_ms: now_ms,
            },
        )
    } else {
        r matches Ok(s) && s.resumed_from == plan.range_start && s.downloaded == plan.range_start
            && s.append == (plan.range_start > 0) && s.last_emit_ms == now_ms && s.total == (
        match content_length {
            Some(c) => Some(spec_resumed_total(c as int, plan.range_start as int) as u64),
            None => None::<u64>,
        })
    }
}

/// Decides how a transfer starts from the server's answer to the planned
/// request: `status` is the HTTP status, `partial` whether the answer was
/// partial content, `content_length` the announced body length.
pub fn begin_transfer(
    plan: &TransferPlan,
    status: u16,
    partial: bool,
    content_length: Option<u64>,
    now_ms: u64,
) -> (r: Result<TransferSession, u16>)
    ensures
        begin_contract(*plan, status, partial, content_length, now_ms, r),
{
    if !(status >= 200 && status < 300) {
        return Err(status);
    }
    if plan.range_start > 0 && !partial {
        return Ok(
            TransferSession {
                resumed_from: 0,
                downloaded: 0,
                total: content_length,
                append: false,
                last_emit_ms: now_ms,
            },
        );
    }
    let total: Option<u64> = match content_length {
        Some(c) => {
            if c > u64::MAX - plan.range_start {
                Some(u64::MAX)
            } else {
                Some(c + plan.range_start)
            }
        },
        None => None,
    };
    Ok(
        TransferSession {
            resumed_from: plan.range_start,
            downloaded: plan.range_start,
            total,
            append: plan.range_start > 0,
            last_emit_ms: now_ms,
        },
    )
}

/// `a + b`, saturating at `u64::MAX`.
pub open spec fn spec_sat_add(a: int, b: int) -> int {
    if a + b > u64::MAX {
        u64::MAX as int
    } else {
        a + b
    }
}

impl TransferSession {
    /// Accounts one received chunk and decides whether a progress snapshot
    /// is due: one is emitted at most once per throttle window, and the
    /// window restarts on emission.
    pub fn apply_chunk(&mut self, chunk_len: u64, now_ms: u64) -> (emit: bool)
        ensures
            final(self).downloaded == spec_sat_add(old(self).downloaded as int, chunk_len as int),
            emit == (now_ms >= spec_sat_add(old(self).last_emit_ms as int, THROTTLE_MS as int)),
            final(self).last_emit_ms == if emit {
                now_ms
            } else {
                old(self).last_emit_ms
            },
            final(self).resumed_from == old(self).resumed_from,
            final(self).total == old(self).total,
            final(self).append == old(self).append,
    {
        if chunk_len > u64::MAX - self.downloaded {
            self.downloaded = u64::MAX;
        } else {
            self.downloaded = self.downloaded + chunk_len;
        }
        let threshold: u64 = if self.last_emit_ms > u64::MAX - THROTTLE_MS {
            u64::MAX
        } else {
            self.last_emit_ms + THROTTLE_MS
        };
        let emit: bool = now_ms >= threshold;
        if emit {
            self.last_emit_ms = now_ms;
        }
        emit
    }
}

/// The error a transfer reports for a refused HTTP status.
pub fn http_status_error(status: u16) -> (r: MediaError)
    ensures
        r matches MediaError::DownloadError(m) && m@ == "HTTP "@ + spec_decimal(status as int)
            + ": download failed"@,
{
    let mut m = String::new();
    m.append("HTTP ");
    let digits = u64_to_string(status as u64);
    m.append(digits.as_str());
    m.append(": download failed");
    MediaError::DownloadError(m)
}

/// The bytes on disk when a transfer body has been written after the
/// begin decision: appended to what was kept, or replacing it.
pub open spec fn spec_written_bytes(append: bool, existing: Seq<u8>, body: Seq<u8>) -> Seq<u8> {
    if append {
        existing + body
    } else {
        body
    }
}

/// Resume correctness: when what is on disk is a prefix of the source and
/// the server answers the range request with exactly the remainder, the
/// appended file equals the source byte for byte; and when the server
/// ignores the range and sends the whole source, the fresh restart equals
/// the source too.
pub proof fn lemma_resume_byte_identical(full: Seq<u8>, existing: Seq<u8>)
    requires
        existing.len() <= full.len(),
        existing == full.take(existing.len() as int),
    ensures
        spec_written_bytes(true, existing, full.skip(existing.len() as int)) == full,
        spec_written_bytes(false, existing, full) == full,
{
    assert(existing + full.skip(existing.len() as int) =~= full);
}

} // verus!
