//! The bookkeeping of a download that arrives in chunks: how much has been
//! written, the size announced beforehand, and what to report after each
//! chunk.

use vstd::prelude::*;

use crate::text::{parse_u64, parsed_u64};

verus! {

/// The state of a download in progress.
#[derive(Debug, Clone, Copy, PartialEq, Eq, Structural)]
pub struct DownloadProgress {
    /// Bytes written so far.
    pub downloaded: u64,
    /// The announced size in bytes; zero when unknown.
    pub total: u64,
}

/// The announced size given by an optional `content-length` value: zero
/// when it is absent or not an unsigned decimal.
pub open spec fn total_hint(content_length: Option<Seq<char>>) -> u64 {
    match content_length {
        Some(v) => match parsed_u64(v) {
            Some(n) => n,
            None => 0,
        },
        None => 0,
    }
}

/// What is reported in a given state: the bytes written and the announced
/// size, unless the size is known and already exceeded.
pub open spec fn report_of(p: DownloadProgress) -> Option<(u64, u64)> {
    if p.total == 0 || p.downloaded <= p.total {
        Some((p.downloaded, p.total))
    } else {
        None
    }
}

/// The sum of the chunk lengths.
pub open spec fn chunks_len(chunks: Seq<u64>) -> nat
    decreases chunks.len(),
{
    if chunks.len() == 0 {
        0
    } else {
        chunks_len(chunks.drop_last()) + chunks.last() as nat
    }
}

/// The state after a chunk of `len` bytes is written in state `p`.
pub open spec fn advance(p: DownloadProgress, len: u64) -> DownloadProgress {
    DownloadProgress { downloaded: (p.downloaded + len) as u64, total: p.total }
}

/// The state after the chunks, one after another, from a fresh start with
/// the announced size `total`.
pub open spec fn progress_after(total: u64, chunks: Seq<u64>) -> DownloadProgress
    decreases chunks.len(),
{
    if chunks.len() == 0 {
        DownloadProgress { downloaded: 0, total }
    } else {
        advance(progress_after(total, chunks.drop_last()), chunks.last())
    }
}

impl DownloadProgress {
    /// A download with nothing written yet and the announced size `total`.
    pub fn new(total: u64) -> (r: DownloadProgress)
        ensures
            r.downloaded == 0,
            r.total == total,
    {
        DownloadProgress { downloaded: 0, total }
    }

    /// A download with nothing written yet, whose size is announced by an
    /// optional `content-length` value.
    pub fn from_content_length(content_length: Option<&str>) -> (r: DownloadProgress)
        ensures
            r.downloaded == 0,
            r.total == total_hint(
                match content_length {
                    Some(v) => Some(v@),
                    None => None,
                },
            ),
    {
        let total = match content_length {
            Some(v) => match parse_u64(v) {
                Some(n) => n,
                None => 0,
            },
            None => 0,
        };
        DownloadProgress { downloaded: 0, total }
    }

    /// Accounts for a chunk of `len` bytes that was written, and returns
    /// what to report for it, if anything.
    pub fn record_chunk(&mut self, len: u64) -> (r: Option<(u64, u64)>)
        requires
            old(self).downloaded + len <= u64::MAX,
        ensures
            *final(self) == advance(*old(self), len),
            final(self).downloaded == old(self).downloaded + len,
            r == report_of(*final(self)),
    {
        self.downloaded = self.downloaded + len;
        if self.total == 0 || self.downloaded <= self.total {
            Some((self.downloaded, self.total))
        } else {
            None
        }
    }
}

/// The bytes counted after some chunks are their total length, and the
/// announced size stays as it was.
pub proof fn lemma_progress_counts_chunks(total: u64, chunks: Seq<u64>)
    requires
        chunks_len(chunks) <= u64::MAX,
    ensures
        progress_after(total, chunks).downloaded == chunks_len(chunks),
        progress_after(total, chunks).total == total,
    decreases chunks.len(),
{
    if chunks.len() > 0 {
        lemma_progress_counts_chunks(total, chunks.drop_last());
    }
}

/// Whatever the chunk boundaries, a download never reports more bytes
/// than a known announced size, always reports that size as announced,
/// and once every chunk is in, it has counted exactly the bytes of the
/// body.
pub proof fn lemma_progress_bounded(total: u64, chunks: Seq<u64>)
    requires
        chunks_len(chunks) <= u64::MAX,
    ensures
        forall|i: int|
            0 <= i <= chunks.len() ==> match #[trigger] report_of(
                progress_after(total, chunks.take(i)),
            ) {
                Some((current, announced)) => announced == total && (total != 0 ==> current
                    <= total),
                None => true,
            },
        progress_after(total, chunks).downloaded == chunks_len(chunks),
{
    assert forall|i: int| 0 <= i <= chunks.len() implies match #[trigger] report_of(
        progress_after(total, chunks.take(i)),
    ) {
        Some((current, announced)) => announced == total && (total != 0 ==> current <= total),
        None => true,
    } by {
        lemma_chunks_len_prefix(chunks, i);
        lemma_progress_counts_chunks(total, chunks.take(i));
    }
    lemma_progress_counts_chunks(total, chunks);
}

/// A prefix of the chunks is no longer than all of them.
proof fn lemma_chunks_len_prefix(chunks: Seq<u64>, i: int)
    requires
        0 <= i <= chunks.len(),
    ensures
        chunks_len(chunks.take(i)) <= chunks_len(chunks),
    decreases chunks.len() - i,
{
    if i < chunks.len() {
        lemma_chunks_len_prefix(chunks, i + 1);
        assert(chunks.take(i + 1).drop_last() =~= chunks.take(i));
    } else {
        assert(chunks.take(i) =~= chunks);
    }
}

} // verus!
