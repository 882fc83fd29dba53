//! The resumable, retry-driven downloader's bookkeeping.
//!
//! The network stream itself lives in the unverified shell; this module owns
//! the download session: the accumulated buffer, the resume offset, the
//! progress figure and the saturating attempt counter. Each received chunk
//! is appended here; each failed attempt is charged here; what the whole
//! loop guarantees — the buffer is always a prefix of the remote content, a
//! completed download is byte-identical to it however many attempts were
//! needed, and the attempt budget is honoured — is stated and proved here.

use vstd::prelude::*;

verus! {

/// Why a download failed.
#[derive(Debug, PartialEq, Eq, Structural, Clone, Copy)]
pub enum DownloadError {
    /// The attempt budget was exhausted.
    RetriesExceeded,
}

/// A handle on the artifact source, carrying the configured network timeout
/// in seconds. The connections themselves are the shell's.
pub struct Client {
    pub timeout: Option<u64>,
}

impl Client {
    /// A client with the given request timeout.
    pub fn new(timeout: Option<u64>) -> (r: Result<Client, DownloadError>)
        ensures
            r is Ok,
            r->Ok_0.timeout == timeout,
    {
        Ok(Client { timeout })
    }
}

/// `p` is what a download holds after some prefix of the remote content
/// arrived: the first `p.len()` bytes of it, exactly.
pub open spec fn is_prefix_of(p: Seq<u8>, whole: Seq<u8>) -> bool {
    p.len() <= whole.len() && p == whole.take(p.len() as int)
}

/// The attempt counter after one more attempt: it grows but never wraps past
/// its maximum representable value.
pub open spec fn next_attempt_count(n: usize) -> usize {
    if n == usize::MAX {
        usize::MAX
    } else {
        (n + 1) as usize
    }
}

/// Whether attempt number `n` is within the budget; a budget of zero means
/// unlimited retries.
pub open spec fn attempt_allowed(n: usize, max_attempts: usize) -> bool {
    max_attempts == 0 || n <= max_attempts
}

/// One download attempt sequence: the accumulated buffer, the total size the
/// server reported (zero while unknown), and how many attempts were charged.
/// Transient failures preserve the buffer, so the next attempt resumes where
/// the failed one stopped.
pub struct DownloadSession {
    /// The bytes accumulated across attempts.
    pub buf: Vec<u8>,
    /// The total artifact size in bytes, zero while unknown.
    pub total: u64,
    /// How many attempts were started.
    pub attempts: usize,
}

impl DownloadSession {
    /// A fresh session: nothing received, total unknown, no attempt charged.
    pub fn new() -> (s: DownloadSession)
        ensures
            s.buf@ == Seq::<u8>::empty(),
            s.total == 0,
            s.attempts == 0,
    {
        DownloadSession { buf: Vec::new(), total: 0, attempts: 0 }
    }

    /// Charges one attempt against the budget and says whether it may run:
    /// the retries-exceeded error when the budget is spent. The counter
    /// saturates rather than wrap; the buffer and offset are untouched, so
    /// the attempt resumes rather than restart.
    pub fn begin_attempt(&mut self, max_attempts: usize) -> (r: Result<(), DownloadError>)
        ensures
            final(self).attempts == next_attempt_count(old(self).attempts),
            final(self).buf == old(self).buf,
            final(self).total == old(self).total,
            r is Ok <==> attempt_allowed(final(self).attempts, max_attempts),
            r is Err ==> r == Err::<(), DownloadError>(DownloadError::RetriesExceeded),
    {
        if self.attempts < usize::MAX {
            self.attempts = self.attempts + 1;
        }
        if max_attempts == 0 || self.attempts <= max_attempts {
            Ok(())
        } else {
            Err(DownloadError::RetriesExceeded)
        }
    }

    /// Records the total size the server reported.
    pub fn set_total(&mut self, total: u64)
        ensures
            final(self).total == total,
            final(self).buf == old(self).buf,
            final(self).attempts == old(self).attempts,
    {
        self.total = total;
    }

    /// The byte offset the next attempt resumes from: exactly what was
    /// already accumulated, so no byte range is requested twice.
    pub fn resume_offset(&self) -> (off: usize)
        ensures
            off == self.buf@.len(),
    {
        self.buf.len()
    }

    /// Appends one received chunk to the buffer.
    pub fn append_chunk(&mut self, chunk: &Vec<u8>)
        requires
            old(self).buf@.len() + chunk@.len() <= usize::MAX,
        ensures
            final(self).buf@ == old(self).buf@ + chunk@,
            final(self).total == old(self).total,
            final(self).attempts == old(self).attempts,
    {
        let mut i: usize = 0;
        while i < chunk.len()
            invariant
                i <= chunk.len(),
                self.buf@ == old(self).buf@ + chunk@.take(i as int),
                self.buf@.len() == old(self).buf@.len() + i,
                old(self).buf@.len() + chunk@.len() <= usize::MAX,
                self.total == old(self).total,
                self.attempts == old(self).attempts,
            decreases chunk.len() - i,
        {
            self.buf.push(chunk[i]);
            i = i + 1;
            proof {
                assert(self.buf@ =~= old(self).buf@ + chunk@.take(i as int));
            }
        }
        proof {
            assert(self.buf@ =~= old(self).buf@ + chunk@);
        }
    }

    /// The progress percentage to report after a chunk: accumulated over
    /// total, as a whole percentage; zero while the total is unknown, so no
    /// division by zero can occur, and never over one hundred, even if a
    /// server that ignored the resume offset sent more than the total.
    pub fn progress_percent(&self) -> (p: u64)
        ensures
            self.total == 0 ==> p == 0,
            self.total > 0 && self.buf@.len() <= self.total ==> p as int == (self.buf@.len()
                as int) * 100 / (self.total as int),
            p <= 100,
    {
        if self.total == 0 {
            0
        } else {
            let q = (self.buf.len() as u128 * 100) / (self.total as u128);
            proof {
                if self.buf@.len() <= self.total {
                    assert((self.buf@.len() as int) * 100 / (self.total as int) <= 100)
                        by (nonlinear_arith)
                        requires
                            self.buf@.len() <= self.total,
                            self.total >= 1,
                    ;
                }
            }
            if q >= 100 {
                100
            } else {
                q as u64
            }
        }
    }
}

/// A chunk that continues the remote content exactly at the buffer's resume
/// offset keeps the buffer a prefix of the remote content.
pub proof fn lemma_chunk_preserves_prefix(buf: Seq<u8>, chunk: Seq<u8>, remote: Seq<u8>)
    requires
        is_prefix_of(buf, remote),
        buf.len() + chunk.len() <= remote.len(),
        chunk == remote.subrange(buf.len() as int, buf.len() + chunk.len() as int),
    ensures
        is_prefix_of(buf + chunk, remote),
{
    assert(buf + chunk =~= remote.take(buf.len() + chunk.len() as int));
}

/// Resume correctness: a download interrupted after any number of bytes and
/// resumed from its offset ends with exactly the remote content — the final
/// buffer has exactly the expected length, with no byte range duplicated or
/// missing.
pub proof fn lemma_resume_completes_exactly(buf: Seq<u8>, rest: Seq<u8>, remote: Seq<u8>)
    requires
        is_prefix_of(buf, remote),
        rest == remote.skip(buf.len() as int),
    ensures
        buf + rest == remote,
        (buf + rest).len() == remote.len(),
{
    assert(buf + rest =~= remote);
}

/// Retry transparency: any two downloads of the same remote content that ran
/// to completion hold byte-identical buffers — however many transient
/// failures either needed — and both hold the remote content itself.
pub proof fn lemma_download_content_unique(b1: Seq<u8>, b2: Seq<u8>, remote: Seq<u8>)
    requires
        is_prefix_of(b1, remote),
        b1.len() == remote.len(),
        is_prefix_of(b2, remote),
        b2.len() == remote.len(),
    ensures
        b1 == b2,
        b1 == remote,
{
    assert(b1 =~= remote);
    assert(b2 =~= remote);
}

/// The attempt budget is honoured: every attempt up to the budget's last is
/// allowed, and after exactly `max_attempts` consecutive failures the next
/// attempt is refused, so the download fails with the retries-exceeded
/// error and no further attempt runs.
pub proof fn lemma_retries_exceeded(max_attempts: usize)
    requires
        1 <= max_attempts < usize::MAX,
    ensures
        forall|n: usize| n < max_attempts ==> attempt_allowed(next_attempt_count(n), max_attempts),
        !attempt_allowed(next_attempt_count(max_attempts), max_attempts),
{
}

} // verus!
