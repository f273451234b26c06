//! The resumable download state machine.
//!
//! A transfer moves `Queued -> Downloading -> {Completed | Paused | Failed |
//! Cancelled}`. The machine decides; the transport obeys: callers perform
//! the HTTP request a [`RequestPlan`] describes, feed the response status
//! and each received chunk back in, and write chunk bytes to their sink in
//! arrival order. A paused transfer leaves behind a [`ResumeCheckpoint`],
//! the only state a later resume needs; resuming asks for a byte range and
//! insists on a partial-content answer, since any other status means the
//! server ignored the range and appending would duplicate data.

use vstd::prelude::*;
use crate::error::CoreError;
use crate::progress::DownloadState;

verus! {

/// Persisted checkpoint of an interrupted transfer.
#[derive(Debug, Clone)]
pub struct ResumeCheckpoint {
    /// Source URL of the transfer.
    pub url: String,
    /// Bytes already written to the sink.
    pub bytes_downloaded: u64,
    /// Total bytes expected, or 0 while unknown.
    pub total_bytes: u64,
    /// User-agent string the original request was made with.
    pub user_agent: String,
}

/// What the transport must send: a GET for the URL, carrying the mandatory
/// user-agent, and a byte-range start where the transfer resumes.
#[derive(Debug, Clone)]
pub struct RequestPlan {
    /// URL to fetch.
    pub url: String,
    /// User-agent header value; the origin rejects default or empty agents.
    pub user_agent: String,
    /// First byte asked for, where this continues an earlier transfer.
    pub range_start: Option<u64>,
}

/// One transfer's control state.
#[derive(Debug)]
pub struct Transfer {
    /// Lifecycle state.
    pub state: DownloadState,
    /// Bytes written to the sink so far, including bytes a resumed
    /// transfer inherited.
    pub bytes_written: u64,
    /// Total bytes expected, or 0 while unknown.
    pub total_bytes: u64,
    /// Offset this transfer resumed from; 0 for a fresh transfer.
    pub resumed_from: u64,
    /// Source URL.
    pub url: String,
    /// User-agent the transfer was started with.
    pub user_agent: String,
}

impl Transfer {
    /// A fresh transfer from byte zero, and the plain request to send.
    pub fn begin(url: String, user_agent: String) -> (r: (Transfer, RequestPlan))
        ensures
            r.0.state == DownloadState::Queued,
            r.0.bytes_written == 0,
            r.0.total_bytes == 0,
            r.0.resumed_from == 0,
            r.0.url@ == url@,
            r.0.user_agent@ == user_agent@,
            r.1.url@ == url@,
            r.1.user_agent@ == user_agent@,
            r.1.range_start is None,
    {
        let transfer = Transfer {
            state: DownloadState::Queued,
            bytes_written: 0,
            total_bytes: 0,
            resumed_from: 0,
            url: url.clone(),
            user_agent: user_agent.clone(),
        };
        let plan = RequestPlan { url, user_agent, range_start: None };
        (transfer, plan)
    }

    /// A transfer continuing from a checkpoint, and the byte-range request
    /// to send: `Range: bytes={already written}-` with the original
    /// user-agent.
    pub fn resume(checkpoint: ResumeCheckpoint) -> (r: (Transfer, RequestPlan))
        requires
            checkpoint.bytes_downloaded > 0,
        ensures
            r.0.state == DownloadState::Queued,
            r.0.bytes_written == checkpoint.bytes_downloaded,
            r.0.total_bytes == checkpoint.total_bytes,
            r.0.resumed_from == checkpoint.bytes_downloaded,
            r.0.url@ == checkpoint.url@,
            r.0.user_agent@ == checkpoint.user_agent@,
            r.1.url@ == checkpoint.url@,
            r.1.user_agent@ == checkpoint.user_agent@,
            r.1.range_start == Some(checkpoint.bytes_downloaded),
    {
        let transfer = Transfer {
            state: DownloadState::Queued,
            bytes_written: checkpoint.bytes_downloaded,
            total_bytes: checkpoint.total_bytes,
            resumed_from: checkpoint.bytes_downloaded,
            url: checkpoint.url.clone(),
            user_agent: checkpoint.user_agent.clone(),
        };
        let plan = RequestPlan {
            url: checkpoint.url,
            user_agent: checkpoint.user_agent,
            range_start: Some(checkpoint.bytes_downloaded),
        };
        (transfer, plan)
    }

    /// Judges the response status. A fresh transfer needs a 200 and takes
    /// the reported length as its total; a resumed transfer needs a 206 —
    /// on any other status it fails with `ResumeNotSupported` and the sink
    /// is to be left exactly as it was, neither truncated nor appended.
    pub fn on_response(&mut self, status: u16, content_length: Option<u64>) -> (r: Result<
        (),
        CoreError,
    >)
        requires
            old(self).state == DownloadState::Queued,
        ensures
            final(self).bytes_written == old(self).bytes_written,
            final(self).resumed_from == old(self).resumed_from,
            final(self).url == old(self).url,
            final(self).user_agent == old(self).user_agent,
            old(self).resumed_from > 0 ==> (r is Ok <==> status == 206),
            old(self).resumed_from == 0 ==> (r is Ok <==> status == 200),
            r is Ok ==> final(self).state == DownloadState::Downloading,
            r is Ok ==> final(self).total_bytes == (if old(self).resumed_from > 0 {
                old(self).total_bytes
            } else {
                match content_length {
                    Option::Some(n) => n,
                    Option::None => 0u64,
                }
            }),
            r is Err ==> final(self).state == DownloadState::Failed && final(self).total_bytes
                == old(self).total_bytes,
            old(self).resumed_from > 0 ==> (r matches Err(e) ==> e is ResumeNotSupported),
            old(self).resumed_from == 0 ==> (r matches Err(e) ==> e is ApiRequestFailed),
    {
        if self.resumed_from > 0 {
            if status != 206 {
                self.state = DownloadState::Failed;
                return Err(CoreError::ResumeNotSupported);
            }
            self.state = DownloadState::Downloading;
            Ok(())
        } else {
            if status != 200 {
                self.state = DownloadState::Failed;
                return Err(
                    CoreError::ApiRequestFailed("unexpected response status".to_owned()),
                );
            }
            self.total_bytes = match content_length {
                Some(n) => n,
                None => 0,
            };
            self.state = DownloadState::Downloading;
            Ok(())
        }
    }

    /// Accounts for one chunk written whole to the sink. The position only
    /// ever moves forward, so successive snapshots are non-decreasing.
    pub fn on_chunk(&mut self, chunk_len: usize)
        requires
            old(self).state == DownloadState::Downloading,
            old(self).bytes_written + chunk_len <= u64::MAX,
        ensures
            final(self).bytes_written == old(self).bytes_written + chunk_len,
            final(self).bytes_written >= old(self).bytes_written,
            final(self).state == DownloadState::Downloading,
            final(self).total_bytes == old(self).total_bytes,
            final(self).resumed_from == old(self).resumed_from,
            final(self).url == old(self).url,
            final(self).user_agent == old(self).user_agent,
    {
        self.bytes_written = self.bytes_written + (chunk_len as u64);
    }

    /// Pauses the transfer on a cooperative cancellation signal, observed
    /// between chunk reads, and returns the checkpoint that alone suffices
    /// to resume. The position is exactly the bytes written: no partial
    /// chunk is ever recorded.
    pub fn cancel(&mut self) -> (checkpoint: ResumeCheckpoint)
        requires
            old(self).state == DownloadState::Downloading,
        ensures
            final(self).state == DownloadState::Paused,
            final(self).bytes_written == old(self).bytes_written,
            final(self).total_bytes == old(self).total_bytes,
            final(self).resumed_from == old(self).resumed_from,
            final(self).url == old(self).url,
            final(self).user_agent == old(self).user_agent,
            checkpoint.url@ == old(self).url@,
            checkpoint.bytes_downloaded == old(self).bytes_written,
            checkpoint.total_bytes == old(self).total_bytes,
            checkpoint.user_agent@ == old(self).user_agent@,
    {
        self.state = DownloadState::Paused;
        ResumeCheckpoint {
            url: self.url.clone(),
            bytes_downloaded: self.bytes_written,
            total_bytes: self.total_bytes,
            user_agent: self.user_agent.clone(),
        }
    }

    /// Ends the transfer when the stream is exhausted and reports whether
    /// the bytes written match the expected total. A mismatch is reported,
    /// not raised: some servers omit or misstate the length, so the caller
    /// decides whether to treat it as fatal.
    pub fn finish(&mut self) -> (matched: bool)
        requires
            old(self).state == DownloadState::Downloading,
        ensures
            final(self).state == DownloadState::Completed,
            final(self).bytes_written == old(self).bytes_written,
            final(self).total_bytes == old(self).total_bytes,
            final(self).resumed_from == old(self).resumed_from,
            final(self).url == old(self).url,
            final(self).user_agent == old(self).user_agent,
            matched == (old(self).total_bytes == 0 || old(self).bytes_written == old(
                self,
            ).total_bytes),
    {
        self.state = DownloadState::Completed;
        self.total_bytes == 0 || self.bytes_written == self.total_bytes
    }

    /// Fails the transfer on a transport error or timeout. The bytes
    /// already written stay on disk, so a later resume loses nothing.
    pub fn fail(&mut self)
        ensures
            final(self).state == DownloadState::Failed,
            final(self).bytes_written == old(self).bytes_written,
            final(self).total_bytes == old(self).total_bytes,
            final(self).resumed_from == old(self).resumed_from,
            final(self).url == old(self).url,
            final(self).user_agent == old(self).user_agent,
    {
        self.state = DownloadState::Failed;
    }
}

/// Appends one transport chunk whole to an in-order sink. Bytes land in
/// arrival order; nothing is reordered or dropped.
pub fn append_chunk(sink: &mut Vec<u8>, chunk: &[u8])
    requires
        old(sink)@.len() + chunk@.len() <= usize::MAX,
    ensures
        final(sink)@ == old(sink)@ + chunk@,
{
    let mut i: usize = 0;
    while i < chunk.len()
        invariant
            i <= chunk@.len(),
            sink@ == old(sink)@ + chunk@.subrange(0, i as int),
            old(sink)@.len() + chunk@.len() <= usize::MAX,
        decreases chunk@.len() - i,
    {
        sink.push(chunk[i]);
        proof {
            assert(old(sink)@ + chunk@.subrange(0, i as int + 1) =~= (old(sink)@ + chunk@.subrange(
                0,
                i as int,
            )).push(chunk@[i as int]));
        }
        i = i + 1;
    }
    proof {
        assert(chunk@.subrange(0, chunk@.len() as int) =~= chunk@);
    }
}

/// Resume rebuilds the identical file: writing the first `split` bytes of
/// the data, checkpointing, and then writing the rest from that offset
/// yields byte-for-byte the same content as one uninterrupted pass.
pub proof fn lemma_resume_rebuilds_identical(data: Seq<u8>, split: int)
    requires
        0 <= split <= data.len(),
    ensures
        data.subrange(0, split) + data.subrange(split, data.len() as int) == data,
{
    assert(data.subrange(0, split) + data.subrange(split, data.len() as int) =~= data);
}

} // verus!
