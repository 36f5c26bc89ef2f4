use vstd::prelude::*;

use crate::stats::{StatsView, TransferStats};

verus! {

/// Why a download job failed.
#[derive(PartialEq, Eq, Debug)]
pub enum DownloadError {
    /// The request could not be sent, or the response body broke off.
    Network(String),
    /// The destination file could not be created or written.
    Filesystem(String),
}

impl DownloadError {
    /// A one-line description of the failure for the user.
    pub fn describe(&self) -> (r: String)
        ensures
            r@ == match self {
                DownloadError::Network(m) => "network error: "@ + m@,
                DownloadError::Filesystem(m) => "file error: "@ + m@,
            },
    {
        match self {
            DownloadError::Network(m) => String::from_str("network error: ").concat(m.as_str()),
            DownloadError::Filesystem(m) => String::from_str("file error: ").concat(m.as_str()),
        }
    }
}

/// What one job comes to: the number of bytes written to its file, or why it failed.
pub type DownloadOutcome = Result<u64, DownloadError>;

/// Where a job stands.
#[derive(PartialEq, Eq, Structural, Clone, Copy, Debug)]
pub enum Phase {
    /// The GET request is in flight.
    Requesting,
    /// A response came; the destination file is being created.
    Opening,
    /// Chunks of the body are being written to the file.
    Streaming,
    /// The whole body was written.
    Succeeded,
    /// The job stopped on an error; the partial file stays on disk.
    Failed,
}

/// What the driver of a job observed after carrying out the last action.
#[derive(Debug)]
pub enum Event {
    /// The response arrived, with the content length the server declared, if any.
    Responded { content_length: Option<u64> },
    /// The request could not be sent.
    RequestFailed { message: String },
    /// The destination file was created (or truncated).
    FileCreated,
    /// Creating the destination file, or writing a chunk to it, failed.
    FileFailed { message: String },
    /// A chunk of `len` bytes was received and written in full to the file.
    ChunkWritten { len: u64 },
    /// Reading the next chunk of the body failed.
    StreamFailed { message: String },
    /// The body ended.
    StreamEnded,
}

/// What the driver of a job must do next.
#[derive(PartialEq, Eq, Debug)]
pub enum Action {
    /// Create or truncate the destination file.
    CreateFile,
    /// Read the next chunk of the body and write it to the file.
    ReadChunk,
    /// The job is over, with this outcome.
    Finish(DownloadOutcome),
}

/// Sum of a sequence of lengths.
pub open spec fn sum(s: Seq<nat>) -> nat
    decreases s.len(),
{
    if s.len() == 0 {
        0
    } else {
        sum(s.drop_last()) + s.last()
    }
}

/// An optional counter as a mathematical number.
pub open spec fn opt_nat(o: Option<u64>) -> Option<nat> {
    match o {
        Some(n) => Some(n as nat),
        None => None,
    }
}

/// Mathematical view of one job: its phase, the content length its server
/// declared, and the lengths of the chunks written to its file, in order.
pub struct DownloadView {
    pub phase: Phase,
    pub advertised: Option<nat>,
    pub chunks: Seq<nat>,
}

impl DownloadView {
    /// Bytes written to the destination file so far.
    pub open spec fn written(self) -> nat {
        sum(self.chunks)
    }

    /// What this job contributes to the expected total: its declared length,
    /// or nothing when the server declared none.
    pub open spec fn contributed_total(self) -> nat {
        match self.advertised {
            Some(n) => n,
            None => 0,
        }
    }

    /// The events that can follow the action issued in this phase.
    pub open spec fn expects(self, e: Event) -> bool {
        match self.phase {
            Phase::Requesting => e is Responded || e is RequestFailed,
            Phase::Opening => e is FileCreated || e is FileFailed,
            Phase::Streaming => e is ChunkWritten || e is FileFailed || e is StreamFailed
                || e is StreamEnded,
            _ => false,
        }
    }

    /// The counters of this job and of the shared stats stay within `u64`.
    pub open spec fn fits(self, s: StatsView, e: Event) -> bool {
        match e {
            Event::Responded { content_length: Some(n) } => s.total + n <= u64::MAX,
            Event::ChunkWritten { len } => s.downloaded + len <= u64::MAX && self.written() + len
                <= u64::MAX,
            _ => true,
        }
    }

    /// The job after `e`.
    pub open spec fn next(self, e: Event) -> DownloadView {
        match e {
            Event::Responded { content_length } => DownloadView {
                phase: Phase::Opening,
                advertised: opt_nat(content_length),
                chunks: self.chunks,
            },
            Event::FileCreated => DownloadView { phase: Phase::Streaming, ..self },
            Event::ChunkWritten { len } => DownloadView {
                chunks: self.chunks.push(len as nat),
                ..self
            },
            Event::StreamEnded => DownloadView { phase: Phase::Succeeded, ..self },
            _ => DownloadView { phase: Phase::Failed, ..self },
        }
    }

    /// The action that answers `e`.
    pub open spec fn action_for(self, e: Event) -> Action {
        match e {
            Event::Responded { .. } => Action::CreateFile,
            Event::RequestFailed { message } => Action::Finish(
                Err(DownloadError::Network(message)),
            ),
            Event::FileCreated => Action::ReadChunk,
            Event::FileFailed { message } => Action::Finish(
                Err(DownloadError::Filesystem(message)),
            ),
            Event::ChunkWritten { .. } => Action::ReadChunk,
            Event::StreamFailed { message } => Action::Finish(
                Err(DownloadError::Network(message)),
            ),
            Event::StreamEnded => Action::Finish(Ok(self.written() as u64)),
        }
    }
}

/// The shared counters after `e`: a declared length grows the total, a
/// written chunk grows the downloaded bytes, and nothing else touches them.
pub open spec fn stats_after(s: StatsView, e: Event) -> StatsView {
    match e {
        Event::Responded { content_length: Some(n) } => StatsView {
            downloaded: s.downloaded,
            total: (s.total + n) as nat,
        },
        Event::ChunkWritten { len } => StatsView { downloaded: (s.downloaded + len) as nat, total: s.total },
        _ => s,
    }
}

/// One URL-to-file job, driven event by event.
pub struct Download {
    phase: Phase,
    advertised: Option<u64>,
    written: u64,
    chunks: Ghost<Seq<nat>>,
}

impl View for Download {
    type V = DownloadView;

    closed spec fn view(&self) -> DownloadView {
        DownloadView {
            phase: self.phase,
            advertised: opt_nat(self.advertised),
            chunks: self.chunks@,
        }
    }
}

impl Download {
    /// The byte counter agrees with the chunks written.
    pub closed spec fn wf(&self) -> bool {
        self.written as nat == sum(self.chunks@)
    }

    /// A job whose request is about to be sent.
    pub fn new() -> (r: Download)
        ensures
            r.wf(),
            r@ == (DownloadView { phase: Phase::Requesting, advertised: None, chunks: seq![] }),
    {
        Download { phase: Phase::Requesting, advertised: None, written: 0, chunks: Ghost(Seq::empty()) }
    }

    pub fn phase(&self) -> (r: Phase)
        ensures
            r == self@.phase,
    {
        self.phase
    }

    /// Bytes written to the destination file so far.
    pub fn bytes_written(&self) -> (r: u64)
        requires
            self.wf(),
        ensures
            r == self@.written(),
    {
        self.written
    }

    /// The content length the server declared, once the response has come.
    pub fn content_length(&self) -> (r: Option<u64>)
        ensures
            opt_nat(r) == self@.advertised,
    {
        self.advertised
    }

    /// Whether `step` may be given `event` now: it belongs to this phase and
    /// no counter would overflow.
    pub fn accepts(&self, stats: &TransferStats, event: &Event) -> (r: bool)
        requires
            self.wf(),
        ensures
            r == (self@.expects(*event) && self@.fits(stats@, *event)),
    {
        let expected = match self.phase {
            Phase::Requesting => match event {
                Event::Responded { .. } | Event::RequestFailed { .. } => true,
                _ => false,
            },
            Phase::Opening => match event {
                Event::FileCreated | Event::FileFailed { .. } => true,
                _ => false,
            },
            Phase::Streaming => match event {
                Event::ChunkWritten { .. } | Event::FileFailed { .. } | Event::StreamFailed { .. }
                | Event::StreamEnded => true,
                _ => false,
            },
            _ => false,
        };
        let fits = match event {
            Event::Responded { content_length: Some(n) } => stats.can_add_total(*n),
            Event::ChunkWritten { len } => stats.can_add_downloaded(*len) && *len <= u64::MAX
                - self.written,
            _ => true,
        };
        expected && fits
    }

    /// Applies `event` to this job and to the shared counters, and returns
    /// the next action.
    pub fn step(&mut self, stats: &mut TransferStats, event: Event) -> (r: Action)
        requires
            old(self).wf(),
            old(self)@.expects(event),
            old(self)@.fits(old(stats)@, event),
        ensures
            final(self).wf(),
            final(self)@ == old(self)@.next(event),
            final(stats)@ == stats_after(old(stats)@, event),
            r == old(self)@.action_for(event),
            final(stats)@.downloaded >= old(stats)@.downloaded,
            final(stats)@.total >= old(stats)@.total,
    {
        match event {
            Event::Responded { content_length } => {
                if let Some(n) = content_length {
                    stats.add_total(n);
                }
                self.advertised = content_length;
                self.phase = Phase::Opening;
                Action::CreateFile
            },
            Event::RequestFailed { message } => {
                self.phase = Phase::Failed;
                Action::Finish(Err(DownloadError::Network(message)))
            },
            Event::FileCreated => {
                self.phase = Phase::Streaming;
                Action::ReadChunk
            },
            Event::FileFailed { message } => {
                self.phase = Phase::Failed;
                Action::Finish(Err(DownloadError::Filesystem(message)))
            },
            Event::ChunkWritten { len } => {
                proof {
                    assert(self.chunks@.push(len as nat).drop_last() =~= self.chunks@);
                }
                self.written = self.written + len;
                self.chunks = Ghost(self.chunks@.push(len as nat));
                stats.add_downloaded(len);
                Action::ReadChunk
            },
            Event::StreamFailed { message } => {
                self.phase = Phase::Failed;
                Action::Finish(Err(DownloadError::Network(message)))
            },
            Event::StreamEnded => {
                self.phase = Phase::Succeeded;
                Action::Finish(Ok(self.written))
            },
        }
    }
}

} // verus!
