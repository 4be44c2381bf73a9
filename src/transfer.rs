use crate::download::{local_of, remote_of, DownloadError, Downloadable};
use vstd::prelude::*;

verus! {

/// How a transfer reports its progress.
#[derive(Debug, Clone, Copy, PartialEq, Eq, Structural)]
pub enum Verbose {
    /// No indicator.
    Quiet,
    /// A standalone indicator, sized to the declared total.
    Loud,
    /// A row handed over by the caller, such as one slot of a batch display.
    Ext,
}

/// Where a transfer stands.
#[derive(Debug, Clone, Copy, PartialEq, Eq, Structural)]
pub enum Stage {
    /// The GET is to be sent.
    Requesting,
    /// Headers are in; the local file is to be created.
    Opening,
    /// Body chunks are being read and written.
    Streaming,
    /// The body has ended; the file is to be flushed.
    Flushing,
    /// The file is complete.
    Done,
    /// The transfer stopped for this reason.
    Failed(DownloadError),
}

/// What came of the last action the driver performed.
#[derive(Debug, Clone, Copy, PartialEq, Eq, Structural)]
pub enum Event {
    /// Response headers arrived: the HTTP status, and the content length if
    /// the server sent one.
    Response(u16, Option<u64>),
    /// The request could not be made.
    RequestFailed,
    /// The local file was created, or truncated.
    Created,
    /// The local file could not be created.
    CreateFailed,
    /// A body chunk of this many bytes was read and written to the file.
    Chunk(u64),
    /// Reading the body failed.
    ReadFailed,
    /// Writing a chunk to the file failed.
    WriteFailed,
    /// The body has no more chunks.
    EndOfBody,
    /// The file was flushed.
    Flushed,
    /// Flushing the file failed.
    FlushFailed,
}

/// What the driver is to do next.
#[derive(Debug)]
pub enum Action {
    /// Send a GET for this URL.
    Get(String),
    /// Create (or truncate) the file at this path.
    Create(String),
    /// Read the next body chunk, write it, and report it.
    Read,
    /// Flush the file.
    Flush,
    /// Nothing more: the outcome is settled.
    Finish,
}

/// What a progress indicator shows for a transfer.
#[derive(Debug, Clone, Copy, PartialEq, Eq, Structural)]
pub struct Progress {
    pub position: u64,
    pub length: u64,
    pub finished: bool,
}

/// The sum of a sequence of chunk lengths.
pub open spec fn sum(s: Seq<u64>) -> nat
    decreases s.len(),
{
    if s.len() == 0 {
        0
    } else {
        sum(s.drop_last()) + s.last() as nat
    }
}

/// Whether an HTTP status is a success (2xx).
pub open spec fn is_success(status: u16) -> bool {
    200 <= status < 300
}

/// The stage that follows `stage` on `ev`, with `written` bytes already in the
/// file. An event that does not belong to the stage changes nothing.
pub open spec fn stage_after(stage: Stage, written: u64, ev: Event) -> Stage {
    match (stage, ev) {
        (Stage::Requesting, Event::Response(status, _)) => if is_success(status) {
            Stage::Opening
        } else {
            Stage::Failed(DownloadError::HttpStatus)
        },
        (Stage::Requesting, Event::RequestFailed) => Stage::Failed(DownloadError::Network),
        (Stage::Opening, Event::Created) => Stage::Streaming,
        (Stage::Opening, Event::CreateFailed) => Stage::Failed(DownloadError::FileCreate),
        (Stage::Streaming, Event::Chunk(n)) => if written + n <= u64::MAX {
            Stage::Streaming
        } else {
            Stage::Failed(DownloadError::TooLarge)
        },
        (Stage::Streaming, Event::ReadFailed) => Stage::Failed(DownloadError::Network),
        (Stage::Streaming, Event::WriteFailed) => Stage::Failed(DownloadError::FileWrite),
        (Stage::Streaming, Event::EndOfBody) => Stage::Flushing,
        (Stage::Flushing, Event::Flushed) => Stage::Done,
        (Stage::Flushing, Event::FlushFailed) => Stage::Failed(DownloadError::FileWrite),
        _ => stage,
    }
}

/// `r` is what setting up the transfer of `dl` gives: an error naming the
/// first missing location, else a fresh transfer of the item's URL to its path.
pub open spec fn started<D: Downloadable>(dl: D, verbose: Verbose, r: Result<Transfer, DownloadError>) -> bool {
    match (remote_of(dl.info()), local_of(dl.info())) {
        (None, _) => r == Err::<Transfer, DownloadError>(DownloadError::MissingServerPath),
        (Some(_), None) => r == Err::<Transfer, DownloadError>(DownloadError::MissingLocalPath),
        (Some(u), Some(p)) => r matches Ok(t) && {
            &&& t.wf()
            &&& t.url@ == u
            &&& t.path@ == p
            &&& t.verbose == verbose
            &&& t.stage == Stage::Requesting
            &&& t.total == 0
            &&& t.written == 0
            &&& t.chunks@ == Seq::<u64>::empty()
        },
    }
}

/// `new` is what `t` becomes on `ev`: every field follows from the stage, the
/// byte count and the total of `t`, and from `ev`, alone.
pub open spec fn stepped(t: Transfer, ev: Event, new: Transfer) -> bool {
    let fits = match ev {
        Event::Chunk(n) => t.written + n <= u64::MAX,
        _ => false,
    };
    &&& new.stage == stage_after(t.stage, t.written, ev)
    &&& new.url == t.url
    &&& new.path == t.path
    &&& new.verbose == t.verbose
    &&& new.total == match (t.stage, ev) {
        (Stage::Requesting, Event::Response(status, Some(n))) => if is_success(status) {
            n
        } else {
            t.total
        },
        (Stage::Requesting, Event::Response(status, None)) => if is_success(status) {
            0
        } else {
            t.total
        },
        _ => t.total,
    }
    &&& new.written == match (t.stage, ev) {
        (Stage::Streaming, Event::Chunk(n)) => if fits {
            (t.written + n) as u64
        } else {
            t.written
        },
        _ => t.written,
    }
    &&& new.chunks@ == match (t.stage, ev) {
        (Stage::Streaming, Event::Chunk(n)) => if fits {
            t.chunks@.push(n)
        } else {
            t.chunks@
        },
        _ => t.chunks@,
    }
}

/// One item's fetch: a GET streamed into a local file.
pub struct Transfer {
    pub url: String,
    pub path: String,
    pub verbose: Verbose,
    /// The declared content length, or 0 while unknown.
    pub total: u64,
    /// Bytes written to the local file so far.
    pub written: u64,
    pub stage: Stage,
    /// The lengths of the chunks written, in order.
    pub chunks: Ghost<Seq<u64>>,
}

impl Transfer {
    /// The byte count matches the chunks written.
    pub open spec fn wf(&self) -> bool {
        self.written == sum(self.chunks@)
    }

    /// Sets up the transfer of `dl`. Fails, before any request is made, when
    /// the item yields no remote URL or no local path.
    pub fn start<D: Downloadable>(dl: &D, verbose: Verbose) -> (r: Result<Transfer, DownloadError>)
        ensures
            started(*dl, verbose, r),
    {
        let url = match dl.serverfile() {
            Some(u) => u,
            None => return Err(DownloadError::MissingServerPath),
        };
        let path = match dl.localfile() {
            Some(p) => p,
            None => return Err(DownloadError::MissingLocalPath),
        };
        Ok(Transfer {
            url,
            path,
            verbose,
            total: 0,
            written: 0,
            stage: Stage::Requesting,
            chunks: Ghost(Seq::empty()),
        })
    }

    /// The action that the current stage calls for.
    pub fn next_action(&self) -> (r: Action)
        ensures
            self.stage == Stage::Requesting ==> (r matches Action::Get(u) && u@ == self.url@),
            self.stage == Stage::Opening ==> (r matches Action::Create(p) && p@ == self.path@),
            self.stage == Stage::Streaming ==> r is Read,
            self.stage == Stage::Flushing ==> r is Flush,
            (self.stage is Done || self.stage is Failed) ==> r is Finish,
    {
        match self.stage {
            Stage::Requesting => Action::Get(self.url.clone()),
            Stage::Opening => Action::Create(self.path.clone()),
            Stage::Streaming => Action::Read,
            Stage::Flushing => Action::Flush,
            _ => Action::Finish,
        }
    }

    /// Takes in what came of the last action.
    pub fn step(&mut self, ev: Event)
        requires
            old(self).wf(),
        ensures
            final(self).wf(),
            stepped(*old(self), ev, *final(self)),
    {
        let stage = self.stage;
        match (stage, ev) {
            (Stage::Requesting, Event::Response(status, len)) => {
                if 200 <= status && status < 300 {
                    self.total = match len {
                        Some(n) => n,
                        None => 0,
                    };
                    self.stage = Stage::Opening;
                } else {
                    self.stage = Stage::Failed(DownloadError::HttpStatus);
                }
            },
            (Stage::Requesting, Event::RequestFailed) => {
                self.stage = Stage::Failed(DownloadError::Network);
            },
            (Stage::Opening, Event::Created) => {
                self.stage = Stage::Streaming;
            },
            (Stage::Opening, Event::CreateFailed) => {
                self.stage = Stage::Failed(DownloadError::FileCreate);
            },
            (Stage::Streaming, Event::Chunk(n)) => {
                if n <= u64::MAX - self.written {
                    self.written = self.written + n;
                    self.chunks = Ghost(self.chunks@.push(n));
                    assert(self.chunks@.drop_last() =~= old(self).chunks@);
                } else {
                    self.stage = Stage::Failed(DownloadError::TooLarge);
                }
            },
            (Stage::Streaming, Event::ReadFailed) => {
                self.stage = Stage::Failed(DownloadError::Network);
            },
            (Stage::Streaming, Event::WriteFailed) => {
                self.stage = Stage::Failed(DownloadError::FileWrite);
            },
            (Stage::Streaming, Event::EndOfBody) => {
                self.stage = Stage::Flushing;
            },
            (Stage::Flushing, Event::Flushed) => {
                self.stage = Stage::Done;
            },
            (Stage::Flushing, Event::FlushFailed) => {
                self.stage = Stage::Failed(DownloadError::FileWrite);
            },
            _ => {},
        }
    }

    /// The settled outcome: the bytes written on success, the cause on
    /// failure, `None` while under way.
    pub open spec fn settled(&self) -> Option<Result<u64, DownloadError>> {
        match self.stage {
            Stage::Done => Some(Ok(self.written)),
            Stage::Failed(e) => Some(Err(e)),
            _ => None,
        }
    }

    pub fn outcome(&self) -> (r: Option<Result<u64, DownloadError>>)
        ensures
            r == self.settled(),
    {
        match self.stage {
            Stage::Done => Some(Ok(self.written)),
            Stage::Failed(e) => Some(Err(e)),
            _ => None,
        }
    }

    /// What the indicator shows: nothing when quiet; else the bytes written
    /// against the declared total, finished once the file is complete.
    pub fn progress(&self) -> (r: Option<Progress>)
        ensures
            self.verbose == Verbose::Quiet ==> r is None,
            self.verbose != Verbose::Quiet ==> r == Some(
                (Progress {
                    position: self.written,
                    length: self.total,
                    finished: self.stage == Stage::Done,
                }),
            ),
    {
        match self.verbose {
            Verbose::Quiet => None,
            _ => Some(
                Progress {
                    position: self.written,
                    length: self.total,
                    finished: match self.stage {
                        Stage::Done => true,
                        _ => false,
                    },
                },
            ),
        }
    }
}

/// A completed transfer reports success with exactly the number of bytes of
/// the chunks streamed into the file.
pub proof fn lemma_done_size_is_streamed(t: Transfer)
    requires
        t.wf(),
        t.stage == Stage::Done,
    ensures
        t.settled() matches Some(Ok(n)) && n as nat == sum(t.chunks@),
{
}

/// An item that yields no remote URL, or no local path, gets no transfer, so
/// no request is ever made for it; the error names the first missing location.
pub proof fn lemma_missing_location_fails<D: Downloadable>(
    dl: D,
    verbose: Verbose,
    r: Result<Transfer, DownloadError>,
)
    requires
        started(dl, verbose, r),
        remote_of(dl.info()) is None || local_of(dl.info()) is None,
    ensures
        r is Err,
        remote_of(dl.info()) is None ==> r == Err::<Transfer, DownloadError>(
            DownloadError::MissingServerPath,
        ),
        remote_of(dl.info()) is Some ==> r == Err::<Transfer, DownloadError>(
            DownloadError::MissingLocalPath,
        ),
{
}

/// A transfer's course depends on its own state and events alone: two
/// transfers in the same stage, with the same byte count and total, that take
/// the same event, end in the same stage, byte count, total and outcome.
pub proof fn lemma_step_is_own(a: Transfer, b: Transfer, ev: Event, a2: Transfer, b2: Transfer)
    requires
        stepped(a, ev, a2),
        stepped(b, ev, b2),
        a.stage == b.stage,
        a.written == b.written,
        a.total == b.total,
    ensures
        a2.stage == b2.stage,
        a2.written == b2.written,
        a2.total == b2.total,
        a2.settled() == b2.settled(),
{
}

} // verus!
