//! One download as a state machine. The machine never performs a request, a
//! read or a write itself: it is told what happened and answers with what is
//! to be done next, so that every decision of the download can be stated and
//! proved without a network or a disk.

use vstd::prelude::*;
use crate::display::{download_message, downloaded, downloading, finish_message};
use crate::error::{DownloadError, DownloadErrorView};
use crate::progress::{clamped, Progress};

verus! {

/// Where a download stands, named by what it is waiting for.
#[derive(Debug, Clone, Copy, PartialEq, Eq, Structural)]
pub enum Phase {
    /// The request has been issued; its response is awaited.
    Requesting,
    /// The size is known and the display set up; the destination is being opened.
    Opening,
    /// The next chunk of the stream is awaited.
    Reading,
    /// A chunk has been handed over for writing; the outcome is awaited.
    Writing,
    /// The stream ended and everything received was written.
    Finished,
    /// The download was given up.
    Failed,
}

/// What the outside world reports to the machine.
#[derive(Debug, PartialEq, Eq)]
pub enum Event {
    /// The transport could not complete the request.
    RequestFailed,
    /// The request was answered, with or without a declared total size.
    Response { declared_length: Option<u64> },
    /// The destination was created, or emptied if it existed.
    FileCreated,
    /// The destination could not be opened for writing.
    FileCreateFailed,
    /// The stream delivered its next chunk.
    Chunk { bytes: Vec<u8> },
    /// The stream failed instead of delivering a chunk.
    StreamFailed,
    /// The stream has no more chunks.
    StreamEnded,
    /// The chunk handed over was written in full.
    Written,
    /// The chunk handed over could not be written.
    WriteFailed,
}

/// What the machine asks the outside world to do next.
#[derive(Debug, PartialEq, Eq)]
pub enum Action {
    /// Request `url` and report the response.
    Request { url: String },
    /// Set up the display for `total` bytes with `message`, then create the
    /// destination at `path`, emptying it if it exists.
    Open { total: u64, message: String, path: String },
    /// Read the next chunk of the stream.
    Read,
    /// Write all of `bytes` to the end of the destination.
    Write { bytes: Vec<u8> },
    /// Move the display to `position`, then read the next chunk.
    Advance { position: u64 },
    /// Close the display with `message`: the download is complete.
    Finish { message: String },
    /// Give the download up with `error`.
    Fail { error: DownloadError },
}

/// An event with its data as mathematical values.
pub enum EventView {
    RequestFailed,
    Response { declared_length: Option<nat> },
    FileCreated,
    FileCreateFailed,
    Chunk { bytes: Seq<u8> },
    StreamFailed,
    StreamEnded,
    Written,
    WriteFailed,
}

/// An action with its data as mathematical values.
pub enum ActionView {
    Request { url: Seq<char> },
    Open { total: nat, message: Seq<char>, path: Seq<char> },
    Read,
    Write { bytes: Seq<u8> },
    Advance { position: nat },
    Finish { message: Seq<char> },
    Fail { error: DownloadErrorView },
}

impl View for Event {
    type V = EventView;

    open spec fn view(&self) -> EventView {
        match self {
            Event::RequestFailed => EventView::RequestFailed,
            Event::Response { declared_length } => EventView::Response {
                declared_length: match declared_length {
                    Some(total) => Some(*total as nat),
                    None => None,
                },
            },
            Event::FileCreated => EventView::FileCreated,
            Event::FileCreateFailed => EventView::FileCreateFailed,
            Event::Chunk { bytes } => EventView::Chunk { bytes: bytes@ },
            Event::StreamFailed => EventView::StreamFailed,
            Event::StreamEnded => EventView::StreamEnded,
            Event::Written => EventView::Written,
            Event::WriteFailed => EventView::WriteFailed,
        }
    }
}

impl View for Action {
    type V = ActionView;

    open spec fn view(&self) -> ActionView {
        match self {
            Action::Request { url } => ActionView::Request { url: url@ },
            Action::Open { total, message, path } => ActionView::Open {
                total: *total as nat,
                message: message@,
                path: path@,
            },
            Action::Read => ActionView::Read,
            Action::Write { bytes } => ActionView::Write { bytes: bytes@ },
            Action::Advance { position } => ActionView::Advance { position: *position as nat },
            Action::Finish { message } => ActionView::Finish { message: message@ },
            Action::Fail { error } => ActionView::Fail { error: error@ },
        }
    }
}

/// The state of a download as mathematical values.
pub struct DownloadView {
    /// The source.
    pub url: Seq<char>,
    /// The destination.
    pub path: Seq<char>,
    /// What the download is waiting for.
    pub phase: Phase,
    /// The declared total size; 0 until a response has declared one.
    pub total: nat,
    /// The position last reported, 0 at first.
    pub position: nat,
    /// The size of the chunk that is being written; 0 when none is.
    pub pending: nat,
}

impl DownloadView {
    /// What holds of every download: the position is within the declared
    /// total size, and nothing has been counted before a response came.
    pub open spec fn wf(self) -> bool {
        &&& self.position <= self.total
        &&& self.phase is Requesting ==> self.position == 0
    }
}

/// The state in which a download of `url` to `path` begins.
pub open spec fn start(url: Seq<char>, path: Seq<char>) -> DownloadView {
    DownloadView { url, path, phase: Phase::Requesting, total: 0, position: 0, pending: 0 }
}

/// Whether a download in `phase` is waiting for `event`.
pub open spec fn awaits(phase: Phase, event: EventView) -> bool {
    match phase {
        Phase::Requesting => event is RequestFailed || event is Response,
        Phase::Opening => event is FileCreated || event is FileCreateFailed,
        Phase::Reading => event is Chunk || event is StreamFailed || event is StreamEnded,
        Phase::Writing => event is Written || event is WriteFailed,
        Phase::Finished => false,
        Phase::Failed => false,
    }
}

/// The state that follows `state` when `event`, which it is waiting for,
/// is reported.
pub open spec fn next_state(state: DownloadView, event: EventView) -> DownloadView {
    match event {
        EventView::Response { declared_length: Some(total) } => DownloadView {
            phase: Phase::Opening,
            total,
            ..state
        },
        EventView::FileCreated => DownloadView { phase: Phase::Reading, ..state },
        EventView::Chunk { bytes } => DownloadView {
            phase: Phase::Writing,
            pending: bytes.len(),
            ..state
        },
        EventView::Written => DownloadView {
            phase: Phase::Reading,
            position: clamped(state.total, state.position, state.pending),
            pending: 0,
            ..state
        },
        EventView::StreamEnded => DownloadView { phase: Phase::Finished, ..state },
        EventView::RequestFailed
        | EventView::Response { declared_length: None }
        | EventView::FileCreateFailed
        | EventView::StreamFailed
        | EventView::WriteFailed => DownloadView { phase: Phase::Failed, ..state },
    }
}

/// What is to be done when `event`, which `state` is waiting for, is reported.
pub open spec fn action_for(state: DownloadView, event: EventView) -> ActionView {
    match event {
        EventView::RequestFailed => ActionView::Fail {
            error: DownloadErrorView::Request { url: state.url },
        },
        EventView::Response { declared_length: None } => ActionView::Fail {
            error: DownloadErrorView::MissingLength { url: state.url },
        },
        EventView::Response { declared_length: Some(total) } => ActionView::Open {
            total,
            message: downloading(state.url),
            path: state.path,
        },
        EventView::FileCreated => ActionView::Read,
        EventView::FileCreateFailed => ActionView::Fail {
            error: DownloadErrorView::FileCreate { path: state.path },
        },
        EventView::Chunk { bytes } => ActionView::Write { bytes },
        EventView::StreamFailed => ActionView::Fail { error: DownloadErrorView::StreamRead },
        EventView::StreamEnded => ActionView::Finish {
            message: downloaded(state.url, state.path),
        },
        EventView::Written => ActionView::Advance {
            position: clamped(state.total, state.position, state.pending),
        },
        EventView::WriteFailed => ActionView::Fail { error: DownloadErrorView::FileWrite },
    }
}

/// One download: its source, its destination, what it is waiting for and
/// how far it has come.
#[derive(Debug)]
pub struct Download {
    url: String,
    path: String,
    phase: Phase,
    progress: Progress,
    pending: usize,
}

impl View for Download {
    type V = DownloadView;

    closed spec fn view(&self) -> DownloadView {
        DownloadView {
            url: self.url@,
            path: self.path@,
            phase: self.phase,
            total: self.progress@.total,
            position: self.progress@.position,
            pending: self.pending as nat,
        }
    }
}

impl Download {
    #[verifier::type_invariant]
    spec fn well_formed(&self) -> bool {
        self@.wf()
    }

    /// Begins a download of `url` to `path`: the first thing to do is to
    /// request the source.
    pub fn begin(url: &str, path: &str) -> (begun: (Download, Action))
        ensures
            begun.0@ == start(url@, path@),
            begun.1@ == (ActionView::Request { url: url@ }),
    {
        let download = Download {
            url: String::from_str(url),
            path: String::from_str(path),
            phase: Phase::Requesting,
            progress: Progress::new(0),
            pending: 0,
        };
        (download, Action::Request { url: String::from_str(url) })
    }

    /// The source.
    pub fn url(&self) -> (url: &str)
        ensures
            url@ == self@.url,
    {
        self.url.as_str()
    }

    /// The destination.
    pub fn path(&self) -> (path: &str)
        ensures
            path@ == self@.path,
    {
        self.path.as_str()
    }

    /// What the download is waiting for.
    pub fn phase(&self) -> (phase: Phase)
        ensures
            phase == self@.phase,
    {
        self.phase
    }

    /// The declared total size; 0 until a response has declared one.
    pub fn total(&self) -> (total: u64)
        ensures
            total as nat == self@.total,
    {
        self.progress.total()
    }

    /// The position last reported; never more than the declared total size.
    pub fn position(&self) -> (position: u64)
        ensures
            position as nat == self@.position,
            position as nat <= self@.total,
    {
        self.progress.position()
    }

    /// Takes the report of what happened and answers with what is to be done
    /// next. An event that the download is not waiting for is dropped: the
    /// answer is `None` and nothing changes. Otherwise the download moves on
    /// as `next_state` says and the answer is the action that `action_for`
    /// gives. The position never goes back and never passes the declared
    /// total size.
    pub fn step(&mut self, event: Event) -> (action: Option<Action>)
        ensures
            awaits(old(self)@.phase, event@) ==> {
                &&& action matches Some(action)
                &&& action@ == action_for(old(self)@, event@)
                &&& final(self)@ == next_state(old(self)@, event@)
            },
            !awaits(old(self)@.phase, event@) ==> {
                &&& action is None
                &&& final(self)@ == old(self)@
            },
            old(self)@.position <= final(self)@.position <= final(self)@.total,
            final(self)@.wf(),
    {
        proof {
            use_type_invariant(&*self);
        }
        match self.phase {
            Phase::Requesting => match event {
                Event::RequestFailed => {
                    self.phase = Phase::Failed;
                    Some(Action::Fail { error: DownloadError::Request { url: self.url.clone() } })
                },
                Event::Response { declared_length: None } => {
                    self.phase = Phase::Failed;
                    Some(
                        Action::Fail {
                            error: DownloadError::MissingLength { url: self.url.clone() },
                        },
                    )
                },
                Event::Response { declared_length: Some(total) } => {
                    self.phase = Phase::Opening;
                    self.progress = Progress::new(total);
                    Some(
                        Action::Open {
                            total,
                            message: download_message(self.url.as_str()),
                            path: self.path.clone(),
                        },
                    )
                },
                _ => None,
            },
            Phase::Opening => match event {
                Event::FileCreated => {
                    self.phase = Phase::Reading;
                    Some(Action::Read)
                },
                Event::FileCreateFailed => {
                    self.phase = Phase::Failed;
                    Some(
                        Action::Fail { error: DownloadError::FileCreate { path: self.path.clone() } },
                    )
                },
                _ => None,
            },
            Phase::Reading => match event {
                Event::Chunk { bytes } => {
                    self.phase = Phase::Writing;
                    self.pending = bytes.len();
                    Some(Action::Write { bytes })
                },
                Event::StreamFailed => {
                    self.phase = Phase::Failed;
                    Some(Action::Fail { error: DownloadError::StreamRead })
                },
                Event::StreamEnded => {
                    self.phase = Phase::Finished;
                    Some(
                        Action::Finish {
                            message: finish_message(self.url.as_str(), self.path.as_str()),
                        },
                    )
                },
                _ => None,
            },
            Phase::Writing => match event {
                Event::Written => {
                    self.phase = Phase::Reading;
                    let mut progress = self.progress;
                    let position = progress.advance(self.pending);
                    self.progress = progress;
                    self.pending = 0;
                    Some(Action::Advance { position })
                },
                Event::WriteFailed => {
                    self.phase = Phase::Failed;
                    Some(Action::Fail { error: DownloadError::FileWrite })
                },
                _ => None,
            },
            Phase::Finished => None,
            Phase::Failed => None,
        }
    }
}

} // verus!
