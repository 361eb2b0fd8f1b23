//! The progress stream consumer: folds stream items into the session state,
//! applies the timeout budget and deduplicates status announcements.
//!
//! The consumer makes decisions only. Whoever drives the session waits for
//! the next item (bounded by [`WAIT_SECONDS`]), hands it to
//! [`Consumer::step`], shows what the returned [`Reaction`] asks for, and
//! stops waiting once [`Consumer::wants_more`] is false.

use vstd::prelude::*;

use crate::event::{is_terminal, DownloadEvent, DownloadStatus};
use crate::render::{
    announcement, announcement_text, bar_position, position_of, status_line, status_line_text,
};

verus! {

/// The bound on one wait for the next stream item, in seconds.
pub const WAIT_SECONDS: u64 = 30;

/// The number of consecutive silent waits that ends a session.
pub const TIMEOUT_BUDGET: u64 = 3;

/// What one wait on the progress stream produced.
pub enum StreamItem {
    /// An event that was received and decoded.
    Event(DownloadEvent),
    /// An item that could not be received or decoded, with the reason.
    DecodeError(String),
    /// The wait elapsed with no item.
    Timeout,
    /// The stream closed.
    Closed,
}

/// How a session ended.
pub enum Outcome {
    Completed,
    Failed(Option<String>),
    Cancelled,
    StreamEnded,
    StreamError(String),
    TimedOut,
}

/// The mathematical value of an [`Outcome`].
pub enum OutcomeView {
    Completed,
    Failed(Option<Seq<char>>),
    Cancelled,
    StreamEnded,
    StreamError(Seq<char>),
    TimedOut,
}

impl View for Outcome {
    type V = OutcomeView;

    open spec fn view(&self) -> OutcomeView {
        match self {
            Outcome::Completed => OutcomeView::Completed,
            Outcome::Failed(m) => OutcomeView::Failed(
                match m {
                    Some(s) => Some(s@),
                    None => None,
                },
            ),
            Outcome::Cancelled => OutcomeView::Cancelled,
            Outcome::StreamEnded => OutcomeView::StreamEnded,
            Outcome::StreamError(r) => OutcomeView::StreamError(r@),
            Outcome::TimedOut => OutcomeView::TimedOut,
        }
    }
}

/// What the progress display shows for one event: the bar position and the
/// status line.
pub struct Frame {
    pub position: u64,
    pub line: String,
}

impl View for Frame {
    type V = (u64, Seq<char>);

    open spec fn view(&self) -> (u64, Seq<char>) {
        (self.position, self.line@)
    }
}

pub open spec fn opt_frame_view(f: Option<Frame>) -> Option<(u64, Seq<char>)> {
    match f {
        Some(f) => Some(f@),
        None => None,
    }
}

pub open spec fn opt_text_view(s: Option<String>) -> Option<Seq<char>> {
    match s {
        Some(s) => Some(s@),
        None => None,
    }
}

/// What the consumer asks the display to do after one item.
pub struct Reaction {
    /// The new frame, after a decoded event.
    pub frame: Option<Frame>,
    /// The status that changed, when it did.
    pub announce: Option<DownloadStatus>,
    /// The one-line announcement of that change, if it has one.
    pub announcement: Option<String>,
    /// The count of consecutive silent waits, after a wait that did not end
    /// the session.
    pub waiting: Option<u64>,
    /// How the session ended, when this item ended it.
    pub outcome: Option<Outcome>,
}

/// The mathematical value of a [`Reaction`].
pub struct ReactionView {
    pub frame: Option<(u64, Seq<char>)>,
    pub announce: Option<DownloadStatus>,
    pub announcement: Option<Seq<char>>,
    pub waiting: Option<nat>,
    pub outcome: Option<OutcomeView>,
}

impl View for Reaction {
    type V = ReactionView;

    open spec fn view(&self) -> ReactionView {
        ReactionView {
            frame: opt_frame_view(self.frame),
            announce: self.announce,
            announcement: opt_text_view(self.announcement),
            waiting: match self.waiting {
                Some(n) => Some(n as nat),
                None => None,
            },
            outcome: match self.outcome {
                Some(o) => Some(o@),
                None => None,
            },
        }
    }
}

/// The state of the consumer between two items.
pub struct Consumer {
    pub last_status: Option<DownloadStatus>,
    pub consecutive_timeouts: u64,
    pub finished: bool,
    pub last_frame: Option<Frame>,
}

/// The mathematical value of a [`Consumer`].
pub struct ConsumerState {
    pub last_status: Option<DownloadStatus>,
    pub timeouts: nat,
    pub finished: bool,
    pub last_frame: Option<(u64, Seq<char>)>,
}

impl View for Consumer {
    type V = ConsumerState;

    open spec fn view(&self) -> ConsumerState {
        ConsumerState {
            last_status: self.last_status,
            timeouts: self.consecutive_timeouts as nat,
            finished: self.finished,
            last_frame: opt_frame_view(self.last_frame),
        }
    }
}

/// A reaction that asks for nothing.
pub open spec fn quiet() -> ReactionView {
    ReactionView { frame: None, announce: None, announcement: None, waiting: None, outcome: None }
}

/// The outcome that a terminal event ends the session with.
pub open spec fn terminal_outcome(e: DownloadEvent) -> OutcomeView {
    if e.status == DownloadStatus::Completed {
        OutcomeView::Completed
    } else if e.status == DownloadStatus::Failed {
        OutcomeView::Failed(opt_text_view(e.error_message))
    } else {
        OutcomeView::Cancelled
    }
}

/// The frame of an event.
pub open spec fn frame_of(e: DownloadEvent) -> (u64, Seq<char>) {
    (position_of(e.progress), status_line_text(e.progress))
}

/// The state after one item, and the reaction to it.
pub open spec fn next(c: ConsumerState, item: StreamItem) -> (ConsumerState, ReactionView) {
    if c.finished {
        (c, quiet())
    } else {
        match item {
            StreamItem::Event(e) => {
                let changed = c.last_status != Some(e.status);
                (
                    ConsumerState {
                        last_status: Some(e.status),
                        timeouts: 0,
                        finished: is_terminal(e.status),
                        last_frame: Some(frame_of(e)),
                    },
                    ReactionView {
                        frame: Some(frame_of(e)),
                        announce: if changed { Some(e.status) } else { None },
                        announcement: if changed { announcement_text(e) } else { None },
                        waiting: None,
                        outcome: if is_terminal(e.status) { Some(terminal_outcome(e)) } else { None },
                    },
                )
            },
            StreamItem::DecodeError(m) => (
                ConsumerState { finished: true, ..c },
                ReactionView { outcome: Some(OutcomeView::StreamError(m@)), ..quiet() },
            ),
            StreamItem::Timeout => {
                let n = c.timeouts + 1;
                if n >= TIMEOUT_BUDGET {
                    (
                        ConsumerState { timeouts: n, finished: true, ..c },
                        ReactionView { outcome: Some(OutcomeView::TimedOut), ..quiet() },
                    )
                } else {
                    (
                        ConsumerState { timeouts: n, ..c },
                        ReactionView { waiting: Some(n), ..quiet() },
                    )
                }
            },
            StreamItem::Closed => (
                ConsumerState { finished: true, ..c },
                ReactionView { outcome: Some(OutcomeView::StreamEnded), ..quiet() },
            ),
        }
    }
}

impl Frame {
    /// A copy of this frame.
    pub fn copy(&self) -> (r: Frame)
        ensures
            r@ == self@,
    {
        Frame { position: self.position, line: self.line.clone() }
    }
}

impl Consumer {
    /// The consumer is well formed: the timeout count stays within the
    /// budget, and below it while the session goes on.
    pub open spec fn wf(&self) -> bool {
        &&& self.consecutive_timeouts <= TIMEOUT_BUDGET
        &&& !self.finished ==> self.consecutive_timeouts < TIMEOUT_BUDGET
    }

    /// A consumer for a freshly opened stream.
    pub fn new() -> (r: Consumer)
        ensures
            r.wf(),
            r@ == (ConsumerState { last_status: None, timeouts: 0, finished: false, last_frame: None }),
    {
        Consumer { last_status: None, consecutive_timeouts: 0, finished: false, last_frame: None }
    }

    /// Whether the session still waits for stream items. Once false, no
    /// further call on the stream is made for this session.
    pub fn wants_more(&self) -> (r: bool)
        ensures
            r == !self@.finished,
    {
        !self.finished
    }

    /// Folds one stream item into the state and says what to display.
    pub fn step(&mut self, item: StreamItem) -> (r: Reaction)
        requires
            old(self).wf(),
        ensures
            final(self).wf(),
            final(self)@ == next(old(self)@, item).0,
            r@ == next(old(self)@, item).1,
    {
        if self.finished {
            return Reaction { frame: None, announce: None, announcement: None, waiting: None, outcome: None };
        }
        match item {
            StreamItem::Event(e) => {
                let frame = Frame { position: bar_position(&e.progress), line: status_line(&e.progress) };
                let changed = match self.last_status {
                    Some(s) => s != e.status,
                    None => true,
                };
                let (announce, text) = if changed {
                    (Some(e.status), announcement(&e))
                } else {
                    (None, None)
                };
                self.last_status = Some(e.status);
                self.consecutive_timeouts = 0;
                self.last_frame = Some(frame.copy());
                let outcome = match e.status {
                    DownloadStatus::Completed => Some(Outcome::Completed),
                    DownloadStatus::Failed => Some(Outcome::Failed(e.error_message)),
                    DownloadStatus::Cancelled => Some(Outcome::Cancelled),
                    _ => None,
                };
                self.finished = outcome.is_some();
                Reaction { frame: Some(frame), announce, announcement: text, waiting: None, outcome }
            },
            StreamItem::DecodeError(m) => {
                self.finished = true;
                Reaction {
                    frame: None,
                    announce: None,
                    announcement: None,
                    waiting: None,
                    outcome: Some(Outcome::StreamError(m)),
                }
            },
            StreamItem::Timeout => {
                self.consecutive_timeouts = self.consecutive_timeouts + 1;
                if self.consecutive_timeouts >= TIMEOUT_BUDGET {
                    self.finished = true;
                    Reaction {
                        frame: None,
                        announce: None,
                        announcement: None,
                        waiting: None,
                        outcome: Some(Outcome::TimedOut),
                    }
                } else {
                    Reaction {
                        frame: None,
                        announce: None,
                        announcement: None,
                        waiting: Some(self.consecutive_timeouts),
                        outcome: None,
                    }
                }
            },
            StreamItem::Closed => {
                self.finished = true;
                Reaction {
                    frame: None,
                    announce: None,
                    announcement: None,
                    waiting: None,
                    outcome: Some(Outcome::StreamEnded),
                }
            },
        }
    }
}

} // verus!
