//! The cancellation watcher: turns the one operator interrupt of a session
//! into one cancellation request for the active download.

use vstd::prelude::*;

use crate::event::DownloadHandle;

verus! {

/// Where the watcher stands.
#[derive(Clone, Copy, Debug, PartialEq, Eq, Structural)]
pub enum WatchState {
    /// Listening for the interrupt.
    Armed,
    /// The interrupt came and a cancellation was requested.
    Fired,
    /// The session ended; interrupts no longer request anything.
    Stopped,
}

/// Listens for exactly one interrupt per session. It never ends the session
/// itself: the outcome always comes from the event stream.
pub struct CancelWatcher {
    pub download_id: String,
    pub state: WatchState,
}

impl CancelWatcher {
    /// A watcher, armed, for the download of `handle`.
    pub fn new(handle: &DownloadHandle) -> (r: CancelWatcher)
        ensures
            r.download_id@ == handle.download_id@,
            r.state == WatchState::Armed,
    {
        CancelWatcher { download_id: handle.download_id.clone(), state: WatchState::Armed }
    }

    /// Handles an interrupt: while armed, gives the id of the download to
    /// cancel and stops listening; otherwise requests nothing.
    pub fn on_interrupt(&mut self) -> (r: Option<String>)
        ensures
            old(self).state == WatchState::Armed ==> {
                &&& r is Some
                &&& r->0@ == old(self).download_id@
                &&& final(self).state == WatchState::Fired
            },
            old(self).state != WatchState::Armed ==> r is None && final(self).state == old(self).state,
            final(self).download_id@ == old(self).download_id@,
    {
        if self.state == WatchState::Armed {
            self.state = WatchState::Fired;
            Some(self.download_id.clone())
        } else {
            None
        }
    }

    /// Stops the watcher when the session ends, whichever way it ended.
    pub fn stop(&mut self)
        ensures
            final(self).state == WatchState::Stopped,
            final(self).download_id@ == old(self).download_id@,
    {
        self.state = WatchState::Stopped;
    }

    /// Whether an interrupt would still request a cancellation.
    pub fn is_armed(&self) -> (r: bool)
        ensures
            r == (self.state == WatchState::Armed),
    {
        self.state == WatchState::Armed
    }
}

} // verus!
