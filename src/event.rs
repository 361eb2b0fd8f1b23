//! The data a download session is made of: statuses, progress snapshots and
//! the events of the progress stream.

use vstd::prelude::*;

verus! {

/// The status of a download, as reported by the server.
#[derive(Clone, Copy, Debug, PartialEq, Eq, Structural)]
pub enum DownloadStatus {
    Started,
    InProgress,
    Paused,
    Resumed,
    Completed,
    Failed,
    Cancelled,
}

/// The tag of one stream event. It follows the status, with two extra tags
/// for a plain progress update and for the completion of one file.
#[derive(Clone, Copy, Debug, PartialEq, Eq, Structural)]
pub enum EventType {
    Started,
    Progress,
    FileCompleted,
    Paused,
    Resumed,
    Completed,
    Failed,
    Cancelled,
}

/// A status that ends the session.
pub open spec fn is_terminal(s: DownloadStatus) -> bool {
    s == DownloadStatus::Completed || s == DownloadStatus::Failed || s == DownloadStatus::Cancelled
}

impl DownloadStatus {
    /// Whether this status ends the session.
    pub fn terminal(&self) -> (r: bool)
        ensures
            r == is_terminal(*self),
    {
        match self {
            DownloadStatus::Completed | DownloadStatus::Failed | DownloadStatus::Cancelled => true,
            _ => false,
        }
    }
}

/// The numeric state of a transfer at one point in time.
///
/// `percentage` is the whole percent, `speed_bps` the whole bytes per
/// second; `total_bytes == 0` and `total_files == 0` mean unknown, as does an
/// absent or zero `eta_seconds`.
pub struct ProgressSnapshot {
    pub percentage: u64,
    pub downloaded_bytes: u64,
    pub total_bytes: u64,
    pub speed_bps: u64,
    pub eta_seconds: Option<u64>,
    pub current_file: Option<String>,
    pub files_completed: u64,
    pub total_files: u64,
}

/// One decoded item of the progress stream.
pub struct DownloadEvent {
    pub event_type: EventType,
    pub status: DownloadStatus,
    pub progress: ProgressSnapshot,
    pub error_message: Option<String>,
}

/// What the download service is asked to start.
pub struct DownloadRequest {
    pub model_name: String,
    pub format_hint: Option<String>,
    pub force_redownload: bool,
    pub custom_directory: Option<String>,
}

/// The handle the service gives back when a download starts.
pub struct DownloadHandle {
    pub download_id: String,
    pub estimated_size_bytes: Option<u64>,
}

} // verus!
