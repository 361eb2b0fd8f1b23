use lmo_download::cancel::{CancelWatcher, WatchState};
use lmo_download::consumer::{Consumer, Outcome, StreamItem};
use lmo_download::event::{DownloadEvent, DownloadHandle, DownloadStatus, EventType, ProgressSnapshot};
use lmo_download::format::{decimal, format_bytes};
use lmo_download::render::{
    announcement, bar_position, is_success, outcome_hint, outcome_message, outcome_note,
    status_line, stream_error_hint, waiting_message,
};
use lmo_download::text::{contains_text, has_organization};

fn snapshot(percentage: u64, downloaded: u64, total: u64, speed: u64) -> ProgressSnapshot {
    ProgressSnapshot {
        percentage,
        downloaded_bytes: downloaded,
        total_bytes: total,
        speed_bps: speed,
        eta_seconds: None,
        current_file: None,
        files_completed: 0,
        total_files: 0,
    }
}

fn event(event_type: EventType, status: DownloadStatus, progress: ProgressSnapshot) -> StreamItem {
    StreamItem::Event(DownloadEvent { event_type, status, progress, error_message: None })
}

#[test]
fn format_bytes_plain_bytes() {
    assert_eq!(format_bytes(0), "0 B");
    assert_eq!(format_bytes(512), "512 B");
    assert_eq!(format_bytes(1023), "1023 B");
}

#[test]
fn format_bytes_scaled_units() {
    assert_eq!(format_bytes(1024), "1.0 KB");
    assert_eq!(format_bytes(100_000), "97.7 KB");
    assert_eq!(format_bytes(500_000), "488.3 KB");
    assert_eq!(format_bytes(1_000_000), "976.6 KB");
    assert_eq!(format_bytes(1_048_576), "1.0 MB");
    assert_eq!(format_bytes(1_073_741_824), "1.0 GB");
    assert_eq!(format_bytes(1_099_511_627_776), "1.0 TB");
    assert_eq!(format_bytes(u64::MAX), "16777216.0 TB");
}

#[test]
fn format_bytes_rounds_ties_to_even() {
    assert_eq!(format_bytes(1280), "1.2 KB");
    assert_eq!(format_bytes(1_048_575), "1024.0 KB");
}

#[test]
fn decimal_digits() {
    assert_eq!(decimal(0), "0");
    assert_eq!(decimal(907), "907");
    assert_eq!(decimal(u64::MAX), "18446744073709551615");
}

#[test]
fn status_line_example_session() {
    let p = snapshot(50, 500_000, 1_000_000, 100_000);
    assert_eq!(status_line(&p), "488.3 KB/976.6 KB | 97.7 KB/s");
}

#[test]
fn status_line_all_fields_in_order() {
    let mut p = snapshot(10, 2048, 4096, 1024);
    p.eta_seconds = Some(12);
    p.current_file = Some("model.bin".to_string());
    p.files_completed = 1;
    p.total_files = 3;
    assert_eq!(status_line(&p), "2.0 KB/4.0 KB | 1.0 KB/s | ETA: 12s | File: model.bin | Files: 1/3");
}

#[test]
fn status_line_omits_unknown_fields() {
    let mut p = snapshot(0, 0, 0, 0);
    assert_eq!(status_line(&p), "");
    p.eta_seconds = Some(0);
    assert_eq!(status_line(&p), "");
    p.total_files = 2;
    assert_eq!(status_line(&p), "Files: 0/2");
}

#[test]
fn bar_position_stays_in_range() {
    assert_eq!(bar_position(&snapshot(0, 0, 0, 0)), 0);
    assert_eq!(bar_position(&snapshot(57, 0, 0, 0)), 57);
    assert_eq!(bar_position(&snapshot(250, 0, 0, 0)), 100);
}

#[test]
fn frames_stay_in_range_whatever_the_stream() {
    let mut c = Consumer::new();
    let r = c.step(event(EventType::Progress, DownloadStatus::InProgress, snapshot(400, 9, 3, 0)));
    let f = r.frame.unwrap();
    assert_eq!(f.position, 100);
    assert_eq!(f.line, "9 B/3 B");
}

#[test]
fn three_timeouts_end_the_session() {
    let mut c = Consumer::new();
    let r1 = c.step(StreamItem::Timeout);
    assert_eq!(r1.waiting, Some(1));
    assert!(r1.outcome.is_none());
    let r2 = c.step(StreamItem::Timeout);
    assert_eq!(r2.waiting, Some(2));
    assert!(c.wants_more());
    let r3 = c.step(StreamItem::Timeout);
    assert!(matches!(r3.outcome, Some(Outcome::TimedOut)));
    assert!(r3.waiting.is_none());
    assert!(!c.wants_more());
}

#[test]
fn an_event_resets_the_timeout_count() {
    let mut c = Consumer::new();
    c.step(StreamItem::Timeout);
    c.step(StreamItem::Timeout);
    c.step(event(EventType::Progress, DownloadStatus::InProgress, snapshot(5, 0, 0, 0)));
    assert_eq!(c.consecutive_timeouts, 0);
    let r = c.step(StreamItem::Timeout);
    assert_eq!(r.waiting, Some(1));
    assert!(c.wants_more());
}

#[test]
fn completed_event_ends_the_session() {
    let mut c = Consumer::new();
    let r = c.step(event(EventType::Completed, DownloadStatus::Completed, snapshot(100, 0, 0, 0)));
    assert!(matches!(r.outcome, Some(Outcome::Completed)));
    assert!(!c.wants_more());
    let later = c.step(event(EventType::Progress, DownloadStatus::InProgress, snapshot(3, 0, 0, 0)));
    assert!(later.frame.is_none());
    assert!(later.outcome.is_none());
    assert_eq!(c.last_frame.as_ref().unwrap().position, 100);
}

#[test]
fn repeated_status_is_announced_once() {
    let mut c = Consumer::new();
    let items = vec![
        event(EventType::Started, DownloadStatus::Started, snapshot(0, 0, 0, 0)),
        event(EventType::Progress, DownloadStatus::InProgress, snapshot(30, 0, 0, 0)),
        event(EventType::Progress, DownloadStatus::InProgress, snapshot(60, 0, 0, 0)),
        event(EventType::Completed, DownloadStatus::Completed, snapshot(100, 0, 0, 0)),
    ];
    let mut announced = Vec::new();
    let mut positions = Vec::new();
    let mut outcome = None;
    for item in items {
        let r = c.step(item);
        if let Some(s) = r.announce {
            announced.push(s);
        }
        if let Some(f) = r.frame {
            positions.push(f.position);
        }
        if r.outcome.is_some() {
            outcome = r.outcome;
        }
    }
    assert_eq!(
        announced,
        vec![DownloadStatus::Started, DownloadStatus::InProgress, DownloadStatus::Completed]
    );
    assert_eq!(announced.iter().filter(|s| **s == DownloadStatus::InProgress).count(), 1);
    assert_eq!(positions, vec![0, 30, 60, 100]);
    assert!(matches!(outcome, Some(Outcome::Completed)));
}

#[test]
fn decode_error_keeps_the_last_frame() {
    let mut c = Consumer::new();
    for k in 1..5u64 {
        let r = c.step(event(EventType::Progress, DownloadStatus::InProgress, snapshot(k * 10, k * 100, 1000, 0)));
        assert!(r.outcome.is_none());
    }
    let r = c.step(StreamItem::DecodeError("error decoding response body".to_string()));
    assert!(r.frame.is_none());
    match r.outcome {
        Some(Outcome::StreamError(m)) => assert_eq!(m, "error decoding response body"),
        _ => panic!("expected a stream error"),
    }
    let last = c.last_frame.as_ref().unwrap();
    assert_eq!(last.position, 40);
    assert_eq!(last.line, "400 B/1000 B");
    assert!(!c.wants_more());
}

#[test]
fn stream_closure_ends_the_session() {
    let mut c = Consumer::new();
    c.step(event(EventType::Started, DownloadStatus::Started, snapshot(0, 0, 0, 0)));
    let r = c.step(StreamItem::Closed);
    assert!(matches!(r.outcome, Some(Outcome::StreamEnded)));
    assert!(!c.wants_more());
}

#[test]
fn failed_event_carries_the_error_message() {
    let mut c = Consumer::new();
    let r = c.step(StreamItem::Event(DownloadEvent {
        event_type: EventType::Failed,
        status: DownloadStatus::Failed,
        progress: snapshot(20, 0, 0, 0),
        error_message: Some("disk full".to_string()),
    }));
    let o = r.outcome.unwrap();
    match &o {
        Outcome::Failed(Some(m)) => assert_eq!(m, "disk full"),
        _ => panic!("expected a failure"),
    }
    assert_eq!(outcome_message(&o), "Download failed!");
    assert_eq!(outcome_note(&o), Some("Error: disk full".to_string()));
    assert!(!is_success(&o));
}

#[test]
fn cancellation_mid_stream_then_cancelled_event() {
    let handle = DownloadHandle { download_id: "dl-1".to_string(), estimated_size_bytes: None };
    let mut watcher = CancelWatcher::new(&handle);
    let mut c = Consumer::new();
    c.step(event(EventType::Progress, DownloadStatus::InProgress, snapshot(40, 0, 0, 0)));
    assert_eq!(watcher.on_interrupt(), Some("dl-1".to_string()));
    assert_eq!(watcher.state, WatchState::Fired);
    assert!(c.wants_more());
    let r = c.step(event(EventType::Cancelled, DownloadStatus::Cancelled, snapshot(40, 0, 0, 0)));
    assert!(matches!(r.outcome, Some(Outcome::Cancelled)));
    assert_eq!(outcome_message(&r.outcome.unwrap()), "Download cancelled");
}

#[test]
fn cancellation_after_completion_changes_nothing() {
    let handle = DownloadHandle { download_id: "dl-1".to_string(), estimated_size_bytes: None };
    let mut watcher = CancelWatcher::new(&handle);
    let mut c = Consumer::new();
    let r = c.step(event(EventType::Completed, DownloadStatus::Completed, snapshot(100, 0, 0, 0)));
    assert!(matches!(r.outcome, Some(Outcome::Completed)));
    watcher.stop();
    assert_eq!(watcher.on_interrupt(), None);
    assert!(!watcher.is_armed());
    let after = c.step(event(EventType::Cancelled, DownloadStatus::Cancelled, snapshot(100, 0, 0, 0)));
    assert!(after.outcome.is_none());
    assert!(!c.wants_more());
}

#[test]
fn watcher_fires_once() {
    let handle = DownloadHandle { download_id: "dl-7".to_string(), estimated_size_bytes: Some(5) };
    let mut watcher = CancelWatcher::new(&handle);
    assert!(watcher.is_armed());
    assert_eq!(watcher.on_interrupt(), Some("dl-7".to_string()));
    assert_eq!(watcher.on_interrupt(), None);
    assert_eq!(watcher.state, WatchState::Fired);
}

#[test]
fn example_session_renders_and_completes() {
    let handle = DownloadHandle { download_id: "dl-1".to_string(), estimated_size_bytes: Some(1_000_000) };
    assert_eq!(handle.download_id, "dl-1");
    let mut c = Consumer::new();
    let r1 = c.step(event(EventType::Started, DownloadStatus::Started, snapshot(0, 0, 0, 0)));
    assert_eq!(r1.announcement, Some("Download started".to_string()));
    let r2 = c.step(event(
        EventType::Progress,
        DownloadStatus::InProgress,
        snapshot(50, 500_000, 1_000_000, 100_000),
    ));
    let f2 = r2.frame.unwrap();
    assert_eq!(f2.position, 50);
    assert_eq!(f2.line, "488.3 KB/976.6 KB | 97.7 KB/s");
    let r3 = c.step(event(EventType::Completed, DownloadStatus::Completed, snapshot(100, 1_000_000, 1_000_000, 0)));
    let o = r3.outcome.unwrap();
    assert!(matches!(o, Outcome::Completed));
    assert_eq!(outcome_message(&o), "Download completed!");
    assert!(is_success(&o));
    assert_eq!(outcome_note(&o), None);
}

#[test]
fn announcements_per_status() {
    let e = |t, s| DownloadEvent { event_type: t, status: s, progress: snapshot(0, 0, 0, 0), error_message: None };
    assert_eq!(announcement(&e(EventType::Paused, DownloadStatus::Paused)), Some("Download paused".to_string()));
    assert_eq!(announcement(&e(EventType::Resumed, DownloadStatus::Resumed)), Some("Download resumed".to_string()));
    assert_eq!(
        announcement(&e(EventType::Progress, DownloadStatus::InProgress)),
        Some("Download in progress".to_string())
    );
    assert_eq!(announcement(&e(EventType::Completed, DownloadStatus::Completed)), None);
    let mut f = e(EventType::FileCompleted, DownloadStatus::InProgress);
    f.progress.current_file = Some("config.json".to_string());
    assert_eq!(announcement(&f), Some("Completed: config.json".to_string()));
}

#[test]
fn outcome_texts() {
    assert_eq!(outcome_message(&Outcome::StreamEnded), "Stream ended");
    assert_eq!(outcome_note(&Outcome::StreamEnded), Some("Download stream ended".to_string()));
    assert_eq!(outcome_message(&Outcome::TimedOut), "Stream timeout");
    assert_eq!(
        outcome_note(&Outcome::TimedOut),
        Some("Download stream timed out - no progress updates received".to_string())
    );
    let e = Outcome::StreamError("connection closed before message completed".to_string());
    assert_eq!(outcome_message(&e), "Stream error!");
    assert_eq!(
        outcome_note(&e),
        Some("Stream error: connection closed before message completed".to_string())
    );
    assert_eq!(
        outcome_hint(&e),
        Some("Download may have completed or failed. Check server logs for details.".to_string())
    );
    assert_eq!(outcome_hint(&Outcome::Completed), None);
    assert_eq!(outcome_note(&Outcome::Failed(None)), None);
    assert_eq!(outcome_message(&Outcome::Cancelled), "Download cancelled");
}

#[test]
fn stream_error_hints() {
    assert_eq!(
        stream_error_hint("the stream ended early"),
        "Download may have completed or failed. Check server logs for details."
    );
    assert_eq!(
        stream_error_hint("error decoding response body"),
        "Network connection issue. The download may continue in the background."
    );
    assert_eq!(stream_error_hint("boom"), "Try running the download again or check the server status.");
}

#[test]
fn waiting_message_counts() {
    assert_eq!(waiting_message(2), "Waiting for updates... (2)");
}

#[test]
fn text_search() {
    assert!(contains_text("abcabd", "abd"));
    assert!(!contains_text("abcab", "abd"));
    assert!(contains_text("x", ""));
    assert!(!contains_text("", "x"));
    assert!(has_organization("microsoft/DialoGPT-small"));
    assert!(!has_organization("gpt2"));
}
