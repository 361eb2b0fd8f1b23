//! The progress renderer: a pure projection of snapshots, status changes and
//! outcomes to the text an operator sees.

use vstd::prelude::*;
use vstd::string::*;

use crate::event::{DownloadEvent, DownloadStatus, EventType, ProgressSnapshot};
use crate::consumer::{opt_text_view, Outcome, OutcomeView};
use crate::format::{bytes_text, dec_digits, decimal, format_bytes};
use crate::text::{contains_text, has_infix};

verus! {

/// The separator between the fields of a status line.
pub open spec fn separator() -> Seq<char> {
    seq![' ', '|', ' ']
}

/// The parts joined by the separator.
pub open spec fn join(parts: Seq<Seq<char>>) -> Seq<char>
    decreases parts.len(),
{
    if parts.len() == 0 {
        seq![]
    } else if parts.len() == 1 {
        parts[0]
    } else {
        join(parts.drop_last()) + separator() + parts.last()
    }
}

/// One part when `c` holds, none otherwise.
pub open spec fn part_if(c: bool, part: Seq<char>) -> Seq<Seq<char>> {
    if c { seq![part] } else { seq![] }
}

pub open spec fn bytes_part(p: ProgressSnapshot) -> Seq<char> {
    bytes_text(p.downloaded_bytes as nat) + seq!['/'] + bytes_text(p.total_bytes as nat)
}

pub open spec fn speed_part(p: ProgressSnapshot) -> Seq<char> {
    bytes_text(p.speed_bps as nat) + seq!['/', 's']
}

pub open spec fn eta_known(p: ProgressSnapshot) -> bool {
    p.eta_seconds is Some && p.eta_seconds->0 > 0
}

pub open spec fn eta_part(p: ProgressSnapshot) -> Seq<char> {
    seq!['E', 'T', 'A', ':', ' '] + dec_digits(p.eta_seconds->0 as nat) + seq!['s']
}

pub open spec fn file_part(p: ProgressSnapshot) -> Seq<char> {
    seq!['F', 'i', 'l', 'e', ':', ' '] + p.current_file->0@
}

pub open spec fn files_part(p: ProgressSnapshot) -> Seq<char> {
    seq!['F', 'i', 'l', 'e', 's', ':', ' '] + dec_digits(p.files_completed as nat) + seq!['/']
        + dec_digits(p.total_files as nat)
}

/// The fields of a status line in their fixed order, each only when known:
/// byte progress, speed, ETA, current file, files counter.
pub open spec fn line_parts(p: ProgressSnapshot) -> Seq<Seq<char>> {
    part_if(p.total_bytes > 0, bytes_part(p))
        + part_if(p.speed_bps > 0, speed_part(p))
        + part_if(eta_known(p), eta_part(p))
        + part_if(p.current_file is Some, file_part(p))
        + part_if(p.total_files > 0, files_part(p))
}

/// The status line of a snapshot.
pub open spec fn status_line_text(p: ProgressSnapshot) -> Seq<char> {
    join(line_parts(p))
}

/// The bar position of a snapshot: its percentage, held within 0..=100.
pub open spec fn position_of(p: ProgressSnapshot) -> u64 {
    if p.percentage > 100 { 100 } else { p.percentage }
}

/// The texts of a sequence of strings.
pub open spec fn views(v: Seq<String>) -> Seq<Seq<char>> {
    v.map_values(|s: String| s@)
}

proof fn lemma_views_push(v: Seq<String>, s: String)
    ensures
        views(v.push(s)) == views(v).push(s@),
{
    assert(views(v.push(s)) =~= views(v).push(s@));
}

/// Joins the parts with the status-line separator.
pub fn join_parts(parts: &Vec<String>) -> (r: String)
    ensures
        r@ == join(views(parts@)),
{
    let ghost vs = views(parts@);
    let mut line = String::new();
    let mut i: usize = 0;
    proof {
        reveal_strlit(" | ");
        assert(vs.take(0) =~= seq![]);
    }
    while i < parts.len()
        invariant
            i <= parts@.len(),
            vs == views(parts@),
            line@ == join(vs.take(i as int)),
        decreases parts@.len() - i,
    {
        proof {
            reveal_strlit(" | ");
        }
        if i > 0 {
            line.append(" | ");
        }
        line.append(parts[i].as_str());
        proof {
            assert(vs[i as int] == parts@[i as int]@);
            assert(vs.take(i + 1).last() == vs[i as int]);
            assert(vs.take(i + 1).drop_last() =~= vs.take(i as int));
            if i == 0 {
                assert(line@ =~= vs.take(1)[0]);
            } else {
                assert(line@ =~= join(vs.take(i as int)) + separator() + vs[i as int]);
            }
        }
        i = i + 1;
    }
    assert(vs.take(parts@.len() as int) =~= vs);
    line
}

/// The status line of a snapshot: the known fields in their fixed order,
/// joined by ` | `.
pub fn status_line(p: &ProgressSnapshot) -> (r: String)
    ensures
        r@ == status_line_text(*p),
{
    let mut parts: Vec<String> = Vec::new();
    let ghost mut want: Seq<Seq<char>> = seq![];
    assert(views(parts@) =~= want);
    proof {
        reveal_strlit("/");
        reveal_strlit("/s");
        reveal_strlit("ETA: ");
        reveal_strlit("s");
        reveal_strlit("File: ");
        reveal_strlit("Files: ");
    }
    if p.total_bytes > 0 {
        let mut s = format_bytes(p.downloaded_bytes);
        s.append("/");
        let t = format_bytes(p.total_bytes);
        s.append(t.as_str());
        let ghost old_parts = parts@;
        parts.push(s);
        proof {
            assert(s@ =~= bytes_part(*p));
            lemma_views_push(old_parts, s);
            want = want.push(bytes_part(*p));
        }
    }
    assert(views(parts@) =~= want);
    if p.speed_bps > 0 {
        let mut s = format_bytes(p.speed_bps);
        s.append("/s");
        let ghost old_parts = parts@;
        parts.push(s);
        proof {
            assert(s@ =~= speed_part(*p));
            lemma_views_push(old_parts, s);
            want = want.push(speed_part(*p));
        }
    }
    assert(views(parts@) =~= want);
    match p.eta_seconds {
        Some(e) => {
            if e > 0 {
                let mut s = String::from_str("ETA: ");
                let d = decimal(e);
                s.append(d.as_str());
                s.append("s");
                let ghost old_parts = parts@;
                parts.push(s);
                proof {
                    assert(s@ =~= eta_part(*p));
                    lemma_views_push(old_parts, s);
                    want = want.push(eta_part(*p));
                }
            }
        },
        None => {},
    }
    assert(views(parts@) =~= want);
    match &p.current_file {
        Some(f) => {
            let mut s = String::from_str("File: ");
            s.append(f.as_str());
            let ghost old_parts = parts@;
            parts.push(s);
            proof {
                assert(s@ =~= file_part(*p));
                lemma_views_push(old_parts, s);
                want = want.push(file_part(*p));
            }
        },
        None => {},
    }
    assert(views(parts@) =~= want);
    if p.total_files > 0 {
        let mut s = String::from_str("Files: ");
        let c = decimal(p.files_completed);
        s.append(c.as_str());
        s.append("/");
        let t = decimal(p.total_files);
        s.append(t.as_str());
        let ghost old_parts = parts@;
        parts.push(s);
        proof {
            assert(s@ =~= files_part(*p));
            lemma_views_push(old_parts, s);
            want = want.push(files_part(*p));
        }
    }
    assert(views(parts@) =~= want);
    assert(want =~= line_parts(*p));
    join_parts(&parts)
}

/// The position of the progress bar for a snapshot, within 0..=100.
pub fn bar_position(p: &ProgressSnapshot) -> (r: u64)
    ensures
        r == position_of(*p),
        r <= 100,
{
    if p.percentage > 100 { 100 } else { p.percentage }
}

} // verus!

verus! {

/// The one-line announcement of a change to the event's status. A completed
/// file is announced by name; a terminal status has none, since the outcome
/// message of the session stands for it.
pub open spec fn announcement_text(e: DownloadEvent) -> Option<Seq<char>> {
    if e.event_type == EventType::FileCompleted && e.progress.current_file is Some {
        Some("Completed: "@ + e.progress.current_file->0@)
    } else if e.status == DownloadStatus::Started {
        Some("Download started"@)
    } else if e.status == DownloadStatus::InProgress {
        Some("Download in progress"@)
    } else if e.status == DownloadStatus::Paused {
        Some("Download paused"@)
    } else if e.status == DownloadStatus::Resumed {
        Some("Download resumed"@)
    } else {
        None
    }
}

/// The announcement of a change to the event's status.
pub fn announcement(e: &DownloadEvent) -> (r: Option<String>)
    ensures
        opt_text_view(r) == announcement_text(*e),
{
    if e.event_type == EventType::FileCompleted {
        if let Some(f) = &e.progress.current_file {
            let mut s = String::from_str("Completed: ");
            s.append(f.as_str());
            return Some(s);
        }
    }
    match e.status {
        DownloadStatus::Started => Some(String::from_str("Download started")),
        DownloadStatus::InProgress => Some(String::from_str("Download in progress")),
        DownloadStatus::Paused => Some(String::from_str("Download paused")),
        DownloadStatus::Resumed => Some(String::from_str("Download resumed")),
        _ => None,
    }
}

} // verus!

verus! {

/// The message the progress bar ends with, for each outcome.
pub open spec fn outcome_text(o: OutcomeView) -> Seq<char> {
    match o {
        OutcomeView::Completed => "Download completed!"@,
        OutcomeView::Failed(_) => "Download failed!"@,
        OutcomeView::Cancelled => "Download cancelled"@,
        OutcomeView::StreamEnded => "Stream ended"@,
        OutcomeView::StreamError(_) => "Stream error!"@,
        OutcomeView::TimedOut => "Stream timeout"@,
    }
}

/// The message the progress bar ends with.
pub fn outcome_message(o: &Outcome) -> (r: String)
    ensures
        r@ == outcome_text(o@),
{
    match o {
        Outcome::Completed => String::from_str("Download completed!"),
        Outcome::Failed(_) => String::from_str("Download failed!"),
        Outcome::Cancelled => String::from_str("Download cancelled"),
        Outcome::StreamEnded => String::from_str("Stream ended"),
        Outcome::StreamError(_) => String::from_str("Stream error!"),
        Outcome::TimedOut => String::from_str("Stream timeout"),
    }
}

/// The diagnostic line shown after an outcome, if it has one: the server's
/// error message, the reason of a stream error, or what went silent.
pub open spec fn note_text(o: OutcomeView) -> Option<Seq<char>> {
    match o {
        OutcomeView::Failed(Some(m)) => Some("Error: "@ + m),
        OutcomeView::StreamEnded => Some("Download stream ended"@),
        OutcomeView::StreamError(r) => Some("Stream error: "@ + r),
        OutcomeView::TimedOut => Some("Download stream timed out - no progress updates received"@),
        _ => None,
    }
}

/// The diagnostic line shown after an outcome.
pub fn outcome_note(o: &Outcome) -> (r: Option<String>)
    ensures
        opt_text_view(r) == note_text(o@),
{
    match o {
        Outcome::Failed(Some(m)) => {
            let mut s = String::from_str("Error: ");
            s.append(m.as_str());
            Some(s)
        },
        Outcome::StreamEnded => Some(String::from_str("Download stream ended")),
        Outcome::StreamError(r) => {
            let mut s = String::from_str("Stream error: ");
            s.append(r.as_str());
            Some(s)
        },
        Outcome::TimedOut => Some(
            String::from_str("Download stream timed out - no progress updates received"),
        ),
        _ => None,
    }
}

/// Guidance for the operator after a stream error, chosen by its reason.
pub open spec fn hint_text(reason: Seq<char>) -> Seq<char> {
    if has_infix(reason, "connection closed"@) || has_infix(reason, "stream ended"@) {
        "Download may have completed or failed. Check server logs for details."@
    } else if has_infix(reason, "decoding response body"@) {
        "Network connection issue. The download may continue in the background."@
    } else {
        "Try running the download again or check the server status."@
    }
}

/// Guidance for the operator after a stream error.
pub fn stream_error_hint(reason: &str) -> (r: String)
    ensures
        r@ == hint_text(reason@),
{
    if contains_text(reason, "connection closed") || contains_text(reason, "stream ended") {
        String::from_str("Download may have completed or failed. Check server logs for details.")
    } else if contains_text(reason, "decoding response body") {
        String::from_str("Network connection issue. The download may continue in the background.")
    } else {
        String::from_str("Try running the download again or check the server status.")
    }
}

/// Guidance after an outcome: only a stream error has some.
pub fn outcome_hint(o: &Outcome) -> (r: Option<String>)
    ensures
        opt_text_view(r) == (match o@ {
            OutcomeView::StreamError(m) => Some(hint_text(m)),
            _ => None,
        }),
{
    match o {
        Outcome::StreamError(m) => Some(stream_error_hint(m.as_str())),
        _ => None,
    }
}

/// Whether the session ended with the model downloaded.
pub fn is_success(o: &Outcome) -> (r: bool)
    ensures
        r == (o@ == OutcomeView::Completed),
{
    match o {
        Outcome::Completed => true,
        _ => false,
    }
}

/// The status line shown while the stream is silent, with the count of
/// silent waits so far.
pub open spec fn waiting_text(n: nat) -> Seq<char> {
    "Waiting for updates... ("@ + dec_digits(n) + ")"@
}

/// The status line shown while the stream is silent.
pub fn waiting_message(n: u64) -> (r: String)
    ensures
        r@ == waiting_text(n as nat),
{
    let mut s = String::from_str("Waiting for updates... (");
    let d = decimal(n);
    s.append(d.as_str());
    s.append(")");
    s
}

} // verus!
