//! One cycle of the uploader loop: what is logged and how long the loop
//! sleeps before the next cycle, given how the two collaborators fared.

use vstd::prelude::*;
use crate::config::Config;
use crate::commands::spec_snapshot_path;
use crate::commands::snapshot_path;
use crate::messages::LogLevel;
use crate::messages::Message;
use crate::messages::capture_failed_message;
use crate::messages::captured_message;
use crate::messages::messages_view;
use crate::messages::output_message;
use crate::messages::spec_capture_failed_text;
use crate::messages::spec_captured_text;
use crate::messages::spec_upload_failed_text;
use crate::messages::spec_uploaded_text;
use crate::messages::spec_waiting_text;
use crate::messages::upload_failed_message;
use crate::messages::uploaded_message;
use crate::messages::waiting_message;

verus! {

/// How one cycle went, as reported by the collaborators' exit statuses.
/// A cycle that fails at capture never reaches the upload step, so no
/// upload outcome exists for it.
pub enum CycleEvent {
    /// The capture collaborator failed (non-zero exit or invocation
    /// error), or the fresh snapshot could not be read back.
    CaptureFailed,
    /// The capture succeeded but the upload collaborator failed.
    UploadFailed {
        /// Combined output of the capture collaborator.
        capture_output: String,
        /// Byte size of the captured snapshot file.
        snapshot_bytes: u64,
    },
    /// Both collaborators succeeded.
    Completed {
        /// Combined output of the capture collaborator.
        capture_output: String,
        /// Byte size of the captured snapshot file.
        snapshot_bytes: u64,
        /// Combined output of the upload collaborator.
        upload_output: String,
    },
}

/// What the loop does with one cycle's event: the messages handed to the
/// logger, in order, and the seconds to sleep before the next cycle.
pub struct CycleReport {
    /// The messages for the logger, in order.
    pub messages: Vec<Message>,
    /// Seconds to sleep before the next cycle.
    pub next_delay: u64,
}

/// The delay before the first cycle: none, so the first capture is
/// attempted immediately.
pub open spec fn spec_initial_delay() -> u64 {
    0
}

/// Returns the delay before the first cycle.
pub fn initial_delay() -> (r: u64)
    ensures
        r == spec_initial_delay(),
{
    0
}

/// The sleep that follows a cycle: the plain interval after a fully
/// successful cycle, three times the interval after any failure.
pub open spec fn spec_next_delay(interval: u64, ev: CycleEvent) -> int {
    match ev {
        CycleEvent::Completed { .. } => interval as int,
        _ => interval * 3,
    }
}

/// The debug echo of collaborator output: one output message when debug
/// is on, nothing otherwise.
pub open spec fn spec_debug_echo(debug: bool, text: Seq<char>) -> Seq<(LogLevel, Seq<char>)> {
    if debug {
        seq![(LogLevel::Output, text)]
    } else {
        Seq::empty()
    }
}

/// Everything one cycle logs, in order. A failed capture logs exactly its
/// error; a failed upload logs the captured-file line first; a complete
/// cycle logs the captured-file line, the upload success naming the
/// endpoint, and the waiting line. Collaborator output is echoed in debug
/// mode, each echo right after its collaborator.
pub open spec fn spec_cycle_log(cfg: Config, ev: CycleEvent) -> Seq<(LogLevel, Seq<char>)> {
    let path = spec_snapshot_path(cfg.fingerprint@);
    match ev {
        CycleEvent::CaptureFailed => seq![(LogLevel::Error, spec_capture_failed_text())],
        CycleEvent::UploadFailed { capture_output, snapshot_bytes } => spec_debug_echo(
            cfg.debug,
            capture_output@,
        ) + seq![(LogLevel::Output, spec_captured_text(path, snapshot_bytes))]
            + seq![(LogLevel::Error, spec_upload_failed_text())],
        CycleEvent::Completed { capture_output, snapshot_bytes, upload_output } => spec_debug_echo(
            cfg.debug,
            capture_output@,
        ) + seq![(LogLevel::Output, spec_captured_text(path, snapshot_bytes))]
            + spec_debug_echo(cfg.debug, upload_output@)
            + seq![(LogLevel::Output, spec_uploaded_text())]
            + seq![(LogLevel::Output, spec_waiting_text(cfg.interval))],
    }
}

/// Turns one cycle's event into its report: exactly the messages of
/// `spec_cycle_log`, in order, and the delay of `spec_next_delay`.
pub fn cycle_report(cfg: &Config, ev: CycleEvent) -> (r: CycleReport)
    requires
        cfg.wf(),
    ensures
        messages_view(r.messages@) == spec_cycle_log(*cfg, ev),
        r.next_delay == spec_next_delay(cfg.interval, ev),
{
    let ghost ev0 = ev;
    let mut messages: Vec<Message> = Vec::new();
    let next_delay: u64;
    match ev {
        CycleEvent::CaptureFailed => {
            messages.push(capture_failed_message());
            next_delay = cfg.interval * 3;
        },
        CycleEvent::UploadFailed { capture_output, snapshot_bytes } => {
            if cfg.debug {
                messages.push(output_message(capture_output));
            }
            let path = snapshot_path(cfg.fingerprint.as_str());
            messages.push(captured_message(path.as_str(), snapshot_bytes));
            messages.push(upload_failed_message());
            next_delay = cfg.interval * 3;
        },
        CycleEvent::Completed { capture_output, snapshot_bytes, upload_output } => {
            if cfg.debug {
                messages.push(output_message(capture_output));
            }
            let path = snapshot_path(cfg.fingerprint.as_str());
            messages.push(captured_message(path.as_str(), snapshot_bytes));
            if cfg.debug {
                messages.push(output_message(upload_output));
            }
            messages.push(uploaded_message());
            messages.push(waiting_message(cfg.interval));
            next_delay = cfg.interval;
        },
    }
    proof {
        assert(messages_view(messages@) =~= spec_cycle_log(*cfg, ev0));
    }
    CycleReport { messages, next_delay }
}

/// After any capture failure the loop backs off to three times the
/// interval, and nothing but the capture error is logged that cycle: in
/// particular no captured-file line and no upload attempt's messages.
pub proof fn lemma_capture_failure_backoff(cfg: Config)
    requires
        cfg.wf(),
    ensures
        spec_next_delay(cfg.interval, CycleEvent::CaptureFailed) == cfg.interval * 3,
        spec_cycle_log(cfg, CycleEvent::CaptureFailed) =~= seq![
            (LogLevel::Error, spec_capture_failed_text()),
        ],
{
}

/// After any upload failure the loop backs off to three times the
/// interval.
pub proof fn lemma_upload_failure_backoff(cfg: Config, capture_output: String, snapshot_bytes: u64)
    requires
        cfg.wf(),
    ensures
        spec_next_delay(
            cfg.interval,
            CycleEvent::UploadFailed { capture_output, snapshot_bytes },
        ) == cfg.interval * 3,
{
}

/// After a fully successful cycle the next sleep is exactly the
/// configured interval.
pub proof fn lemma_success_delay(
    cfg: Config,
    capture_output: String,
    snapshot_bytes: u64,
    upload_output: String,
)
    requires
        cfg.wf(),
    ensures
        spec_next_delay(
            cfg.interval,
            CycleEvent::Completed { capture_output, snapshot_bytes, upload_output },
        ) == cfg.interval,
{
}

} // verus!
