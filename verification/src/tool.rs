//! The uploader tool: it owns the logger and turns each cycle's event
//! into logged messages and the next sleep delay.

use vstd::prelude::*;
use crate::config::Config;
use crate::cycle::CycleEvent;
use crate::cycle::cycle_report;
use crate::cycle::spec_next_delay;
use crate::messages::LogLevel;
use crate::messages::Message;

verus! {

/// The injectable logging capability: three operations over formatted
/// text. `output` is an ordinary progress line; `warning` and `error`
/// are diagnostics. Implementations decide where the text goes.
pub trait PrusaConnectUploaderLog {
    /// Writes an ordinary progress line.
    fn output(&self, msg: &str);

    /// Writes a warning line.
    fn warning(&self, msg: &str);

    /// Writes an error line.
    fn error(&self, msg: &str);
}

/// The uploader tool, holding the logger that observes the loop.
pub struct PrusaConnectUploaderTool<'a, L: PrusaConnectUploaderLog> {
    log: &'a L,
}

impl<'a, L: PrusaConnectUploaderLog> PrusaConnectUploaderTool<'a, L> {
    /// Builds a tool around a logger.
    pub fn new(log: &'a L) -> PrusaConnectUploaderTool<'a, L> {
        PrusaConnectUploaderTool { log }
    }

    /// Hands each message to the logger's operation of its level, in
    /// order.
    pub fn log_messages(&self, messages: &Vec<Message>) {
        let mut i: usize = 0;
        while i < messages.len()
            invariant
                i <= messages.len(),
            decreases messages.len() - i,
        {
            let m = &messages[i];
            match m.level {
                LogLevel::Output => self.log.output(m.text.as_str()),
                LogLevel::Warning => self.log.warning(m.text.as_str()),
                LogLevel::Error => self.log.error(m.text.as_str()),
            }
            i = i + 1;
        }
    }

    /// Handles one cycle's event: logs everything the cycle produced, in
    /// order, and returns the seconds to sleep before the next cycle —
    /// the interval after full success, three times the interval after
    /// any failure.
    pub fn run_cycle(&self, cfg: &Config, ev: CycleEvent) -> (r: u64)
        requires
            cfg.wf(),
        ensures
            r == spec_next_delay(cfg.interval, ev),
    {
        let report = cycle_report(cfg, ev);
        self.log_messages(&report.messages);
        report.next_delay
    }

    /// The startup decision. A successful parse yields the configuration
    /// and the loop may be entered; on a parse failure or a help or
    /// version request the message is written as ordinary output and no
    /// configuration is yielded, so the loop is never entered.
    pub fn startup(&self, parse: Result<Config, String>) -> (r: Option<Config>)
        ensures
            match parse {
                Ok(cfg) => r == Some(cfg),
                Err(_) => r is None,
            },
    {
        match parse {
            Ok(cfg) => Some(cfg),
            Err(msg) => {
                self.log.output(msg.as_str());
                None
            },
        }
    }
}

} // verus!
