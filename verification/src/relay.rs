use vstd::prelude::*;

use crate::event::KeyCode;

verus! {

/// Most lines the outbox will hold; once full, further appends are dropped.
pub const LOG_CAPACITY: usize = 1024;

/// One diagnostic line, kept structured until a consumer renders it.
/// Immutable once produced; ownership moves to the consumer on a drain.
#[derive(Clone, Copy, Debug, PartialEq, Eq)]
pub enum LogEntry {
    /// Learning mode captured this key and made it the trigger.
    Captured { virtual_key: KeyCode, scan_code: u32 },
    /// The trigger key was pressed while armed; a toggle follows.
    TriggerMatched { virtual_key: KeyCode },
    /// The primary path wrote this conversion mode back to the context.
    PrimaryApplied { conversion: u32 },
    /// The primary path was inapplicable; the fallback injection was chosen.
    FallbackChosen,
    /// The enabled flag was switched.
    EnabledChanged { enabled: bool },
    /// The trigger key was reconfigured from a preset.
    TriggerConfigured { virtual_key: KeyCode },
    /// Learning mode was armed; the next key press will be captured.
    LearnArmed,
}

/// What one best-effort append leaves in the outbox: the line is kept while
/// there is room and silently dropped on a full outbox, never an error.
pub open spec fn log_push(buf: Seq<LogEntry>, entry: LogEntry) -> Seq<LogEntry> {
    if buf.len() < LOG_CAPACITY {
        buf.push(entry)
    } else {
        buf
    }
}

/// The bounded outbox between the interception callback (producer) and the
/// display surface (consumer). Appends never block and never fail; a drain
/// hands everything accumulated out in insertion order.
pub struct LogRelay {
    entries: Vec<LogEntry>,
}

impl View for LogRelay {
    type V = Seq<LogEntry>;

    closed spec fn view(&self) -> Seq<LogEntry> {
        self.entries@
    }
}

impl LogRelay {
    pub fn new() -> (r: LogRelay)
        ensures
            r@ === Seq::<LogEntry>::empty(),
    {
        LogRelay { entries: Vec::new() }
    }

    /// Best-effort append: kept while there is room, dropped otherwise.
    pub fn append(&mut self, entry: LogEntry)
        ensures
            final(self)@ == log_push(old(self)@, entry),
    {
        if self.entries.len() < LOG_CAPACITY {
            self.entries.push(entry);
        }
    }

    /// Empties the outbox and returns everything accumulated since the
    /// previous drain, in insertion order.
    pub fn drain_all(&mut self) -> (out: Vec<LogEntry>)
        ensures
            out@ == old(self)@,
            final(self)@ === Seq::<LogEntry>::empty(),
    {
        let mut out: Vec<LogEntry> = Vec::new();
        core::mem::swap(&mut out, &mut self.entries);
        out
    }

    pub fn len(&self) -> (n: usize)
        ensures
            n == self@.len(),
    {
        self.entries.len()
    }
}

} // verus!
