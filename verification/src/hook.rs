use vstd::prelude::*;

use crate::event::{KeyCode, KeyEvent, Transition, Verdict};
use crate::keys::VK_CAPITAL;
use crate::relay::{log_push, LogEntry, LogRelay};
use crate::toggle::{
    plan_for, plan_toggle, toggle_log_line, ImeProbe, ToggleAction, IME_CMODE_NATIVE,
};

verus! {

/// The process-wide trigger state. Every field is read and written
/// independently; no composite read-modify-write is ever required.
#[derive(Clone, Copy, Debug, PartialEq, Eq, Structural)]
pub struct TriggerState {
    /// Whether the trigger key currently invokes the toggle at all.
    pub enabled: bool,
    /// The virtual key configured to invoke the toggle.
    pub trigger_key: KeyCode,
    /// Reentrancy guard: true exactly while one toggle invocation runs, so
    /// the callback never reacts to the keystrokes the toggle injects.
    pub synthesizing: bool,
    /// Learning mode: the next key pressed becomes the trigger.
    pub learning: bool,
}

/// The state a fresh process starts in: armed, watching for Caps Lock.
pub open spec fn initial_state() -> TriggerState {
    TriggerState { enabled: true, trigger_key: VK_CAPITAL, synthesizing: false, learning: false }
}

/// The verdict handed back to the OS for one event: everything passes while
/// the reentrancy guard is set; learning consumes the captured key-down and
/// the matching key-up; while enabled, both transitions of the trigger key
/// are consumed (a key-up must be suppressed symmetrically with its
/// key-down); everything else passes through.
pub open spec fn verdict_for(s: TriggerState, e: KeyEvent) -> Verdict {
    if s.synthesizing {
        Verdict::PassThrough
    } else if s.learning {
        Verdict::Consume
    } else if s.enabled && e.virtual_key == s.trigger_key {
        Verdict::Consume
    } else {
        Verdict::PassThrough
    }
}

/// The key a learning-mode capture takes from this event, if any: exactly a
/// key-down while learning and not synthesizing.
pub open spec fn captures(s: TriggerState, e: KeyEvent) -> Option<KeyCode> {
    if !s.synthesizing && s.learning && e.transition == Transition::KeyDown {
        Some(e.virtual_key)
    } else {
        None
    }
}

/// The trigger state after one event: a capture stores the key as the new
/// trigger and leaves learning mode; no other event changes any field.
pub open spec fn state_after(s: TriggerState, e: KeyEvent) -> TriggerState {
    if captures(s, e) is Some {
        TriggerState {
            enabled: s.enabled,
            trigger_key: e.virtual_key,
            synthesizing: s.synthesizing,
            learning: false,
        }
    } else {
        s
    }
}

/// Whether this event invokes the IME toggle: exactly a key-down of the
/// trigger key while enabled, not learning and not synthesizing.
pub open spec fn invokes_toggle(s: TriggerState, e: KeyEvent) -> bool {
    &&& !s.synthesizing
    &&& !s.learning
    &&& s.enabled
    &&& e.virtual_key == s.trigger_key
    &&& e.transition == Transition::KeyDown
}

/// The trigger state after a whole sequence of events, first to last.
pub open spec fn run_events(s: TriggerState, events: Seq<KeyEvent>) -> TriggerState
    decreases events.len(),
{
    if events.len() == 0 {
        s
    } else {
        run_events(state_after(s, events[0]), events.drop_first())
    }
}

/// The log line one event leaves behind: a capture line, a match line, or
/// none at all.
pub open spec fn log_line_for(s: TriggerState, e: KeyEvent) -> Option<LogEntry> {
    if captures(s, e) is Some {
        Some(LogEntry::Captured { virtual_key: e.virtual_key, scan_code: e.scan_code })
    } else if invokes_toggle(s, e) {
        Some(LogEntry::TriggerMatched { virtual_key: e.virtual_key })
    } else {
        None
    }
}

/// The log contents after the line of one event was appended best-effort.
pub open spec fn log_after(buf: Seq<LogEntry>, line: Option<LogEntry>) -> Seq<LogEntry> {
    match line {
        Some(entry) => log_push(buf, entry),
        None => buf,
    }
}

/// What the dispatcher hands the adapter for one event: the verdict for the
/// OS, whether to run one toggle invocation now, and the key a learning
/// capture stored, for the "capture completed" notification.
#[derive(Clone, Copy, Debug, PartialEq, Eq)]
pub struct EventOutcome {
    pub verdict: Verdict,
    pub invoke_toggle: bool,
    pub captured: Option<KeyCode>,
}

/// The explicitly-constructed context shared by the hook dispatcher, the
/// toggler and the controller: the trigger state and the log outbox. Its
/// lifetime is the process lifetime.
pub struct Core {
    pub state: TriggerState,
    pub log: LogRelay,
}

impl Core {
    pub fn new() -> (c: Core)
        ensures
            c.state == initial_state(),
            c.log@ === Seq::<LogEntry>::empty(),
    {
        Core {
            state: TriggerState {
                enabled: true,
                trigger_key: VK_CAPITAL,
                synthesizing: false,
                learning: false,
            },
            log: LogRelay::new(),
        }
    }

    /// The hook dispatcher: decides one event. Runs the state machine over
    /// the current trigger state, stores a learned key, leaves at most one
    /// log line, and tells the adapter whether to run one toggle invocation.
    pub fn on_event(&mut self, e: &KeyEvent) -> (out: EventOutcome)
        ensures
            out.verdict == verdict_for(old(self).state, *e),
            out.invoke_toggle == invokes_toggle(old(self).state, *e),
            out.captured == captures(old(self).state, *e),
            final(self).state == state_after(old(self).state, *e),
            final(self).log@ == log_after(old(self).log@, log_line_for(old(self).state, *e)),
    {
        if self.state.synthesizing {
            return EventOutcome {
                verdict: Verdict::PassThrough,
                invoke_toggle: false,
                captured: None,
            };
        }
        match e.transition {
            Transition::KeyDown => {
                if self.state.learning {
                    self.state.learning = false;
                    self.state.trigger_key = e.virtual_key;
                    self.log.append(
                        LogEntry::Captured { virtual_key: e.virtual_key, scan_code: e.scan_code },
                    );
                    EventOutcome {
                        verdict: Verdict::Consume,
                        invoke_toggle: false,
                        captured: Some(e.virtual_key),
                    }
                } else if self.state.enabled && e.virtual_key == self.state.trigger_key {
                    self.log.append(LogEntry::TriggerMatched { virtual_key: e.virtual_key });
                    EventOutcome {
                        verdict: Verdict::Consume,
                        invoke_toggle: true,
                        captured: None,
                    }
                } else {
                    EventOutcome {
                        verdict: Verdict::PassThrough,
                        invoke_toggle: false,
                        captured: None,
                    }
                }
            },
            Transition::KeyUp => {
                let consume = self.state.learning || (self.state.enabled && e.virtual_key
                    == self.state.trigger_key);
                EventOutcome {
                    verdict: if consume {
                        Verdict::Consume
                    } else {
                        Verdict::PassThrough
                    },
                    invoke_toggle: false,
                    captured: None,
                }
            },
        }
    }

    /// First phase of one toggle invocation: sets the reentrancy guard
    /// before anything observable happens, so events the toggle itself
    /// causes pass through untouched.
    pub fn begin_toggle(&mut self)
        ensures
            final(self).state == (TriggerState {
                enabled: old(self).state.enabled,
                trigger_key: old(self).state.trigger_key,
                synthesizing: true,
                learning: old(self).state.learning,
            }),
            final(self).log@ == old(self).log@,
    {
        self.state.synthesizing = true;
    }

    /// Second phase: decides between the primary write and the fallback
    /// injection from what the probe of the input context found, and logs
    /// the chosen path. The guard stays set: the adapter performs the
    /// action, which may itself cause key events, before finishing.
    pub fn resolve_toggle(&mut self, probe: &ImeProbe) -> (act: ToggleAction)
        requires
            old(self).state.synthesizing,
        ensures
            act == plan_for(*probe),
            final(self).state == old(self).state,
            final(self).log@ == log_push(old(self).log@, toggle_log_line(*probe)),
    {
        self.log.append(toggle_log_line_of(probe));
        plan_toggle(probe)
    }

    /// Last phase of one toggle invocation: clears the reentrancy guard.
    /// Runs on every exit path of a toggle, so the guard never remains set
    /// after an invocation returns.
    pub fn finish_toggle(&mut self)
        ensures
            final(self).state == (TriggerState {
                enabled: old(self).state.enabled,
                trigger_key: old(self).state.trigger_key,
                synthesizing: false,
                learning: old(self).state.learning,
            }),
            final(self).log@ == old(self).log@,
    {
        self.state.synthesizing = false;
    }
}

/// Executable counterpart of `toggle_log_line`.
fn toggle_log_line_of(probe: &ImeProbe) -> (entry: LogEntry)
    ensures
        entry == toggle_log_line(*probe),
{
    match probe {
        ImeProbe::Read { conversion, sentence: _ } => LogEntry::PrimaryApplied {
            conversion: *conversion ^ IME_CMODE_NATIVE,
        },
        _ => LogEntry::FallbackChosen,
    }
}

} // verus!
