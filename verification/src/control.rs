use vstd::prelude::*;

use crate::event::KeyCode;
use crate::hook::{Core, TriggerState};
use crate::keys::{spec_trigger_key_display, trigger_key_display};
use crate::relay::{log_push, LogEntry};

verus! {

/// The command surface the presentation collaborators call. Commands mutate
/// the trigger state and leave a log line; queries read one field. The next
/// hook invocation sees every change.
impl Core {
    /// Switches the trigger on or off.
    pub fn set_enabled(&mut self, enabled: bool)
        ensures
            final(self).state == (TriggerState {
                enabled,
                trigger_key: old(self).state.trigger_key,
                synthesizing: old(self).state.synthesizing,
                learning: old(self).state.learning,
            }),
            final(self).log@ == log_push(old(self).log@, LogEntry::EnabledChanged { enabled }),
    {
        self.state.enabled = enabled;
        self.log.append(LogEntry::EnabledChanged { enabled });
    }

    /// Makes this key the trigger, as the preset menu items do.
    pub fn set_trigger_preset(&mut self, virtual_key: KeyCode)
        ensures
            final(self).state == (TriggerState {
                enabled: old(self).state.enabled,
                trigger_key: virtual_key,
                synthesizing: old(self).state.synthesizing,
                learning: old(self).state.learning,
            }),
            final(self).log@ == log_push(
                old(self).log@,
                LogEntry::TriggerConfigured { virtual_key },
            ),
    {
        self.state.trigger_key = virtual_key;
        self.log.append(LogEntry::TriggerConfigured { virtual_key });
    }

    /// Arms learning mode: the next key pressed becomes the trigger.
    pub fn begin_learning(&mut self)
        ensures
            final(self).state == (TriggerState {
                enabled: old(self).state.enabled,
                trigger_key: old(self).state.trigger_key,
                synthesizing: old(self).state.synthesizing,
                learning: true,
            }),
            final(self).log@ == log_push(old(self).log@, LogEntry::LearnArmed),
    {
        self.state.learning = true;
        self.log.append(LogEntry::LearnArmed);
    }

    pub fn is_enabled(&self) -> (b: bool)
        ensures
            b == self.state.enabled,
    {
        self.state.enabled
    }

    pub fn is_learning(&self) -> (b: bool)
        ensures
            b == self.state.learning,
    {
        self.state.learning
    }

    pub fn is_synthesizing(&self) -> (b: bool)
        ensures
            b == self.state.synthesizing,
    {
        self.state.synthesizing
    }

    pub fn trigger_key(&self) -> (vk: KeyCode)
        ensures
            vk == self.state.trigger_key,
    {
        self.state.trigger_key
    }

    /// The display string of the configured trigger key, for the tray tip
    /// and the menu.
    pub fn current_trigger_display(&self) -> (r: String)
        ensures
            r@ == spec_trigger_key_display(self.state.trigger_key),
    {
        trigger_key_display(self.state.trigger_key)
    }
}

} // verus!
