use vstd::prelude::*;
use vstd::string::StringExecFns;

use crate::keys::{hex2_str, hex_str, spec_hex, spec_hex2};
use crate::relay::LogEntry;

verus! {

/// The text of one log line, as the display surface shows it.
pub open spec fn spec_render(entry: LogEntry) -> Seq<char> {
    match entry {
        LogEntry::Captured { virtual_key, scan_code } => "[LEARN] captured vk=0x"@ + spec_hex2(
            virtual_key as nat,
        ) + " scan=0x"@ + spec_hex(scan_code as nat) + " -> set as trigger"@,
        LogEntry::TriggerMatched { virtual_key } => "[ACTION] trigger matched vk=0x"@ + spec_hex2(
            virtual_key as nat,
        ) + " -> toggle ime"@,
        LogEntry::PrimaryApplied { conversion } => "[IMM] conversion mode -> 0x"@ + spec_hex(
            conversion as nat,
        ),
        LogEntry::FallbackChosen => "[FALLBACK] imm inapplicable -> inject ime hotkey"@,
        LogEntry::EnabledChanged { enabled } => if enabled {
            "[STATE] enabled -> ON"@
        } else {
            "[STATE] enabled -> OFF"@
        },
        LogEntry::TriggerConfigured { virtual_key } => "[CONFIG] trigger key -> 0x"@ + spec_hex2(
            virtual_key as nat,
        ),
        LogEntry::LearnArmed => "[LEARN] waiting for key press"@,
    }
}

impl LogEntry {
    /// Renders this line for display.
    pub fn render(&self) -> (r: String)
        ensures
            r@ == spec_render(*self),
    {
        match self {
            LogEntry::Captured { virtual_key, scan_code } => {
                let mut s = String::from_str("[LEARN] captured vk=0x");
                let vk_hex = hex2_str(*virtual_key);
                s.append(vk_hex.as_str());
                s.append(" scan=0x");
                let scan_hex = hex_str(*scan_code);
                s.append(scan_hex.as_str());
                s.append(" -> set as trigger");
                proof {
                    assert(s@ =~= spec_render(*self));
                }
                s
            },
            LogEntry::TriggerMatched { virtual_key } => {
                let mut s = String::from_str("[ACTION] trigger matched vk=0x");
                let vk_hex = hex2_str(*virtual_key);
                s.append(vk_hex.as_str());
                s.append(" -> toggle ime");
                proof {
                    assert(s@ =~= spec_render(*self));
                }
                s
            },
            LogEntry::PrimaryApplied { conversion } => {
                let mut s = String::from_str("[IMM] conversion mode -> 0x");
                let mode_hex = hex_str(*conversion);
                s.append(mode_hex.as_str());
                proof {
                    assert(s@ =~= spec_render(*self));
                }
                s
            },
            LogEntry::FallbackChosen => String::from_str(
                "[FALLBACK] imm inapplicable -> inject ime hotkey",
            ),
            LogEntry::EnabledChanged { enabled } => {
                if *enabled {
                    String::from_str("[STATE] enabled -> ON")
                } else {
                    String::from_str("[STATE] enabled -> OFF")
                }
            },
            LogEntry::TriggerConfigured { virtual_key } => {
                let mut s = String::from_str("[CONFIG] trigger key -> 0x");
                let vk_hex = hex2_str(*virtual_key);
                s.append(vk_hex.as_str());
                proof {
                    assert(s@ =~= spec_render(*self));
                }
                s
            },
            LogEntry::LearnArmed => String::from_str("[LEARN] waiting for key press"),
        }
    }
}

} // verus!
