use vstd::prelude::*;

use crate::relay::LogEntry;

verus! {

/// The conversion-mode bit that selects the native language; the primary
/// strategy flips exactly this bit and leaves every other bit untouched.
pub const IME_CMODE_NATIVE: u32 = 0x1;

/// What probing the foreground window's input context found: one of the
/// enumerated inapplicable conditions, or the conversion and sentence modes
/// read from the context.
#[derive(Clone, Copy, Debug, PartialEq, Eq)]
pub enum ImeProbe {
    NoFocusedWindow,
    NoInputContext,
    ReadFailed,
    Read { conversion: u32, sentence: u32 },
}

/// The single action a resolved toggle asks the adapter to perform: write a
/// new conversion mode back to the input context (primary strategy), or
/// inject a synthetic press of the IME hotkey (fallback strategy).
#[derive(Clone, Copy, Debug, PartialEq, Eq)]
pub enum ToggleAction {
    WriteConversion { conversion: u32, sentence: u32 },
    InjectFallback,
}

/// The two-tier protocol: a successful read is answered by writing the mode
/// back with exactly the native bit flipped; every inapplicable condition
/// (no focused window, no input context, failed read) falls back to
/// injection and never attempts a write.
pub open spec fn plan_for(probe: ImeProbe) -> ToggleAction {
    match probe {
        ImeProbe::Read { conversion, sentence } => ToggleAction::WriteConversion {
            conversion: conversion ^ IME_CMODE_NATIVE,
            sentence,
        },
        _ => ToggleAction::InjectFallback,
    }
}

/// The log line a resolved toggle leaves behind.
pub open spec fn toggle_log_line(probe: ImeProbe) -> LogEntry {
    match probe {
        ImeProbe::Read { conversion, sentence: _ } => LogEntry::PrimaryApplied {
            conversion: conversion ^ IME_CMODE_NATIVE,
        },
        _ => LogEntry::FallbackChosen,
    }
}

/// Executable counterpart of `plan_for`.
pub fn plan_toggle(probe: &ImeProbe) -> (act: ToggleAction)
    ensures
        act == plan_for(*probe),
{
    match probe {
        ImeProbe::Read { conversion, sentence } => ToggleAction::WriteConversion {
            conversion: *conversion ^ IME_CMODE_NATIVE,
            sentence: *sentence,
        },
        ImeProbe::NoFocusedWindow => ToggleAction::InjectFallback,
        ImeProbe::NoInputContext => ToggleAction::InjectFallback,
        ImeProbe::ReadFailed => ToggleAction::InjectFallback,
    }
}

/// Flipping with the native mask changes the native bit, leaves every other
/// bit untouched, and applied twice restores the original mode.
pub proof fn lemma_flip_exactly_native(conversion: u32)
    ensures
        (conversion ^ IME_CMODE_NATIVE) & IME_CMODE_NATIVE != conversion & IME_CMODE_NATIVE,
        (conversion ^ IME_CMODE_NATIVE) & !IME_CMODE_NATIVE == conversion & !IME_CMODE_NATIVE,
        (conversion ^ IME_CMODE_NATIVE) ^ IME_CMODE_NATIVE == conversion,
{
    assert((conversion ^ IME_CMODE_NATIVE) & IME_CMODE_NATIVE != conversion
        & IME_CMODE_NATIVE) by (bit_vector);
    assert((conversion ^ IME_CMODE_NATIVE) & !IME_CMODE_NATIVE == conversion
        & !IME_CMODE_NATIVE) by (bit_vector);
    assert((conversion ^ IME_CMODE_NATIVE) ^ IME_CMODE_NATIVE == conversion) by (bit_vector);
}

/// A toggle resolves to exactly one strategy: the primary write when and
/// only when the probe read the conversion mode, the fallback injection on
/// every inapplicable condition. The two are never both chosen.
pub proof fn lemma_primary_fallback_exclusive(probe: ImeProbe)
    ensures
        (probe matches ImeProbe::Read { .. }) <==> (plan_for(probe) matches ToggleAction::WriteConversion { .. }),
        (probe matches ImeProbe::Read { .. }) <==> !(plan_for(probe) matches ToggleAction::InjectFallback),
{
}

} // verus!
