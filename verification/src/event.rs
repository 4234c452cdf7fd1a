use vstd::prelude::*;

verus! {

/// A virtual-key code as delivered by the OS keyboard pipeline.
pub type KeyCode = u32;

/// Which half of a key stroke an event reports.
#[derive(Clone, Copy, Debug, PartialEq, Eq, Structural)]
pub enum Transition {
    KeyDown,
    KeyUp,
}

/// The hook's answer to the OS for one event: let it pass on to the rest of
/// the input pipeline, or suppress it entirely.
#[derive(Clone, Copy, Debug, PartialEq, Eq, Structural)]
pub enum Verdict {
    PassThrough,
    Consume,
}

/// One keyboard transition as seen by the low-level hook. Ephemeral: it is
/// consulted for a verdict and at most echoed into a log line.
#[derive(Clone, Copy, Debug, PartialEq, Eq, Structural)]
pub struct KeyEvent {
    pub virtual_key: KeyCode,
    pub scan_code: u32,
    pub flags: u32,
    pub transition: Transition,
    pub is_synthetic: bool,
}

impl KeyEvent {
    pub fn key_down(virtual_key: KeyCode, scan_code: u32) -> (e: KeyEvent)
        ensures
            e == (KeyEvent {
                virtual_key,
                scan_code,
                flags: 0u32,
                transition: Transition::KeyDown,
                is_synthetic: false,
            }),
    {
        KeyEvent { virtual_key, scan_code, flags: 0, transition: Transition::KeyDown, is_synthetic: false }
    }

    pub fn key_up(virtual_key: KeyCode, scan_code: u32) -> (e: KeyEvent)
        ensures
            e == (KeyEvent {
                virtual_key,
                scan_code,
                flags: 0u32,
                transition: Transition::KeyUp,
                is_synthetic: false,
            }),
    {
        KeyEvent { virtual_key, scan_code, flags: 0, transition: Transition::KeyUp, is_synthetic: false }
    }
}

} // verus!
