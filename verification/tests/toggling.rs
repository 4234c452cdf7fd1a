use hangul_trigger::event::{KeyEvent, Verdict};
use hangul_trigger::hook::Core;
use hangul_trigger::keys::VK_CAPITAL;
use hangul_trigger::relay::LogEntry;
use hangul_trigger::toggle::{plan_toggle, ImeProbe, ToggleAction, IME_CMODE_NATIVE};

#[test]
fn primary_read_flips_exactly_the_native_bit() {
    let act = plan_toggle(&ImeProbe::Read { conversion: 0x9, sentence: 0x8000 });
    assert_eq!(act, ToggleAction::WriteConversion { conversion: 0x8, sentence: 0x8000 });

    let act = plan_toggle(&ImeProbe::Read { conversion: 0x8, sentence: 0x8000 });
    assert_eq!(act, ToggleAction::WriteConversion { conversion: 0x9, sentence: 0x8000 });

    let act = plan_toggle(&ImeProbe::Read { conversion: 0x0, sentence: 0x0 });
    assert_eq!(
        act,
        ToggleAction::WriteConversion { conversion: IME_CMODE_NATIVE, sentence: 0x0 }
    );
}

#[test]
fn every_inapplicable_condition_falls_back() {
    for probe in [ImeProbe::NoFocusedWindow, ImeProbe::NoInputContext, ImeProbe::ReadFailed] {
        assert_eq!(plan_toggle(&probe), ToggleAction::InjectFallback);
    }
}

#[test]
fn primary_success_never_reaches_the_fallback() {
    let act = plan_toggle(&ImeProbe::Read { conversion: 0x19, sentence: 0x1 });
    assert!(matches!(act, ToggleAction::WriteConversion { .. }));
    assert!(!matches!(act, ToggleAction::InjectFallback));
}

#[test]
fn toggle_invocation_leaves_guard_clear_on_primary_path() {
    let mut c = Core::new();
    c.begin_toggle();
    assert!(c.is_synthesizing());
    let act = c.resolve_toggle(&ImeProbe::Read { conversion: 0x9, sentence: 0x0 });
    assert_eq!(act, ToggleAction::WriteConversion { conversion: 0x8, sentence: 0x0 });
    assert!(c.is_synthesizing());
    c.finish_toggle();
    assert!(!c.is_synthesizing());

    let lines = c.log.drain_all();
    assert_eq!(lines.len(), 1);
    assert_eq!(lines[0], LogEntry::PrimaryApplied { conversion: 0x8 });
}

#[test]
fn scenario_d_read_failure_exercises_fallback() {
    let mut c = Core::new();

    let out = c.on_event(&KeyEvent::key_down(VK_CAPITAL, 0x3A));
    assert!(out.invoke_toggle);

    c.begin_toggle();
    let act = c.resolve_toggle(&ImeProbe::ReadFailed);
    assert_eq!(act, ToggleAction::InjectFallback);
    c.finish_toggle();
    assert!(!c.is_synthesizing());

    let lines = c.log.drain_all();
    assert_eq!(lines.len(), 2);
    assert_eq!(lines[1], LogEntry::FallbackChosen);
    assert!(lines[1].render().contains("[FALLBACK]"));
}

#[test]
fn guard_blocks_self_injected_events_mid_toggle() {
    let mut c = Core::new();
    let out = c.on_event(&KeyEvent::key_down(VK_CAPITAL, 0x3A));
    assert!(out.invoke_toggle);

    c.begin_toggle();
    let act = c.resolve_toggle(&ImeProbe::NoInputContext);
    assert_eq!(act, ToggleAction::InjectFallback);

    // The fallback injection echoes back through the hook while the guard
    // is still set: both transitions must pass through untouched.
    let echo_down = c.on_event(&KeyEvent::key_down(0x15, 0));
    assert_eq!(echo_down.verdict, Verdict::PassThrough);
    let echo_up = c.on_event(&KeyEvent::key_up(0x15, 0));
    assert_eq!(echo_up.verdict, Verdict::PassThrough);

    c.finish_toggle();
    assert!(!c.is_synthesizing());

    // The next trigger press toggles again: the guard did not stick.
    let out = c.on_event(&KeyEvent::key_down(VK_CAPITAL, 0x3A));
    assert!(out.invoke_toggle);
}
