use hangul_trigger::event::{KeyEvent, Verdict};
use hangul_trigger::hook::Core;
use hangul_trigger::keys::{VK_CAPITAL, VK_F13, VK_RMENU};
use hangul_trigger::relay::LogEntry;

#[test]
fn fresh_core_watches_caps_lock() {
    let c = Core::new();
    assert!(c.is_enabled());
    assert!(!c.is_learning());
    assert!(!c.is_synthesizing());
    assert_eq!(c.trigger_key(), VK_CAPITAL);
}

#[test]
fn scenario_a_trigger_down_then_up() {
    let mut c = Core::new();

    let down = KeyEvent::key_down(VK_CAPITAL, 0x3A);
    let out = c.on_event(&down);
    assert_eq!(out.verdict, Verdict::Consume);
    assert!(out.invoke_toggle);
    assert_eq!(out.captured, None);

    let lines = c.log.drain_all();
    assert_eq!(lines.len(), 1);
    assert_eq!(lines[0], LogEntry::TriggerMatched { virtual_key: VK_CAPITAL });
    assert!(lines[0].render().contains("match"));

    let up = KeyEvent::key_up(VK_CAPITAL, 0x3A);
    let out = c.on_event(&up);
    assert_eq!(out.verdict, Verdict::Consume);
    assert!(!out.invoke_toggle);
    assert_eq!(c.log.len(), 0);
}

#[test]
fn scenario_b_disabled_trigger_passes_through() {
    let mut c = Core::new();
    c.set_enabled(false);
    c.log.drain_all();

    let down = KeyEvent::key_down(VK_CAPITAL, 0x3A);
    let out = c.on_event(&down);
    assert_eq!(out.verdict, Verdict::PassThrough);
    assert!(!out.invoke_toggle);
    assert_eq!(out.captured, None);
    assert_eq!(c.log.len(), 0);
}

#[test]
fn scenario_c_learning_captures_next_key_down() {
    let mut c = Core::new();
    c.begin_learning();
    assert!(c.is_learning());
    c.log.drain_all();

    let down = KeyEvent::key_down(VK_F13, 0x64);
    let out = c.on_event(&down);
    assert_eq!(out.verdict, Verdict::Consume);
    assert!(!out.invoke_toggle);
    assert_eq!(out.captured, Some(VK_F13));
    assert_eq!(c.trigger_key(), VK_F13);
    assert!(!c.is_learning());

    let lines = c.log.drain_all();
    assert_eq!(lines.len(), 1);
    assert_eq!(lines[0], LogEntry::Captured { virtual_key: VK_F13, scan_code: 0x64 });
    assert!(lines[0].render().contains("captured"));
}

#[test]
fn learning_consumes_key_up_of_learned_key() {
    let mut c = Core::new();
    c.begin_learning();
    let up = KeyEvent::key_up(0x41, 0x1E);
    let out = c.on_event(&up);
    assert_eq!(out.verdict, Verdict::Consume);
    assert_eq!(out.captured, None);
    assert!(c.is_learning());
}

#[test]
fn learning_is_terminal_after_one_capture() {
    let mut c = Core::new();
    c.begin_learning();
    let first = KeyEvent::key_down(0x42, 0x30);
    c.on_event(&first);
    assert!(!c.is_learning());
    assert_eq!(c.trigger_key(), 0x42);

    let second = KeyEvent::key_down(0x43, 0x2E);
    let out = c.on_event(&second);
    assert_eq!(out.verdict, Verdict::PassThrough);
    assert_eq!(out.captured, None);
    assert!(!c.is_learning());
    assert_eq!(c.trigger_key(), 0x42);
}

#[test]
fn non_trigger_keys_pass_through() {
    let mut c = Core::new();
    for vk in [0x41u32, 0x0D, 0xA5, 0x20] {
        let out = c.on_event(&KeyEvent::key_down(vk, 0));
        assert_eq!(out.verdict, Verdict::PassThrough);
        assert!(!out.invoke_toggle);
        let out = c.on_event(&KeyEvent::key_up(vk, 0));
        assert_eq!(out.verdict, Verdict::PassThrough);
    }
    assert_eq!(c.log.len(), 0);
}

#[test]
fn synthesizing_passes_everything_through() {
    let mut c = Core::new();
    c.begin_toggle();
    assert!(c.is_synthesizing());

    let down = KeyEvent::key_down(VK_CAPITAL, 0x3A);
    let out = c.on_event(&down);
    assert_eq!(out.verdict, Verdict::PassThrough);
    assert!(!out.invoke_toggle);

    c.begin_learning();
    c.log.drain_all();
    let other = KeyEvent::key_down(0x41, 0x1E);
    let out = c.on_event(&other);
    assert_eq!(out.verdict, Verdict::PassThrough);
    assert_eq!(out.captured, None);
    assert!(c.is_learning());
    assert_eq!(c.log.len(), 0);

    c.finish_toggle();
    assert!(!c.is_synthesizing());
}

#[test]
fn set_trigger_preset_switches_the_watched_key() {
    let mut c = Core::new();
    c.set_trigger_preset(VK_RMENU);
    assert_eq!(c.trigger_key(), VK_RMENU);

    let out = c.on_event(&KeyEvent::key_down(VK_CAPITAL, 0x3A));
    assert_eq!(out.verdict, Verdict::PassThrough);
    let out = c.on_event(&KeyEvent::key_down(VK_RMENU, 0x38));
    assert_eq!(out.verdict, Verdict::Consume);
    assert!(out.invoke_toggle);
}

#[test]
fn enable_toggle_round_trip() {
    let mut c = Core::new();
    c.set_enabled(false);
    assert!(!c.is_enabled());
    let out = c.on_event(&KeyEvent::key_down(VK_CAPITAL, 0x3A));
    assert_eq!(out.verdict, Verdict::PassThrough);

    c.set_enabled(true);
    assert!(c.is_enabled());
    let out = c.on_event(&KeyEvent::key_down(VK_CAPITAL, 0x3A));
    assert_eq!(out.verdict, Verdict::Consume);

    let lines = c.log.drain_all();
    let rendered: Vec<String> = lines.iter().map(|l| l.render()).collect();
    assert!(rendered.contains(&"[STATE] enabled -> OFF".to_string()));
    assert!(rendered.contains(&"[STATE] enabled -> ON".to_string()));
}
