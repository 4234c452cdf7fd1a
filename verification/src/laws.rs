use vstd::prelude::*;

use crate::event::{KeyEvent, Transition, Verdict};
use crate::hook::{
    captures, invokes_toggle, log_line_for, run_events, state_after, verdict_for, TriggerState,
};

verus! {

/// A key other than the configured trigger is always delivered unchanged:
/// outside learning mode its verdict is pass-through, whatever the enabled
/// and synthesizing flags hold, and no state changes, no toggle runs, no
/// line is logged. A key-down in learning mode is the one exception to
/// "regardless": it is captured and consumed whatever key it is.
pub proof fn lemma_non_trigger_passes_through(s: TriggerState, e: KeyEvent)
    requires
        !s.learning,
        e.virtual_key != s.trigger_key,
    ensures
        verdict_for(s, e) == Verdict::PassThrough,
        state_after(s, e) == s,
        !invokes_toggle(s, e),
        captures(s, e) is None,
        log_line_for(s, e) is None,
{
}

/// While the reentrancy guard is set, every event passes through and
/// nothing is observed or changed: the callback never reacts to the
/// keystrokes a toggle invocation itself injects. The guard is cleared on
/// every exit path of a toggle before the next one can start, which
/// `Core::finish_toggle` states of its result.
pub proof fn lemma_synthesizing_passes_through(s: TriggerState, e: KeyEvent)
    requires
        s.synthesizing,
    ensures
        verdict_for(s, e) == Verdict::PassThrough,
        state_after(s, e) == s,
        !invokes_toggle(s, e),
        captures(s, e) is None,
        log_line_for(s, e) is None,
{
}

/// Over any whole sequence of events delivered while the reentrancy guard
/// is set, every prefix leaves the state exactly where it was, every
/// verdict is pass-through, and no event toggles, captures or logs. With
/// `Core::finish_toggle`, which states that the guard is clear again when a
/// toggle invocation ends, the guard is never seen set across two
/// non-overlapping toggle invocations.
pub proof fn lemma_synthesizing_sequence(s: TriggerState, events: Seq<KeyEvent>)
    requires
        s.synthesizing,
    ensures
        forall|i: int| 0 <= i <= events.len() ==> run_events(s, #[trigger] events.take(i)) == s,
        forall|i: int|
            0 <= i < events.len() ==> verdict_for(s, #[trigger] events[i]) == Verdict::PassThrough,
        forall|i: int| 0 <= i < events.len() ==> !invokes_toggle(s, #[trigger] events[i]),
        forall|i: int| 0 <= i < events.len() ==> captures(s, #[trigger] events[i]) is None,
        forall|i: int| 0 <= i < events.len() ==> log_line_for(s, #[trigger] events[i]) is None,
    decreases events.len(),
{
    assert(events.take(0) =~= Seq::<KeyEvent>::empty());
    if events.len() > 0 {
        lemma_synthesizing_sequence(s, events.drop_first());
        assert forall|i: int| 0 < i <= events.len() implies run_events(
            s,
            #[trigger] events.take(i),
        ) == s by {
            let t = events.take(i);
            assert(t[0] == events[0]);
            assert(state_after(s, events[0]) == s);
            assert(t.drop_first() =~= events.drop_first().take(i - 1));
            assert(run_events(s, t) == run_events(s, events.drop_first().take(i - 1)));
        }
        assert forall|i: int| 0 < i < events.len() implies verdict_for(
            s,
            #[trigger] events[i],
        ) == Verdict::PassThrough by {
            assert(events[i] == events.drop_first()[i - 1]);
        }
    }
}

/// Learning is idempotent-terminal: one key-down while learning consumes
/// the key, stores it as the trigger and leaves learning mode; a second
/// key-down, before any new call to `begin_learning`, captures nothing and
/// cannot re-enter learning or move the trigger off the captured key.
pub proof fn lemma_learning_terminal(s: TriggerState, first: KeyEvent, second: KeyEvent)
    requires
        !s.synthesizing,
        s.learning,
        first.transition == Transition::KeyDown,
        second.transition == Transition::KeyDown,
    ensures
        verdict_for(s, first) == Verdict::Consume,
        captures(s, first) == Some(first.virtual_key),
        state_after(s, first).learning == false,
        state_after(s, first).trigger_key == first.virtual_key,
        captures(state_after(s, first), second) is None,
        state_after(state_after(s, first), second).learning == false,
        state_after(state_after(s, first), second).trigger_key == first.virtual_key,
{
}

/// The hook alone never re-enters learning mode: once learning is clear,
/// no sequence of events sets it again; only a new `begin_learning` call
/// from the controller does.
pub proof fn lemma_learning_never_reentered(s: TriggerState, events: Seq<KeyEvent>)
    requires
        !s.learning,
    ensures
        !run_events(s, events).learning,
    decreases events.len(),
{
    if events.len() > 0 {
        lemma_learning_never_reentered(state_after(s, events[0]), events.drop_first());
    }
}

/// Toggle symmetry: the key-down of the trigger while enabled is consumed
/// and invokes the toggle exactly once, without changing any state field;
/// the paired key-up of the same key is also consumed and invokes no
/// toggle.
pub proof fn lemma_toggle_symmetry(s: TriggerState, down: KeyEvent, up: KeyEvent)
    requires
        !s.synthesizing,
        !s.learning,
        s.enabled,
        down.virtual_key == s.trigger_key,
        down.transition == Transition::KeyDown,
        up.virtual_key == s.trigger_key,
        up.transition == Transition::KeyUp,
    ensures
        verdict_for(s, down) == Verdict::Consume,
        invokes_toggle(s, down),
        state_after(s, down) == s,
        verdict_for(state_after(s, down), up) == Verdict::Consume,
        !invokes_toggle(state_after(s, down), up),
{
}

} // verus!
