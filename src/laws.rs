use vstd::prelude::*;

use crate::codec::{fn_held, other_modifiers_held};
use crate::engine::{
    flags_events, flags_next, flags_swallowed, fn_registered, fn_went_down, fn_went_up, key_down_next,
    tap_events, with_fn_state, SharedModel, TAP_THRESHOLD_MS,
};
use crate::events::{event_if, EventModel, TapEventKind};

verus! {

/// State after observing the flag snapshots `obs`, each a pair of flags and clock reading.
pub open spec fn flags_run(s: SharedModel, obs: Seq<(u64, u64)>) -> SharedModel
    decreases obs.len(),
{
    if obs.len() == 0 {
        s
    } else {
        flags_run(with_fn_state(s, flags_next(s.fn_state, obs[0].0, obs[0].1)), obs.drop_first())
    }
}

/// Events classified while observing the flag snapshots `obs`, in order.
pub open spec fn flags_run_events(s: SharedModel, obs: Seq<(u64, u64)>) -> Seq<EventModel>
    decreases obs.len(),
{
    if obs.len() == 0 {
        Seq::empty()
    } else {
        flags_events(s, obs[0].0, obs[0].1) + flags_run_events(
            with_fn_state(s, flags_next(s.fn_state, obs[0].0, obs[0].1)),
            obs.drop_first(),
        )
    }
}

/// Snapshots that keep Fn held alone change nothing once Fn is down and emit nothing.
pub proof fn lemma_fn_held_run(s: SharedModel, held: Seq<(u64, u64)>)
    requires
        s.fn_state.was_pressed_last_frame,
        forall|i: int|
            0 <= i < held.len() ==> fn_held(#[trigger] held[i].0) && !other_modifiers_held(
                held[i].0,
            ),
    ensures
        flags_run(s, held) == s,
        flags_run_events(s, held) == Seq::<EventModel>::empty(),
    decreases held.len(),
{
    if held.len() > 0 {
        assert(with_fn_state(s, flags_next(s.fn_state, held[0].0, held[0].1)) == s);
        let rest = held.drop_first();
        assert forall|i: int|
            0 <= i < rest.len() implies fn_held(#[trigger] rest[i].0) && !other_modifiers_held(
            rest[i].0,
        ) by {
            assert(rest[i] == held[i + 1]);
        }
        lemma_fn_held_run(s, rest);
        assert(flags_run_events(s, held) =~= Seq::<EventModel>::empty());
    }
}

/// A quick tap: Fn goes down alone, stays held alone for any number of snapshots, and
/// goes up less than the threshold later while "Fn" is registered. The press gives
/// `FnPressed` (after `FnKeyPressedForRecording` in recording mode) and passes through;
/// the release gives exactly `FnReleased` then `FnAloneTriggered` and is consumed.
pub proof fn lemma_quick_tap(
    s: SharedModel,
    down: u64,
    t_down: u64,
    held: Seq<(u64, u64)>,
    up: u64,
    t_up: u64,
)
    requires
        !s.fn_state.was_pressed_last_frame,
        fn_registered(s.shortcuts),
        fn_held(down) && !other_modifiers_held(down),
        forall|i: int|
            0 <= i < held.len() ==> fn_held(#[trigger] held[i].0) && !other_modifiers_held(
                held[i].0,
            ),
        !fn_held(up) && !other_modifiers_held(up),
        t_down <= t_up,
        t_up - t_down < TAP_THRESHOLD_MS,
    ensures
        ({
            let pressed = with_fn_state(s, flags_next(s.fn_state, down, t_down));
            let before_up = flags_run(pressed, held);
            &&& flags_events(s, down, t_down) == event_if(
                s.recording_mode,
                EventModel::FnKeyPressedForRecording,
            ) + seq![EventModel::FnPressed]
            &&& !flags_swallowed(s, down, t_down)
            &&& flags_run_events(pressed, held) == Seq::<EventModel>::empty()
            &&& flags_events(before_up, up, t_up) == seq![
                EventModel::FnReleased,
                EventModel::FnAloneTriggered,
            ]
            &&& flags_swallowed(before_up, up, t_up)
        }),
{
    let pressed = with_fn_state(s, flags_next(s.fn_state, down, t_down));
    lemma_fn_held_run(pressed, held);
    let before_up = flags_run(pressed, held);
    assert(flags_events(before_up, up, t_up) =~= seq![
        EventModel::FnReleased,
        EventModel::FnAloneTriggered,
    ]);
}

/// A slow press: as a quick tap, but released at least the threshold after going
/// down. `FnPressed` and `FnReleased` are still emitted, no `FnAloneTriggered`, and
/// the release passes through.
pub proof fn lemma_long_press(
    s: SharedModel,
    down: u64,
    t_down: u64,
    held: Seq<(u64, u64)>,
    up: u64,
    t_up: u64,
)
    requires
        !s.fn_state.was_pressed_last_frame,
        fn_registered(s.shortcuts),
        fn_held(down) && !other_modifiers_held(down),
        forall|i: int|
            0 <= i < held.len() ==> fn_held(#[trigger] held[i].0) && !other_modifiers_held(
                held[i].0,
            ),
        !fn_held(up) && !other_modifiers_held(up),
        t_down <= t_up,
        t_up - t_down >= TAP_THRESHOLD_MS,
    ensures
        ({
            let pressed = with_fn_state(s, flags_next(s.fn_state, down, t_down));
            let before_up = flags_run(pressed, held);
            &&& flags_events(s, down, t_down) == event_if(
                s.recording_mode,
                EventModel::FnKeyPressedForRecording,
            ) + seq![EventModel::FnPressed]
            &&& !flags_swallowed(s, down, t_down)
            &&& flags_run_events(pressed, held) == Seq::<EventModel>::empty()
            &&& flags_events(before_up, up, t_up) == seq![EventModel::FnReleased]
            &&& !flags_swallowed(before_up, up, t_up)
        }),
{
    let pressed = with_fn_state(s, flags_next(s.fn_state, down, t_down));
    lemma_fn_held_run(pressed, held);
    let before_up = flags_run(pressed, held);
    assert(flags_events(before_up, up, t_up) =~= seq![EventModel::FnReleased]);
}

/// Snapshots that keep Fn held never make the press a standalone gesture again once
/// it has been invalidated.
proof fn lemma_invalidated_run(s: SharedModel, held: Seq<(u64, u64)>)
    requires
        s.fn_state.was_pressed_last_frame,
        !s.fn_state.is_pressed,
        forall|i: int| 0 <= i < held.len() ==> fn_held(#[trigger] held[i].0),
    ensures
        flags_run(s, held).fn_state.was_pressed_last_frame,
        !flags_run(s, held).fn_state.is_pressed,
        flags_run(s, held).shortcuts == s.shortcuts,
        !flags_run_events(s, held).contains(EventModel::FnAloneTriggered),
    decreases held.len(),
{
    if held.len() > 0 {
        let next = with_fn_state(s, flags_next(s.fn_state, held[0].0, held[0].1));
        let rest = held.drop_first();
        assert forall|i: int| 0 <= i < rest.len() implies fn_held(#[trigger] rest[i].0) by {
            assert(rest[i] == held[i + 1]);
        }
        lemma_invalidated_run(next, rest);
        assert(flags_events(s, held[0].0, held[0].1) =~= Seq::<EventModel>::empty());
        assert(flags_run_events(s, held) =~= flags_run_events(next, rest));
    }
}

/// Another modifier seen while Fn is held rules out a tap: whatever snapshots with Fn
/// still held follow, the eventual release gives no `FnAloneTriggered` and is not
/// consumed, however quick it is.
pub proof fn lemma_other_modifier_cancels_tap(
    s: SharedModel,
    down: u64,
    t_down: u64,
    mods: u64,
    t_mods: u64,
    held: Seq<(u64, u64)>,
    up: u64,
    t_up: u64,
)
    requires
        fn_went_down(s.fn_state, down),
        fn_held(mods) && other_modifiers_held(mods),
        forall|i: int| 0 <= i < held.len() ==> fn_held(#[trigger] held[i].0),
    ensures
        ({
            let pressed = with_fn_state(s, flags_next(s.fn_state, down, t_down));
            let invalidated = with_fn_state(pressed, flags_next(pressed.fn_state, mods, t_mods));
            let before_up = flags_run(invalidated, held);
            &&& flags_events(pressed, mods, t_mods) == Seq::<EventModel>::empty()
            &&& !flags_run_events(invalidated, held).contains(EventModel::FnAloneTriggered)
            &&& !flags_events(before_up, up, t_up).contains(EventModel::FnAloneTriggered)
            &&& !flags_swallowed(before_up, up, t_up)
        }),
{
    let pressed = with_fn_state(s, flags_next(s.fn_state, down, t_down));
    let invalidated = with_fn_state(pressed, flags_next(pressed.fn_state, mods, t_mods));
    lemma_invalidated_run(invalidated, held);
    let before_up = flags_run(invalidated, held);
    assert(flags_events(pressed, mods, t_mods) =~= Seq::<EventModel>::empty());
    let released = flags_events(before_up, up, t_up);
    assert(!released.contains(EventModel::FnAloneTriggered)) by {
        if fn_went_up(before_up.fn_state, up) {
            assert(released =~= event_if(fn_registered(before_up.shortcuts), EventModel::FnReleased));
        } else if fn_went_down(before_up.fn_state, up) {
            assert(released =~= event_if(
                before_up.recording_mode,
                EventModel::FnKeyPressedForRecording,
            ) + event_if(fn_registered(before_up.shortcuts), EventModel::FnPressed));
        }
    }
}

/// A key pressed while Fn is held is interference: the release that follows gives no
/// `FnAloneTriggered` and passes through, however quick it is; `FnReleased` still
/// comes when "Fn" is registered.
pub proof fn lemma_key_press_cancels_tap(
    s: SharedModel,
    down: u64,
    t_down: u64,
    up: u64,
    t_up: u64,
)
    requires
        fn_went_down(s.fn_state, down),
        !fn_held(up) && !other_modifiers_held(up),
    ensures
        ({
            let pressed = with_fn_state(s, flags_next(s.fn_state, down, t_down));
            let interfered = with_fn_state(pressed, key_down_next(pressed.fn_state));
            &&& interfered.fn_state.other_keys_pressed
            &&& flags_events(interfered, up, t_up) == event_if(
                fn_registered(s.shortcuts),
                EventModel::FnReleased,
            )
            &&& !flags_swallowed(interfered, up, t_up)
        }),
{
    let pressed = with_fn_state(s, flags_next(s.fn_state, down, t_down));
    let interfered = with_fn_state(pressed, key_down_next(pressed.fn_state));
    assert(flags_events(interfered, up, t_up) =~= event_if(
        fn_registered(s.shortcuts),
        EventModel::FnReleased,
    ));
}

/// Recording mode: an observed event yields `FnKeyPressedForRecording` exactly when it
/// is a flag change in which Fn goes down and recording mode is on, whatever is
/// registered.
pub proof fn lemma_recording_reports_fn_down(
    s: SharedModel,
    kind: TapEventKind,
    flags: u64,
    keycode: i64,
    now: u64,
)
    ensures
        tap_events(s, kind, flags, keycode, now).contains(EventModel::FnKeyPressedForRecording)
            <==> (kind == TapEventKind::FlagsChanged && s.recording_mode && fn_went_down(
            s.fn_state,
            flags,
        )),
{
    let ev = tap_events(s, kind, flags, keycode, now);
    if kind == TapEventKind::FlagsChanged && s.recording_mode && fn_went_down(s.fn_state, flags) {
        assert(ev[0] == EventModel::FnKeyPressedForRecording);
    }
}

/// Unregistering an accelerator that is not registered leaves the shortcuts as they are.
pub proof fn lemma_unregister_absent(shortcuts: Map<Seq<char>, Seq<char>>, accelerator: Seq<char>)
    requires
        !shortcuts.contains_key(accelerator),
    ensures
        shortcuts.remove(accelerator) == shortcuts,
{
    assert(shortcuts.remove(accelerator) =~= shortcuts);
}

} // verus!
