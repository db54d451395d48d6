use fn_shortcut::codec::{FLAG_COMMAND, FLAG_CONTROL, FLAG_FN, FLAG_SHIFT};
use fn_shortcut::engine::{SharedState, TAP_THRESHOLD_MS};
use fn_shortcut::error::ShortcutError;
use fn_shortcut::events::{HostNotification, ShortcutEvent, TapEventKind};
use fn_shortcut::fn_state::FnState;

fn with_fn_registered() -> SharedState {
    let mut s = SharedState::new();
    assert_eq!(s.register("Fn", "transcribe"), Ok(()));
    s
}

#[test]
fn new_state_is_idle() {
    let s = SharedState::new();
    assert_eq!(s.fn_state(), FnState::default());
    assert!(!s.fn_state().is_pressed);
    assert_eq!(s.fn_state().press_time, None);
    assert!(!s.is_recording_mode());
    assert_eq!(s.registered_count(), 0);
}

#[test]
fn quick_tap_is_swallowed() {
    let mut s = with_fn_registered();
    let down = s.handle_flags_changed(FLAG_FN, 1_000);
    assert_eq!(down.events, vec![ShortcutEvent::FnPressed]);
    assert!(!down.swallow);
    let up = s.handle_flags_changed(0, 1_299);
    assert_eq!(up.events, vec![ShortcutEvent::FnReleased, ShortcutEvent::FnAloneTriggered]);
    assert!(up.swallow);
    assert_eq!(s.fn_state(), FnState::default());
}

#[test]
fn quick_tap_with_repeated_snapshots() {
    let mut s = with_fn_registered();
    assert_eq!(s.handle_flags_changed(FLAG_FN, 10).events, vec![ShortcutEvent::FnPressed]);
    let again = s.handle_flags_changed(FLAG_FN, 50);
    assert!(again.events.is_empty());
    assert!(!again.swallow);
    let up = s.handle_flags_changed(0, 100);
    assert_eq!(up.events, vec![ShortcutEvent::FnReleased, ShortcutEvent::FnAloneTriggered]);
    assert!(up.swallow);
}

#[test]
fn long_press_passes_through() {
    let mut s = with_fn_registered();
    assert_eq!(s.handle_flags_changed(FLAG_FN, 1_000).events, vec![ShortcutEvent::FnPressed]);
    let up = s.handle_flags_changed(0, 1_000 + TAP_THRESHOLD_MS);
    assert_eq!(up.events, vec![ShortcutEvent::FnReleased]);
    assert!(!up.swallow);
}

#[test]
fn tap_without_registration_emits_nothing() {
    let mut s = SharedState::new();
    let down = s.handle_flags_changed(FLAG_FN, 0);
    assert!(down.events.is_empty());
    let up = s.handle_flags_changed(0, 10);
    assert!(up.events.is_empty());
    assert!(!up.swallow);
}

#[test]
fn other_modifier_invalidates_tap() {
    let mut s = with_fn_registered();
    assert_eq!(s.handle_flags_changed(FLAG_FN, 0).events, vec![ShortcutEvent::FnPressed]);
    let shift = s.handle_flags_changed(FLAG_FN | FLAG_SHIFT, 20);
    assert!(shift.events.is_empty());
    assert!(!shift.swallow);
    assert!(!s.fn_state().is_pressed);
    let shift_up = s.handle_flags_changed(FLAG_FN, 40);
    assert!(shift_up.events.is_empty());
    let up = s.handle_flags_changed(0, 60);
    assert_eq!(up.events, vec![ShortcutEvent::FnReleased]);
    assert!(!up.swallow);
}

#[test]
fn key_press_while_held_is_interference() {
    let mut s = with_fn_registered();
    assert_eq!(s.handle_flags_changed(FLAG_FN, 0).events, vec![ShortcutEvent::FnPressed]);
    let g = s.handle_key_down(FLAG_FN, 5);
    assert!(g.events.is_empty());
    assert!(!g.swallow);
    assert!(s.fn_state().other_keys_pressed);
    let up = s.handle_flags_changed(0, 100);
    assert_eq!(up.events, vec![ShortcutEvent::FnReleased]);
    assert!(!up.swallow);
}

#[test]
fn registered_combo_is_swallowed() {
    let mut s = SharedState::new();
    assert_eq!(s.register("Fn+Control+A", "paste"), Ok(()));
    let r = s.handle_key_down(FLAG_FN | FLAG_CONTROL, 0);
    assert_eq!(
        r.events,
        vec![ShortcutEvent::FnComboTriggered { accelerator: "Fn+Control+A".to_string() }]
    );
    assert!(r.swallow);
}

#[test]
fn unregistered_combo_passes_through() {
    let mut s = SharedState::new();
    let r = s.handle_key_down(FLAG_FN | FLAG_CONTROL, 0);
    assert!(r.events.is_empty());
    assert!(!r.swallow);
}

#[test]
fn key_without_fn_passes_through() {
    let mut s = SharedState::new();
    assert_eq!(s.register("Fn+Control+A", "paste"), Ok(()));
    let r = s.handle_key_down(FLAG_CONTROL, 0);
    assert!(r.events.is_empty());
    assert!(!r.swallow);
}

#[test]
fn register_without_fn_leaves_state() {
    let mut s = SharedState::new();
    assert_eq!(s.register("A", "cmd"), Err(ShortcutError::InvalidShortcut));
    assert_eq!(s.registered_count(), 0);
    assert_eq!(s.lookup("A"), None);
}

#[test]
fn unregister_missing_is_noop() {
    let mut s = with_fn_registered();
    s.unregister("Fn+Command+Q");
    assert_eq!(s.registered_count(), 1);
    assert_eq!(s.lookup("Fn"), Some("transcribe".to_string()));
    s.unregister("Fn");
    assert_eq!(s.lookup("Fn"), None);
}

#[test]
fn recording_mode_reports_every_fn_down() {
    let mut s = SharedState::new();
    s.enable_recording_mode();
    assert!(s.is_recording_mode());
    let down = s.handle_flags_changed(FLAG_FN, 0);
    assert_eq!(down.events, vec![ShortcutEvent::FnKeyPressedForRecording]);
    assert!(s.handle_flags_changed(0, 10).events.is_empty());
    assert_eq!(
        s.handle_flags_changed(FLAG_FN, 20).events,
        vec![ShortcutEvent::FnKeyPressedForRecording]
    );
    assert!(s.handle_flags_changed(0, 30).events.is_empty());
    s.disable_recording_mode();
    assert!(s.handle_flags_changed(FLAG_FN, 40).events.is_empty());
}

#[test]
fn recording_mode_with_fn_registered() {
    let mut s = with_fn_registered();
    s.enable_recording_mode();
    let down = s.handle_flags_changed(FLAG_FN, 0);
    assert_eq!(
        down.events,
        vec![ShortcutEvent::FnKeyPressedForRecording, ShortcutEvent::FnPressed]
    );
}

#[test]
fn clock_going_backwards_counts_as_quick() {
    let mut s = with_fn_registered();
    s.handle_flags_changed(FLAG_FN, 5_000);
    let up = s.handle_flags_changed(0, 4_000);
    assert!(up.swallow);
}

#[test]
fn event_tap_dispatch() {
    let mut s = with_fn_registered();
    let t = s.handle_event_tap(TapEventKind::TapDisabledByTimeout, 0, 0, 0);
    assert_eq!(t.events, vec![ShortcutEvent::TapDisabled]);
    assert!(!t.swallow);
    let o = s.handle_event_tap(TapEventKind::Other, FLAG_FN, 0, 0);
    assert!(o.events.is_empty());
    assert_eq!(s.fn_state(), FnState::default());
    let d = s.handle_event_tap(TapEventKind::FlagsChanged, FLAG_FN, 0, 100);
    assert_eq!(d.events, vec![ShortcutEvent::FnPressed]);
    let k = s.handle_event_tap(TapEventKind::KeyDown, FLAG_FN | FLAG_COMMAND, 12, 150);
    assert!(k.events.is_empty());
    let u = s.handle_event_tap(TapEventKind::FlagsChanged, 0, 0, 200);
    assert_eq!(u.events, vec![ShortcutEvent::FnReleased]);
    assert!(!u.swallow);
}

#[test]
fn resolve_notifications() {
    let mut s = with_fn_registered();
    assert_eq!(s.register("Fn+Control+A", "paste"), Ok(()));
    let n = s.resolve(&ShortcutEvent::FnAloneTriggered).unwrap();
    assert_eq!(n, HostNotification::ShortcutTriggered { command_id: "transcribe".to_string() });
    assert_eq!(n.event_name(), "fn-shortcut-triggered");
    let p = s.resolve(&ShortcutEvent::FnPressed).unwrap();
    assert_eq!(p, HostNotification::ShortcutPressed { command_id: "transcribe".to_string() });
    assert_eq!(p.event_name(), "fn-shortcut-pressed");
    let r = s.resolve(&ShortcutEvent::FnReleased).unwrap();
    assert_eq!(r, HostNotification::ShortcutReleased { command_id: "transcribe".to_string() });
    assert_eq!(r.event_name(), "fn-shortcut-released");
    let c = s
        .resolve(&ShortcutEvent::FnComboTriggered { accelerator: "Fn+Control+A".to_string() })
        .unwrap();
    assert_eq!(c, HostNotification::ShortcutTriggered { command_id: "paste".to_string() });
    let k = s.resolve(&ShortcutEvent::FnKeyPressedForRecording).unwrap();
    assert_eq!(k, HostNotification::KeyPressedForRecording);
    assert_eq!(k.event_name(), "fn-key-pressed-for-recording");
    assert_eq!(s.resolve(&ShortcutEvent::TapDisabled), None);
}

#[test]
fn resolve_drops_unregistered() {
    let s = SharedState::new();
    assert_eq!(s.resolve(&ShortcutEvent::FnAloneTriggered), None);
    assert_eq!(s.resolve(&ShortcutEvent::FnPressed), None);
    assert_eq!(s.resolve(&ShortcutEvent::FnReleased), None);
    assert_eq!(
        s.resolve(&ShortcutEvent::FnComboTriggered { accelerator: "Fn+G".to_string() }),
        None
    );
}
