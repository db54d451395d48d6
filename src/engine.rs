use vstd::prelude::*;

use crate::codec::{
    accelerator_of, build_accelerator_string, flag_set, fn_held, other_modifiers_held,
    FLAG_COMMAND, FLAG_CONTROL, FLAG_FN, FLAG_OPTION, FLAG_SHIFT,
};
use crate::error::ShortcutError;
use crate::events::{
    event_if, events_view, EventModel, HostNotification, NotificationModel, ShortcutEvent,
    TapEventKind, TapOutcome,
};
use crate::fn_state::{idle_state, FnState};
use crate::registry::{mentions_fn, ShortcutRegistry};

verus! {

/// A release counts as a tap only when the press lasted less than this many milliseconds.
pub const TAP_THRESHOLD_MS: u64 = 300;

/// Mathematical value of a [`SharedState`].
pub struct SharedModel {
    /// Registered accelerators and their command identifiers.
    pub shortcuts: Map<Seq<char>, Seq<char>>,
    /// Press lifecycle of the Fn key.
    pub fn_state: FnState,
    /// Whether every Fn press is reported for shortcut recording.
    pub recording_mode: bool,
}

/// `s` with its Fn press state replaced by `st`.
pub open spec fn with_fn_state(s: SharedModel, st: FnState) -> SharedModel {
    SharedModel { shortcuts: s.shortcuts, fn_state: st, recording_mode: s.recording_mode }
}

/// Whether Fn alone is registered as a shortcut.
pub open spec fn fn_registered(shortcuts: Map<Seq<char>, Seq<char>>) -> bool {
    shortcuts.contains_key("Fn"@)
}

/// Milliseconds from `start` to `now`; zero when the clock reading went backwards.
pub open spec fn elapsed_ms(start: u64, now: u64) -> int {
    if now >= start {
        now - start
    } else {
        0
    }
}

/// Whether releasing Fn at `now` from state `st` counts as a tap: Fn was down as a
/// standalone gesture, for less than the threshold, with no other key, and "Fn" is
/// registered.
pub open spec fn is_tap(st: FnState, registered: bool, now: u64) -> bool {
    &&& st.is_pressed
    &&& match st.press_time {
        Some(start) => elapsed_ms(start, now) < TAP_THRESHOLD_MS,
        None => false,
    }
    &&& !st.other_keys_pressed
    &&& registered
}

/// The snapshot `flags` shows Fn going down, with no other modifier held.
pub open spec fn fn_went_down(st: FnState, flags: u64) -> bool {
    !other_modifiers_held(flags) && fn_held(flags) && !st.was_pressed_last_frame
}

/// The snapshot `flags` shows Fn going up, with no other modifier held.
pub open spec fn fn_went_up(st: FnState, flags: u64) -> bool {
    !other_modifiers_held(flags) && !fn_held(flags) && st.was_pressed_last_frame
}

/// Press state after observing the flag snapshot `flags` at `now`.
pub open spec fn flags_next(st: FnState, flags: u64, now: u64) -> FnState {
    if other_modifiers_held(flags) {
        FnState {
            is_pressed: false,
            was_pressed_last_frame: fn_held(flags),
            press_time: None,
            other_keys_pressed: false,
        }
    } else if fn_went_down(st, flags) {
        FnState {
            is_pressed: true,
            was_pressed_last_frame: true,
            press_time: Some(now),
            other_keys_pressed: false,
        }
    } else if fn_went_up(st, flags) {
        idle_state()
    } else {
        st
    }
}

/// Events classified from the flag snapshot `flags` observed at `now` in state `s`.
pub open spec fn flags_events(s: SharedModel, flags: u64, now: u64) -> Seq<EventModel> {
    if fn_went_down(s.fn_state, flags) {
        event_if(s.recording_mode, EventModel::FnKeyPressedForRecording) + event_if(
            fn_registered(s.shortcuts),
            EventModel::FnPressed,
        )
    } else if fn_went_up(s.fn_state, flags) {
        event_if(fn_registered(s.shortcuts), EventModel::FnReleased) + event_if(
            is_tap(s.fn_state, fn_registered(s.shortcuts), now),
            EventModel::FnAloneTriggered,
        )
    } else {
        Seq::empty()
    }
}

/// Whether the flag snapshot is consumed: only the release that completes a tap is.
pub open spec fn flags_swallowed(s: SharedModel, flags: u64, now: u64) -> bool {
    fn_went_up(s.fn_state, flags) && is_tap(s.fn_state, fn_registered(s.shortcuts), now)
}

/// Press state after a key went down: a key during a standalone Fn press is interference.
pub open spec fn key_down_next(st: FnState) -> FnState {
    if st.is_pressed {
        FnState { other_keys_pressed: true, ..st }
    } else {
        st
    }
}

/// Whether a key press with `flags` and `keycode` is a registered Fn combination.
pub open spec fn combo_matches(s: SharedModel, flags: u64, keycode: i64) -> bool {
    fn_held(flags) && s.shortcuts.contains_key(accelerator_of(flags, keycode))
}

/// Events classified from a key press.
pub open spec fn key_down_events(s: SharedModel, flags: u64, keycode: i64) -> Seq<EventModel> {
    event_if(
        combo_matches(s, flags, keycode),
        EventModel::FnComboTriggered(accelerator_of(flags, keycode)),
    )
}

/// State after an event of category `kind`.
pub open spec fn tap_next(
    s: SharedModel,
    kind: TapEventKind,
    flags: u64,
    keycode: i64,
    now: u64,
) -> SharedModel {
    match kind {
        TapEventKind::FlagsChanged => with_fn_state(s, flags_next(s.fn_state, flags, now)),
        TapEventKind::KeyDown => with_fn_state(s, key_down_next(s.fn_state)),
        _ => s,
    }
}

/// Events classified from an event of category `kind`.
pub open spec fn tap_events(
    s: SharedModel,
    kind: TapEventKind,
    flags: u64,
    keycode: i64,
    now: u64,
) -> Seq<EventModel> {
    match kind {
        TapEventKind::TapDisabledByTimeout => seq![EventModel::TapDisabled],
        TapEventKind::FlagsChanged => flags_events(s, flags, now),
        TapEventKind::KeyDown => key_down_events(s, flags, keycode),
        TapEventKind::Other => Seq::empty(),
    }
}

/// Whether an event of category `kind` is consumed.
pub open spec fn tap_swallowed(
    s: SharedModel,
    kind: TapEventKind,
    flags: u64,
    keycode: i64,
    now: u64,
) -> bool {
    match kind {
        TapEventKind::FlagsChanged => flags_swallowed(s, flags, now),
        TapEventKind::KeyDown => combo_matches(s, flags, keycode),
        _ => false,
    }
}

/// Notification that a classified event becomes for the host application, if any.
pub open spec fn notification_for(s: SharedModel, e: EventModel) -> Option<NotificationModel> {
    match e {
        EventModel::FnAloneTriggered => if fn_registered(s.shortcuts) {
            Some(NotificationModel::ShortcutTriggered(s.shortcuts["Fn"@]))
        } else {
            None
        },
        EventModel::FnPressed => if fn_registered(s.shortcuts) {
            Some(NotificationModel::ShortcutPressed(s.shortcuts["Fn"@]))
        } else {
            None
        },
        EventModel::FnReleased => if fn_registered(s.shortcuts) {
            Some(NotificationModel::ShortcutReleased(s.shortcuts["Fn"@]))
        } else {
            None
        },
        EventModel::FnComboTriggered(acc) => if s.shortcuts.contains_key(acc) {
            Some(NotificationModel::ShortcutTriggered(s.shortcuts[acc]))
        } else {
            None
        },
        EventModel::TapDisabled => None,
        EventModel::FnKeyPressedForRecording => Some(NotificationModel::KeyPressedForRecording),
    }
}

/// State shared by the capture callback, the processing thread and the caller:
/// the registered shortcuts, the Fn press state and the recording flag.
pub struct SharedState {
    shortcuts: ShortcutRegistry,
    fn_state: FnState,
    recording_mode: bool,
}

impl View for SharedState {
    type V = SharedModel;

    closed spec fn view(&self) -> SharedModel {
        SharedModel {
            shortcuts: self.shortcuts@,
            fn_state: self.fn_state,
            recording_mode: self.recording_mode,
        }
    }
}

impl SharedState {
    /// No shortcuts, Fn not pressed, recording mode off.
    pub fn new() -> (r: Self)
        ensures
            r@.shortcuts == Map::<Seq<char>, Seq<char>>::empty(),
            r@.fn_state == idle_state(),
            !r@.recording_mode,
    {
        SharedState {
            shortcuts: ShortcutRegistry::new(),
            fn_state: FnState::default(),
            recording_mode: false,
        }
    }

    /// Classifies a change of the modifier flags to `flags`, observed at `now_ms`.
    pub fn handle_flags_changed(&mut self, flags: u64, now_ms: u64) -> (r: TapOutcome)
        ensures
            final(self)@ == with_fn_state(old(self)@, flags_next(old(self)@.fn_state, flags, now_ms)),
            events_view(r.events@) == flags_events(old(self)@, flags, now_ms),
            r.swallow == flags_swallowed(old(self)@, flags, now_ms),
    {
        let fn_now = flag_set(flags, FLAG_FN);
        let other_mods = flag_set(flags, FLAG_COMMAND) || flag_set(flags, FLAG_CONTROL)
            || flag_set(flags, FLAG_OPTION) || flag_set(flags, FLAG_SHIFT);
        let mut events: Vec<ShortcutEvent> = Vec::new();
        if other_mods {
            self.fn_state = FnState {
                is_pressed: false,
                was_pressed_last_frame: fn_now,
                press_time: None,
                other_keys_pressed: false,
            };
            assert(events_view(events@) =~= Seq::<EventModel>::empty());
            return TapOutcome { events, swallow: false };
        }
        if fn_now && !self.fn_state.was_pressed_last_frame {
            self.fn_state = FnState {
                is_pressed: true,
                was_pressed_last_frame: true,
                press_time: Some(now_ms),
                other_keys_pressed: false,
            };
            let registered = self.shortcuts.contains("Fn");
            if self.recording_mode {
                events.push(ShortcutEvent::FnKeyPressedForRecording);
            }
            if registered {
                events.push(ShortcutEvent::FnPressed);
            }
            assert(events_view(events@) =~= flags_events(old(self)@, flags, now_ms));
            return TapOutcome { events, swallow: false };
        }
        if !fn_now && self.fn_state.was_pressed_last_frame {
            let registered = self.shortcuts.contains("Fn");
            let quick = match self.fn_state.press_time {
                Some(start) => {
                    let elapsed: u64 = if now_ms >= start {
                        now_ms - start
                    } else {
                        0
                    };
                    elapsed < TAP_THRESHOLD_MS
                },
                None => false,
            };
            let tap = self.fn_state.is_pressed && quick && !self.fn_state.other_keys_pressed
                && registered;
            self.fn_state = FnState::default();
            if registered {
                events.push(ShortcutEvent::FnReleased);
            }
            if tap {
                events.push(ShortcutEvent::FnAloneTriggered);
            }
            assert(events_view(events@) =~= flags_events(old(self)@, flags, now_ms));
            return TapOutcome { events, swallow: tap };
        }
        assert(events_view(events@) =~= Seq::<EventModel>::empty());
        TapOutcome { events, swallow: false }
    }

    /// Classifies a key press with modifier flags `flags` and hardware key code `keycode`.
    pub fn handle_key_down(&mut self, flags: u64, keycode: i64) -> (r: TapOutcome)
        ensures
            final(self)@ == with_fn_state(old(self)@, key_down_next(old(self)@.fn_state)),
            events_view(r.events@) == key_down_events(old(self)@, flags, keycode),
            r.swallow == combo_matches(old(self)@, flags, keycode),
    {
        if self.fn_state.is_pressed {
            self.fn_state.other_keys_pressed = true;
        }
        let mut events: Vec<ShortcutEvent> = Vec::new();
        if !flag_set(flags, FLAG_FN) {
            assert(events_view(events@) =~= key_down_events(old(self)@, flags, keycode));
            return TapOutcome { events, swallow: false };
        }
        let accelerator = build_accelerator_string(flags, keycode);
        if self.shortcuts.contains(accelerator.as_str()) {
            events.push(ShortcutEvent::FnComboTriggered { accelerator });
            assert(events_view(events@) =~= key_down_events(old(self)@, flags, keycode));
            return TapOutcome { events, swallow: true };
        }
        assert(events_view(events@) =~= key_down_events(old(self)@, flags, keycode));
        TapOutcome { events, swallow: false }
    }

    /// Classifies one event delivered by the interception hook and decides whether it
    /// is consumed.
    pub fn handle_event_tap(&mut self, kind: TapEventKind, flags: u64, keycode: i64, now_ms: u64) -> (r:
        TapOutcome)
        ensures
            final(self)@ == tap_next(old(self)@, kind, flags, keycode, now_ms),
            events_view(r.events@) == tap_events(old(self)@, kind, flags, keycode, now_ms),
            r.swallow == tap_swallowed(old(self)@, kind, flags, keycode, now_ms),
    {
        match kind {
            TapEventKind::TapDisabledByTimeout => {
                let events = vec![ShortcutEvent::TapDisabled];
                assert(events_view(events@) =~= seq![EventModel::TapDisabled]);
                TapOutcome { events, swallow: false }
            },
            TapEventKind::FlagsChanged => self.handle_flags_changed(flags, now_ms),
            TapEventKind::KeyDown => self.handle_key_down(flags, keycode),
            TapEventKind::Other => {
                let events: Vec<ShortcutEvent> = Vec::new();
                assert(events_view(events@) =~= Seq::<EventModel>::empty());
                TapOutcome { events, swallow: false }
            },
        }
    }

    /// Resolves a classified event into the notification the host application receives,
    /// looking up the command identifier it is registered under.
    pub fn resolve(&self, event: &ShortcutEvent) -> (r: Option<HostNotification>)
        ensures
            match r {
                Some(n) => notification_for(self@, event@) == Some(n@),
                None => notification_for(self@, event@) is None,
            },
    {
        match event {
            ShortcutEvent::FnAloneTriggered => match self.shortcuts.lookup("Fn") {
                Some(command_id) => Some(HostNotification::ShortcutTriggered { command_id }),
                None => None,
            },
            ShortcutEvent::FnPressed => match self.shortcuts.lookup("Fn") {
                Some(command_id) => Some(HostNotification::ShortcutPressed { command_id }),
                None => None,
            },
            ShortcutEvent::FnReleased => match self.shortcuts.lookup("Fn") {
                Some(command_id) => Some(HostNotification::ShortcutReleased { command_id }),
                None => None,
            },
            ShortcutEvent::FnComboTriggered { accelerator } => match self.shortcuts.lookup(
                accelerator.as_str(),
            ) {
                Some(command_id) => Some(HostNotification::ShortcutTriggered { command_id }),
                None => None,
            },
            ShortcutEvent::TapDisabled => None,
            ShortcutEvent::FnKeyPressedForRecording => Some(
                HostNotification::KeyPressedForRecording,
            ),
        }
    }

    /// Registers `command_id` under `accelerator`; an accelerator without the Fn token
    /// is refused with `InvalidShortcut` and nothing changes.
    pub fn register(&mut self, accelerator: &str, command_id: &str) -> (r: Result<(), ShortcutError>)
        ensures
            mentions_fn(accelerator@) ==> r == Ok::<(), ShortcutError>(()) && final(self)@
                == (SharedModel {
                shortcuts: old(self)@.shortcuts.insert(accelerator@, command_id@),
                ..old(self)@
            }),
            !mentions_fn(accelerator@) ==> r == Err::<(), ShortcutError>(
                ShortcutError::InvalidShortcut,
            ) && final(self)@ == old(self)@,
    {
        self.shortcuts.register(accelerator, command_id)
    }

    /// Removes the registration of `accelerator`; removing an absent one changes nothing.
    pub fn unregister(&mut self, accelerator: &str)
        ensures
            final(self)@ == (SharedModel {
                shortcuts: old(self)@.shortcuts.remove(accelerator@),
                ..old(self)@
            }),
    {
        self.shortcuts.unregister(accelerator)
    }

    /// Turns recording mode on.
    pub fn enable_recording_mode(&mut self)
        ensures
            final(self)@ == (SharedModel { recording_mode: true, ..old(self)@ }),
    {
        self.recording_mode = true;
    }

    /// Turns recording mode off.
    pub fn disable_recording_mode(&mut self)
        ensures
            final(self)@ == (SharedModel { recording_mode: false, ..old(self)@ }),
    {
        self.recording_mode = false;
    }

    /// The command identifier registered under `accelerator`, if any.
    pub fn lookup(&self, accelerator: &str) -> (r: Option<String>)
        ensures
            match r {
                Some(v) => self@.shortcuts.contains_key(accelerator@) && v@ == self@.shortcuts[accelerator@],
                None => !self@.shortcuts.contains_key(accelerator@),
            },
    {
        self.shortcuts.lookup(accelerator)
    }

    /// Number of registered accelerators.
    pub fn registered_count(&self) -> (r: usize)
        ensures
            r == self@.shortcuts.len(),
    {
        self.shortcuts.len()
    }

    /// Current press state of the Fn key.
    pub fn fn_state(&self) -> (r: FnState)
        ensures
            r == self@.fn_state,
    {
        self.fn_state
    }

    /// Whether recording mode is on.
    pub fn is_recording_mode(&self) -> (r: bool)
        ensures
            r == self@.recording_mode,
    {
        self.recording_mode
    }
}

} // verus!
