use vstd::prelude::*;

verus! {

/// What the capture callback classified an observed input event as.
#[derive(Debug, Clone, PartialEq, Eq)]
pub enum ShortcutEvent {
    /// Fn was tapped alone.
    FnAloneTriggered,
    /// Fn went down while "Fn" is registered.
    FnPressed,
    /// Fn went up while "Fn" is registered.
    FnReleased,
    /// A registered Fn combination was pressed.
    FnComboTriggered { accelerator: String },
    /// The operating system disabled the interception hook.
    TapDisabled,
    /// Fn went down while recording mode is on.
    FnKeyPressedForRecording,
}

/// Mathematical value of a [`ShortcutEvent`].
pub enum EventModel {
    FnAloneTriggered,
    FnPressed,
    FnReleased,
    FnComboTriggered(Seq<char>),
    TapDisabled,
    FnKeyPressedForRecording,
}

impl View for ShortcutEvent {
    type V = EventModel;

    open spec fn view(&self) -> EventModel {
        match self {
            ShortcutEvent::FnAloneTriggered => EventModel::FnAloneTriggered,
            ShortcutEvent::FnPressed => EventModel::FnPressed,
            ShortcutEvent::FnReleased => EventModel::FnReleased,
            ShortcutEvent::FnComboTriggered { accelerator } => EventModel::FnComboTriggered(
                accelerator@,
            ),
            ShortcutEvent::TapDisabled => EventModel::TapDisabled,
            ShortcutEvent::FnKeyPressedForRecording => EventModel::FnKeyPressedForRecording,
        }
    }
}

/// The values of a sequence of events, in order.
pub open spec fn events_view(events: Seq<ShortcutEvent>) -> Seq<EventModel> {
    events.map_values(|e: ShortcutEvent| e@)
}

/// `seq![e]` when `present`, the empty sequence otherwise.
pub open spec fn event_if(present: bool, e: EventModel) -> Seq<EventModel> {
    if present {
        seq![e]
    } else {
        Seq::empty()
    }
}

/// Category of an event delivered by the operating system's interception hook.
#[derive(Debug, Clone, Copy, PartialEq, Eq, Structural)]
pub enum TapEventKind {
    /// The hook was disabled because a callback took too long.
    TapDisabledByTimeout,
    /// The modifier flags changed.
    FlagsChanged,
    /// A key went down.
    KeyDown,
    /// Anything else.
    Other,
}

/// What the capture callback decided for one observed event.
pub struct TapOutcome {
    /// Classified events to hand to the processing thread, in order.
    pub events: Vec<ShortcutEvent>,
    /// Whether the observed event is consumed instead of passed on.
    pub swallow: bool,
}

/// A notification for the host application.
#[derive(Debug, Clone, PartialEq, Eq)]
pub enum HostNotification {
    /// A registered shortcut fired; carries its command identifier.
    ShortcutTriggered { command_id: String },
    /// The "Fn" shortcut went down; carries its command identifier.
    ShortcutPressed { command_id: String },
    /// The "Fn" shortcut went up; carries its command identifier.
    ShortcutReleased { command_id: String },
    /// Fn went down while a shortcut is being recorded.
    KeyPressedForRecording,
}

/// Mathematical value of a [`HostNotification`].
pub enum NotificationModel {
    ShortcutTriggered(Seq<char>),
    ShortcutPressed(Seq<char>),
    ShortcutReleased(Seq<char>),
    KeyPressedForRecording,
}

impl View for HostNotification {
    type V = NotificationModel;

    open spec fn view(&self) -> NotificationModel {
        match self {
            HostNotification::ShortcutTriggered { command_id } => NotificationModel::ShortcutTriggered(
                command_id@,
            ),
            HostNotification::ShortcutPressed { command_id } => NotificationModel::ShortcutPressed(
                command_id@,
            ),
            HostNotification::ShortcutReleased { command_id } => NotificationModel::ShortcutReleased(
                command_id@,
            ),
            HostNotification::KeyPressedForRecording => NotificationModel::KeyPressedForRecording,
        }
    }
}

/// Name under which the host application receives a notification.
pub open spec fn notification_name(n: NotificationModel) -> Seq<char> {
    match n {
        NotificationModel::ShortcutTriggered(_) => "fn-shortcut-triggered"@,
        NotificationModel::ShortcutPressed(_) => "fn-shortcut-pressed"@,
        NotificationModel::ShortcutReleased(_) => "fn-shortcut-released"@,
        NotificationModel::KeyPressedForRecording => "fn-key-pressed-for-recording"@,
    }
}

impl HostNotification {
    /// Name under which the host application receives this notification.
    pub fn event_name(&self) -> (r: &'static str)
        ensures
            r@ == notification_name(self@),
    {
        match self {
            HostNotification::ShortcutTriggered { .. } => "fn-shortcut-triggered",
            HostNotification::ShortcutPressed { .. } => "fn-shortcut-pressed",
            HostNotification::ShortcutReleased { .. } => "fn-shortcut-released",
            HostNotification::KeyPressedForRecording => "fn-key-pressed-for-recording",
        }
    }
}

} // verus!
