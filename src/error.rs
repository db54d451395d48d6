use vstd::prelude::*;
use vstd::string::*;

verus! {

/// Why an operation of the shortcut engine failed.
#[derive(Debug, Clone, Copy, PartialEq, Eq, Structural)]
pub enum ShortcutError {
    /// The input interception hook could not be created (missing accessibility grant).
    PermissionDenied,
    /// A shortcut was registered without the Fn modifier token.
    InvalidShortcut,
    /// The shared state lock could not be acquired.
    LockPoisoned,
    /// The platform has no way to intercept the Fn key.
    Unsupported,
}

/// Human-readable text of each error.
pub open spec fn error_text(e: ShortcutError) -> Seq<char> {
    match e {
        ShortcutError::PermissionDenied =>
            "Failed to create CGEventTap (check Accessibility permissions in System Settings)"@,
        ShortcutError::InvalidShortcut => "Shortcut must contain Fn modifier"@,
        ShortcutError::LockPoisoned => "Failed to lock state"@,
        ShortcutError::Unsupported => "Fn key shortcuts are not supported on Linux"@,
    }
}

impl ShortcutError {
    /// Human-readable text of this error, as handed to the host application.
    pub fn message(&self) -> (r: String)
        ensures
            r@ == error_text(*self),
    {
        let text: &str = match self {
            ShortcutError::PermissionDenied =>
                "Failed to create CGEventTap (check Accessibility permissions in System Settings)",
            ShortcutError::InvalidShortcut => "Shortcut must contain Fn modifier",
            ShortcutError::LockPoisoned => "Failed to lock state",
            ShortcutError::Unsupported => "Fn key shortcuts are not supported on Linux",
        };
        String::from_str(text)
    }
}

} // verus!
