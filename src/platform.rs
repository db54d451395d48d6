use vstd::prelude::*;

use crate::error::{error_text, ShortcutError};

verus! {

/// Fn shortcut manager for platforms without a way to intercept the Fn key: every
/// operation fails with the `Unsupported` error text.
pub struct LinuxFnShortcutManager;

/// `Err` carrying the text of the `Unsupported` error.
pub open spec fn unsupported<T>(r: Result<T, String>) -> bool {
    match r {
        Ok(_) => false,
        Err(e) => e@ == error_text(ShortcutError::Unsupported),
    }
}

impl LinuxFnShortcutManager {
    /// Always fails: the platform cannot intercept the Fn key.
    pub fn new() -> (r: Result<Self, String>)
        ensures
            unsupported(r),
    {
        Err(ShortcutError::Unsupported.message())
    }

    /// Always fails: the platform cannot intercept the Fn key.
    pub fn register(&self, _shortcut: &str, _command_id: &str) -> (r: Result<(), String>)
        ensures
            unsupported(r),
    {
        Err(ShortcutError::Unsupported.message())
    }

    /// Always fails: the platform cannot intercept the Fn key.
    pub fn unregister(&self, _shortcut: &str) -> (r: Result<(), String>)
        ensures
            unsupported(r),
    {
        Err(ShortcutError::Unsupported.message())
    }

    /// Always fails: the platform cannot intercept the Fn key.
    pub fn enable_recording_mode(&self) -> (r: Result<(), String>)
        ensures
            unsupported(r),
    {
        Err(ShortcutError::Unsupported.message())
    }

    /// Always fails: the platform cannot intercept the Fn key.
    pub fn disable_recording_mode(&self) -> (r: Result<(), String>)
        ensures
            unsupported(r),
    {
        Err(ShortcutError::Unsupported.message())
    }
}

} // verus!
