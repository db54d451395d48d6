//! Verified core of a Fn-key shortcut engine: it classifies the modifier-flag
//! snapshots and key presses seen by a system-wide input hook into taps, holds,
//! releases and Fn combinations, and decides for each observed event whether it is
//! passed on or consumed.
//!
//! - `codec`: canonical accelerator strings from modifier flags and key codes.
//! - `registry`: accelerator to command identifier mapping.
//! - `fn_state`: press lifecycle record of the Fn key.
//! - `events`: classified events, hook event categories and host notifications.
//! - `engine`: the shared state and its transitions.
//! - `laws`: properties of the transitions over whole gestures.
//! - `platform`: the manager for platforms without an interception hook.

pub mod codec;
pub mod engine;
pub mod error;
pub mod events;
pub mod fn_state;
pub mod laws;
pub mod platform;
pub mod registry;
