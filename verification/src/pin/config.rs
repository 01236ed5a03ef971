//! The persisted PIN configuration: the hash, the lockout counter and the
//! enabled flag, behind a store the application provides.

use vstd::prelude::*;
use crate::scan::{trim, trim_seq};
use crate::text::str_eq;

verus! {

/// The persisted lockout counter. It survives restarts, so relaunching the
/// application does not reset failed attempts.
#[derive(Debug, Clone, Copy, PartialEq, Eq, Structural)]
pub struct LockoutState {
    pub failed_attempts: u32,
    pub lockout_until_unix: Option<u64>,
}

impl Default for LockoutState {
    fn default() -> (r: Self)
        ensures
            r == (LockoutState { failed_attempts: 0, lockout_until_unix: None }),
    {
        LockoutState { failed_attempts: 0, lockout_until_unix: None }
    }
}

/// Owner-only storage of the PIN configuration. Nothing is assumed of what
/// an implementation returns.
pub trait PinStore {
    /// The stored PIN hash; `None` when no PIN is configured.
    fn load_pin_hash(&self) -> Result<Option<String>, String>;
    /// Replaces the stored PIN hash atomically.
    fn save_pin_hash(&self, hash: &str) -> Result<(), String>;
    /// Removes the stored PIN hash, if any.
    fn remove_pin_hash(&self) -> Result<(), String>;
    /// The stored lockout counter; the default when none is stored.
    fn load_lockout_state(&self) -> Result<LockoutState, String>;
    /// Replaces the stored lockout counter atomically.
    fn save_lockout_state(&self, state: &LockoutState) -> Result<(), String>;
    /// Removes the stored lockout counter, if any.
    fn clear_lockout_state(&self) -> Result<(), String>;
    /// The text of the stored enabled flag; `None` when it was never set.
    fn read_enabled_flag(&self) -> Result<Option<String>, String>;
    /// Replaces the stored enabled flag atomically.
    fn write_enabled_flag(&self, text: &str) -> Result<(), String>;
}

/// The stored text of the enabled flag.
pub open spec fn enabled_flag_text(enabled: bool) -> Seq<char> {
    if enabled { "1"@ } else { "0"@ }
}

/// Stores whether PIN protection is enabled.
pub fn save_pin_enabled<S: PinStore>(store: &S, enabled: bool) -> (r: Result<(), String>)
{
    let value = if enabled { "1" } else { "0" };
    store.write_enabled_flag(value)
}

/// Whether a stored flag text means enabled: exactly `1` after trimming.
pub fn flag_means_enabled(text: &str) -> (r: bool)
    ensures
        r == (trim_seq(text@) == "1"@),
{
    let t = trim(text);
    str_eq(t.as_str(), "1")
}

/// Whether PIN protection is enabled; a flag that was never set means no.
pub fn load_pin_enabled<S: PinStore>(store: &S) -> (r: Result<bool, String>)
{
    match store.read_enabled_flag()? {
        None => Ok(false),
        Some(text) => Ok(flag_means_enabled(text.as_str())),
    }
}

} // verus!
