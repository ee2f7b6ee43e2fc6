//! One-shot probe of the operating system's dark/light preference.
//!
//! The shell reads one registry value (`AppsUseLightTheme`); this module
//! decides what that read means. Any failure — a missing key, a value of the
//! wrong type, access denied — defaults to light mode.

use vstd::prelude::*;

verus! {

/// Outcome of reading the light-theme preference value, as reported by the
/// shell: the value as a double word, a value of some other type, or a
/// failed read (key or value missing, access denied).
pub enum PreferenceRead {
    Dword { value: u32 },
    OtherType,
    Failure,
}

/// True exactly when the preference read yielded a double word other than 1
/// (the value 1 means "apps use the light theme"). Every failure reads as
/// light mode.
pub open spec fn dark_mode_of(read: PreferenceRead) -> bool {
    read matches PreferenceRead::Dword { value } && value != 1
}

/// Decides dark mode from the preference read. Light mode (`false`) on any
/// failed or ill-typed read; otherwise the preference itself, where any
/// double word other than 1 selects dark mode.
pub fn is_dark_mode(read: &PreferenceRead) -> (dark: bool)
    ensures
        dark == dark_mode_of(*read),
{
    match read {
        PreferenceRead::Dword { value } => *value != 1,
        PreferenceRead::OtherType => false,
        PreferenceRead::Failure => false,
    }
}

} // verus!
