use vstd::prelude::*;

verus! {

/// A value read from the configuration store, as the logic sees it.
#[derive(Debug)]
pub enum StoredSetting {
    /// The key is not set.
    Missing,
    /// A text value.
    Text(String),
    /// A boolean value.
    Flag(bool),
    /// A value of another kind (a number, a list, ...).
    Other,
}

/// Whether a setting is absent or holds text, the two cases in which code
/// that reads it as text goes on (it stops on any other kind of value).
pub open spec fn readable_as_text(s: StoredSetting) -> bool {
    s is Missing || s is Text
}

/// Whether a setting is absent or holds a boolean, the two cases in which
/// code that reads it as a boolean goes on.
pub open spec fn readable_as_flag(s: StoredSetting) -> bool {
    s is Missing || s is Flag
}

/// A boolean setting as read, and whether its default has to be written
/// back because it was missing.
#[derive(Debug, Clone, Copy, PartialEq, Eq, Structural)]
pub struct FlagSetting {
    pub value: bool,
    pub store_default: bool,
}

/// The clipboard monitor setting: its stored value, else `false`, which is
/// then stored.
pub open spec fn clipboard_monitor_of(stored: StoredSetting) -> FlagSetting {
    match stored {
        StoredSetting::Flag(b) => FlagSetting { value: b, store_default: false },
        _ => FlagSetting { value: false, store_default: true },
    }
}

/// Reads the `clipboard_monitor` setting, defaulting it to `false`.
pub fn clipboard_monitor_setting(stored: &StoredSetting) -> (r: FlagSetting)
    requires
        readable_as_flag(*stored),
    ensures
        r == clipboard_monitor_of(*stored),
        *stored matches StoredSetting::Flag(b) ==> r.value == b && !r.store_default,
        *stored is Missing ==> !r.value && r.store_default,
{
    match stored {
        StoredSetting::Flag(b) => FlagSetting { value: *b, store_default: false },
        _ => FlagSetting { value: false, store_default: true },
    }
}

/// Whether a setting read leniently as a boolean is on: only a stored `true`
/// counts, anything else (missing, text, ...) is off.
pub open spec fn flag_is_on(stored: StoredSetting) -> bool {
    stored == StoredSetting::Flag(true)
}

/// Reads a setting leniently as a boolean: on only for a stored `true`.
pub fn setting_is_on(stored: &StoredSetting) -> (r: bool)
    ensures
        r == flag_is_on(*stored),
        r == (*stored matches StoredSetting::Flag(b) && b),
{
    match stored {
        StoredSetting::Flag(b) => *b,
        _ => false,
    }
}

} // verus!
