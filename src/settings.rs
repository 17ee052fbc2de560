//! User settings as plain values, their validation and their defaults.
use vstd::prelude::*;
use vstd::string::StrSliceExecFns;
use crate::sample::{Gain, UNITY_GAIN};
use crate::strings::{lower_of, lowercase, str_equals, trim_of, trim_str};
use crate::trigger::TriggerMode;

verus! {

/// Typing delay used when none is configured, in milliseconds.
pub const DEFAULT_TYPE_SPEED_MS: u64 = 0;

/// Whether transcriptions are typed into the focused application by default.
pub const DEFAULT_AUTO_TYPE_ENABLED: bool = true;

/// Why a setting was refused.
#[derive(Clone, Copy, Debug, PartialEq, Eq, Structural)]
pub enum SettingsError {
    InvalidTriggerMode,
    EmptyHotkey,
}

pub open spec fn settings_error_text(e: SettingsError) -> Seq<char> {
    match e {
        SettingsError::InvalidTriggerMode => "trigger_mode must be 'hold' or 'toggle'"@,
        SettingsError::EmptyHotkey => "Hotkey cannot be empty"@,
    }
}

impl SettingsError {
    pub fn message(&self) -> (r: String)
        ensures
            r@ == settings_error_text(*self),
    {
        match self {
            SettingsError::InvalidTriggerMode => String::from_str(
                "trigger_mode must be 'hold' or 'toggle'",
            ),
            SettingsError::EmptyHotkey => String::from_str("Hotkey cannot be empty"),
        }
    }
}

/// The trigger mode that a normalised name stands for.
pub open spec fn trigger_mode_named(name: Seq<char>) -> Option<TriggerMode> {
    if name == "hold"@ {
        Some(TriggerMode::Hold)
    } else if name == "toggle"@ {
        Some(TriggerMode::Toggle)
    } else {
        None
    }
}

/// Reads a trigger mode from its normalised (trimmed, lower-case) name.
pub fn parse_trigger_mode(name: &str) -> (r: Option<TriggerMode>)
    ensures
        r == trigger_mode_named(name@),
{
    if str_equals(name, "hold") {
        Some(TriggerMode::Hold)
    } else if str_equals(name, "toggle") {
        Some(TriggerMode::Toggle)
    } else {
        None
    }
}

/// A trimmed text as an optional setting: absent when empty.
pub fn optional_text(trimmed: &str) -> (r: Option<String>)
    ensures
        trimmed@.len() == 0 <==> r is None,
        r matches Some(t) ==> t@ == trimmed@,
{
    if trimmed.unicode_len() == 0 {
        None
    } else {
        Some(String::from_str(trimmed))
    }
}

/// Validates a hotkey for registration: trimmed, and not empty.
pub fn validate_hotkey(hotkey: &str) -> (r: Result<String, SettingsError>)
    ensures
        trim_of(hotkey@).len() == 0 <==> r == Err::<String, SettingsError>(
            SettingsError::EmptyHotkey,
        ),
        r matches Ok(h) ==> h@ == trim_of(hotkey@),
{
    match optional_text(trim_str(hotkey)) {
        None => Err(SettingsError::EmptyHotkey),
        Some(h) => Ok(h),
    }
}

/// The persisted configuration, as plain values.
#[derive(Clone, Debug)]
pub struct Settings {
    pub groq_api_key: Option<String>,
    /// Global hotkey, e.g. "CommandOrControl+Shift+R".
    pub global_hotkey: Option<String>,
    /// "hold" or "toggle".
    pub trigger_mode: Option<String>,
    pub auto_type_enabled: Option<bool>,
    /// Delay between typed chunks, in milliseconds.
    pub type_speed_ms: Option<u64>,
    /// Microphone gain in thousandths.
    pub mic_gain_thousandths: Option<i32>,
    /// Older name of `auto_type_enabled`; read, never written.
    pub auto_insert: Option<bool>,
    /// Older insertion setting; read, never written.
    pub insert_mode: Option<String>,
}

impl Default for Settings {
    fn default() -> (r: Settings)
        ensures
            r.groq_api_key is None,
            r.global_hotkey is None,
            r.trigger_mode is None,
            r.auto_type_enabled is None,
            r.type_speed_ms is None,
            r.mic_gain_thousandths is None,
            r.auto_insert is None,
            r.insert_mode is None,
    {
        Settings {
            groq_api_key: None,
            global_hotkey: None,
            trigger_mode: None,
            auto_type_enabled: None,
            type_speed_ms: None,
            mic_gain_thousandths: None,
            auto_insert: None,
            insert_mode: None,
        }
    }
}

/// The mode that a stored setting selects: toggle only when it says so.
pub open spec fn resolved_mode(stored: Option<String>) -> TriggerMode {
    match stored {
        Some(t) => if t@ == "toggle"@ {
            TriggerMode::Toggle
        } else {
            TriggerMode::Hold
        },
        None => TriggerMode::Hold,
    }
}

impl Settings {
    /// Fills new fields from their legacy equivalents after loading.
    pub fn migrate_legacy(&mut self)
        ensures
            final(self).auto_type_enabled == (if old(self).auto_type_enabled is Some {
                old(self).auto_type_enabled
            } else {
                old(self).auto_insert
            }),
            final(self).type_speed_ms == (if old(self).type_speed_ms is Some {
                old(self).type_speed_ms
            } else {
                Some(DEFAULT_TYPE_SPEED_MS)
            }),
            final(self).groq_api_key == old(self).groq_api_key,
            final(self).global_hotkey == old(self).global_hotkey,
            final(self).trigger_mode == old(self).trigger_mode,
            final(self).mic_gain_thousandths == old(self).mic_gain_thousandths,
            final(self).auto_insert == old(self).auto_insert,
            final(self).insert_mode == old(self).insert_mode,
    {
        if self.auto_type_enabled.is_none() {
            self.auto_type_enabled = self.auto_insert;
        }
        if self.type_speed_ms.is_none() {
            self.type_speed_ms = Some(DEFAULT_TYPE_SPEED_MS);
        }
    }

    /// Stores a trigger mode given in any case and with surrounding blanks.
    pub fn set_trigger_mode(&mut self, mode: &str) -> (r: Result<(), SettingsError>)
        ensures
            trigger_mode_named(lower_of(trim_of(mode@))) is None <==> r == Err::<(), SettingsError>(
                SettingsError::InvalidTriggerMode,
            ),
            r is Err ==> *final(self) == *old(self),
            r is Ok ==> (final(self).trigger_mode matches Some(t) && t@ == lower_of(trim_of(mode@))),
            *final(self) == (Settings { trigger_mode: final(self).trigger_mode, ..*old(self) }),
    {
        let m = lowercase(trim_str(mode));
        match parse_trigger_mode(m.as_str()) {
            None => Err(SettingsError::InvalidTriggerMode),
            Some(_) => {
                self.trigger_mode = Some(m);
                Ok(())
            },
        }
    }

    /// Stores the API key, trimmed; a blank key removes it.
    pub fn set_groq_api_key(&mut self, key: &str)
        ensures
            trim_of(key@).len() == 0 <==> final(self).groq_api_key is None,
            final(self).groq_api_key matches Some(k) ==> k@ == trim_of(key@),
            *final(self) == (Settings { groq_api_key: final(self).groq_api_key, ..*old(self) }),
    {
        self.groq_api_key = optional_text(trim_str(key));
    }

    /// Stores the hotkey, trimmed; a blank hotkey removes it.
    pub fn set_global_hotkey(&mut self, hotkey: &str)
        ensures
            trim_of(hotkey@).len() == 0 <==> final(self).global_hotkey is None,
            final(self).global_hotkey matches Some(h) ==> h@ == trim_of(hotkey@),
            *final(self) == (Settings { global_hotkey: final(self).global_hotkey, ..*old(self) }),
    {
        self.global_hotkey = optional_text(trim_str(hotkey));
    }

    /// The trigger mode in force: hold unless toggle is stored.
    pub fn resolve_trigger_mode(&self) -> (r: TriggerMode)
        ensures
            r == resolved_mode(self.trigger_mode),
    {
        match &self.trigger_mode {
            Some(t) => if str_equals(t.as_str(), "toggle") {
                TriggerMode::Toggle
            } else {
                TriggerMode::Hold
            },
            None => TriggerMode::Hold,
        }
    }

    pub fn resolve_auto_type_enabled(&self) -> (r: bool)
        ensures
            r == match self.auto_type_enabled {
                Some(b) => b,
                None => DEFAULT_AUTO_TYPE_ENABLED,
            },
    {
        match self.auto_type_enabled {
            Some(b) => b,
            None => DEFAULT_AUTO_TYPE_ENABLED,
        }
    }

    pub fn resolve_type_speed_ms(&self) -> (r: u64)
        ensures
            r == match self.type_speed_ms {
                Some(ms) => ms,
                None => DEFAULT_TYPE_SPEED_MS,
            },
    {
        match self.type_speed_ms {
            Some(ms) => ms,
            None => DEFAULT_TYPE_SPEED_MS,
        }
    }

    pub fn resolve_mic_gain(&self) -> (r: Gain)
        ensures
            r.thousandths == match self.mic_gain_thousandths {
                Some(t) => t,
                None => UNITY_GAIN,
            },
    {
        match self.mic_gain_thousandths {
            Some(t) => Gain::from_thousandths(t),
            None => Gain::unity(),
        }
    }

    /// The hotkey in force: the stored one, or the platform's default.
    pub fn resolve_hotkey(&self, default_hotkey: &str) -> (r: String)
        ensures
            r@ == match self.global_hotkey {
                Some(h) => h@,
                None => default_hotkey@,
            },
    {
        match &self.global_hotkey {
            Some(h) => h.clone(),
            None => String::from_str(default_hotkey),
        }
    }
}

} // verus!
