//! The settings that a person can change, and their limits.
use crate::format::ColorFormat;
use crate::hotkey::{find_key, key_names_say_the_key, key_of, key_text, names_a_key};
use crate::i18n::Language;
use vstd::prelude::*;
use vstd::string::*;

verus! {

/// Widest overlay border, in device-independent pixels.
pub const MAX_BORDER_WIDTH_DIP: u8 = 6;

/// Most transparent information background, in percent.
pub const MAX_BACKGROUND_TRANSPARENCY_PERCENT: u8 = 80;

/// Version of the stored settings.
pub const SCHEMA_VERSION: u32 = 1;

#[derive(Debug, Clone, Copy, PartialEq, Eq, Structural)]
pub enum ConfigError {
    BorderTooWide,
    BackgroundTooTransparent,
    MissingModifier,
    UnsupportedKey,
}

/// How the sampling overlays look.
#[derive(Debug, Clone, Copy, PartialEq, Eq, Structural)]
pub struct AppearanceConfig {
    pub border_width_dip: u8,
    pub background_transparency_percent: u8,
}

impl AppearanceConfig {
    /// Whether both values are within their limits.
    pub open spec fn valid(self) -> bool {
        self.border_width_dip <= MAX_BORDER_WIDTH_DIP && self.background_transparency_percent
            <= MAX_BACKGROUND_TRANSPARENCY_PERCENT
    }

    /// The error of a value beyond its limit.
    pub open spec fn fault(self) -> Option<ConfigError> {
        if self.border_width_dip > MAX_BORDER_WIDTH_DIP {
            Some(ConfigError::BorderTooWide)
        } else if self.background_transparency_percent > MAX_BACKGROUND_TRANSPARENCY_PERCENT {
            Some(ConfigError::BackgroundTooTransparent)
        } else {
            None
        }
    }

    pub fn validate(&self) -> (r: Result<(), ConfigError>)
        ensures
            r == (match self.fault() {
                Some(error) => Err(error),
                None => Ok(()),
            }),
            r is Ok <==> self.valid(),
    {
        if self.border_width_dip > MAX_BORDER_WIDTH_DIP {
            Err(ConfigError::BorderTooWide)
        } else if self.background_transparency_percent > MAX_BACKGROUND_TRANSPARENCY_PERCENT {
            Err(ConfigError::BackgroundTooTransparent)
        } else {
            Ok(())
        }
    }
}

impl Default for AppearanceConfig {
    fn default() -> (r: Self)
        ensures
            r == (AppearanceConfig { border_width_dip: 2, background_transparency_percent: 35 }),
    {
        AppearanceConfig { border_width_dip: 2, background_transparency_percent: 35 }
    }
}

/// A global shortcut: modifiers and the name of one key.
#[derive(Debug)]
pub struct HotkeyConfig {
    pub ctrl: bool,
    pub alt: bool,
    pub shift: bool,
    pub key: String,
}

impl HotkeyConfig {
    /// Whether the shortcut has Ctrl or Alt, and a key that shortcuts can use.
    pub open spec fn valid(&self) -> bool {
        (self.ctrl || self.alt) && names_a_key(self.key@)
    }

    /// The error of an unusable shortcut.
    pub open spec fn fault(&self) -> Option<ConfigError> {
        if !self.ctrl && !self.alt {
            Some(ConfigError::MissingModifier)
        } else if !names_a_key(self.key@) {
            Some(ConfigError::UnsupportedKey)
        } else {
            None
        }
    }

    pub fn validate(&self) -> (r: Result<(), ConfigError>)
        ensures
            r == (match self.fault() {
                Some(error) => Err(error),
                None => Ok(()),
            }),
    {
        if !self.ctrl && !self.alt {
            return Err(ConfigError::MissingModifier);
        }
        match self.virtual_key() {
            Ok(_) => Ok(()),
            Err(error) => Err(error),
        }
    }

    /// The native code of the key.
    pub fn virtual_key(&self) -> (r: Result<u32, ConfigError>)
        ensures
            match r {
                Ok(key) => key_of(self.key@, key as int),
                Err(error) => error == ConfigError::UnsupportedKey && !names_a_key(self.key@),
            },
    {
        match find_key(self.key.as_str()) {
            Some(key) => {
                assert(key_of(self.key@, key as int));
                Ok(key)
            },
            None => Err(ConfigError::UnsupportedKey),
        }
    }
}

impl Default for HotkeyConfig {
    fn default() -> (r: Self)
        ensures
            r.ctrl && r.alt && !r.shift && r.key@ == "C"@,
    {
        HotkeyConfig { ctrl: true, alt: true, shift: false, key: String::from_str("C") }
    }
}

/// The whole of the settings.
#[derive(Debug)]
pub struct Config {
    pub schema_version: u32,
    pub language: Language,
    pub hotkey: HotkeyConfig,
    pub default_format: ColorFormat,
    pub auto_copy_on_pick: bool,
    pub quick_pick: bool,
    pub appearance: AppearanceConfig,
}

impl Config {
    /// Whether every setting can be used.
    pub open spec fn valid(&self) -> bool {
        self.hotkey.valid() && self.appearance.valid()
    }

    /// The error of the first unusable setting.
    pub open spec fn fault(&self) -> Option<ConfigError> {
        match self.hotkey.fault() {
            Some(error) => Some(error),
            None => self.appearance.fault(),
        }
    }

    pub fn validate(&self) -> (r: Result<(), ConfigError>)
        ensures
            r == (match self.fault() {
                Some(error) => Err(error),
                None => Ok(()),
            }),
            r is Ok <==> self.valid(),
    {
        match self.hotkey.validate() {
            Ok(()) => self.appearance.validate(),
            Err(error) => Err(error),
        }
    }
}

/// Borders from zero to six and transparencies from zero to eighty percent can be
/// used, whatever the other value is. A border beyond its limit is told first.
pub proof fn appearances_have_their_limits(appearance: AppearanceConfig)
    ensures
        appearance.valid() <==> appearance.border_width_dip <= 6
            && appearance.background_transparency_percent <= 80,
        appearance.fault() is None <==> appearance.valid(),
        appearance.fault() == Some(ConfigError::BorderTooWide) <==> appearance.border_width_dip > 6,
        appearance.fault() == Some(ConfigError::BackgroundTooTransparent)
            <==> appearance.border_width_dip <= 6 && appearance.background_transparency_percent
            > 80,
{
}

/// A shortcut needs Ctrl or Alt and a key that shortcuts can use; Shift makes no
/// difference, and a missing modifier is told first.
pub proof fn shortcuts_need_a_modifier_and_a_key(hotkey: HotkeyConfig, other: HotkeyConfig, key: u32)
    ensures
        hotkey.valid() <==> hotkey.fault() is None,
        hotkey.fault() == Some(ConfigError::MissingModifier) <==> !(hotkey.ctrl || hotkey.alt),
        (hotkey.ctrl || hotkey.alt) && key_text(key as int) == Some(hotkey.key@) ==> hotkey.valid(),
        hotkey.key@.len() == 0 ==> !hotkey.valid(),
        hotkey.ctrl == other.ctrl && hotkey.alt == other.alt && hotkey.key == other.key
            ==> hotkey.fault() == other.fault(),
{
    if key_text(key as int) == Some(hotkey.key@) {
        assert(key_of(hotkey.key@, key as int));
    }
    if hotkey.key@.len() == 0 && names_a_key(hotkey.key@) {
        let named = choose|named: int| key_of(hotkey.key@, named);
        key_names_say_the_key(named);
    }
}

/// Settings can be used exactly where the shortcut and the appearance can; what is
/// told of unusable ones is what is told of the shortcut, or else of the appearance.
pub proof fn settings_are_as_good_as_their_parts(config: Config)
    ensures
        config.valid() <==> config.hotkey.fault() is None && config.appearance.fault() is None,
        config.fault() is None <==> config.valid(),
        config.hotkey.fault() is Some ==> config.fault() == config.hotkey.fault(),
        config.hotkey.fault() is None ==> config.fault() == config.appearance.fault(),
{
}

} // verus!
