//! Verified logic of a screen colour picker's windows: pixel effects, layouts,
//! zoom mapping, message decisions and the state machines behind them.
pub mod arith;
pub mod caption;
pub mod color;
pub mod config;
pub mod controls;
pub mod drawing;
pub mod footer;
pub mod format;
pub mod frost;
pub mod geometry;
pub mod hotkey;
pub mod i18n;
pub mod key_set;
pub mod layout;
pub mod magnifier;
pub mod magnifier_window;
pub mod messages;
pub mod pixel_effects;
pub mod placement;
pub mod preview;
pub mod result;
pub mod result_controls;
pub mod result_copy;
pub mod result_layout;
pub mod result_work;
pub mod sample;
pub mod scrolling;
pub mod settings;
pub mod settings_controls;
pub mod settings_keys;
pub mod settings_layout;
pub mod settings_preview;
pub mod settings_work;
pub mod text;
pub mod theme;
pub mod window_lifetime;
pub mod zoom;
