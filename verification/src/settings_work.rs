//! What the owner of a settings window does between messages: processing queued
//! intentions, and reading the draft out of its controls.
use crate::arith::clamped;
use crate::config::{AppearanceConfig, Config, ConfigError, HotkeyConfig};
use crate::drawing::dip;
use crate::format::ColorFormat;
use crate::geometry::Rect;
use crate::hotkey::{find_key, key_name, key_of, key_text, names_a_key};
use crate::i18n::Language;
use crate::key_set::KeySet;
use crate::layout::{
    reveal_computes, reveal_is_representable, reveal_offset, revealing_offset, scroll_limit,
};
use crate::result_work::WakeFailed;
use crate::scrolling::{
    bar_target, low_word, notification_code, wheel_delta, wheel_notches_scroll_alike,
    wheel_target, wheel_travel_adds_up, ScrollInfo,
};
use crate::settings::{
    CaptureHint, SettingsIntention, SettingsMessage, SettingsPending, SettingsReply,
    SettingsWindow,
};
use crate::settings_layout::{
    SettingsPlan, APPLY, BACKGROUND_TRANSPARENCY, BORDER_WIDTH, CLOSE, DETAILS, HINT, KEY,
    LANGUAGE, LANGUAGE_LABEL, QUICK_PICK, STATUS, SUBTITLE, TITLE, USAGE_HEADING, USAGE_HINT,
};
use crate::settings_preview::AppearancePreview;
use crate::theme::Tone;
use crate::window_lifetime::WindowHandle;
use vstd::prelude::*;

verus! {

/// The configured shortcut uses a key that cannot be recorded.
#[derive(Debug, Clone, Copy, PartialEq, Eq, Structural)]
pub struct UnsupportedHotkey;

/// What the host does with a settings window.
#[derive(Debug)]
pub enum SettingsAction {
    Apply(Config),
    Close,
}

/// The steps of one round, in this order: move to the suggested rectangle, fit the
/// work area, scroll, lay out, reveal the focus, reveal a control, restyle, show
/// the recording, move the focus to the recording button, show the appearance,
/// adjust the copy choices, read and apply the draft.
#[derive(Debug, Clone, Copy, PartialEq, Eq, Structural)]
pub struct SettingsSteps {
    pub move_to: Option<Rect>,
    pub fit_work_area: bool,
    pub scroll: Option<i32>,
    pub layout: bool,
    pub reveal_focus: bool,
    pub reveal: Option<WindowHandle>,
    pub default_style: bool,
    pub capture: bool,
    /// Focus the recording button, if a key is still being recorded then.
    pub focus_key: bool,
    pub appearance: bool,
    pub copy_behavior: bool,
    pub apply: bool,
}

/// What a round of processing does.
#[derive(Debug, Clone, Copy, PartialEq, Eq, Structural)]
pub enum SettingsWork {
    /// The window is done.
    Close,
    Update(SettingsSteps),
}

/// The steps that pending intentions ask for. The focus is revealed where the
/// layout changed and the person did not scroll.
pub open spec fn settings_steps(pending: SettingsPending, save_allowed: bool) -> SettingsSteps {
    let layout = pending.layout || pending.scroll is Some || pending.fit_work_area;
    SettingsSteps {
        move_to: pending.dpi_rect,
        fit_work_area: pending.fit_work_area,
        scroll: pending.scroll,
        layout,
        reveal_focus: layout && pending.scroll is None,
        reveal: pending.reveal,
        default_style: pending.default_style,
        capture: pending.capture,
        focus_key: pending.focus_key,
        appearance: pending.appearance,
        copy_behavior: pending.copy_behavior,
        apply: pending.apply && save_allowed,
    }
}

/// What the controls of a draft say. Choices and slider positions are as the
/// native controls report them.
#[derive(Debug, Clone, Copy, PartialEq, Eq, Structural)]
pub struct DraftControls {
    pub language: isize,
    pub ctrl: bool,
    pub alt: bool,
    pub shift: bool,
    pub format: isize,
    pub auto_copy: bool,
    pub quick_pick: bool,
    pub border_width: isize,
    pub background_transparency: isize,
}

/// Why a draft cannot be applied.
#[derive(Debug, Clone, Copy, PartialEq, Eq, Structural)]
pub enum DraftError {
    /// A selector has no choice.
    NoChoice,
    Key,
    Format,
    Language,
    Appearance,
    Invalid(ConfigError),
}

/// Whether a slider position is a value of the settings.
pub open spec fn slider_fits(position: isize) -> bool {
    0 <= position <= 255
}

/// The first reason why a draft cannot be read.
pub open spec fn unreadable(controls: DraftControls) -> Option<DraftError> {
    if controls.format < 0 {
        Some(DraftError::NoChoice)
    } else if controls.format >= 4 {
        Some(DraftError::Format)
    } else if controls.language < 0 {
        Some(DraftError::NoChoice)
    } else if controls.language >= 2 {
        Some(DraftError::Language)
    } else if !slider_fits(controls.border_width) || !slider_fits(
        controls.background_transparency,
    ) {
        Some(DraftError::Appearance)
    } else {
        None
    }
}

/// Whether a draft holds exactly what the controls say.
pub open spec fn holds_controls(config: Config, controls: DraftControls) -> bool {
    &&& config.language == (if controls.language == 0 {
        Language::SimplifiedChinese
    } else {
        Language::English
    })
    &&& config.hotkey.ctrl == controls.ctrl
    &&& config.hotkey.alt == controls.alt
    &&& config.hotkey.shift == controls.shift
    &&& config.default_format.position() == controls.format
    &&& config.auto_copy_on_pick == controls.auto_copy
    &&& config.quick_pick == controls.quick_pick
    &&& config.appearance.border_width_dip == controls.border_width
    &&& config.appearance.background_transparency_percent == controls.background_transparency
}

/// What the controls show for some settings.
pub open spec fn shown_controls(config: Config) -> DraftControls {
    DraftControls {
        language: match config.language {
            Language::SimplifiedChinese => 0,
            Language::English => 1,
        },
        ctrl: config.hotkey.ctrl,
        alt: config.hotkey.alt,
        shift: config.hotkey.shift,
        format: config.default_format.position() as isize,
        auto_copy: config.auto_copy_on_pick,
        quick_pick: config.quick_pick,
        border_width: config.appearance.border_width_dip as isize,
        background_transparency: config.appearance.background_transparency_percent as isize,
    }
}

/// What the controls of a new window show.
pub fn initial_controls(config: &Config) -> (r: DraftControls)
    ensures
        r == shown_controls(*config),
{
    DraftControls {
        language: match config.language {
            Language::SimplifiedChinese => 0,
            Language::English => 1,
        },
        ctrl: config.hotkey.ctrl,
        alt: config.hotkey.alt,
        shift: config.hotkey.shift,
        format: config.default_format.index() as isize,
        auto_copy: config.auto_copy_on_pick,
        quick_pick: config.quick_pick,
        border_width: config.appearance.border_width_dip as isize,
        background_transparency: config.appearance.background_transparency_percent as isize,
    }
}

/// Opening valid settings and applying them unchanged gives the same settings
/// back.
pub proof fn unchanged_drafts_give_the_settings_back(
    config: Config,
    window: SettingsWindow,
    save_allowed: bool,
    draft: Config,
)
    requires
        config.valid(),
        window.fresh(config, save_allowed, window.selected_key),
        key_of(config.hotkey.key@, window.selected_key as int),
        holds_controls(draft, shown_controls(config)),
        draft.schema_version == window.schema_version,
        key_text(window.selected_key as int) == Some(draft.hotkey.key@),
    ensures
        SettingsWindow::draft_fault(shown_controls(config)) is None,
        draft.schema_version == config.schema_version,
        draft.language == config.language,
        draft.hotkey.ctrl == config.hotkey.ctrl,
        draft.hotkey.alt == config.hotkey.alt,
        draft.hotkey.shift == config.hotkey.shift,
        draft.hotkey.key@ == config.hotkey.key@,
        draft.default_format == config.default_format,
        draft.auto_copy_on_pick == config.auto_copy_on_pick,
        draft.quick_pick == config.quick_pick,
        draft.appearance == config.appearance,
{
}

fn slider_value(position: isize) -> (r: Result<u8, DraftError>)
    ensures
        r == (if slider_fits(position) {
            Ok(position as u8)
        } else {
            Err(DraftError::Appearance)
        }),
{
    if position >= 0 && position <= 255 {
        Ok(position as u8)
    } else {
        Err(DraftError::Appearance)
    }
}

fn selected_choice(choice: isize) -> (r: Result<usize, DraftError>)
    ensures
        r == (if choice >= 0 {
            Ok(choice as usize)
        } else {
            Err(DraftError::NoChoice)
        }),
{
    if choice >= 0 {
        Ok(choice as usize)
    } else {
        Err(DraftError::NoChoice)
    }
}

/// The appearance that the sliders show.
pub fn slider_appearance(border_width: isize, background_transparency: isize) -> (r: Result<
    AppearanceConfig,
    DraftError,
>)
    ensures
        r == (if slider_fits(border_width) && slider_fits(background_transparency) {
            Ok(
                AppearanceConfig {
                    border_width_dip: border_width as u8,
                    background_transparency_percent: background_transparency as u8,
                },
            )
        } else {
            Err(DraftError::Appearance)
        }),
{
    let border_width_dip: u8 = match slider_value(border_width) {
        Ok(value) => value,
        Err(error) => return Err(error),
    };
    let background_transparency_percent: u8 = match slider_value(background_transparency) {
        Ok(value) => value,
        Err(error) => return Err(error),
    };
    Ok(AppearanceConfig { border_width_dip, background_transparency_percent })
}

/// Whether the shown example has to be made anew for these values.
pub fn preview_outdated(
    preview: &Option<AppearancePreview>,
    dpi: u32,
    appearance: AppearanceConfig,
) -> (r: bool)
    ensures
        r == !(preview matches Some(shown) && shown.dpi == dpi && shown.appearance == appearance),
{
    match preview {
        Some(shown) => !shown.matches(dpi, appearance),
        None => true,
    }
}

impl SettingsWindow {
    /// A window for these settings that has not been shown and has nothing to do.
    /// `key` is the configured one.
    pub open spec fn fresh(self, config: Config, save_allowed: bool, key: u32) -> bool {
        &&& self.suppressed@ == Set::<u32>::empty()
        &&& self == (SettingsWindow {
            status_tone: Tone::Muted,
            pending: SettingsPending::none(),
            wake_posted: false,
            wake_failed: false,
            closing: false,
            default_id: if save_allowed {
                APPLY
            } else {
                CLOSE
            },
            selected_key: key,
            recording: false,
            capture_hint: CaptureHint::Ready,
            suppressed: self.suppressed,
            viewport: 0,
            scroll_offset: 0,
            viewport_height: 0,
            content_height: 0,
            content_width_dip: 480,
            wheel_remainder: 0,
            shown_language: None,
            font_dpi: 0,
            selector_font_dpi: 0,
            schema_version: config.schema_version,
            save_allowed,
        })
    }

    /// Opens an editor for these settings. Where they cannot be saved, Close and
    /// not Apply is the default.
    pub fn new(config: &Config, save_allowed: bool) -> (r: Result<SettingsWindow, UnsupportedHotkey>)
        ensures
            r is Ok <==> names_a_key(config.hotkey.key@),
            r matches Ok(window) ==> window.wf() && window.fresh(
                *config,
                save_allowed,
                window.selected_key,
            ) && key_of(config.hotkey.key@, window.selected_key as int),
    {
        let selected_key: u32 = match find_key(config.hotkey.key.as_str()) {
            Some(key) => {
                assert(key_of(config.hotkey.key@, key as int));
                key
            },
            None => return Err(UnsupportedHotkey),
        };
        Ok(
            SettingsWindow {
                status_tone: Tone::Muted,
                pending: SettingsPending::default(),
                wake_posted: false,
                wake_failed: false,
                closing: false,
                default_id: if save_allowed {
                    APPLY
                } else {
                    CLOSE
                },
                selected_key,
                recording: false,
                capture_hint: CaptureHint::Ready,
                suppressed: KeySet::empty(),
                viewport: 0,
                scroll_offset: 0,
                viewport_height: 0,
                content_height: 0,
                content_width_dip: 480,
                wheel_remainder: 0,
                shown_language: None,
                font_dpi: 0,
                selector_font_dpi: 0,
                schema_version: config.schema_version,
                save_allowed,
            },
        )
    }

    /// Final placement supersedes suggestions that the hidden, temporarily small
    /// window caused.
    pub fn placed(&mut self)
        ensures
            *final(self) == (SettingsWindow {
                pending: SettingsPending { dpi_rect: None, ..old(self).pending },
                ..*old(self)
            }),
    {
        self.pending.dpi_rect = None;
    }

    /// Takes over the measures of a layout.
    pub fn laid_out(&mut self, plan: &SettingsPlan)
        ensures
            *final(self) == (SettingsWindow {
                viewport_height: plan.viewport_height,
                content_height: plan.content_height,
                content_width_dip: plan.content_width_dip,
                scroll_offset: plan.offset,
                ..*old(self)
            }),
    {
        self.viewport_height = plan.viewport_height;
        self.content_height = plan.content_height;
        self.content_width_dip = plan.content_width_dip;
        self.scroll_offset = plan.offset;
    }

    /// Scrolls so that a control at `top..bottom` of the viewport is visible. Says
    /// whether the window has to be laid out again.
    pub fn reveal_control(&mut self, top: i32, bottom: i32, dpi: u32) -> (r: bool)
        requires
            reveal_computes(
                old(self).scroll_offset as int,
                top as int,
                bottom as int,
                old(self).viewport_height as int,
                old(self).content_height as int,
                dip(8, dpi) as int,
            ),
        ensures
            ({
                let offset = clamped(
                    revealing_offset(
                        old(self).scroll_offset as int,
                        top as int,
                        bottom as int,
                        old(self).viewport_height as int,
                        dip(8, dpi) as int,
                    ),
                    0,
                    scroll_limit(old(self).viewport_height as int, old(self).content_height as int),
                );
                &&& *final(self) == (SettingsWindow { scroll_offset: offset as i32, ..*old(self) })
                &&& r == (old(self).scroll_offset != offset)
            }),
    {
        let offset: i32 = reveal_offset(
            self.scroll_offset,
            top,
            bottom,
            self.viewport_height,
            self.content_height,
            dip(8, dpi),
        );
        let moved = self.scroll_offset != offset;
        self.scroll_offset = offset;
        moved
    }

    /// Whether [`Self::reveal_control`] can be called for a control at `top..bottom`.
    pub fn reveal_is_representable(&self, top: i32, bottom: i32, dpi: u32) -> (r: bool)
        ensures
            r == reveal_computes(
                self.scroll_offset as int,
                top as int,
                bottom as int,
                self.viewport_height as int,
                self.content_height as int,
                dip(8, dpi) as int,
            ),
    {
        reveal_is_representable(
            self.scroll_offset,
            top,
            bottom,
            self.viewport_height,
            self.content_height,
            dip(8, dpi),
        )
    }

    /// Takes over a scroll position.
    pub fn scroll_to(&mut self, offset: i32)
        ensures
            *final(self) == (SettingsWindow { scroll_offset: offset, ..*old(self) }),
    {
        self.scroll_offset = offset;
    }

    /// A message is shown as a success or as an error.
    pub fn show_status(&mut self, success: bool)
        ensures
            *final(self) == (SettingsWindow {
                status_tone: if success {
                    Tone::Success
                } else {
                    Tone::Error
                },
                ..*old(self)
            }),
    {
        self.status_tone = if success {
            Tone::Success
        } else {
            Tone::Error
        };
    }

    /// Whether the recording button is to get the focus after these steps.
    pub fn focuses_key(&self, steps: SettingsSteps) -> (r: bool)
        ensures
            r == (steps.focus_key && self.recording),
    {
        steps.focus_key && self.recording
    }

    /// The state after a round of processing took what waited.
    pub open spec fn processed(self) -> SettingsWindow {
        if self.wake_failed {
            SettingsWindow { wake_posted: false, wake_failed: false, ..self }
        } else if self.pending.close {
            SettingsWindow {
                wake_posted: false,
                pending: SettingsPending::none(),
                recording: false,
                closing: true,
                ..self
            }
        } else {
            SettingsWindow { wake_posted: false, pending: SettingsPending::none(), ..self }
        }
    }

    /// Takes what waits and says what to do. After a failed wake-up what waits is
    /// kept, and the failure is reported once.
    pub fn process_pending(&mut self) -> (r: Result<SettingsWork, WakeFailed>)
        ensures
            *final(self) == old(self).processed(),
            r == (if old(self).wake_failed {
                Err(WakeFailed)
            } else if old(self).pending.close {
                Ok(SettingsWork::Close)
            } else {
                Ok(SettingsWork::Update(settings_steps(old(self).pending, old(self).save_allowed)))
            }),
    {
        self.wake_posted = false;
        if self.wake_failed {
            self.wake_failed = false;
            return Err(WakeFailed);
        }
        let pending = self.pending;
        self.pending = SettingsPending::default();
        if pending.close {
            self.recording = false;
            self.closing = true;
            return Ok(SettingsWork::Close);
        }
        let layout = pending.layout || pending.scroll.is_some() || pending.fit_work_area;
        Ok(
            SettingsWork::Update(
                SettingsSteps {
                    move_to: pending.dpi_rect,
                    fit_work_area: pending.fit_work_area,
                    scroll: pending.scroll,
                    layout,
                    reveal_focus: layout && pending.scroll.is_none(),
                    reveal: pending.reveal,
                    default_style: pending.default_style,
                    capture: pending.capture,
                    focus_key: pending.focus_key,
                    appearance: pending.appearance,
                    copy_behavior: pending.copy_behavior,
                    apply: pending.apply && self.save_allowed,
                },
            ),
        )
    }

    /// Reads the draft out of the controls and the recorded key.
    pub fn read_config(&self, controls: DraftControls) -> (r: Result<Config, DraftError>)
        requires
            self.wf(),
        ensures
            match r {
                Ok(config) => {
                    &&& unreadable(controls) is None
                    &&& holds_controls(config, controls)
                    &&& config.schema_version == self.schema_version
                    &&& key_text(self.selected_key as int) == Some(config.hotkey.key@)
                },
                Err(error) => unreadable(controls) == Some(error),
            },
    {
        let format_index: usize = match selected_choice(controls.format) {
            Ok(index) => index,
            Err(error) => return Err(error),
        };
        let key = match key_name(self.selected_key) {
            Some(key) => key,
            None => return Err(DraftError::Key),
        };
        let default_format = match ColorFormat::from_index(format_index) {
            Some(format) => format,
            None => return Err(DraftError::Format),
        };
        let language = match selected_choice(controls.language) {
            Ok(0) => Language::SimplifiedChinese,
            Ok(1) => Language::English,
            Ok(_) => return Err(DraftError::Language),
            Err(error) => return Err(error),
        };
        let appearance = match slider_appearance(
            controls.border_width,
            controls.background_transparency,
        ) {
            Ok(appearance) => appearance,
            Err(error) => return Err(error),
        };
        Ok(
            Config {
                schema_version: self.schema_version,
                language,
                hotkey: HotkeyConfig {
                    ctrl: controls.ctrl,
                    alt: controls.alt,
                    shift: controls.shift,
                    key,
                },
                default_format,
                auto_copy_on_pick: controls.auto_copy,
                quick_pick: controls.quick_pick,
                appearance,
            },
        )
    }

    /// The error of a readable draft that cannot be used.
    pub open spec fn draft_fault(controls: DraftControls) -> Option<DraftError> {
        if unreadable(controls) is Some {
            unreadable(controls)
        } else if !controls.ctrl && !controls.alt {
            Some(DraftError::Invalid(ConfigError::MissingModifier))
        } else {
            match (AppearanceConfig {
                border_width_dip: controls.border_width as u8,
                background_transparency_percent: controls.background_transparency as u8,
            }).fault() {
                Some(error) => Some(DraftError::Invalid(error)),
                None => None,
            }
        }
    }

    /// Reads and validates the draft. The host commits what it gets and reports
    /// back with [`SettingsWindow::show_status`]; an unusable draft is shown as an
    /// error and its controls stay as they are.
    pub fn apply(&mut self, controls: DraftControls) -> (r: Result<SettingsAction, DraftError>)
        requires
            old(self).wf(),
        ensures
            match r {
                Ok(SettingsAction::Apply(config)) => {
                    &&& Self::draft_fault(controls) is None
                    &&& config.valid()
                    &&& holds_controls(config, controls)
                    &&& config.schema_version == old(self).schema_version
                    &&& key_text(old(self).selected_key as int) == Some(config.hotkey.key@)
                    &&& *final(self) == *old(self)
                },
                Ok(SettingsAction::Close) => false,
                Err(error) => {
                    &&& Self::draft_fault(controls) == Some(error)
                    &&& *final(self) == (SettingsWindow {
                        status_tone: Tone::Error,
                        ..*old(self)
                    })
                },
            },
    {
        let config = match self.read_config(controls) {
            Ok(config) => config,
            Err(error) => {
                self.show_status(false);
                return Err(error);
            },
        };
        assert(key_of(config.hotkey.key@, self.selected_key as int));
        match config.validate() {
            Ok(()) => Ok(SettingsAction::Apply(config)),
            Err(error) => {
                self.show_status(false);
                Err(DraftError::Invalid(error))
            },
        }
    }
}

/// Whether the choice to copy after an ordinary pick can be changed. Quick picks
/// always copy; the choice itself is kept, so that it comes back with them off.
pub fn auto_copy_enabled(quick_pick: bool) -> (r: bool)
    ensures
        r == !quick_pick,
{
    !quick_pick
}

/// What a window asks to have done after it began to close is never queued, and
/// closing leaves nothing waiting.
pub proof fn closing_settings_queue_nothing(
    window: SettingsWindow,
    intention: SettingsIntention,
)
    requires
        window.pending.close,
        !window.wake_failed,
    ensures
        window.processed().closing,
        !window.processed().recording,
        window.processed().pending == SettingsPending::none(),
        window.processed().queued(Some(intention)) == window.processed(),
        !window.processed().wakes(Some(intention)),
{
}

/// The owner is woken once for any number of intentions, and again for the first
/// one after it looked.
pub proof fn the_settings_owner_is_woken_once(
    window: SettingsWindow,
    first: SettingsIntention,
    second: SettingsIntention,
)
    requires
        !window.closing,
        !window.wake_posted,
    ensures
        window.wakes(Some(first)),
        !window.queued(Some(first)).wakes(Some(second)),
        !window.wake_failed && !window.pending.close ==> window.queued(
            Some(first),
        ).pending.close || window.queued(Some(first)).processed().wakes(Some(second)),
{
}

/// Settings that cannot be saved are never applied.
pub proof fn read_only_settings_are_never_applied(window: SettingsWindow)
    requires
        !window.save_allowed,
    ensures
        !settings_steps(window.pending, window.save_allowed).apply,
{
}

/// Only drafts with a modifier, a usable key and an appearance within its limits
/// pass; every such draft does.
pub proof fn usable_drafts_are_the_applied_ones(
    window: SettingsWindow,
    config: Config,
    controls: DraftControls,
)
    requires
        window.wf(),
        unreadable(controls) is None,
        holds_controls(config, controls),
        key_text(window.selected_key as int) == Some(config.hotkey.key@),
    ensures
        SettingsWindow::draft_fault(controls) is None <==> config.valid(),
        SettingsWindow::draft_fault(controls) is None <==> (controls.ctrl || controls.alt)
            && config.appearance.valid(),
{
    assert(key_of(config.hotkey.key@, window.selected_key as int));
}

/// A click does what its control says, all the way to the round that follows: Close
/// closes, Apply applies where that is allowed, the key button starts a recording and
/// gets the focus, and the choice of quick picks has the copy choices adjusted. Any
/// other click changes nothing.
pub proof fn settings_buttons_do_what_they_say(
    window: SettingsWindow,
    handle: WindowHandle,
    wparam: usize,
)
    requires
        !window.closing,
        notification_code(wparam) == 0,
    ensures
        ({
            let message = SettingsMessage::Command { wparam };
            let after = window.noted(message).queued(window.intention(handle, message));
            let before = settings_steps(window.pending, window.save_allowed);
            let steps = settings_steps(after.pending, after.save_allowed);
            let id = low_word(wparam);
            &&& id == CLOSE ==> after.pending == (SettingsPending { close: true, ..window.pending })
            &&& id == APPLY ==> steps == (SettingsSteps { apply: window.save_allowed, ..before })
            &&& id == KEY ==> after.recording && after.capture_hint == CaptureHint::Listening
                && steps == (SettingsSteps { capture: true, focus_key: true, ..before })
            &&& id == QUICK_PICK ==> steps == (SettingsSteps { copy_behavior: true, ..before })
            &&& id != CLOSE ==> after.pending.close == window.pending.close
            &&& id != KEY ==> after.recording == window.recording && after.capture_hint
                == window.capture_hint
            &&& id != CLOSE && id != APPLY && id != KEY && id != QUICK_PICK ==> after == window
            &&& after.selected_key == window.selected_key
        }),
{
}

/// Whatever is queued reaches the round that follows with what it carries, and leaves
/// everything else that waits as it was. A move to another display and a new work
/// area have the window laid out, and so does scrolling, which does not reveal the
/// focus.
pub proof fn queued_settings_reach_their_round(
    pending: SettingsPending,
    intention: SettingsIntention,
)
    ensures
        ({
            let before = settings_steps(pending, true);
            let after = settings_steps(pending.with(intention), true);
            let relaid = SettingsSteps {
                layout: true,
                reveal_focus: pending.scroll is None,
                ..before
            };
            &&& pending.with(intention).close == (pending.close || intention
                == SettingsIntention::Close)
            &&& match intention {
                SettingsIntention::Close => after == before,
                SettingsIntention::Apply => after == SettingsSteps { apply: true, ..before },
                SettingsIntention::Layout => after == relaid,
                SettingsIntention::Dpi(rect) => after == SettingsSteps {
                    move_to: Some(rect),
                    ..relaid
                },
                SettingsIntention::DefaultStyle => after == SettingsSteps {
                    default_style: true,
                    ..before
                },
                SettingsIntention::Capture => after == SettingsSteps { capture: true, ..before },
                SettingsIntention::CaptureFocus => after == SettingsSteps {
                    capture: true,
                    focus_key: true,
                    ..before
                },
                SettingsIntention::Appearance => after == SettingsSteps {
                    appearance: true,
                    ..before
                },
                SettingsIntention::Scroll(offset) => after == SettingsSteps {
                    scroll: Some(offset),
                    layout: true,
                    reveal_focus: false,
                    ..before
                },
                SettingsIntention::Reveal(control) => after == SettingsSteps {
                    reveal: Some(control),
                    ..before
                },
                SettingsIntention::FitWorkArea => after == SettingsSteps {
                    fit_work_area: true,
                    ..relaid
                },
                SettingsIntention::CopyBehavior => after == SettingsSteps {
                    copy_behavior: true,
                    ..before
                },
            }
        }),
        settings_steps(SettingsPending::none(), true) == (SettingsSteps {
            move_to: None,
            fit_work_area: false,
            scroll: None,
            layout: false,
            reveal_focus: false,
            reveal: None,
            default_style: false,
            capture: false,
            focus_key: false,
            appearance: false,
            copy_behavior: false,
            apply: false,
        }),
{
}

/// Wheel travel adds up over messages: what does not make a full notch is kept for the
/// next one, and every notch scrolls on from where earlier ones will lead, up for
/// travel away from the person and down for travel toward them.
pub proof fn settings_scroll_with_the_wheel(
    window: SettingsWindow,
    handle: WindowHandle,
    wparam: usize,
    dpi: u32,
)
    requires
        window.wf(),
        !window.closing,
        0 < dpi <= 9600,
        window.scroll_computes(handle, SettingsMessage::MouseWheel { wparam, dpi }),
    ensures
        ({
            let message = SettingsMessage::MouseWheel { wparam, dpi };
            let after = window.noted(message).queued(window.intention(handle, message));
            let total = window.wheel_remainder + wheel_delta(wparam);
            &&& (total - after.wheel_remainder) % 120 == 0
            &&& -120 < after.wheel_remainder < 120
            &&& total >= 0 ==> after.wheel_remainder >= 0
            &&& total <= 0 ==> after.wheel_remainder <= 0
            &&& -120 < total < 120 ==> after.pending == window.pending
            &&& total >= 120 ==> after.scroll_base() < window.scroll_base()
            &&& total <= -120 ==> after.scroll_base() > window.scroll_base()
            &&& after.scroll_base() == wheel_target(window.scroll_base(), total, dpi)
        }),
{
    let total = window.wheel_remainder + wheel_delta(wparam);
    wheel_travel_adds_up(total, 0);
    wheel_notches_scroll_alike(window.scroll_base(), total, dpi);
    wheel_notches_scroll_alike(window.scroll_base(), -total, dpi);
}

/// The scroll bar moves the content of its own part alone, from where earlier
/// messages will lead; a drag goes where the thumb is.
pub proof fn settings_scroll_with_the_bar(
    window: SettingsWindow,
    handle: WindowHandle,
    wparam: usize,
    from_bar: bool,
    info: ScrollInfo,
    dpi: u32,
)
    requires
        !window.closing,
        window.scroll_computes(
            handle,
            SettingsMessage::VerticalScroll { wparam, from_bar, info: Some(info), dpi },
        ),
    ensures
        ({
            let message = SettingsMessage::VerticalScroll {
                wparam,
                from_bar,
                info: Some(info),
                dpi,
            };
            let after = window.noted(message).queued(window.intention(handle, message));
            if handle == window.viewport && from_bar {
                after.scroll_base() == bar_target(window.scroll_base(), wparam, info, dpi)
            } else {
                after == window
            }
        }),
{
}

/// Leaving the window gives a recording up and has that shown; the key stays the one
/// that was selected before. Without a recording nothing happens, nor when the window
/// becomes active.
pub proof fn leaving_gives_recordings_up(
    window: SettingsWindow,
    handle: WindowHandle,
    wparam: usize,
)
    requires
        !window.closing,
    ensures
        ({
            let message = SettingsMessage::Activate { wparam };
            let after = window.noted(message).queued(window.intention(handle, message));
            &&& after.selected_key == window.selected_key
            &&& low_word(wparam) != 0 || !window.recording ==> after == window
            &&& low_word(wparam) == 0 && window.recording ==> !after.recording
                && after.capture_hint == CaptureHint::Cancelled && after.pending.capture
        }),
        !window.capture_cancelled().recording,
        window.capture_cancelled().selected_key == window.selected_key,
        window.capture_cancelled().suppressed == window.suppressed,
{
}

/// The other messages that ask for work ask for their own: closing, a moved slider, a
/// new DPI, a new size unless it is minimized, a changed display and a changed default
/// button. The scrolling part is not laid out by itself.
pub proof fn settings_messages_ask_for_their_work(
    window: SettingsWindow,
    handle: WindowHandle,
    id: usize,
    rect: Rect,
)
    ensures
        window.intention(handle, SettingsMessage::Close) == Some(SettingsIntention::Close),
        id == BORDER_WIDTH || id == BACKGROUND_TRANSPARENCY ==> window.intention(
            handle,
            SettingsMessage::HorizontalScroll { id },
        ) == Some(SettingsIntention::Appearance),
        id != BORDER_WIDTH && id != BACKGROUND_TRANSPARENCY ==> window.intention(
            handle,
            SettingsMessage::HorizontalScroll { id },
        ) is None,
        window.intention(handle, SettingsMessage::DpiChanged { suggested: Some(rect) }) == Some(
            SettingsIntention::Dpi(rect),
        ),
        window.intention(handle, SettingsMessage::DpiChanged { suggested: None }) is None,
        handle != window.viewport ==> {
            &&& window.intention(handle, SettingsMessage::Size { wparam: id }) == (if id == 1 {
                None
            } else {
                Some(SettingsIntention::Layout)
            })
            &&& window.intention(handle, SettingsMessage::DisplayChanged) == Some(
                SettingsIntention::FitWorkArea,
            )
        },
        handle == window.viewport ==> window.intention(
            handle,
            SettingsMessage::Size { wparam: id },
        ) is None && window.intention(handle, SettingsMessage::DisplayChanged) is None,
        window.intention(handle, SettingsMessage::SetDefaultId { wparam: id }) == Some(
            SettingsIntention::DefaultStyle,
        ),
{
}

/// The default button that was set is the one that is told, in the low word under the
/// mark of a known one.
pub proof fn settings_default_buttons_are_told(
    window: SettingsWindow,
    handle: WindowHandle,
    id: usize,
)
    requires
        id < 0x10000,
    ensures
        window.noted(SettingsMessage::SetDefaultId { wparam: id }).reply(
            handle,
            SettingsMessage::GetDefaultId,
        ) == SettingsReply::Value((0x534b_0000 + id) as isize),
        window.noted(SettingsMessage::SetDefaultId { wparam: id }) == (SettingsWindow {
            default_id: id,
            ..window
        }),
{
    assert(0x534b_0000usize | id == 0x534b_0000 + id) by (bit_vector)
        requires
            id < 0x10000,
    ;
}

/// Only the status and the hint change their tone, the hint to the tone of an error
/// exactly where a key was refused; everything that operates a setting stands on a
/// card.
pub proof fn tones_follow_the_state(window: SettingsWindow, other: SettingsWindow, id: usize)
    ensures
        window.control_tone(STATUS).1 == window.status_tone,
        window.control_tone(DETAILS).1 == window.status_tone,
        window.control_tone(HINT).1 == Tone::Error <==> window.capture_hint == CaptureHint::Invalid,
        id != STATUS && id != DETAILS && id != HINT ==> window.control_tone(id)
            == other.control_tone(id),
        window.control_tone(id).0 == other.control_tone(id).0,
        window.control_tone(id).0 <==> id != TITLE && id != SUBTITLE && id != LANGUAGE && id
            != LANGUAGE_LABEL && id != USAGE_HEADING && id != USAGE_HINT && id != STATUS && id
            != DETAILS && id != APPLY && id != CLOSE,
{
}

/// A draft can be read exactly where a notation and a language are chosen and both
/// sliders are at a value; it passes where it also has Ctrl or Alt, a border of at most
/// six and at most eighty percent of transparency.
pub proof fn complete_drafts_pass(controls: DraftControls)
    ensures
        unreadable(controls) is None <==> 0 <= controls.format < 4 && 0 <= controls.language < 2
            && 0 <= controls.border_width <= 255 && 0 <= controls.background_transparency <= 255,
        SettingsWindow::draft_fault(controls) is None <==> 0 <= controls.format < 4 && 0
            <= controls.language < 2 && 0 <= controls.border_width <= 6 && 0
            <= controls.background_transparency <= 80 && (controls.ctrl || controls.alt),
        unreadable(controls) == Some(DraftError::NoChoice) ==> controls.format < 0
            || controls.language < 0,
        unreadable(controls) == Some(DraftError::Format) <==> controls.format >= 4,
        unreadable(controls) == Some(DraftError::Language) ==> controls.language >= 2,
        controls.language >= 2 && 0 <= controls.format < 4 ==> unreadable(controls) == Some(
            DraftError::Language,
        ),
        SettingsWindow::draft_fault(controls) == Some(
            DraftError::Invalid(ConfigError::MissingModifier),
        ) <==> unreadable(controls) is None && !(controls.ctrl || controls.alt),
{
}

/// The controls show every setting at its own place: the languages and the notations
/// in the order of their lists, and the numbers as they are. What was read out of
/// controls shows as these controls again.
pub proof fn drafts_show_what_was_chosen(config: Config, controls: DraftControls)
    requires
        unreadable(controls) is None,
        holds_controls(config, controls),
    ensures
        shown_controls(config) == controls,
        controls.language == 1 <==> config.language == Language::English,
        controls.ctrl == config.hotkey.ctrl,
        controls.alt == config.hotkey.alt,
        controls.shift == config.hotkey.shift,
        controls.format == 0 <==> config.default_format == ColorFormat::Hex,
        controls.format == 1 <==> config.default_format == ColorFormat::Rgb,
        controls.format == 2 <==> config.default_format == ColorFormat::CssRgb,
        controls.format == 3 <==> config.default_format == ColorFormat::Hsl,
        controls.auto_copy == config.auto_copy_on_pick,
        controls.quick_pick == config.quick_pick,
        controls.border_width == config.appearance.border_width_dip,
        controls.background_transparency == config.appearance.background_transparency_percent,
{
}

/// A round takes everything that waits, once; a failed wake-up takes nothing, so that
/// it is done in the round after. Neither changes the settings of the draft.
pub proof fn rounds_take_everything_once(window: SettingsWindow)
    ensures
        window.wake_failed ==> window.processed().pending == window.pending,
        !window.wake_failed ==> window.processed().pending == SettingsPending::none(),
        !window.processed().wake_posted && !window.processed().wake_failed,
        window.processed().closing <==> window.closing || !window.wake_failed
            && window.pending.close,
        window.processed().recording <==> window.recording && (window.wake_failed
            || !window.pending.close),
        window.processed().selected_key == window.selected_key,
        window.processed().scroll_offset == window.scroll_offset,
        window.processed().save_allowed == window.save_allowed,
{
}

/// Messages that ask for work are answered by the window, and the same messages are left
/// to the system where they ask for none: scrolling of another part, a minimized size, a
/// changed display in the scrolling part.
pub proof fn settings_answer_what_they_act_on(
    window: SettingsWindow,
    handle: WindowHandle,
    wparam: usize,
    from_bar: bool,
    info: ScrollInfo,
    dpi: u32,
)
    ensures
        ({
            let scroll = SettingsMessage::VerticalScroll {
                wparam,
                from_bar,
                info: Some(info),
                dpi,
            };
            let size = SettingsMessage::Size { wparam };
            let display = SettingsMessage::DisplayChanged;
            let done = SettingsReply::Value(0);
            &&& window.reply(handle, scroll) == (if window.intention(handle, scroll) is Some {
                done
            } else {
                SettingsReply::Default
            })
            &&& window.reply(handle, size) == (if window.intention(handle, size) is Some {
                done
            } else {
                SettingsReply::Default
            })
            &&& window.reply(handle, display) == (if window.intention(handle, display) is Some {
                done
            } else {
                SettingsReply::Default
            })
            &&& window.reply(handle, SettingsMessage::MouseWheel { wparam, dpi }) == done
            &&& window.reply(handle, SettingsMessage::Close) == done
        }),
        notification_code(wparam) == 0 <==> window.reply(
            handle,
            SettingsMessage::Command { wparam },
        ) == SettingsReply::Value(0),
        handle == window.viewport ==> window.reply(handle, SettingsMessage::Paint) == (
        SettingsReply::PaintContent {
            offset: window.scroll_offset,
            width: window.content_width_dip,
        }),
        handle != window.viewport ==> window.reply(handle, SettingsMessage::Paint)
            == SettingsReply::PaintCanvas,
{
}

} // verus!
