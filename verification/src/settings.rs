//! The settings window. Only Apply hands out a validated draft; the host owns
//! persistence and the shortcut. Callbacks only queue intentions; the owner
//! processes them after dispatch.
use crate::arith::fits_i32;
use crate::geometry::Rect;
use crate::hotkey::supported_key;
use crate::i18n::Language;
use crate::key_set::KeySet;
use crate::scrolling::{
    bar_computes, bar_position, bar_target, left_over, low_word, low_word_of, notches,
    notification_code, notification_code_of, wheel_computes, wheel_delta, wheel_delta_of,
    wheel_position, wheel_target, ScrollInfo,
};
use crate::settings_layout::{
    APPEARANCE_PREVIEW, APPLY, BACKGROUND_TRANSPARENCY, BORDER_VALUE, BORDER_WIDTH, CLOSE, DETAILS,
    HINT, HOTKEY_LABEL, KEY, LANGUAGE, LANGUAGE_LABEL, PREVIEW_HEADING, PREVIEW_HINT, QUICK_PICK,
    STATUS, SUBTITLE, TITLE, TRANSPARENCY_VALUE, USAGE_HEADING, USAGE_HINT,
};
use crate::theme::Tone;
use crate::window_lifetime::WindowHandle;
use vstd::prelude::*;

verus! {

/// Something a callback asks to have done after dispatch.
#[derive(Debug, Clone, Copy, PartialEq, Eq, Structural)]
pub enum SettingsIntention {
    Close,
    Apply,
    Layout,
    Dpi(Rect),
    DefaultStyle,
    /// Show the state of the key recording.
    Capture,
    /// Show it, and move the focus to the recording button.
    CaptureFocus,
    Appearance,
    Scroll(i32),
    Reveal(WindowHandle),
    FitWorkArea,
    CopyBehavior,
}

/// The intentions that wait for processing; a later one of a kind replaces an
/// earlier one.
#[derive(Debug, Clone, Copy, PartialEq, Eq, Structural)]
pub struct SettingsPending {
    pub close: bool,
    pub apply: bool,
    pub layout: bool,
    pub dpi_rect: Option<Rect>,
    pub default_style: bool,
    pub capture: bool,
    pub focus_key: bool,
    pub appearance: bool,
    pub scroll: Option<i32>,
    pub reveal: Option<WindowHandle>,
    pub fit_work_area: bool,
    pub copy_behavior: bool,
}

impl SettingsPending {
    pub open spec fn none() -> SettingsPending {
        SettingsPending {
            close: false,
            apply: false,
            layout: false,
            dpi_rect: None,
            default_style: false,
            capture: false,
            focus_key: false,
            appearance: false,
            scroll: None,
            reveal: None,
            fit_work_area: false,
            copy_behavior: false,
        }
    }

    pub open spec fn with(self, intention: SettingsIntention) -> SettingsPending {
        match intention {
            SettingsIntention::Close => SettingsPending { close: true, ..self },
            SettingsIntention::Apply => SettingsPending { apply: true, ..self },
            SettingsIntention::Layout => SettingsPending { layout: true, ..self },
            SettingsIntention::Dpi(rect) => SettingsPending {
                dpi_rect: Some(rect),
                layout: true,
                ..self
            },
            SettingsIntention::DefaultStyle => SettingsPending { default_style: true, ..self },
            SettingsIntention::Capture => SettingsPending { capture: true, ..self },
            SettingsIntention::CaptureFocus => SettingsPending {
                capture: true,
                focus_key: true,
                ..self
            },
            SettingsIntention::Appearance => SettingsPending { appearance: true, ..self },
            SettingsIntention::Scroll(offset) => SettingsPending { scroll: Some(offset), ..self },
            SettingsIntention::Reveal(control) => SettingsPending {
                reveal: Some(control),
                ..self
            },
            SettingsIntention::FitWorkArea => SettingsPending { fit_work_area: true, ..self },
            SettingsIntention::CopyBehavior => SettingsPending { copy_behavior: true, ..self },
        }
    }

    fn record(&mut self, intention: SettingsIntention)
        ensures
            *final(self) == old(self).with(intention),
    {
        match intention {
            SettingsIntention::Close => self.close = true,
            SettingsIntention::Apply => self.apply = true,
            SettingsIntention::Layout => self.layout = true,
            SettingsIntention::Dpi(rect) => {
                self.dpi_rect = Some(rect);
                self.layout = true;
            },
            SettingsIntention::DefaultStyle => self.default_style = true,
            SettingsIntention::Capture => self.capture = true,
            SettingsIntention::CaptureFocus => {
                self.capture = true;
                self.focus_key = true;
            },
            SettingsIntention::Appearance => self.appearance = true,
            SettingsIntention::Scroll(offset) => self.scroll = Some(offset),
            SettingsIntention::Reveal(control) => self.reveal = Some(control),
            SettingsIntention::FitWorkArea => self.fit_work_area = true,
            SettingsIntention::CopyBehavior => self.copy_behavior = true,
        }
    }
}

impl Default for SettingsPending {
    fn default() -> (r: Self)
        ensures
            r == SettingsPending::none(),
    {
        SettingsPending {
            close: false,
            apply: false,
            layout: false,
            dpi_rect: None,
            default_style: false,
            capture: false,
            focus_key: false,
            appearance: false,
            scroll: None,
            reveal: None,
            fit_work_area: false,
            copy_behavior: false,
        }
    }
}

/// What the hint beside the recording button says.
#[derive(Debug, Clone, Copy, PartialEq, Eq, Structural)]
pub enum CaptureHint {
    Ready,
    Listening,
    Invalid,
    Accepted,
    Cancelled,
}

/// The state of a settings window.
#[derive(Debug, Clone, Copy)]
pub struct SettingsWindow {
    pub status_tone: Tone,
    pub pending: SettingsPending,
    pub wake_posted: bool,
    pub wake_failed: bool,
    pub closing: bool,
    pub default_id: usize,
    pub selected_key: u32,
    pub recording: bool,
    pub capture_hint: CaptureHint,
    /// Keys that were pressed while recording and are not released yet.
    pub suppressed: KeySet,
    pub viewport: WindowHandle,
    pub scroll_offset: i32,
    pub viewport_height: i32,
    pub content_height: i32,
    pub content_width_dip: i32,
    pub wheel_remainder: i32,
    /// The language that the labels are in.
    pub shown_language: Option<Language>,
    /// The DPI that the body fonts are made for; zero where they are to be made.
    pub font_dpi: u32,
    /// The DPI that the font of the language selector is made for.
    pub selector_font_dpi: u32,
    pub schema_version: u32,
    pub save_allowed: bool,
}

/// The native messages of the settings window and of its scrolling part, with
/// what the window needs of each.
#[derive(Debug, Clone, Copy, PartialEq, Eq, Structural)]
pub enum SettingsMessage {
    /// The window is being created; the error code left by storing its state.
    Create { last_error: u32 },
    Paint,
    EraseBackground,
    ControlColor { id: usize },
    Notify,
    /// An owner-drawn control is to be drawn; whether the drawing data came along.
    DrawItem { wparam: usize, with_data: bool },
    Close,
    Command { wparam: usize },
    HorizontalScroll { id: usize },
    VerticalScroll { wparam: usize, from_bar: bool, info: Option<ScrollInfo>, dpi: u32 },
    MouseWheel { wparam: usize, dpi: u32 },
    Activate { wparam: usize },
    DpiChanged { suggested: Option<Rect> },
    Size { wparam: usize },
    /// The display or a system setting changed.
    DisplayChanged,
    GetDefaultId,
    SetDefaultId { wparam: usize },
    Destroyed,
    Other,
}

/// How the window answers a message.
#[derive(Debug, Clone, Copy, PartialEq, Eq, Structural)]
pub enum SettingsReply {
    /// Answer with this value.
    Value(isize),
    /// Leave the message to the system.
    Default,
    /// Paint the cards of the scrolling part.
    PaintContent { offset: i32, width: i32 },
    /// Paint the window's canvas.
    PaintCanvas,
    /// Colour a control.
    ControlColor { panel: bool, tone: Tone },
    /// Draw a push button, else leave it to the system.
    DrawNotification,
    /// Draw the appearance example.
    DrawPreview,
    /// Detach the state from the window, then leave the message to the system.
    Detach,
}

/// The answer to a message, and whether the owner has to be woken.
#[derive(Debug, Clone, Copy, PartialEq, Eq, Structural)]
pub struct SettingsDispatched {
    pub reply: SettingsReply,
    pub post_wake: bool,
}

impl SettingsWindow {
    /// The wheel keeps less than a full notch, and the selected key is one that a
    /// shortcut can use.
    pub open spec fn wf(&self) -> bool {
        -120 < self.wheel_remainder < 120 && supported_key(self.selected_key as int)
    }

    /// The offset that a scroll message starts from: one that already waits, else
    /// the one in force.
    pub open spec fn scroll_base(&self) -> int {
        match self.pending.scroll {
            Some(offset) => offset as int,
            None => self.scroll_offset as int,
        }
    }

    /// Wheel travel including what earlier messages left over.
    pub open spec fn wheel_total(&self, wparam: usize) -> int {
        self.wheel_remainder + wheel_delta(wparam)
    }

    /// Whether the scroll position that a message asks for is representable.
    pub open spec fn scroll_computes(&self, window: WindowHandle, message: SettingsMessage) -> bool {
        match message {
            SettingsMessage::VerticalScroll { wparam, from_bar, info: Some(info), dpi } => window
                == self.viewport && from_bar ==> dpi <= 9600 && fits_i32(
                bar_target(self.scroll_base(), wparam, info, dpi),
            ),
            SettingsMessage::MouseWheel { wparam, dpi } => notches(self.wheel_total(wparam)) != 0
                ==> dpi <= 9600 && fits_i32(
                wheel_target(self.scroll_base(), self.wheel_total(wparam), dpi),
            ),
            _ => true,
        }
    }

    /// Whether a message can be answered: the scroll position that it asks for is
    /// representable.
    pub fn scroll_is_representable(&self, window: WindowHandle, message: SettingsMessage) -> (r:
        bool)
        requires
            self.wf(),
        ensures
            r == self.scroll_computes(window, message),
    {
        let base: i32 = match self.pending.scroll {
            Some(offset) => offset,
            None => self.scroll_offset,
        };
        match message {
            SettingsMessage::VerticalScroll { wparam, from_bar, info: Some(info), dpi } => {
                window != self.viewport || !from_bar || bar_computes(base, wparam, info, dpi)
            },
            SettingsMessage::MouseWheel { wparam, dpi } => {
                let total: i32 = self.wheel_remainder + wheel_delta_of(wparam);
                total / 120 == 0 || wheel_computes(base, total, dpi)
            },
            _ => true,
        }
    }

    /// What a clicked control asks for.
    pub open spec fn clicked(id: int) -> Option<SettingsIntention> {
        if id == CLOSE {
            Some(SettingsIntention::Close)
        } else if id == APPLY {
            Some(SettingsIntention::Apply)
        } else if id == KEY {
            Some(SettingsIntention::CaptureFocus)
        } else if id == QUICK_PICK {
            Some(SettingsIntention::CopyBehavior)
        } else {
            None
        }
    }

    /// Whether a message says that the window is no longer active.
    pub open spec fn deactivates(message: SettingsMessage) -> bool {
        message matches SettingsMessage::Activate { wparam } && low_word(wparam) == 0
    }

    /// Whether a message starts recording a key.
    pub open spec fn starts_recording(message: SettingsMessage) -> bool {
        message matches SettingsMessage::Command { wparam } && notification_code(wparam) == 0
            && low_word(wparam) == KEY
    }

    /// What a message asks to have done later.
    pub open spec fn intention(&self, window: WindowHandle, message: SettingsMessage) -> Option<
        SettingsIntention,
    > {
        let root = window != self.viewport;
        match message {
            SettingsMessage::Close => Some(SettingsIntention::Close),
            SettingsMessage::Command { wparam } => if notification_code(wparam) == 0 {
                Self::clicked(low_word(wparam))
            } else {
                None
            },
            SettingsMessage::HorizontalScroll { id } => if id == BORDER_WIDTH || id
                == BACKGROUND_TRANSPARENCY {
                Some(SettingsIntention::Appearance)
            } else {
                None
            },
            SettingsMessage::VerticalScroll { wparam, from_bar, info: Some(info), dpi } => if !root
                && from_bar {
                Some(
                    SettingsIntention::Scroll(
                        bar_target(self.scroll_base(), wparam, info, dpi) as i32,
                    ),
                )
            } else {
                None
            },
            SettingsMessage::MouseWheel { wparam, dpi } => if notches(self.wheel_total(wparam))
                != 0 {
                Some(
                    SettingsIntention::Scroll(
                        wheel_target(self.scroll_base(), self.wheel_total(wparam), dpi) as i32,
                    ),
                )
            } else {
                None
            },
            SettingsMessage::Activate { .. } => if Self::deactivates(message) && self.recording {
                Some(SettingsIntention::Capture)
            } else {
                None
            },
            SettingsMessage::DpiChanged { suggested: Some(rect) } => Some(
                SettingsIntention::Dpi(rect),
            ),
            SettingsMessage::Size { wparam } => if root && wparam != 1 {
                Some(SettingsIntention::Layout)
            } else {
                None
            },
            SettingsMessage::DisplayChanged => if root {
                Some(SettingsIntention::FitWorkArea)
            } else {
                None
            },
            SettingsMessage::SetDefaultId { .. } => Some(SettingsIntention::DefaultStyle),
            _ => None,
        }
    }

    /// Whether a control stands on a card, and the tone of its text.
    pub open spec fn control_tone(&self, id: usize) -> (bool, Tone) {
        if id == TITLE || id == LANGUAGE || id == APPLY || id == CLOSE {
            (false, Tone::Text)
        } else if id == SUBTITLE || id == LANGUAGE_LABEL || id == USAGE_HEADING || id
            == USAGE_HINT {
            (false, Tone::Muted)
        } else if id == STATUS || id == DETAILS {
            (false, self.status_tone)
        } else if id == HOTKEY_LABEL || id == BORDER_VALUE || id == TRANSPARENCY_VALUE {
            (true, Tone::Accent)
        } else if id == HINT {
            (
                true,
                if self.capture_hint == CaptureHint::Invalid {
                    Tone::Error
                } else {
                    Tone::Muted
                },
            )
        } else if id == PREVIEW_HEADING || id == PREVIEW_HINT {
            (true, Tone::Muted)
        } else {
            (true, Tone::Text)
        }
    }

    /// The answer to a message.
    pub open spec fn reply(&self, window: WindowHandle, message: SettingsMessage) -> SettingsReply {
        let root = window != self.viewport;
        match message {
            SettingsMessage::Create { last_error } => if last_error != 0 {
                SettingsReply::Value(0)
            } else {
                SettingsReply::Default
            },
            SettingsMessage::Paint => if root {
                SettingsReply::PaintCanvas
            } else {
                SettingsReply::PaintContent {
                    offset: self.scroll_offset,
                    width: self.content_width_dip,
                }
            },
            SettingsMessage::EraseBackground => SettingsReply::Value(1),
            SettingsMessage::ControlColor { id } => SettingsReply::ControlColor {
                panel: self.control_tone(id).0,
                tone: self.control_tone(id).1,
            },
            SettingsMessage::Notify => SettingsReply::DrawNotification,
            SettingsMessage::DrawItem { wparam, with_data } => if wparam == APPEARANCE_PREVIEW
                && with_data {
                SettingsReply::DrawPreview
            } else {
                SettingsReply::Default
            },
            SettingsMessage::Close => SettingsReply::Value(0),
            SettingsMessage::Command { wparam } => if notification_code(wparam) == 0 {
                SettingsReply::Value(0)
            } else {
                SettingsReply::Default
            },
            SettingsMessage::HorizontalScroll { .. } => SettingsReply::Value(0),
            SettingsMessage::VerticalScroll { from_bar, .. } => if !root && from_bar {
                SettingsReply::Value(0)
            } else {
                SettingsReply::Default
            },
            SettingsMessage::MouseWheel { .. } => SettingsReply::Value(0),
            SettingsMessage::Activate { .. } => SettingsReply::Default,
            SettingsMessage::DpiChanged { .. } => SettingsReply::Value(0),
            SettingsMessage::Size { wparam } => if root && wparam != 1 {
                SettingsReply::Value(0)
            } else {
                SettingsReply::Default
            },
            SettingsMessage::DisplayChanged => if root {
                SettingsReply::Value(0)
            } else {
                SettingsReply::Default
            },
            SettingsMessage::GetDefaultId => SettingsReply::Value(
                (0x534b_0000usize | self.default_id) as isize,
            ),
            SettingsMessage::SetDefaultId { .. } => SettingsReply::Value(1),
            SettingsMessage::Destroyed => SettingsReply::Detach,
            SettingsMessage::Other => SettingsReply::Default,
        }
    }

    /// The state after recording a key was given up: the selected key stays.
    pub open spec fn capture_cancelled(self) -> SettingsWindow {
        if self.recording {
            SettingsWindow { recording: false, capture_hint: CaptureHint::Cancelled, ..self }
        } else {
            self
        }
    }

    /// What a message changes at once, before anything is queued.
    pub open spec fn noted(self, message: SettingsMessage) -> SettingsWindow {
        match message {
            SettingsMessage::MouseWheel { wparam, .. } => SettingsWindow {
                wheel_remainder: left_over(self.wheel_total(wparam)) as i32,
                ..self
            },
            SettingsMessage::SetDefaultId { wparam } => SettingsWindow {
                default_id: wparam,
                ..self
            },
            _ => if Self::starts_recording(message) {
                SettingsWindow { recording: true, capture_hint: CaptureHint::Listening, ..self }
            } else if Self::deactivates(message) {
                self.capture_cancelled()
            } else {
                self
            },
        }
    }

    /// The state after an intention was queued. A closing window queues nothing.
    pub open spec fn queued(self, intention: Option<SettingsIntention>) -> SettingsWindow {
        match intention {
            Some(intention) => if self.closing {
                self
            } else {
                SettingsWindow {
                    pending: self.pending.with(intention),
                    wake_posted: true,
                    ..self
                }
            },
            None => self,
        }
    }

    /// Whether queueing an intention has to wake the owner: only the first one
    /// since the owner last looked does.
    pub open spec fn wakes(&self, intention: Option<SettingsIntention>) -> bool {
        intention is Some && !self.closing && !self.wake_posted
    }

    /// Queues an intention. Says whether the owner has to be woken.
    pub fn queue(&mut self, intention: SettingsIntention) -> (r: bool)
        ensures
            *final(self) == old(self).queued(Some(intention)),
            r == old(self).wakes(Some(intention)),
    {
        if self.closing {
            return false;
        }
        self.pending.record(intention);
        let wakes = !self.wake_posted;
        self.wake_posted = true;
        wakes
    }

    /// Records that waking the owner failed.
    pub fn wake_post_failed(&mut self)
        ensures
            *final(self) == (SettingsWindow {
                wake_posted: false,
                wake_failed: true,
                ..*old(self)
            }),
    {
        self.wake_posted = false;
        self.wake_failed = true;
    }

    /// Starts recording a key.
    fn begin_capture(&mut self)
        ensures
            *final(self) == (SettingsWindow {
                recording: true,
                capture_hint: CaptureHint::Listening,
                ..*old(self)
            }),
    {
        self.recording = true;
        self.capture_hint = CaptureHint::Listening;
    }

    /// Gives up recording a key, if one is being recorded. Returns what is to be
    /// done later.
    pub(crate) fn cancel_capture(&mut self) -> (r: Option<SettingsIntention>)
        ensures
            *final(self) == old(self).capture_cancelled(),
            r == old(self).cancelling_intention(),
    {
        if self.recording {
            self.recording = false;
            self.capture_hint = CaptureHint::Cancelled;
            Some(SettingsIntention::Capture)
        } else {
            None
        }
    }

    /// What giving up the recording asks to have done later.
    pub open spec fn cancelling_intention(&self) -> Option<SettingsIntention> {
        if self.recording {
            Some(SettingsIntention::Capture)
        } else {
            None
        }
    }

    fn scroll_start(&self) -> (r: i32)
        ensures
            r == self.scroll_base(),
    {
        match self.pending.scroll {
            Some(offset) => offset,
            None => self.scroll_offset,
        }
    }

    fn tone_of(&self, id: usize) -> (r: (bool, Tone))
        ensures
            r == self.control_tone(id),
    {
        if id == TITLE || id == LANGUAGE || id == APPLY || id == CLOSE {
            (false, Tone::Text)
        } else if id == SUBTITLE || id == LANGUAGE_LABEL || id == USAGE_HEADING || id
            == USAGE_HINT {
            (false, Tone::Muted)
        } else if id == STATUS || id == DETAILS {
            (false, self.status_tone)
        } else if id == HOTKEY_LABEL || id == BORDER_VALUE || id == TRANSPARENCY_VALUE {
            (true, Tone::Accent)
        } else if id == HINT {
            (
                true,
                if self.capture_hint == CaptureHint::Invalid {
                    Tone::Error
                } else {
                    Tone::Muted
                },
            )
        } else if id == PREVIEW_HEADING || id == PREVIEW_HINT {
            (true, Tone::Muted)
        } else {
            (true, Tone::Text)
        }
    }

    fn clicked_control(id: usize) -> (r: Option<SettingsIntention>)
        requires
            id < 0x10000,
        ensures
            r == Self::clicked(id as int),
    {
        if id == CLOSE {
            Some(SettingsIntention::Close)
        } else if id == APPLY {
            Some(SettingsIntention::Apply)
        } else if id == KEY {
            Some(SettingsIntention::CaptureFocus)
        } else if id == QUICK_PICK {
            Some(SettingsIntention::CopyBehavior)
        } else {
            None
        }
    }

    fn intended(&self, window: WindowHandle, message: SettingsMessage) -> (r: Option<
        SettingsIntention,
    >)
        requires
            self.wf(),
            self.scroll_computes(window, message),
        ensures
            r == self.intention(window, message),
    {
        let root = window != self.viewport;
        match message {
            SettingsMessage::Close => Some(SettingsIntention::Close),
            SettingsMessage::Command { wparam } => {
                if notification_code_of(wparam) == 0 {
                    Self::clicked_control(low_word_of(wparam))
                } else {
                    None
                }
            },
            SettingsMessage::HorizontalScroll { id } => {
                if id == BORDER_WIDTH || id == BACKGROUND_TRANSPARENCY {
                    Some(SettingsIntention::Appearance)
                } else {
                    None
                }
            },
            SettingsMessage::VerticalScroll { wparam, from_bar, info: Some(info), dpi } => {
                if !root && from_bar {
                    Some(
                        SettingsIntention::Scroll(
                            bar_position(self.scroll_start(), wparam, info, dpi),
                        ),
                    )
                } else {
                    None
                }
            },
            SettingsMessage::MouseWheel { wparam, dpi } => {
                let total: i32 = self.wheel_remainder + wheel_delta_of(wparam);
                if total / 120 != 0 {
                    Some(SettingsIntention::Scroll(wheel_position(self.scroll_start(), total, dpi)))
                } else {
                    None
                }
            },
            SettingsMessage::Activate { wparam } => {
                if low_word_of(wparam) == 0 && self.recording {
                    Some(SettingsIntention::Capture)
                } else {
                    None
                }
            },
            SettingsMessage::DpiChanged { suggested: Some(rect) } => Some(
                SettingsIntention::Dpi(rect),
            ),
            SettingsMessage::Size { wparam } => {
                if root && wparam != 1 {
                    Some(SettingsIntention::Layout)
                } else {
                    None
                }
            },
            SettingsMessage::DisplayChanged => {
                if root {
                    Some(SettingsIntention::FitWorkArea)
                } else {
                    None
                }
            },
            SettingsMessage::SetDefaultId { .. } => Some(SettingsIntention::DefaultStyle),
            _ => None,
        }
    }

    fn answer(&self, window: WindowHandle, message: SettingsMessage) -> (r: SettingsReply)
        ensures
            r == self.reply(window, message),
    {
        let root = window != self.viewport;
        let zero = SettingsReply::Value(0);
        let one = SettingsReply::Value(1);
        let unhandled = SettingsReply::Default;
        match message {
            SettingsMessage::Create { last_error } => if last_error != 0 {
                zero
            } else {
                unhandled
            },
            SettingsMessage::Paint => if root {
                SettingsReply::PaintCanvas
            } else {
                SettingsReply::PaintContent {
                    offset: self.scroll_offset,
                    width: self.content_width_dip,
                }
            },
            SettingsMessage::EraseBackground => one,
            SettingsMessage::ControlColor { id } => {
                let (panel, tone) = self.tone_of(id);
                SettingsReply::ControlColor { panel, tone }
            },
            SettingsMessage::Notify => SettingsReply::DrawNotification,
            SettingsMessage::DrawItem { wparam, with_data } => if wparam == APPEARANCE_PREVIEW
                && with_data {
                SettingsReply::DrawPreview
            } else {
                unhandled
            },
            SettingsMessage::Close => zero,
            SettingsMessage::Command { wparam } => if notification_code_of(wparam) == 0 {
                zero
            } else {
                unhandled
            },
            SettingsMessage::HorizontalScroll { .. } => zero,
            SettingsMessage::VerticalScroll { from_bar, .. } => if !root && from_bar {
                zero
            } else {
                unhandled
            },
            SettingsMessage::MouseWheel { .. } => zero,
            SettingsMessage::Activate { .. } => unhandled,
            SettingsMessage::DpiChanged { .. } => zero,
            SettingsMessage::Size { wparam } => if root && wparam != 1 {
                zero
            } else {
                unhandled
            },
            SettingsMessage::DisplayChanged => if root {
                zero
            } else {
                unhandled
            },
            SettingsMessage::GetDefaultId => SettingsReply::Value(
                #[verifier::truncate]
                ((0x534b_0000usize | self.default_id) as isize),
            ),
            SettingsMessage::SetDefaultId { .. } => one,
            SettingsMessage::Destroyed => SettingsReply::Detach,
            SettingsMessage::Other => unhandled,
        }
    }

    fn note(&mut self, message: SettingsMessage)
        requires
            old(self).wf(),
        ensures
            *final(self) == old(self).noted(message),
            final(self).wf(),
    {
        match message {
            SettingsMessage::MouseWheel { wparam, .. } => {
                self.wheel_remainder = (self.wheel_remainder + wheel_delta_of(wparam)) % 120;
            },
            SettingsMessage::SetDefaultId { wparam } => {
                self.default_id = wparam;
            },
            SettingsMessage::Command { wparam } => {
                if notification_code_of(wparam) == 0 && low_word_of(wparam) == KEY {
                    self.begin_capture();
                }
            },
            SettingsMessage::Activate { wparam } => {
                if low_word_of(wparam) == 0 {
                    self.cancel_capture();
                }
            },
            _ => {},
        }
    }

    /// Answers a message of the window or of its scrolling part. Nothing is done
    /// here but to queue what the owner does later.
    pub fn dispatch(&mut self, window: WindowHandle, message: SettingsMessage) -> (r:
        SettingsDispatched)
        requires
            old(self).wf(),
            old(self).scroll_computes(window, message),
        ensures
            final(self).wf(),
            *final(self) == old(self).noted(message).queued(old(self).intention(window, message)),
            r.reply == old(self).reply(window, message),
            r.post_wake == old(self).wakes(old(self).intention(window, message)),
    {
        let reply = self.answer(window, message);
        let intention = self.intended(window, message);
        self.note(message);
        let post_wake = match intention {
            Some(intention) => self.queue(intention),
            None => false,
        };
        SettingsDispatched { reply, post_wake }
    }
}

} // verus!
