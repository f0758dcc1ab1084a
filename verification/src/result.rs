//! The result window. Its callbacks only queue intentions; the owner processes
//! them after dispatch.
use crate::arith::fits_i32;
use crate::format::ColorFormat;
use crate::geometry::{Rect, ScreenPointPx};
use crate::result_copy::{CopyState, CopyTarget};
use crate::result_layout::{caption_hit, caption_hit_test, CaptionHit};
use crate::sample::PickedColor;
use crate::scrolling::{
    bar_computes, bar_position, bar_target, left_over, low_word, low_word_of, notification_code,
    notification_code_of, wheel_computes, wheel_delta, wheel_delta_of, wheel_position, wheel_target,
    ScrollInfo,
};
use crate::theme::{at_least_96, drawing_dpi, Tone};
use crate::window_lifetime::WindowHandle;
use vstd::prelude::*;

verus! {

/// Control numbers.
pub const COPY_DEFAULT: usize = 1;

pub const CLOSE: usize = 2;

pub const SWATCH: usize = 10;

pub const SOURCE: usize = 11;

pub const STATUS: usize = 12;

pub const ROW_LABEL: usize = 20;

pub const ROW_VALUE: usize = 30;

pub const CAPTION_MINIMIZE: usize = 40;

pub const CAPTION_CLOSE: usize = 41;

pub const COPY_ROW: usize = 100;

pub const PICK_AGAIN: usize = 200;

pub const CONTENT: usize = 300;

/// What the owner does once the window is done.
#[derive(Debug, Clone, Copy, PartialEq, Eq, Structural)]
pub enum ResultAction {
    Close,
    PickAgain,
}

/// Something a callback asks to have done after dispatch.
#[derive(Debug, Clone, Copy, PartialEq, Eq, Structural)]
pub enum Intention {
    Act(ResultAction),
    Copy(CopyTarget),
    RetryTimer(usize),
    FeedbackTimer(usize),
    Dpi(Rect),
    Layout,
    FitWorkArea,
    Scroll(i32),
    Reveal(WindowHandle),
    DefaultStyle,
    Minimize,
}

/// The intentions that wait for processing; a later one of a kind replaces an
/// earlier one.
#[derive(Debug, Clone, Copy, PartialEq, Eq, Structural)]
pub struct Pending {
    pub action: Option<ResultAction>,
    pub copy: Option<CopyTarget>,
    pub timer: Option<usize>,
    pub feedback_timer: Option<usize>,
    pub dpi_rect: Option<Rect>,
    pub layout: bool,
    pub fit_work_area: bool,
    pub scroll: Option<i32>,
    pub reveal: Option<WindowHandle>,
    pub default_style: bool,
    pub minimize: bool,
}

impl Pending {
    pub open spec fn none() -> Pending {
        Pending {
            action: None,
            copy: None,
            timer: None,
            feedback_timer: None,
            dpi_rect: None,
            layout: false,
            fit_work_area: false,
            scroll: None,
            reveal: None,
            default_style: false,
            minimize: false,
        }
    }

    pub open spec fn with(self, intention: Intention) -> Pending {
        match intention {
            Intention::Act(action) => Pending { action: Some(action), ..self },
            Intention::Copy(target) => Pending { copy: Some(target), ..self },
            Intention::RetryTimer(timer) => Pending { timer: Some(timer), ..self },
            Intention::FeedbackTimer(timer) => Pending { feedback_timer: Some(timer), ..self },
            Intention::Dpi(rect) => Pending { dpi_rect: Some(rect), layout: true, ..self },
            Intention::Layout => Pending { layout: true, ..self },
            Intention::FitWorkArea => Pending { fit_work_area: true, ..self },
            Intention::Scroll(offset) => Pending { scroll: Some(offset), ..self },
            Intention::Reveal(control) => Pending { reveal: Some(control), ..self },
            Intention::DefaultStyle => Pending { default_style: true, ..self },
            Intention::Minimize => Pending { minimize: true, ..self },
        }
    }

    fn record(&mut self, intention: Intention)
        ensures
            *final(self) == old(self).with(intention),
    {
        match intention {
            Intention::Act(action) => self.action = Some(action),
            Intention::Copy(target) => self.copy = Some(target),
            Intention::RetryTimer(timer) => self.timer = Some(timer),
            Intention::FeedbackTimer(timer) => self.feedback_timer = Some(timer),
            Intention::Dpi(rect) => {
                self.dpi_rect = Some(rect);
                self.layout = true;
            },
            Intention::Layout => self.layout = true,
            Intention::FitWorkArea => self.fit_work_area = true,
            Intention::Scroll(offset) => self.scroll = Some(offset),
            Intention::Reveal(control) => self.reveal = Some(control),
            Intention::DefaultStyle => self.default_style = true,
            Intention::Minimize => self.minimize = true,
        }
    }
}

impl Default for Pending {
    fn default() -> (r: Self)
        ensures
            r == Pending::none(),
    {
        Pending {
            action: None,
            copy: None,
            timer: None,
            feedback_timer: None,
            dpi_rect: None,
            layout: false,
            fit_work_area: false,
            scroll: None,
            reveal: None,
            default_style: false,
            minimize: false,
        }
    }
}

/// The state of a result window.
#[derive(Debug, Clone, Copy, PartialEq, Eq, Structural)]
pub struct ResultWindow {
    pub picked: PickedColor,
    pub default_format: ColorFormat,
    pub border_width_dip: u8,
    pub status_tone: Tone,
    pub pending: Pending,
    pub wake_posted: bool,
    pub wake_failed: bool,
    pub closing: bool,
    pub active_timer: usize,
    pub feedback_timer: usize,
    pub default_id: usize,
    pub viewport: WindowHandle,
    pub scroll_offset: i32,
    pub content_height: i32,
    pub viewport_height: i32,
    pub header_height: i32,
    pub wheel_remainder: i32,
    pub copy: CopyState,
    pub copied_target: Option<CopyTarget>,
    pub status_visible: bool,
    pub quick_pick_pending: bool,
}

/// The native messages of the result window and of its scrolling part, with what
/// the window needs of each.
#[derive(Debug, Clone, Copy, PartialEq, Eq, Structural)]
pub enum ResultMessage {
    /// The window is being created; the error code left by storing its state.
    Create { last_error: u32 },
    NonClientSize,
    NonClientPaint,
    NonClientActivate,
    /// The pointer over the window, in client coordinates where they are known.
    HitTest { point: Option<ScreenPointPx>, client: Option<Rect>, dpi: u32 },
    NonClientDoubleClick { wparam: usize },
    SystemCommand { wparam: usize },
    EraseBackground,
    Paint,
    ControlColor { id: usize },
    Notify,
    DrawItem { wparam: usize },
    Close,
    Command { wparam: usize },
    Timer { wparam: usize },
    DpiChanged { suggested: Option<Rect> },
    Size { wparam: usize },
    /// The display or a system setting changed.
    DisplayChanged,
    VerticalScroll { wparam: usize, from_bar: bool, info: Option<ScrollInfo>, dpi: u32 },
    MouseWheel { wparam: usize, dpi: u32 },
    GetDefaultId,
    SetDefaultId { wparam: usize },
    Destroyed,
    Other,
}

/// How the window answers a message.
#[derive(Debug, Clone, Copy, PartialEq, Eq, Structural)]
pub enum ResultReply {
    /// Answer with this value.
    Value(isize),
    /// Leave the message to the system.
    Default,
    /// Fill the client area white and draw a border of this width.
    Paint { border_width_dip: u8 },
    /// Colour a control on a white panel.
    ControlColor(Tone),
    /// Draw a caption button or a push button, else leave it to the system.
    DrawNotification,
    /// Fill the colour field.
    DrawSwatch,
    /// Detach the state from the window, then leave the message to the system.
    Detach,
}

/// The answer to a message, and whether the owner has to be woken.
#[derive(Debug, Clone, Copy, PartialEq, Eq, Structural)]
pub struct Dispatched {
    pub reply: ResultReply,
    pub post_wake: bool,
}

/// The desktop point packed into a message parameter: two signed 16-bit values.
/// Coordinates are negative on displays left of or above the primary one.
pub fn packed_point(lparam: u32) -> (r: ScreenPointPx)
    ensures
        r.x == signed_word(lparam as int % 0x10000),
        r.y == signed_word(lparam as int / 0x10000),
{
    ScreenPointPx { x: signed(lparam % 0x10000), y: signed(lparam / 0x10000) }
}

pub open spec fn signed_word(raw: int) -> int {
    if raw >= 0x8000 {
        raw - 0x10000
    } else {
        raw
    }
}

fn signed(raw: u32) -> (r: i32)
    requires
        raw < 0x10000,
    ensures
        r == signed_word(raw as int),
{
    if raw >= 0x8000 {
        raw as i32 - 0x10000
    } else {
        raw as i32
    }
}

/// Whether a control number belongs to the four copy buttons of the rows.
pub open spec fn is_copy_row(id: int) -> bool {
    COPY_ROW <= id < COPY_ROW + 4
}

/// The notation of a row.
pub open spec fn row_format(row: int) -> ColorFormat {
    if row == 0 {
        ColorFormat::Hex
    } else if row == 1 {
        ColorFormat::Rgb
    } else if row == 2 {
        ColorFormat::CssRgb
    } else {
        ColorFormat::Hsl
    }
}

impl ResultWindow {
    /// The offset that a scroll message starts from: one that already waits, else
    /// the one in force.
    pub open spec fn scroll_base(&self) -> int {
        match self.pending.scroll {
            Some(offset) => offset as int,
            None => self.scroll_offset as int,
        }
    }

    /// Wheel travel including what earlier messages left over.
    pub open spec fn wheel_total(&self, wparam: usize) -> int {
        self.wheel_remainder + wheel_delta(wparam)
    }

    /// The wheel keeps less than a full notch.
    pub open spec fn wf(&self) -> bool {
        -120 < self.wheel_remainder < 120
    }

    /// Whether the scroll position that a message asks for is representable.
    pub open spec fn scroll_computes(&self, window: WindowHandle, message: ResultMessage) -> bool {
        match message {
            ResultMessage::VerticalScroll { wparam, from_bar, info: Some(info), dpi } => window
                == self.viewport && from_bar ==> dpi <= 9600 && fits_i32(
                bar_target(self.scroll_base(), wparam, info, dpi),
            ),
            ResultMessage::MouseWheel { wparam, dpi } => dpi <= 9600 && fits_i32(
                wheel_target(self.scroll_base(), self.wheel_total(wparam), dpi),
            ),
            ResultMessage::HitTest { point: Some(_), client: Some(client), dpi } => window
                != self.viewport ==> dpi <= 9600 && client.right >= i32::MIN + 200_000,
            _ => true,
        }
    }

    /// Whether a message can be answered: the scroll position that it asks for is
    /// representable, and so are the caption buttons of the window that it hits.
    pub fn scroll_is_representable(&self, window: WindowHandle, message: ResultMessage) -> (r: bool)
        requires
            self.wf(),
        ensures
            r == self.scroll_computes(window, message),
    {
        let base: i32 = match self.pending.scroll {
            Some(offset) => offset,
            None => self.scroll_offset,
        };
        match message {
            ResultMessage::VerticalScroll { wparam, from_bar, info: Some(info), dpi } => {
                window != self.viewport || !from_bar || bar_computes(base, wparam, info, dpi)
            },
            ResultMessage::MouseWheel { wparam, dpi } => {
                wheel_computes(base, self.wheel_remainder + wheel_delta_of(wparam), dpi)
            },
            ResultMessage::HitTest { point: Some(_), client: Some(client), dpi } => {
                window == self.viewport || (dpi <= 9600 && client.right >= i32::MIN + 200_000)
            },
            _ => true,
        }
    }

    /// What a clicked control asks for.
    pub open spec fn clicked(&self, id: int) -> Option<Intention> {
        if id == CLOSE || id == CAPTION_CLOSE {
            Some(Intention::Act(ResultAction::Close))
        } else if id == CAPTION_MINIMIZE {
            Some(Intention::Minimize)
        } else if id == PICK_AGAIN {
            Some(Intention::Act(ResultAction::PickAgain))
        } else if id == COPY_DEFAULT {
            Some(
                Intention::Copy(
                    CopyTarget { format: self.default_format, button_id: COPY_DEFAULT },
                ),
            )
        } else if is_copy_row(id) {
            Some(
                Intention::Copy(
                    CopyTarget { format: row_format(id - COPY_ROW), button_id: id as usize },
                ),
            )
        } else {
            None
        }
    }

    /// What a message asks to have done later.
    pub open spec fn intention(&self, window: WindowHandle, message: ResultMessage) -> Option<Intention> {
        let root = window != self.viewport;
        match message {
            ResultMessage::Close => Some(Intention::Act(ResultAction::Close)),
            ResultMessage::Command { wparam } => if notification_code(wparam) == 0 {
                self.clicked(low_word(wparam))
            } else {
                None
            },
            ResultMessage::Timer { wparam } => if wparam != 0 && self.active_timer == wparam {
                Some(Intention::RetryTimer(wparam))
            } else if wparam != 0 && self.feedback_timer == wparam {
                Some(Intention::FeedbackTimer(wparam))
            } else {
                None
            },
            ResultMessage::DpiChanged { suggested: Some(rect) } => Some(Intention::Dpi(rect)),
            ResultMessage::Size { wparam } => if root && wparam != 1 {
                Some(Intention::Layout)
            } else {
                None
            },
            ResultMessage::DisplayChanged => if root {
                Some(Intention::FitWorkArea)
            } else {
                None
            },
            ResultMessage::VerticalScroll { wparam, from_bar, info: Some(info), dpi } => if !root
                && from_bar {
                Some(Intention::Scroll(bar_target(self.scroll_base(), wparam, info, dpi) as i32))
            } else {
                None
            },
            ResultMessage::MouseWheel { wparam, dpi } => Some(
                Intention::Scroll(wheel_target(self.scroll_base(), self.wheel_total(wparam), dpi) as i32),
            ),
            ResultMessage::SetDefaultId { .. } => Some(Intention::DefaultStyle),
            _ => None,
        }
    }

    /// The tone of a control's text.
    pub open spec fn control_tone(&self, id: usize) -> Tone {
        if id == STATUS {
            self.status_tone
        } else if id == SOURCE || ROW_LABEL <= id < ROW_LABEL + 4 {
            Tone::Muted
        } else {
            Tone::Text
        }
    }

    /// The answer to a message.
    pub open spec fn reply(&self, window: WindowHandle, message: ResultMessage) -> ResultReply {
        let root = window != self.viewport;
        match message {
            ResultMessage::Create { last_error } => if last_error != 0 {
                ResultReply::Value(0)
            } else {
                ResultReply::Default
            },
            ResultMessage::NonClientSize => if root {
                ResultReply::Value(0)
            } else {
                ResultReply::Default
            },
            ResultMessage::NonClientPaint => if root {
                ResultReply::Value(0)
            } else {
                ResultReply::Default
            },
            ResultMessage::NonClientActivate => if root {
                ResultReply::Value(1)
            } else {
                ResultReply::Default
            },
            ResultMessage::HitTest { point, client, dpi } => if !root {
                ResultReply::Default
            } else if point is Some && client is Some && caption_hit(
                point->0,
                client->0,
                drawing_dpi(dpi),
                self.header_height,
            ) == CaptionHit::Caption {
                ResultReply::Value(2)
            } else {
                ResultReply::Value(1)
            },
            ResultMessage::NonClientDoubleClick { wparam } => if wparam == 2 {
                ResultReply::Value(0)
            } else {
                ResultReply::Default
            },
            ResultMessage::SystemCommand { wparam } => if low_word(wparam) / 16 * 16 == 0xf030
                || low_word(wparam) / 16 * 16 == 0xf000 {
                ResultReply::Value(0)
            } else {
                ResultReply::Default
            },
            ResultMessage::EraseBackground => ResultReply::Value(1),
            ResultMessage::Paint => ResultReply::Paint {
                border_width_dip: if root {
                    self.border_width_dip
                } else {
                    0
                },
            },
            ResultMessage::ControlColor { id } => ResultReply::ControlColor(self.control_tone(id)),
            ResultMessage::Notify => ResultReply::DrawNotification,
            ResultMessage::DrawItem { wparam } => if wparam == SWATCH {
                ResultReply::DrawSwatch
            } else {
                ResultReply::Default
            },
            ResultMessage::Close => ResultReply::Value(0),
            ResultMessage::Command { wparam } => if notification_code(wparam) == 0 {
                ResultReply::Value(0)
            } else {
                ResultReply::Default
            },
            ResultMessage::Timer { .. } => if self.intention(window, message) is Some {
                ResultReply::Value(0)
            } else {
                ResultReply::Default
            },
            ResultMessage::DpiChanged { .. } => ResultReply::Value(0),
            ResultMessage::Size { .. } => if root {
                ResultReply::Value(0)
            } else {
                ResultReply::Default
            },
            ResultMessage::DisplayChanged => if root {
                ResultReply::Value(0)
            } else {
                ResultReply::Default
            },
            ResultMessage::VerticalScroll { from_bar, .. } => if !root && from_bar {
                ResultReply::Value(0)
            } else {
                ResultReply::Default
            },
            ResultMessage::MouseWheel { .. } => ResultReply::Value(0),
            ResultMessage::GetDefaultId => ResultReply::Value(
                (0x534b_0000usize | self.default_id) as isize,
            ),
            ResultMessage::SetDefaultId { .. } => ResultReply::Value(1),
            ResultMessage::Destroyed => ResultReply::Detach,
            ResultMessage::Other => ResultReply::Default,
        }
    }

    /// What a message changes at once, before anything is queued.
    pub open spec fn noted(self, message: ResultMessage) -> ResultWindow {
        match message {
            ResultMessage::MouseWheel { wparam, .. } => ResultWindow {
                wheel_remainder: left_over(self.wheel_total(wparam)) as i32,
                ..self
            },
            ResultMessage::SetDefaultId { wparam } => ResultWindow { default_id: wparam, ..self },
            _ => self,
        }
    }

    /// The state after an intention was queued. A closing window queues nothing.
    pub open spec fn queued(self, intention: Option<Intention>) -> ResultWindow {
        match intention {
            Some(intention) => if self.closing {
                self
            } else {
                ResultWindow {
                    pending: self.pending.with(intention),
                    wake_posted: true,
                    ..self
                }
            },
            None => self,
        }
    }

    /// Whether queueing an intention has to wake the owner: only the first one
    /// since the owner last looked does.
    pub open spec fn wakes(&self, intention: Option<Intention>) -> bool {
        intention is Some && !self.closing && !self.wake_posted
    }

    /// Queues an intention. Says whether the owner has to be woken.
    pub fn queue(&mut self, intention: Intention) -> (r: bool)
        ensures
            *final(self) == old(self).queued(Some(intention)),
            r == old(self).wakes(Some(intention)),
    {
        if self.closing {
            return false;
        }
        self.pending.record(intention);
        let wakes = !self.wake_posted;
        self.wake_posted = true;
        wakes
    }

    /// Records that waking the owner failed.
    pub fn wake_post_failed(&mut self)
        ensures
            *final(self) == (ResultWindow { wake_posted: false, wake_failed: true, ..*old(self) }),
    {
        self.wake_posted = false;
        self.wake_failed = true;
    }

    fn clicked_control(&self, id: usize) -> (r: Option<Intention>)
        requires
            id < 0x10000,
        ensures
            r == self.clicked(id as int),
    {
        if id == CLOSE || id == CAPTION_CLOSE {
            Some(Intention::Act(ResultAction::Close))
        } else if id == CAPTION_MINIMIZE {
            Some(Intention::Minimize)
        } else if id == PICK_AGAIN {
            Some(Intention::Act(ResultAction::PickAgain))
        } else if id == COPY_DEFAULT {
            Some(
                Intention::Copy(
                    CopyTarget { format: self.default_format, button_id: COPY_DEFAULT },
                ),
            )
        } else if id >= COPY_ROW && id < COPY_ROW + 4 {
            let format = match id - COPY_ROW {
                0 => ColorFormat::Hex,
                1 => ColorFormat::Rgb,
                2 => ColorFormat::CssRgb,
                _ => ColorFormat::Hsl,
            };
            Some(Intention::Copy(CopyTarget { format, button_id: id }))
        } else {
            None
        }
    }

    fn scroll_start(&self) -> (r: i32)
        ensures
            r == self.scroll_base(),
    {
        match self.pending.scroll {
            Some(offset) => offset,
            None => self.scroll_offset,
        }
    }

    fn caption_reply(&self, point: Option<ScreenPointPx>, client: Option<Rect>, dpi: u32) -> (r:
        ResultReply)
        requires
            point is Some && client is Some ==> dpi <= 9600 && client->0.right >= i32::MIN
                + 200_000,
        ensures
            r == (if point is Some && client is Some && caption_hit(
                point->0,
                client->0,
                drawing_dpi(dpi),
                self.header_height,
            ) == CaptionHit::Caption {
                ResultReply::Value(2)
            } else {
                ResultReply::Value(1)
            }),
    {
        match (point, client) {
            (Some(point), Some(client)) => {
                match caption_hit_test(point, client, at_least_96(dpi), self.header_height) {
                    CaptionHit::Caption => ResultReply::Value(2),
                    CaptionHit::Client => ResultReply::Value(1),
                }
            },
            _ => ResultReply::Value(1),
        }
    }

    fn tone_of(&self, id: usize) -> (r: Tone)
        ensures
            r == self.control_tone(id),
    {
        if id == STATUS {
            self.status_tone
        } else if id == SOURCE || (id >= ROW_LABEL && id < ROW_LABEL + 4) {
            Tone::Muted
        } else {
            Tone::Text
        }
    }

    /// Answers a message of the window or of its scrolling part. Nothing is done
    /// here but to queue what the owner does later.
    pub fn dispatch(&mut self, window: WindowHandle, message: ResultMessage) -> (r: Dispatched)
        requires
            old(self).wf(),
            old(self).scroll_computes(window, message),
        ensures
            final(self).wf(),
            *final(self) == old(self).noted(message).queued(old(self).intention(window, message)),
            r.reply == old(self).reply(window, message),
            r.post_wake == old(self).wakes(old(self).intention(window, message)),
    {
        let root = window != self.viewport;
        let zero = ResultReply::Value(0);
        let one = ResultReply::Value(1);
        let unhandled = ResultReply::Default;
        let (intention, reply): (Option<Intention>, ResultReply) = match message {
            ResultMessage::Create { last_error } => (
                None,
                if last_error != 0 {
                    zero
                } else {
                    unhandled
                },
            ),
            ResultMessage::NonClientSize => (
                None,
                if root {
                    zero
                } else {
                    unhandled
                },
            ),
            // The system would paint a classic caption and frame over the client
            // area, also on activation.
            ResultMessage::NonClientPaint => (
                None,
                if root {
                    zero
                } else {
                    unhandled
                },
            ),
            ResultMessage::NonClientActivate => (
                None,
                if root {
                    one
                } else {
                    unhandled
                },
            ),
            ResultMessage::HitTest { point, client, dpi } => (
                None,
                if root {
                    self.caption_reply(point, client, dpi)
                } else {
                    unhandled
                },
            ),
            // A fixed-size sheet has no maximized or resized form, even when asked
            // for by the system menu or a double click on its colour field.
            ResultMessage::NonClientDoubleClick { wparam } => (
                None,
                if wparam == 2 {
                    zero
                } else {
                    unhandled
                },
            ),
            ResultMessage::SystemCommand { wparam } => {
                let command: usize = low_word_of(wparam) / 16 * 16;
                (
                    None,
                    if command == 0xf030 || command == 0xf000 {
                        zero
                    } else {
                        unhandled
                    },
                )
            },
            ResultMessage::EraseBackground => (None, one),
            ResultMessage::Paint => (
                None,
                ResultReply::Paint {
                    border_width_dip: if root {
                        self.border_width_dip
                    } else {
                        0
                    },
                },
            ),
            ResultMessage::ControlColor { id } => (None, ResultReply::ControlColor(self.tone_of(id))),
            ResultMessage::Notify => (None, ResultReply::DrawNotification),
            ResultMessage::DrawItem { wparam } => (
                None,
                if wparam == SWATCH {
                    ResultReply::DrawSwatch
                } else {
                    unhandled
                },
            ),
            ResultMessage::Close => (Some(Intention::Act(ResultAction::Close)), zero),
            ResultMessage::Command { wparam } => {
                if notification_code_of(wparam) == 0 {
                    (self.clicked_control(low_word_of(wparam)), zero)
                } else {
                    (None, unhandled)
                }
            },
            ResultMessage::Timer { wparam } => {
                if wparam != 0 && self.active_timer == wparam {
                    (Some(Intention::RetryTimer(wparam)), zero)
                } else if wparam != 0 && self.feedback_timer == wparam {
                    (Some(Intention::FeedbackTimer(wparam)), zero)
                } else {
                    (None, unhandled)
                }
            },
            ResultMessage::DpiChanged { suggested } => (
                match suggested {
                    Some(rect) => Some(Intention::Dpi(rect)),
                    None => None,
                },
                zero,
            ),
            ResultMessage::Size { wparam } => {
                if root {
                    (
                        if wparam != 1 {
                            Some(Intention::Layout)
                        } else {
                            None
                        },
                        zero,
                    )
                } else {
                    (None, unhandled)
                }
            },
            ResultMessage::DisplayChanged => {
                if root {
                    (Some(Intention::FitWorkArea), zero)
                } else {
                    (None, unhandled)
                }
            },
            ResultMessage::VerticalScroll { wparam, from_bar, info, dpi } => {
                if !root && from_bar {
                    (
                        match info {
                            Some(info) => Some(
                                Intention::Scroll(bar_position(self.scroll_start(), wparam, info, dpi)),
                            ),
                            None => None,
                        },
                        zero,
                    )
                } else {
                    (None, unhandled)
                }
            },
            ResultMessage::MouseWheel { wparam, dpi } => {
                let total: i32 = self.wheel_remainder + wheel_delta_of(wparam);
                let target: i32 = wheel_position(self.scroll_start(), total, dpi);
                self.wheel_remainder = total % 120;
                (Some(Intention::Scroll(target)), zero)
            },
            ResultMessage::GetDefaultId => (
                None,
                ResultReply::Value(
                    #[verifier::truncate]
                    ((0x534b_0000usize | self.default_id) as isize),
                ),
            ),
            ResultMessage::SetDefaultId { wparam } => {
                self.default_id = wparam;
                (Some(Intention::DefaultStyle), one)
            },
            ResultMessage::Destroyed => (None, ResultReply::Detach),
            ResultMessage::Other => (None, unhandled),
        };
        let post_wake = match intention {
            Some(intention) => self.queue(intention),
            None => false,
        };
        Dispatched { reply, post_wake }
    }
}

} // verus!
