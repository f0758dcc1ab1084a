//! What the owner of a result window does between messages: processing queued
//! intentions, and carrying copies through.
use crate::arith::clamped;
use crate::config::AppearanceConfig;
use crate::drawing::dip;
use crate::format::ColorFormat;
use crate::geometry::{Rect, ScreenPointPx};
use crate::i18n::{tr, translation, Language};
use crate::layout::{
    reveal_computes, reveal_is_representable, reveal_offset, revealing_offset, scroll_limit,
};
use crate::result::{
    signed_word, Intention, Pending, ResultAction, ResultMessage, ResultReply, ResultWindow,
    COPY_DEFAULT, ROW_LABEL, SOURCE, STATUS, SWATCH,
};
use crate::result_copy::{
    retried, CopyRequest, CopyState, CopyTarget, CopyTokens, MAX_RETRIES,
};
use crate::result_layout::{caption_hit, CaptionHit, ResultPlan};
use crate::sample::PickedColor;
use crate::scrolling::{
    bar_target, notification_code, wheel_delta, wheel_notches_scroll_alike, wheel_target,
    wheel_travel_adds_up, ScrollInfo,
};
use crate::theme::{drawing_dpi, Tone};
use crate::window_lifetime::WindowHandle;
use vstd::prelude::*;
use vstd::string::*;

verus! {

/// Waking the owner had failed before.
#[derive(Debug, Clone, Copy, PartialEq, Eq, Structural)]
pub struct WakeFailed;

/// What to undo of a shown copy success.
#[derive(Debug, Clone, Copy, PartialEq, Eq, Structural)]
pub struct FeedbackReset {
    /// The timer to stop.
    pub stop_timer: Option<usize>,
    /// The button that gets its ordinary name again.
    pub restore: Option<CopyTarget>,
}

/// The copy work of one round.
#[derive(Debug, Clone, Copy, PartialEq, Eq, Structural)]
pub enum CopyWork {
    Nothing,
    /// Cancel what is running and copy this.
    Start(CopyTarget),
    /// A retry timer ran out.
    Retry(usize),
}

/// The steps of one round, in this order: move to the suggested rectangle, fit the
/// work area, scroll, lay out, reveal the focus, reveal a control, restyle,
/// minimize, copy, end a shown success.
#[derive(Debug, Clone, Copy, PartialEq, Eq, Structural)]
pub struct UpdatePlan {
    pub move_to: Option<Rect>,
    pub fit_work_area: bool,
    pub scroll: Option<i32>,
    pub layout: bool,
    pub reveal_focus: bool,
    pub reveal: Option<WindowHandle>,
    pub default_style: bool,
    pub minimize: bool,
    pub copy: CopyWork,
    pub feedback_timer: Option<usize>,
}

/// What a round of processing does.
#[derive(Debug, Clone, Copy, PartialEq, Eq, Structural)]
pub enum Work {
    /// The window is done: stop its timers and hand this to the owner.
    Finish { action: ResultAction, stop_timer: Option<usize>, feedback: FeedbackReset },
    Update(UpdatePlan),
}

/// The steps that pending intentions ask for. A new copy goes before a retry, and
/// the focus is revealed where the layout changed and the person did not scroll.
pub open spec fn update_plan(pending: Pending) -> UpdatePlan {
    let layout = pending.layout || pending.fit_work_area || pending.scroll is Some;
    UpdatePlan {
        move_to: pending.dpi_rect,
        fit_work_area: pending.fit_work_area,
        scroll: pending.scroll,
        layout,
        reveal_focus: layout && pending.scroll is None,
        reveal: pending.reveal,
        default_style: pending.default_style,
        minimize: pending.minimize,
        copy: match pending.copy {
            Some(target) => CopyWork::Start(target),
            None => match pending.timer {
                Some(timer) => CopyWork::Retry(timer),
                None => CopyWork::Nothing,
            },
        },
        feedback_timer: pending.feedback_timer,
    }
}

/// A timer that runs: zero is none.
pub open spec fn running(timer: usize) -> Option<usize> {
    if timer == 0 {
        None
    } else {
        Some(timer)
    }
}

/// How an attempt to copy ended.
#[derive(Debug, Clone, Copy, PartialEq, Eq, Structural)]
pub enum ClipboardOutcome {
    Copied,
    Busy,
    Failed,
}

/// Why a copy finally failed.
#[derive(Debug, Clone, Copy, PartialEq, Eq, Structural)]
pub enum CopyFailure {
    /// The clipboard was busy and no timer could be armed.
    RetryUnavailable,
    /// The clipboard was still busy after all retries.
    StillBusy,
    /// Any other error; its text is appended.
    Other,
}

/// What an ended attempt asks for next.
#[derive(Debug, Clone, Copy, PartialEq, Eq, Structural)]
pub enum CopyStep {
    /// Nothing more.
    Done,
    /// The window is done; says whether the owner has to be woken.
    Close { post_wake: bool },
    /// Show the success on its button.
    ShowFeedback(CopyTarget),
    /// Arm a fresh timer, then report with [`ResultWindow::retry_armed`].
    ArmRetry,
    /// Show a failure.
    Fail(CopyFailure),
}

/// What showing a failure needs.
#[derive(Debug, Clone, Copy, PartialEq, Eq, Structural)]
pub struct FailureStep {
    /// The status appears: fit the window and lay it out.
    pub relayout: bool,
    /// A hidden quick pick becomes visible.
    pub show: bool,
}

/// What a retry timer that ran out asks for.
#[derive(Debug, Clone, Copy, PartialEq, Eq, Structural)]
pub struct RetryDue {
    pub stop_timer: Option<usize>,
    pub request: Option<CopyRequest>,
}

/// What beginning a copy takes: a timer to stop, a success to take back, and the
/// request to try.
#[derive(Debug, Clone, Copy, PartialEq, Eq, Structural)]
pub struct CopyStart {
    pub stop_timer: Option<usize>,
    pub feedback: FeedbackReset,
    pub request: Option<CopyRequest>,
}

/// How a new window begins.
#[derive(Debug, Clone, Copy, PartialEq, Eq, Structural)]
pub struct Opening {
    pub show: bool,
    pub post_wake: bool,
}

/// The error text of a copy that failed for good.
pub open spec fn failure_text(failure: CopyFailure, detail: Seq<char>, language: Language) -> Seq<char> {
    match failure {
        CopyFailure::RetryUnavailable => translation(
            language,
            "剪贴板被占用，无法安排重试。请再次点击复制。",
            "Clipboard busy; retry unavailable. Click Copy to try again.",
        )@,
        CopyFailure::StillBusy => translation(
            language,
            "复制失败：剪贴板仍被占用。请再次点击复制。",
            "Clipboard still busy. Click Copy to try again.",
        )@,
        CopyFailure::Other => translation(language, "复制失败：", "Copy failed: ")@ + detail,
    }
}

/// The text of a failure; `detail` is the native error where there is one.
pub fn copy_failure_text(failure: CopyFailure, detail: &str, language: Language) -> (r: String)
    ensures
        r@ == failure_text(failure, detail@, language),
{
    match failure {
        CopyFailure::RetryUnavailable => String::from_str(
            tr(
                language,
                "剪贴板被占用，无法安排重试。请再次点击复制。",
                "Clipboard busy; retry unavailable. Click Copy to try again.",
            ),
        ),
        CopyFailure::StillBusy => String::from_str(
            tr(
                language,
                "复制失败：剪贴板仍被占用。请再次点击复制。",
                "Clipboard still busy. Click Copy to try again.",
            ),
        ),
        CopyFailure::Other => {
            let mut text = String::from_str(tr(language, "复制失败：", "Copy failed: "));
            text.append(detail);
            text
        },
    }
}

/// The ordinary name of a copy button.
pub open spec fn copy_name(format: ColorFormat, language: Language) -> Seq<char> {
    translation(language, "复制 ", "Copy ")@ + format.spec_label()
}

/// The name of a copy button while its success is shown.
pub open spec fn copied_name(format: ColorFormat, language: Language) -> Seq<char> {
    translation(language, "已复制 ", "Copied ")@ + format.spec_label()
}

pub fn copy_label(format: ColorFormat, language: Language) -> (r: String)
    ensures
        r@ == copy_name(format, language),
{
    let mut text = String::from_str(tr(language, "复制 ", "Copy "));
    text.append(format.label());
    text
}

pub fn copied_label(format: ColorFormat, language: Language) -> (r: String)
    ensures
        r@ == copied_name(format, language),
{
    let mut text = String::from_str(tr(language, "已复制 ", "Copied "));
    text.append(format.label());
    text
}

impl ResultWindow {
    /// A window that has not been shown and has nothing to do.
    pub open spec fn fresh(
        picked: PickedColor,
        default_format: ColorFormat,
        border_width_dip: u8,
        quick_pick: bool,
    ) -> ResultWindow {
        ResultWindow {
            picked,
            default_format,
            border_width_dip,
            status_tone: Tone::Muted,
            pending: Pending::none(),
            wake_posted: false,
            wake_failed: false,
            closing: false,
            active_timer: 0,
            feedback_timer: 0,
            default_id: COPY_DEFAULT,
            viewport: 0,
            scroll_offset: 0,
            content_height: 0,
            viewport_height: 0,
            header_height: 0,
            wheel_remainder: 0,
            copy: CopyState { request: None },
            copied_target: None,
            status_visible: false,
            quick_pick_pending: quick_pick,
        }
    }

    /// An ordinary window: HEX first, nothing copied by itself.
    pub fn new(picked: PickedColor) -> (r: ResultWindow)
        ensures
            r == ResultWindow::fresh(picked, ColorFormat::Hex, 2, false),
            r.wf(),
    {
        ResultWindow::new_with_options(picked, ColorFormat::Hex)
    }

    pub fn new_with_options(picked: PickedColor, default_format: ColorFormat) -> (r: ResultWindow)
        ensures
            r == ResultWindow::fresh(picked, default_format, 2, false),
            r.wf(),
    {
        ResultWindow::new_with_appearance(picked, default_format, AppearanceConfig::default())
    }

    pub fn new_with_appearance(
        picked: PickedColor,
        default_format: ColorFormat,
        appearance: AppearanceConfig,
    ) -> (r: ResultWindow)
        ensures
            r == ResultWindow::fresh(picked, default_format, appearance.border_width_dip, false),
            r.wf(),
    {
        ResultWindow::new_with_behavior(picked, default_format, appearance, false)
    }

    /// Quick picks copy after input cleanup without showing or activating the
    /// window. A final copy failure reveals it so the colour can still be used.
    pub fn new_with_behavior(
        picked: PickedColor,
        default_format: ColorFormat,
        appearance: AppearanceConfig,
        quick_pick: bool,
    ) -> (r: ResultWindow)
        ensures
            r == ResultWindow::fresh(
                picked,
                default_format,
                appearance.border_width_dip,
                quick_pick,
            ),
            r.wf(),
    {
        ResultWindow {
            picked,
            default_format,
            border_width_dip: appearance.border_width_dip,
            status_tone: Tone::Muted,
            pending: Pending::default(),
            wake_posted: false,
            wake_failed: false,
            closing: false,
            active_timer: 0,
            feedback_timer: 0,
            default_id: COPY_DEFAULT,
            viewport: 0,
            scroll_offset: 0,
            content_height: 0,
            viewport_height: 0,
            header_height: 0,
            wheel_remainder: 0,
            copy: CopyState::default(),
            copied_target: None,
            status_visible: false,
            quick_pick_pending: quick_pick,
        }
    }

    /// Finishes opening a window that was laid out: shows it unless it is a quick
    /// pick, and queues the first copy where one is due. The clipboard is left to
    /// processing, as for button copies.
    pub fn opened(&mut self, auto_copy: bool) -> (r: Opening)
        ensures
            r.show == !old(self).quick_pick_pending,
            ({
                let first = if auto_copy || old(self).quick_pick_pending {
                    Some(
                        Intention::Copy(
                            CopyTarget {
                                format: old(self).default_format,
                                button_id: COPY_DEFAULT,
                            },
                        ),
                    )
                } else {
                    None
                };
                &&& *final(self) == old(self).queued(first)
                &&& r.post_wake == old(self).wakes(first)
            }),
    {
        let show = !self.quick_pick_pending;
        let mut post_wake = false;
        if auto_copy || self.quick_pick_pending {
            post_wake = self.queue(
                Intention::Copy(
                    CopyTarget { format: self.default_format, button_id: COPY_DEFAULT },
                ),
            );
        }
        Opening { show, post_wake }
    }

    /// A window for a copy that already failed elsewhere: an ordinary manual result
    /// that shows the failure. Nothing is queued; a later success leaves it open.
    pub fn new_after_copy_failure(
        picked: PickedColor,
        default_format: ColorFormat,
        appearance: AppearanceConfig,
    ) -> (r: ResultWindow)
        ensures
            r == (ResultWindow {
                status_tone: Tone::Error,
                status_visible: true,
                ..ResultWindow::fresh(picked, default_format, appearance.border_width_dip, false)
            }),
            r.wf(),
    {
        let mut window = ResultWindow::new_with_appearance(picked, default_format, appearance);
        let _ = window.copy_failed();
        window
    }

    /// Final placement supersedes suggestions that the hidden, temporarily small
    /// window caused; applying them later would shrink it.
    pub fn placed(&mut self)
        ensures
            *final(self) == (ResultWindow {
                pending: Pending { dpi_rect: None, ..old(self).pending },
                ..*old(self)
            }),
    {
        self.pending.dpi_rect = None;
    }

    /// Takes over the measures of a layout.
    pub fn laid_out(&mut self, plan: &ResultPlan)
        ensures
            *final(self) == (ResultWindow {
                header_height: plan.header_height,
                viewport_height: plan.viewport_height,
                content_height: plan.content_height,
                scroll_offset: plan.offset,
                ..*old(self)
            }),
    {
        self.header_height = plan.header_height;
        self.viewport_height = plan.viewport_height;
        self.content_height = plan.content_height;
        self.scroll_offset = plan.offset;
    }

    /// Scrolls so that a control at `top..bottom` of the viewport is visible. Says
    /// whether the window has to be laid out again.
    pub fn reveal_control(&mut self, top: i32, bottom: i32, dpi: u32) -> (r: bool)
        requires
            reveal_computes(
                old(self).scroll_offset as int,
                top as int,
                bottom as int,
                old(self).viewport_height as int,
                old(self).content_height as int,
                dip(8, dpi) as int,
            ),
        ensures
            ({
                let offset = clamped(
                    revealing_offset(
                        old(self).scroll_offset as int,
                        top as int,
                        bottom as int,
                        old(self).viewport_height as int,
                        dip(8, dpi) as int,
                    ),
                    0,
                    scroll_limit(old(self).viewport_height as int, old(self).content_height as int),
                );
                &&& *final(self) == (ResultWindow { scroll_offset: offset as i32, ..*old(self) })
                &&& r == (old(self).scroll_offset != offset)
            }),
    {
        let offset: i32 = reveal_offset(
            self.scroll_offset,
            top,
            bottom,
            self.viewport_height,
            self.content_height,
            dip(8, dpi),
        );
        let moved = self.scroll_offset != offset;
        self.scroll_offset = offset;
        moved
    }

    /// Whether [`Self::reveal_control`] can be called for a control at `top..bottom`.
    pub fn reveal_is_representable(&self, top: i32, bottom: i32, dpi: u32) -> (r: bool)
        ensures
            r == reveal_computes(
                self.scroll_offset as int,
                top as int,
                bottom as int,
                self.viewport_height as int,
                self.content_height as int,
                dip(8, dpi) as int,
            ),
    {
        reveal_is_representable(
            self.scroll_offset,
            top,
            bottom,
            self.viewport_height,
            self.content_height,
            dip(8, dpi),
        )
    }

    /// Takes over a scroll position.
    pub fn scroll_to(&mut self, offset: i32)
        ensures
            *final(self) == (ResultWindow { scroll_offset: offset, ..*old(self) }),
    {
        self.scroll_offset = offset;
    }

    /// The state with no copy running.
    pub open spec fn without_copy(self) -> ResultWindow {
        ResultWindow { copy: CopyState { request: None }, active_timer: 0, ..self }
    }

    /// The state with no success shown.
    pub open spec fn without_feedback(self) -> ResultWindow {
        ResultWindow { feedback_timer: 0, copied_target: None, ..self }
    }

    /// Ends the copy in progress. The timer that is returned has to be stopped.
    pub fn cancel_copy(&mut self) -> (r: Option<usize>)
        ensures
            *final(self) == old(self).without_copy(),
            r == running(old(self).active_timer),
    {
        self.copy.request = None;
        self.stop_timer()
    }

    /// Forgets the retry timer, which has to be stopped.
    pub fn stop_timer(&mut self) -> (r: Option<usize>)
        ensures
            *final(self) == (ResultWindow { active_timer: 0, ..*old(self) }),
            r == running(old(self).active_timer),
    {
        let timer: usize = self.active_timer;
        self.active_timer = 0;
        if timer == 0 {
            None
        } else {
            Some(timer)
        }
    }

    /// Ends the shown success of an earlier copy.
    pub fn clear_copy_feedback(&mut self) -> (r: FeedbackReset)
        ensures
            *final(self) == old(self).without_feedback(),
            r.stop_timer == running(old(self).feedback_timer),
            r.restore == old(self).copied_target,
    {
        let timer: usize = self.feedback_timer;
        self.feedback_timer = 0;
        let restore = self.copied_target;
        self.copied_target = None;
        FeedbackReset {
            stop_timer: if timer == 0 {
                None
            } else {
                Some(timer)
            },
            restore,
        }
    }

    /// Takes the queued intentions for processing. An action ends the window:
    /// nothing else is done, and nothing can be queued any more.
    pub fn process_pending(&mut self) -> (r: Result<Work, WakeFailed>)
        requires
            old(self).wf(),
        ensures
            final(self).wf(),
            if old(self).wake_failed {
                &&& r == Err::<Work, WakeFailed>(WakeFailed)
                &&& *final(self) == (ResultWindow {
                    wake_posted: false,
                    wake_failed: false,
                    ..*old(self)
                })
            } else {
                let taken = ResultWindow {
                    wake_posted: false,
                    pending: Pending::none(),
                    ..*old(self)
                };
                match old(self).pending.action {
                    Some(action) => {
                        &&& *final(self) == (ResultWindow {
                            closing: true,
                            ..taken.without_copy().without_feedback()
                        })
                        &&& r == Ok::<Work, WakeFailed>(
                            Work::Finish {
                                action,
                                stop_timer: running(old(self).active_timer),
                                feedback: FeedbackReset {
                                    stop_timer: running(old(self).feedback_timer),
                                    restore: old(self).copied_target,
                                },
                            },
                        )
                    },
                    None => {
                        &&& *final(self) == taken
                        &&& r == Ok::<Work, WakeFailed>(Work::Update(update_plan(old(self).pending)))
                    },
                }
            },
    {
        self.wake_posted = false;
        if self.wake_failed {
            self.wake_failed = false;
            return Err(WakeFailed);
        }
        let pending: Pending = self.pending;
        self.pending = Pending::default();
        if let Some(action) = pending.action {
            self.closing = true;
            let stop_timer = self.cancel_copy();
            let feedback = self.clear_copy_feedback();
            return Ok(Work::Finish { action, stop_timer, feedback });
        }
        let layout = pending.layout || pending.fit_work_area || pending.scroll.is_some();
        let copy = match pending.copy {
            Some(target) => CopyWork::Start(target),
            None => match pending.timer {
                Some(timer) => CopyWork::Retry(timer),
                None => CopyWork::Nothing,
            },
        };
        Ok(
            Work::Update(
                UpdatePlan {
                    move_to: pending.dpi_rect,
                    fit_work_area: pending.fit_work_area,
                    scroll: pending.scroll,
                    layout,
                    reveal_focus: layout && pending.scroll.is_none(),
                    reveal: pending.reveal,
                    default_style: pending.default_style,
                    minimize: pending.minimize,
                    copy,
                    feedback_timer: pending.feedback_timer,
                },
            ),
        )
    }

    /// Starts a copy under a fresh token and hands out its request.
    pub fn start_copy(&mut self, token: usize, target: CopyTarget) -> (r: CopyRequest)
        ensures
            r == (CopyRequest { token, target, retries_left: MAX_RETRIES }),
            *final(self) == (ResultWindow {
                copy: CopyState { request: Some(r) },
                ..*old(self)
            }),
    {
        self.copy.replace(token, target);
        CopyRequest { token, target, retries_left: MAX_RETRIES }
    }

    /// Begins a copy that was asked for: the one in progress and the success that
    /// is shown both end, and the new request gets a fresh token. Without a token
    /// left nothing is copied.
    pub fn begin_copy(&mut self, tokens: &mut CopyTokens, target: CopyTarget) -> (r: CopyStart)
        ensures
            r.stop_timer == running(old(self).active_timer),
            r.feedback == (FeedbackReset {
                stop_timer: running(old(self).feedback_timer),
                restore: old(self).copied_target,
            }),
            if old(tokens).next == usize::MAX {
                &&& r.request is None
                &&& *final(self) == old(self).without_copy().without_feedback()
                &&& *final(tokens) == *old(tokens)
            } else {
                let request = CopyRequest {
                    token: old(tokens).next,
                    target,
                    retries_left: MAX_RETRIES,
                };
                &&& r.request == Some(request)
                &&& *final(self) == (ResultWindow {
                    copy: CopyState { request: Some(request) },
                    ..old(self).without_copy().without_feedback()
                })
                &&& final(tokens).next == old(tokens).next + 1
            },
    {
        let stop_timer = self.cancel_copy();
        let feedback = self.clear_copy_feedback();
        let request = match tokens.next_copy_token() {
            Ok(token) => Some(self.start_copy(token, target)),
            Err(_) => None,
        };
        CopyStart { stop_timer, feedback, request }
    }

    /// A retry timer ran out. Where it is the current one it is stopped, and the
    /// request in progress is tried again.
    pub fn retry_due(&mut self, timer: usize) -> (r: RetryDue)
        ensures
            old(self).active_timer == timer ==> *final(self) == (ResultWindow {
                active_timer: 0,
                ..*old(self)
            }) && r == (RetryDue { stop_timer: running(timer), request: old(self).copy.request }),
            old(self).active_timer != timer ==> *final(self) == *old(self) && r == (RetryDue {
                stop_timer: None,
                request: None,
            }),
    {
        if self.active_timer != timer {
            return RetryDue { stop_timer: None, request: None };
        }
        let stop_timer = self.stop_timer();
        RetryDue { stop_timer, request: self.copy.request }
    }

    /// The timer of a shown success ran out: what to undo, where the timer is the
    /// current one.
    pub fn feedback_due(&mut self, timer: usize) -> (r: Option<FeedbackReset>)
        ensures
            old(self).feedback_timer == timer ==> *final(self) == old(self).without_feedback()
                && r == Some(
                FeedbackReset {
                    stop_timer: running(old(self).feedback_timer),
                    restore: old(self).copied_target,
                },
            ),
            old(self).feedback_timer != timer ==> r is None && *final(self) == *old(self),
    {
        if self.feedback_timer != timer {
            return None;
        }
        Some(self.clear_copy_feedback())
    }

    /// The state after an attempt to copy ended, and what it asks for next. A quick
    /// pick that was copied is done; a busy clipboard is tried again as long as the
    /// request has retries left.
    pub open spec fn after_attempt(self, request: CopyRequest, outcome: ClipboardOutcome) -> (
        ResultWindow,
        CopyStep,
    ) {
        let close = Some(Intention::Act(ResultAction::Close));
        match outcome {
            ClipboardOutcome::Copied => {
                let done = ResultWindow {
                    copy: CopyState { request: None },
                    quick_pick_pending: false,
                    ..self
                };
                if self.quick_pick_pending {
                    (done.queued(close), CopyStep::Close { post_wake: done.wakes(close) })
                } else {
                    (done, CopyStep::ShowFeedback(request.target))
                }
            },
            ClipboardOutcome::Busy => {
                let (again, copy) = retried(self.copy, request.token);
                (
                    ResultWindow { copy, ..self },
                    if again {
                        CopyStep::ArmRetry
                    } else {
                        CopyStep::Fail(CopyFailure::StillBusy)
                    },
                )
            },
            ClipboardOutcome::Failed => (
                ResultWindow { copy: CopyState { request: None }, ..self },
                CopyStep::Fail(CopyFailure::Other),
            ),
        }
    }

    /// The state after a failure is shown.
    pub open spec fn after_failure(self) -> ResultWindow {
        ResultWindow {
            status_tone: Tone::Error,
            status_visible: true,
            quick_pick_pending: false,
            ..self
        }
    }

    /// Takes over how an attempt to copy ended.
    pub fn finish_copy_attempt(&mut self, request: CopyRequest, outcome: ClipboardOutcome) -> (r:
        CopyStep)
        ensures
            (*final(self), r) == old(self).after_attempt(request, outcome),
    {
        match outcome {
            ClipboardOutcome::Copied => {
                self.copy.request = None;
                if self.quick_pick_pending {
                    self.quick_pick_pending = false;
                    let post_wake = self.queue(Intention::Act(ResultAction::Close));
                    CopyStep::Close { post_wake }
                } else {
                    CopyStep::ShowFeedback(request.target)
                }
            },
            ClipboardOutcome::Busy => {
                let mut copy = self.copy;
                let again = copy.reserve_retry(request.token);
                self.copy = copy;
                if again {
                    CopyStep::ArmRetry
                } else {
                    CopyStep::Fail(CopyFailure::StillBusy)
                }
            },
            ClipboardOutcome::Failed => {
                self.copy.request = None;
                CopyStep::Fail(CopyFailure::Other)
            },
        }
    }

    /// Takes over a retry timer, or that none could be armed. Every arming has a
    /// fresh number, so that a timer message that is already queued cannot shorten
    /// the next delay.
    pub fn retry_armed(&mut self, timer: usize, armed: bool) -> (r: CopyStep)
        ensures
            armed ==> r == CopyStep::Done && *final(self) == (ResultWindow {
                active_timer: timer,
                ..*old(self)
            }),
            !armed ==> r == CopyStep::Fail(CopyFailure::RetryUnavailable) && *final(self) == (
            ResultWindow { copy: CopyState { request: None }, ..*old(self) }),
    {
        if !armed {
            self.copy.request = None;
            return CopyStep::Fail(CopyFailure::RetryUnavailable);
        }
        self.active_timer = timer;
        CopyStep::Done
    }

    /// Shows a failure. Once a failed quick pick is visible, it behaves like any
    /// other window: later successes do not dismiss it.
    pub fn copy_failed(&mut self) -> (r: FailureStep)
        ensures
            *final(self) == old(self).after_failure(),
            r.relayout == !old(self).status_visible,
            r.show == old(self).quick_pick_pending,
    {
        self.status_tone = Tone::Error;
        let relayout = !self.status_visible;
        self.status_visible = true;
        let show = self.quick_pick_pending;
        self.quick_pick_pending = false;
        FailureStep { relayout, show }
    }

    /// Hides the status for a success. Says whether the window has to be fitted and
    /// laid out again.
    pub fn hide_status(&mut self) -> (r: bool)
        ensures
            *final(self) == (ResultWindow { status_visible: false, ..*old(self) }),
            r == old(self).status_visible,
    {
        let was_visible = self.status_visible;
        self.status_visible = false;
        was_visible
    }

    /// Takes over the timer that ends a shown success. Without one the success is
    /// not shown, so that no button keeps saying that it copied.
    pub fn feedback_armed(&mut self, timer: usize, target: CopyTarget, armed: bool) -> (r: bool)
        ensures
            r == armed,
            armed ==> *final(self) == (ResultWindow {
                feedback_timer: timer,
                copied_target: Some(target),
                ..*old(self)
            }),
            !armed ==> *final(self) == *old(self),
    {
        if armed {
            self.feedback_timer = timer;
            self.copied_target = Some(target);
        }
        armed
    }
}

/// Once an action was taken the window is closing: whatever its callbacks ask for
/// is dropped, and the owner is not woken again.
pub proof fn closing_windows_queue_nothing(window: ResultWindow, intention: Intention)
    requires
        window.closing,
    ensures
        window.queued(Some(intention)) == window,
        !window.wakes(Some(intention)),
{
}

/// However many intentions are queued before the owner looks, it is woken once.
pub proof fn the_owner_is_woken_once(window: ResultWindow, first: Intention, second: Intention)
    requires
        !window.closing,
        !window.wake_posted,
    ensures
        window.wakes(Some(first)),
        !window.queued(Some(first)).wakes(Some(second)),
        window.queued(Some(first)).queued(Some(second)).pending == window.pending.with(first).with(
            second,
        ),
{
}

/// A timer message whose number is not the current one is not acted on: neither a
/// retry that was cancelled nor the end of an earlier success.
pub proof fn stale_timers_are_ignored(window: ResultWindow, handle: WindowHandle, timer: usize)
    requires
        timer != window.active_timer,
        timer != window.feedback_timer,
    ensures
        window.intention(handle, ResultMessage::Timer { wparam: timer }) is None,
{
}

/// After a copy was cancelled or replaced, a retry timer of the old one that is
/// still queued finds nothing to do.
pub proof fn cancelled_copies_do_not_retry(window: ResultWindow, timer: usize)
    requires
        timer != 0,
    ensures
        window.without_copy().active_timer != timer,
        window.without_copy().copy.current(timer) is None,
{
}

/// A quick pick that is copied queues its own closing and never asks to be shown.
pub proof fn copied_quick_picks_close(window: ResultWindow, request: CopyRequest)
    requires
        window.quick_pick_pending,
        !window.closing,
    ensures
        window.after_attempt(request, ClipboardOutcome::Copied).0.pending.action == Some(
            ResultAction::Close,
        ),
        !(window.after_attempt(request, ClipboardOutcome::Copied).1 is ShowFeedback),
{
}

/// A quick pick that failed is revealed once and is an ordinary window from then
/// on: a later success shows its feedback and leaves the window open.
pub proof fn failed_quick_picks_stay_open(window: ResultWindow, request: CopyRequest)
    ensures
        !window.after_failure().quick_pick_pending,
        window.after_failure().after_failure() == window.after_failure(),
        window.after_failure().after_attempt(request, ClipboardOutcome::Copied).1
            == CopyStep::ShowFeedback(request.target),
        window.after_failure().after_attempt(request, ClipboardOutcome::Copied).0.pending
            == window.pending,
{
}

/// A quick pick stays hidden while its copy is retried: only the refusal after the
/// last retry asks for the failure that reveals it.
pub proof fn retries_stay_hidden(window: ResultWindow, request: CopyRequest)
    requires
        window.copy.request == Some(request),
    ensures
        request.retries_left > 0 ==> window.after_attempt(request, ClipboardOutcome::Busy).1
            == CopyStep::ArmRetry && window.after_attempt(
            request,
            ClipboardOutcome::Busy,
        ).0.quick_pick_pending == window.quick_pick_pending,
        request.retries_left == 0 ==> window.after_attempt(request, ClipboardOutcome::Busy).1
            == CopyStep::Fail(CopyFailure::StillBusy) && window.after_attempt(
            request,
            ClipboardOutcome::Busy,
        ).0.copy.request is None,
{
}

/// A click on a copy button is carried through to the clipboard: the window queues
/// it, and the next round starts a copy in the notation of that button. `id` is the
/// main button or one of the four row buttons.
pub proof fn clicked_copies_are_started(
    window: ResultWindow,
    handle: WindowHandle,
    wparam: usize,
    id: int,
)
    requires
        !window.closing,
        wparam as int == id,
        id == 1 || 100 <= id <= 103,
    ensures
        ({
            let after = window.noted(ResultMessage::Command { wparam }).queued(
                window.intention(handle, ResultMessage::Command { wparam }),
            );
            &&& after.wake_posted
            &&& update_plan(after.pending).copy matches CopyWork::Start(target) && {
                &&& target.button_id == id
                &&& id == 1 ==> target.format == window.default_format
                &&& id >= 100 ==> target.format.position() == id - 100
            }
            &&& after == (ResultWindow { pending: after.pending, wake_posted: true, ..window })
        }),
{
}

/// Closing, minimizing and picking again are carried through in the same way.
pub proof fn clicked_actions_are_queued(
    window: ResultWindow,
    handle: WindowHandle,
    wparam: usize,
)
    requires
        !window.closing,
    ensures
        ({
            let pending = window.queued(
                window.intention(handle, ResultMessage::Command { wparam }),
            ).pending;
            &&& wparam == 2 || wparam == 41 ==> pending.action == Some(ResultAction::Close)
            &&& wparam == 200 ==> pending.action == Some(ResultAction::PickAgain)
            &&& wparam == 40 ==> update_plan(pending).minimize
        }),
        window.queued(window.intention(handle, ResultMessage::Close)).pending.action == Some(
            ResultAction::Close,
        ),
{
}

/// Everything that is queued reaches the round that follows it, and nothing else
/// does; a later request of a kind replaces the earlier one.
pub proof fn queued_intentions_reach_their_round(pending: Pending, intention: Intention)
    ensures
        ({
            let plan = update_plan(pending.with(intention));
            match intention {
                Intention::Act(action) => pending.with(intention).action == Some(action),
                Intention::Copy(target) => plan.copy == CopyWork::Start(target),
                Intention::RetryTimer(timer) => pending.copy is None ==> plan.copy
                    == CopyWork::Retry(timer),
                Intention::FeedbackTimer(timer) => plan.feedback_timer == Some(timer),
                Intention::Dpi(rect) => plan.move_to == Some(rect) && plan.layout,
                Intention::Layout => plan.layout,
                Intention::FitWorkArea => plan.fit_work_area && plan.layout,
                Intention::Scroll(offset) => plan.scroll == Some(offset) && plan.layout
                    && !plan.reveal_focus,
                Intention::Reveal(control) => plan.reveal == Some(control),
                Intention::DefaultStyle => plan.default_style,
                Intention::Minimize => plan.minimize,
            }
        }),
        ({
            let before = update_plan(pending);
            let plan = update_plan(pending.with(intention));
            &&& !(intention is Act) ==> pending.with(intention).action == pending.action
            &&& !(intention is Copy || intention is RetryTimer) ==> plan.copy == before.copy
            &&& !(intention is FeedbackTimer) ==> plan.feedback_timer == before.feedback_timer
            &&& !(intention is Dpi) ==> plan.move_to == before.move_to
            &&& !(intention is FitWorkArea) ==> plan.fit_work_area == before.fit_work_area
            &&& !(intention is Scroll) ==> plan.scroll == before.scroll
            &&& !(intention is Reveal) ==> plan.reveal == before.reveal
            &&& !(intention is DefaultStyle) ==> plan.default_style == before.default_style
            &&& !(intention is Minimize) ==> plan.minimize == before.minimize
            &&& plan.reveal_focus <==> plan.layout && plan.scroll is None
            &&& !(intention is Dpi || intention is Layout || intention is FitWorkArea
                || intention is Scroll) ==> plan.layout == before.layout
        }),
        update_plan(Pending::none()) == (UpdatePlan {
            move_to: None,
            fit_work_area: false,
            scroll: None,
            layout: false,
            reveal_focus: false,
            reveal: None,
            default_style: false,
            minimize: false,
            copy: CopyWork::Nothing,
            feedback_timer: None,
        }),
{
}

/// A running timer is recognised by its number: the one of a retry asks for the
/// retry, the one of a shown success for its end.
pub proof fn running_timers_are_acted_on(window: ResultWindow, handle: WindowHandle, timer: usize)
    requires
        timer != 0,
    ensures
        timer == window.active_timer ==> window.intention(
            handle,
            ResultMessage::Timer { wparam: timer },
        ) == Some(Intention::RetryTimer(timer)),
        timer == window.feedback_timer && timer != window.active_timer ==> window.intention(
            handle,
            ResultMessage::Timer { wparam: timer },
        ) == Some(Intention::FeedbackTimer(timer)),
        window.intention(handle, ResultMessage::Timer { wparam: 0 }) is None,
{
}

/// An ordinary copy that succeeded shows it on the very button that was clicked and
/// leaves the window open; one that failed for good shows the failure. Either way
/// nothing is left in progress.
pub proof fn ended_copies_leave_nothing_running(window: ResultWindow, request: CopyRequest)
    ensures
        window.after_attempt(request, ClipboardOutcome::Copied).0.copy.request is None,
        window.after_attempt(request, ClipboardOutcome::Failed).0.copy.request is None,
        window.after_attempt(request, ClipboardOutcome::Failed).1 == CopyStep::Fail(
            CopyFailure::Other,
        ),
        !window.quick_pick_pending ==> window.after_attempt(request, ClipboardOutcome::Copied) == (
            ResultWindow { copy: CopyState { request: None }, ..window },
            CopyStep::ShowFeedback(request.target),
        ),
        window.after_failure().status_visible,
        window.after_failure().status_tone == Tone::Error,
        window.after_failure().picked == window.picked,
        window.after_failure().default_format == window.default_format,
{
}

/// Wheel travel adds up over messages as it does everywhere: what does not make a full
/// notch is kept, and every notch scrolls on from where earlier ones will lead, up for
/// travel away from the person and down for travel toward them.
pub proof fn results_scroll_with_the_wheel(
    window: ResultWindow,
    handle: WindowHandle,
    wparam: usize,
    dpi: u32,
)
    requires
        window.wf(),
        !window.closing,
        0 < dpi <= 9600,
        window.scroll_computes(handle, ResultMessage::MouseWheel { wparam, dpi }),
    ensures
        ({
            let message = ResultMessage::MouseWheel { wparam, dpi };
            let after = window.noted(message).queued(window.intention(handle, message));
            let total = window.wheel_remainder + wheel_delta(wparam);
            &&& (total - after.wheel_remainder) % 120 == 0
            &&& -120 < after.wheel_remainder < 120
            &&& total >= 0 ==> after.wheel_remainder >= 0
            &&& total <= 0 ==> after.wheel_remainder <= 0
            &&& -120 < total < 120 ==> after.scroll_base() == window.scroll_base()
            &&& total >= 120 ==> after.scroll_base() < window.scroll_base()
            &&& total <= -120 ==> after.scroll_base() > window.scroll_base()
            &&& after.scroll_base() == wheel_target(window.scroll_base(), total, dpi)
        }),
{
    let total = window.wheel_remainder + wheel_delta(wparam);
    wheel_travel_adds_up(total, 0);
    wheel_notches_scroll_alike(window.scroll_base(), total, dpi);
    wheel_notches_scroll_alike(window.scroll_base(), -total, dpi);
}

/// The scroll bar moves the content of its own part alone, from where earlier
/// messages will lead.
pub proof fn results_scroll_with_the_bar(
    window: ResultWindow,
    handle: WindowHandle,
    wparam: usize,
    from_bar: bool,
    info: ScrollInfo,
    dpi: u32,
)
    requires
        !window.closing,
        window.scroll_computes(
            handle,
            ResultMessage::VerticalScroll { wparam, from_bar, info: Some(info), dpi },
        ),
    ensures
        ({
            let message = ResultMessage::VerticalScroll { wparam, from_bar, info: Some(info), dpi };
            let after = window.noted(message).queued(window.intention(handle, message));
            if handle == window.viewport && from_bar {
                after.scroll_base() == bar_target(window.scroll_base(), wparam, info, dpi)
            } else {
                after == window
            }
        }),
{
}

/// The messages that ask for a new layout are those of the window itself: a new DPI
/// brings the rectangle to move to, a new size counts unless it is minimized, and a
/// changed display has the window fitted. Clicks that are no notifications of a click
/// do nothing.
pub proof fn result_messages_ask_for_their_work(
    window: ResultWindow,
    handle: WindowHandle,
    wparam: usize,
    rect: Rect,
)
    ensures
        window.intention(handle, ResultMessage::DpiChanged { suggested: Some(rect) }) == Some(
            Intention::Dpi(rect),
        ),
        window.intention(handle, ResultMessage::DpiChanged { suggested: None }) is None,
        handle != window.viewport ==> {
            &&& window.intention(handle, ResultMessage::Size { wparam }) == (if wparam == 1 {
                None
            } else {
                Some(Intention::Layout)
            })
            &&& window.intention(handle, ResultMessage::DisplayChanged) == Some(
                Intention::FitWorkArea,
            )
        },
        handle == window.viewport ==> window.intention(handle, ResultMessage::Size { wparam })
            is None && window.intention(handle, ResultMessage::DisplayChanged) is None,
        window.intention(handle, ResultMessage::SetDefaultId { wparam }) == Some(
            Intention::DefaultStyle,
        ),
        notification_code(wparam) != 0 ==> window.intention(
            handle,
            ResultMessage::Command { wparam },
        ) is None,
{
}

/// The default button that was set is the one that is told, in the low word under the
/// mark of a known one.
pub proof fn result_default_buttons_are_told(
    window: ResultWindow,
    handle: WindowHandle,
    id: usize,
)
    requires
        id < 0x10000,
    ensures
        window.noted(ResultMessage::SetDefaultId { wparam: id }).reply(
            handle,
            ResultMessage::GetDefaultId,
        ) == ResultReply::Value((0x534b_0000 + id) as isize),
        window.noted(ResultMessage::SetDefaultId { wparam: id }) == (ResultWindow {
            default_id: id,
            ..window
        }),
{
    assert(0x534b_0000usize | id == 0x534b_0000 + id) by (bit_vector)
        requires
            id < 0x10000,
    ;
}

/// Only the status changes its tone; the names of the rows and the place of the sample
/// are muted, and everything else is plain.
pub proof fn result_tones_follow_the_state(window: ResultWindow, other: ResultWindow, id: usize)
    ensures
        window.control_tone(STATUS) == window.status_tone,
        id != STATUS ==> window.control_tone(id) == other.control_tone(id),
        id != STATUS ==> (window.control_tone(id) == Tone::Muted <==> id == SOURCE || 0 <= id
            - ROW_LABEL < 4),
        id != STATUS && window.control_tone(id) != Tone::Muted ==> window.control_tone(id)
            == Tone::Text,
{
}

/// The root paints its border and the scrolling part none; the frame of the system is
/// left away, and neither maximizing nor sizing is passed on to it.
pub proof fn results_draw_their_own_frame(
    window: ResultWindow,
    handle: WindowHandle,
    command: int,
    detail: int,
    wparam: usize,
)
    requires
        wparam as int == command * 16 + detail,
        0 <= command < 0x1000,
        0 <= detail < 16,
    ensures
        handle == window.viewport ==> window.reply(handle, ResultMessage::Paint)
            == (ResultReply::Paint { border_width_dip: 0 }),
        handle != window.viewport ==> window.reply(handle, ResultMessage::Paint)
            == (ResultReply::Paint { border_width_dip: window.border_width_dip }),
        handle != window.viewport ==> window.reply(handle, ResultMessage::NonClientSize)
            == ResultReply::Value(0),
        handle == window.viewport ==> window.reply(handle, ResultMessage::NonClientSize)
            == ResultReply::Default,
        window.reply(handle, ResultMessage::SystemCommand { wparam }) == ResultReply::Value(0)
            <==> command == 0xf03 || command == 0xf00,
        window.reply(handle, ResultMessage::SystemCommand { wparam }) == ResultReply::Default
            <==> command != 0xf03 && command != 0xf00,
{
}

/// A native coordinate is the signed reading of its word.
pub proof fn packed_coordinates_read_back(raw: int)
    requires
        0 <= raw < 0x10000,
    ensures
        -0x8000 <= signed_word(raw) < 0x8000,
        (raw - signed_word(raw)) % 0x10000 == 0,
{
}

/// A copy button names its notation at the end, while it waits and while it tells of a
/// success, which it tells in other words. A failure with a native error ends with that
/// error.
pub proof fn copy_texts_name_what_they_are_about(
    format: ColorFormat,
    detail: Seq<char>,
    language: Language,
)
    ensures
        ({
            let (label, copy, copied) = (
                format.spec_label(),
                copy_name(format, language),
                copied_name(format, language),
            );
            let failed = failure_text(CopyFailure::Other, detail, language);
            &&& copy.len() >= label.len() && copy.skip(copy.len() - label.len()) == label
            &&& copied.len() >= label.len() && copied.skip(copied.len() - label.len()) == label
            &&& copy != copied
            &&& failed.len() > detail.len() && failed.skip(failed.len() - detail.len()) == detail
        }),
        failure_text(CopyFailure::StillBusy, detail, language) != failure_text(
            CopyFailure::RetryUnavailable,
            detail,
            language,
        ),
{
    reveal_strlit("复制 ");
    reveal_strlit("Copy ");
    reveal_strlit("已复制 ");
    reveal_strlit("Copied ");
    reveal_strlit("复制失败：");
    reveal_strlit("Copy failed: ");
    reveal_strlit("剪贴板被占用，无法安排重试。请再次点击复制。");
    reveal_strlit("Clipboard busy; retry unavailable. Click Copy to try again.");
    reveal_strlit("复制失败：剪贴板仍被占用。请再次点击复制。");
    reveal_strlit("Clipboard still busy. Click Copy to try again.");
    let (label, copy, copied) = (
        format.spec_label(),
        copy_name(format, language),
        copied_name(format, language),
    );
    let failed = failure_text(CopyFailure::Other, detail, language);
    assert(copy.skip(copy.len() - label.len()) =~= label);
    assert(copied.skip(copied.len() - label.len()) =~= label);
    assert(failed.skip(failed.len() - detail.len()) =~= detail);
    assert(copy.len() < copied.len());
    let busy = failure_text(CopyFailure::StillBusy, detail, language);
    let unavailable = failure_text(CopyFailure::RetryUnavailable, detail, language);
    match language {
        Language::SimplifiedChinese => {
            assert(busy[0] == '复' && unavailable[0] == '剪');
        },
        Language::English => {
            assert(busy[10] == 's' && unavailable[10] == 'b');
        },
    }
}

/// A busy clipboard uses up one retry of the request in progress and nothing else of
/// the window; without a retry left the copy fails for good.
pub proof fn busy_clipboards_are_tried_again(window: ResultWindow, request: CopyRequest)
    requires
        window.copy.request == Some(request),
    ensures
        ({
            let (after, step) = window.after_attempt(request, ClipboardOutcome::Busy);
            &&& request.retries_left > 0 ==> step == CopyStep::ArmRetry && after == (ResultWindow {
                copy: CopyState {
                    request: Some(
                        CopyRequest {
                            retries_left: (request.retries_left - 1) as u8,
                            ..request
                        },
                    ),
                },
                ..window
            })
            &&& request.retries_left == 0 ==> step == CopyStep::Fail(CopyFailure::StillBusy)
                && after.copy.request is None
            &&& after == (ResultWindow { copy: after.copy, ..window })
        }),
{
}

/// A timer that runs has to be stopped under its own number; zero is none, and the state
/// without a copy or a shown success has none.
pub proof fn running_timers_have_a_number(window: ResultWindow, timer: usize)
    ensures
        running(timer) is Some <==> timer > 0,
        running(timer) matches Some(number) ==> number == timer,
        running(window.without_copy().active_timer) is None,
        window.without_copy().copy.request is None,
        window.without_copy().feedback_timer == window.feedback_timer,
        window.without_copy().copied_target == window.copied_target,
        running(window.without_feedback().feedback_timer) is None,
        window.without_feedback().copied_target is None,
        window.without_feedback().active_timer == window.active_timer,
        window.without_feedback().copy == window.copy,
{
}

/// Messages that ask for work are answered by the window, and the same messages are left
/// to the system where they ask for none: scrolling of another part, a timer that does
/// not run, a changed display in the scrolling part.
pub proof fn results_answer_what_they_act_on(
    window: ResultWindow,
    handle: WindowHandle,
    wparam: usize,
    from_bar: bool,
    info: ScrollInfo,
    dpi: u32,
)
    ensures
        ({
            let scroll = ResultMessage::VerticalScroll { wparam, from_bar, info: Some(info), dpi };
            let timer = ResultMessage::Timer { wparam };
            let display = ResultMessage::DisplayChanged;
            let done = ResultReply::Value(0);
            &&& window.reply(handle, scroll) == (if window.intention(handle, scroll) is Some {
                done
            } else {
                ResultReply::Default
            })
            &&& window.reply(handle, timer) == (if window.intention(handle, timer) is Some {
                done
            } else {
                ResultReply::Default
            })
            &&& window.reply(handle, display) == (if window.intention(handle, display) is Some {
                done
            } else {
                ResultReply::Default
            })
            &&& window.reply(handle, ResultMessage::MouseWheel { wparam, dpi }) == done
            &&& window.reply(handle, ResultMessage::Close) == done
        }),
        notification_code(wparam) == 0 <==> window.reply(handle, ResultMessage::Command { wparam })
            == ResultReply::Value(0),
        window.reply(handle, ResultMessage::DrawItem { wparam }) == ResultReply::DrawSwatch
            <==> wparam == SWATCH,
{
}

/// The pointer drags the window exactly where the colour field does: over the root, in
/// the part that moves it like a caption. Everywhere else of the root it is over the
/// client area, and the scrolling part leaves the question to the system.
pub proof fn pointers_drag_the_colour_field(
    window: ResultWindow,
    handle: WindowHandle,
    point: ScreenPointPx,
    client: Rect,
    dpi: u32,
)
    requires
        96 <= dpi,
    ensures
        ({
            let asked = ResultMessage::HitTest { point: Some(point), client: Some(client), dpi };
            let moves = caption_hit(point, client, dpi, window.header_height)
                == CaptionHit::Caption;
            &&& handle == window.viewport ==> window.reply(handle, asked) == ResultReply::Default
            &&& handle != window.viewport && moves ==> window.reply(handle, asked)
                == ResultReply::Value(2)
            &&& handle != window.viewport && !moves ==> window.reply(handle, asked)
                == ResultReply::Value(1)
        }),
        handle != window.viewport ==> window.reply(
            handle,
            ResultMessage::HitTest { point: None, client: Some(client), dpi },
        ) == ResultReply::Value(1),
{
}

/// A double click on the part that moves the window does nothing, so that it is not
/// maximized; one on any other part is left to the system.
pub proof fn double_clicks_do_not_maximize(
    window: ResultWindow,
    handle: WindowHandle,
    wparam: usize,
    point: ScreenPointPx,
    client: Rect,
    dpi: u32,
)
    requires
        handle != window.viewport,
        window.reply(
            handle,
            ResultMessage::HitTest { point: Some(point), client: Some(client), dpi },
        ) == ResultReply::Value(wparam as isize),
        wparam <= 2,
    ensures
        window.reply(handle, ResultMessage::NonClientDoubleClick { wparam }) == (if caption_hit(
            point,
            client,
            drawing_dpi(dpi),
            window.header_height,
        ) == CaptionHit::Caption {
            ResultReply::Value(0)
        } else {
            ResultReply::Default
        }),
{
}

} // verus!
