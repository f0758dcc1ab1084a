use color_picker::color::Rgb8;
use color_picker::config::AppearanceConfig;
use color_picker::controls::ControlKind;
use color_picker::drawing::dip;
use color_picker::format::ColorFormat;
use color_picker::geometry::{Rect, ScreenPointPx};
use color_picker::i18n::Language;
use color_picker::layout::{reveal_offset, Unavailable};
use color_picker::result::{
    packed_point, Intention, ResultAction, ResultMessage, ResultReply, ResultWindow, CAPTION_CLOSE,
    CAPTION_MINIMIZE, CLOSE, COPY_DEFAULT, COPY_ROW, PICK_AGAIN, ROW_LABEL, ROW_VALUE, SOURCE, STATUS, SWATCH,
};
use color_picker::result_controls::{
    control_caption, control_text, result_controls, result_font, result_title, source_text,
};
use color_picker::result_copy::{CopyRequest, CopyState, CopyTarget, CopyTokens};
use color_picker::result_layout::{
    caption_button_rect, caption_hit_test, fit_window, minimum_size, result_content_layout,
    result_layout, work_center, CaptionHit, ResultClient,
};
use color_picker::result_work::{
    copied_label, copy_failure_text, copy_label, ClipboardOutcome, CopyFailure, CopyStep, CopyWork,
    WakeFailed, Work,
};
use color_picker::sample::{PickedColor, SampleKind};
use color_picker::theme::Tone;

fn picked() -> PickedColor {
    PickedColor {
        rgb: Rgb8::new(244, 242, 242),
        source: ScreenPointPx { x: 0, y: 0 },
        kind: SampleKind::Frozen,
    }
}

fn target(format: ColorFormat, button_id: usize) -> CopyTarget {
    CopyTarget { format, button_id }
}

fn quick_result() -> ResultWindow {
    let mut window = ResultWindow::new_with_behavior(
        picked(),
        ColorFormat::CssRgb,
        AppearanceConfig::default(),
        true,
    );
    let opening = window.opened(false);
    assert!(!opening.show && opening.post_wake);
    window
}

fn take_initial_copy(window: &mut ResultWindow) -> CopyRequest {
    let Ok(Work::Update(plan)) = window.process_pending() else {
        panic!("a quick pick begins with a copy");
    };
    let CopyWork::Start(target) = plan.copy else {
        panic!("a quick pick begins with a copy");
    };
    assert_eq!(target.format, ColorFormat::CssRgb);
    window.start_copy(77, target)
}

#[test]
fn narrow_result_rows_fit_and_every_edit_and_copy_can_scroll_into_view() {
    for width in [220, 260, 300, 350, 360, 400] {
        let content = result_content_layout(width);
        for r in std::iter::once(content.source).chain(content.rows.into_iter().flatten()) {
            assert!(r.left >= 0 && r.right <= width && r.right > r.left);
            assert!(r.top >= 0 && r.bottom <= content.height);
            let offset = reveal_offset(0, r.top, r.bottom, 64, content.height, 8);
            assert!(r.top - offset >= 0 && r.bottom - offset <= 64);
        }
    }
}

#[test]
fn small_result_viewport_keeps_actions_visible_and_reveals_focused_rows() {
    for dpi in [96, 100, 110, 111, 120, 125, 144, 168, 192, 9600] {
        for width in [420, 320, 260] {
            let client = ResultClient {
                width: dip(width, dpi),
                height: dip(300, dpi),
                dpi,
                border_width_dip: 6,
                status_visible: true,
            };
            let mut window = quick_result();
            let mut plan = result_layout(client, 0).unwrap();
            window.laid_out(&plan);
            let actions = [plan.default_copy, plan.pick_again, plan.close, plan.status];
            for place in actions {
                assert!(place.x >= 0 && place.x + place.width <= client.width);
                assert!(place.y >= plan.header_height + plan.viewport_height);
                assert!(place.y + place.height <= client.height);
            }
            for row in 0..4 {
                for column in [1, 2] {
                    let place = plan.rows[row][column];
                    let bottom = place.y + place.height;
                    assert!(window.reveal_is_representable(place.y, bottom, dpi));
                    if window.reveal_control(place.y, bottom, dpi) {
                        plan = result_layout(client, window.scroll_offset).unwrap();
                        window.laid_out(&plan);
                    }
                    let place = plan.rows[row][column];
                    assert!(place.x >= 0 && place.x + place.width <= plan.viewport.width);
                    assert!(place.y >= 0 && place.y + place.height <= plan.viewport_height);
                    assert_eq!(
                        [plan.default_copy, plan.pick_again, plan.close, plan.status],
                        actions
                    );
                }
            }
        }
    }
}

#[test]
fn minimum_results_lack_a_pixel_only_where_their_parts_round_up() {
    for dpi in 96..=9600 {
        for status_visible in [false, true] {
            let (width, height) = minimum_size(status_visible, dpi);
            let client = ResultClient {
                width,
                height,
                dpi,
                border_width_dip: 2,
                status_visible,
            };
            let footer = dip(if status_visible { 150 } else { 94 }, dpi);
            let parts = footer + dip(64, dpi) + dip(48, dpi);
            assert_eq!(result_layout(client, 0).is_ok(), parts <= height);
            assert!(parts <= height + 1);
        }
    }
}

#[test]
fn clipboard_contention_has_three_retries_and_then_goes_idle() {
    let mut copy = CopyState::default();
    copy.replace(1, target(ColorFormat::Hex, COPY_DEFAULT));
    for _ in 0..3 {
        assert!(copy.reserve_retry(1));
    }
    assert!(!copy.reserve_retry(1));
    assert!(copy.request.is_none());
}

#[test]
fn replacing_or_canceling_copy_rejects_queued_old_timer() {
    let mut copy = CopyState::default();
    copy.replace(1, target(ColorFormat::Hex, COPY_DEFAULT));
    assert!(copy.reserve_retry(1));
    copy.replace(2, target(ColorFormat::Hsl, COPY_ROW + 3));
    assert!(copy.matching(1).is_none());
    assert!(!copy.reserve_retry(1));
    assert_eq!(copy.matching(2).unwrap().retries_left, 3);
    assert_eq!(
        copy.matching(2).unwrap().target,
        target(ColorFormat::Hsl, COPY_ROW + 3)
    );
    copy.request = None;
    assert!(copy.matching(2).is_none());
    assert!(!copy.reserve_retry(2));
}

#[test]
fn failed_host_copies_open_a_manual_result_that_later_success_keeps_open() {
    let mut window = ResultWindow::new_after_copy_failure(
        picked(),
        ColorFormat::CssRgb,
        AppearanceConfig::default(),
    );
    assert!(!window.quick_pick_pending);
    assert!(window.pending.copy.is_none());
    assert!(window.copy.request.is_none());
    assert!(window.status_visible);
    let request = window.start_copy(5, target(ColorFormat::CssRgb, COPY_DEFAULT));
    assert_eq!(
        window.finish_copy_attempt(request, ClipboardOutcome::Copied),
        CopyStep::ShowFeedback(target(ColorFormat::CssRgb, COPY_DEFAULT))
    );
    assert!(window.hide_status());
    assert!(!window.status_visible);
    assert!(matches!(window.process_pending(), Ok(Work::Update(_))));
}

#[test]
fn quick_copies_that_succeed_close_without_showing() {
    let mut window = quick_result();
    let request = take_initial_copy(&mut window);
    assert_eq!(
        window.finish_copy_attempt(request, ClipboardOutcome::Copied),
        CopyStep::Close { post_wake: true }
    );
    assert!(matches!(
        window.process_pending(),
        Ok(Work::Finish {
            action: ResultAction::Close,
            ..
        })
    ));
    assert!(window.closing);
    assert!(!window.queue(Intention::Layout), "closing windows queue nothing");
}

#[test]
fn quick_copies_retry_hidden_and_then_show_the_failure() {
    let mut window = quick_result();
    let mut request = take_initial_copy(&mut window);
    for timer in 1..=3 {
        assert_eq!(
            window.finish_copy_attempt(request, ClipboardOutcome::Busy),
            CopyStep::ArmRetry
        );
        assert_eq!(window.retry_armed(timer, true), CopyStep::Done);
        assert!(window.quick_pick_pending && !window.status_visible);
        let due = window.retry_due(timer);
        assert_eq!(due.stop_timer, Some(timer));
        request = due.request.unwrap();
    }
    assert_eq!(
        window.finish_copy_attempt(request, ClipboardOutcome::Busy),
        CopyStep::Fail(CopyFailure::StillBusy)
    );
    let failure = window.copy_failed();
    assert!(failure.show && failure.relayout);
    assert!(!window.quick_pick_pending && window.status_visible);
    assert_eq!(window.status_tone, Tone::Error);
}

#[test]
fn other_copy_failures_show_at_once_and_unarmed_timers_fail() {
    let mut window = quick_result();
    let request = take_initial_copy(&mut window);
    assert_eq!(
        window.finish_copy_attempt(request, ClipboardOutcome::Failed),
        CopyStep::Fail(CopyFailure::Other)
    );
    let mut busy = quick_result();
    let request = take_initial_copy(&mut busy);
    assert_eq!(
        busy.finish_copy_attempt(request, ClipboardOutcome::Busy),
        CopyStep::ArmRetry
    );
    assert_eq!(
        busy.retry_armed(9, false),
        CopyStep::Fail(CopyFailure::RetryUnavailable)
    );
    assert_eq!(
        copy_failure_text(CopyFailure::Other, "denied", Language::English),
        "Copy failed: denied"
    );
    assert_eq!(
        copy_failure_text(CopyFailure::StillBusy, "", Language::English),
        "Clipboard still busy. Click Copy to try again."
    );
}

#[test]
fn feedback_ends_with_its_own_timer_only() {
    let mut window = ResultWindow::new(picked());
    let copied = target(ColorFormat::Hex, COPY_DEFAULT);
    assert!(window.feedback_armed(11, copied, true));
    assert_eq!(window.copied_target, Some(copied));
    assert_eq!(window.feedback_due(10), None);
    let reset = window.feedback_due(11).unwrap();
    assert_eq!(reset.stop_timer, Some(11));
    assert_eq!(reset.restore, Some(copied));
    assert_eq!(window.copied_target, None);
    assert_eq!(copy_label(ColorFormat::Rgb, Language::English), "Copy RGB");
    assert_eq!(
        copied_label(ColorFormat::Rgb, Language::SimplifiedChinese),
        "已复制 RGB"
    );
}

#[test]
fn tokens_never_repeat_and_end_with_their_range() {
    let mut tokens = CopyTokens::default();
    let first = tokens.next_copy_token().unwrap();
    let second = tokens.next_copy_token().unwrap();
    assert_ne!(first, second);
    assert!(first != 0 && second != 0);
}

#[test]
fn english_labels_name_every_control() {
    let english = Language::English;
    assert_eq!(result_title(english), "Picked color — Color Picker");
    assert_eq!(control_text(SWATCH, english), "Selected color swatch");
    assert_eq!(
        source_text(&picked(), english),
        "Frozen screen  ·  X 0  Y 0"
    );
    assert_eq!(control_text(PICK_AGAIN, english), "Pick again");
    assert_eq!(control_text(CLOSE, english), "Close");
    assert_eq!(control_text(CAPTION_MINIMIZE, english), "Minimize");
    assert_eq!(control_text(CAPTION_CLOSE, english), "Close window");
    assert_eq!(control_text(SOURCE, english), "");
    let live = PickedColor {
        kind: SampleKind::Live,
        source: ScreenPointPx { x: -12, y: 34 },
        ..picked()
    };
    assert_eq!(
        source_text(&live, Language::SimplifiedChinese),
        "实时屏幕  ·  X -12  Y 34"
    );
}

#[test]
fn every_row_names_shows_and_copies_one_notation() {
    let picked = PickedColor {
        rgb: Rgb8::new(64, 158, 255),
        ..picked()
    };
    let caption = |id| {
        control_caption(
            id,
            &picked,
            ColorFormat::Rgb,
            "hsl(210.5 100% 62.5%)",
            Language::English,
        )
    };
    let rows = [
        ("HEX", "#409EFF", "Copy HEX"),
        ("RGB", "64, 158, 255", "Copy RGB"),
        ("CSS RGB", "rgb(64 158 255)", "Copy CSS RGB"),
        ("HSL", "hsl(210.5 100% 62.5%)", "Copy HSL"),
    ];
    for (row, (name, value, copy)) in rows.into_iter().enumerate() {
        assert_eq!(caption(ROW_LABEL + row), name);
        assert_eq!(caption(ROW_VALUE + row), value);
        assert_eq!(caption(COPY_ROW + row), copy);
    }
    assert_eq!(caption(COPY_DEFAULT), "Copy RGB");
    assert_eq!(caption(SOURCE), "Frozen screen  ·  X 0  Y 0");
    assert_eq!(caption(PICK_AGAIN), "Pick again");
    assert_eq!(caption(STATUS), "");
    assert_eq!(caption(ROW_LABEL + 4), "");
}

#[test]
fn a_new_copy_ends_the_one_before_and_its_feedback() {
    let mut tokens = CopyTokens { next: 7 };
    let mut window = ResultWindow::new(picked());
    let old = target(ColorFormat::Hsl, COPY_ROW + 3);
    window.start_copy(1, old);
    window.active_timer = 5;
    window.feedback_timer = 6;
    window.copied_target = Some(old);
    let new = target(ColorFormat::Hex, COPY_DEFAULT);
    let start = window.begin_copy(&mut tokens, new);
    assert_eq!(start.stop_timer, Some(5));
    assert_eq!(start.feedback.stop_timer, Some(6));
    assert_eq!(start.feedback.restore, Some(old));
    let request = start.request.unwrap();
    assert_eq!((request.token, request.target, request.retries_left), (7, new, 3));
    assert_eq!(window.copy.request, Some(request));
    assert_eq!((window.active_timer, window.feedback_timer), (0, 0));
    assert_eq!(tokens.next, 8);
    let mut spent = CopyTokens { next: usize::MAX };
    let start = window.begin_copy(&mut spent, old);
    assert_eq!(start.request, None);
    assert_eq!(window.copy.request, None);
}

#[test]
fn client_areas_are_laid_out_up_to_the_ends_of_the_coordinates() {
    let huge = client(i32::MAX, 600, 96);
    assert!(huge.is_representable());
    let plan = result_layout(huge, 0).unwrap();
    assert_eq!(plan.close.x, i32::MAX - 16 - 64);
    assert!(!client(i32::MAX, 600, 95).is_representable());
    assert!(!client(-1, 600, 96).is_representable());
    assert!(!client(420, 364, 0).is_representable());
    assert!(!client(420, 364, 9601).is_representable());
}

#[test]
fn controls_are_created_in_tab_order() {
    let controls = result_controls();
    let ids: Vec<usize> = controls.iter().map(|control| control.id).collect();
    assert_eq!(
        ids,
        vec![
            10, 11, 20, 30, 100, 21, 31, 101, 22, 32, 102, 23, 33, 103, 1, 200, 2, 12, 40, 41
        ]
    );
    for control in controls {
        let scrolls = control.id == 11
            || (20..24).contains(&control.id)
            || (30..34).contains(&control.id)
            || (100..104).contains(&control.id);
        assert_eq!(control.in_content, scrolls);
        assert_eq!(
            control.reveals,
            (30..34).contains(&control.id) || (100..104).contains(&control.id)
        );
        assert_eq!(
            control.kind == ControlKind::DefaultButton,
            control.id == COPY_DEFAULT
        );
    }
    let value = result_font(ROW_VALUE, 96, Language::English);
    assert_eq!((value.height, value.weight, value.face), (-14, 400, "Consolas"));
    assert_eq!(result_font(STATUS, 96, Language::English).height, -11);
    assert_eq!(result_font(CLOSE, 144, Language::English).height, -20);
}

#[test]
fn one_button_is_the_default() {
    let mut window = ResultWindow::new(picked());
    let defaults: Vec<usize> = window
        .default_styles()
        .into_iter()
        .filter(|style| style.default)
        .map(|style| style.id)
        .collect();
    assert_eq!(defaults, vec![COPY_DEFAULT]);
    let reply = window.dispatch(1, ResultMessage::SetDefaultId { wparam: CLOSE });
    assert_eq!(reply.reply, ResultReply::Value(1));
    assert!(window.pending.default_style);
    assert!(window
        .default_styles()
        .iter()
        .all(|style| style.default == (style.id == CLOSE)));
    assert_eq!(
        window.dispatch(1, ResultMessage::GetDefaultId).reply,
        ResultReply::Value(0x534b_0002)
    );
}

#[test]
fn clicks_and_timers_queue_their_intentions() {
    let mut window = ResultWindow::new(picked());
    window.viewport = 2;
    let click = |window: &mut ResultWindow, id: usize| {
        window.dispatch(1, ResultMessage::Command { wparam: id })
    };
    assert!(click(&mut window, PICK_AGAIN).post_wake);
    assert_eq!(window.pending.action, Some(ResultAction::PickAgain));
    assert!(!click(&mut window, COPY_ROW + 2).post_wake);
    assert_eq!(
        window.pending.copy,
        Some(target(ColorFormat::CssRgb, COPY_ROW + 2))
    );
    click(&mut window, CAPTION_MINIMIZE);
    assert!(window.pending.minimize);
    // Another notification of the same control is left to the system.
    assert_eq!(
        window
            .dispatch(
                1,
                ResultMessage::Command {
                    wparam: 0x0001_0000 | CLOSE
                }
            )
            .reply,
        ResultReply::Default
    );
    assert_eq!(
        window.dispatch(1, ResultMessage::Timer { wparam: 7 }).reply,
        ResultReply::Default
    );
    window.active_timer = 7;
    window.dispatch(1, ResultMessage::Timer { wparam: 7 });
    assert_eq!(window.pending.timer, Some(7));
    assert!(window.control_focused(33) == false);
    assert_eq!(window.pending.reveal, Some(33));
}

#[test]
fn wheels_keep_what_is_less_than_a_notch() {
    let mut window = ResultWindow::new(picked());
    window.scroll_offset = 200;
    window.dispatch(
        1,
        ResultMessage::MouseWheel {
            wparam: 80 << 16,
            dpi: 96,
        },
    );
    assert_eq!(window.pending.scroll, Some(200));
    assert_eq!(window.wheel_remainder, 80);
    window.dispatch(
        1,
        ResultMessage::MouseWheel {
            wparam: 80 << 16,
            dpi: 96,
        },
    );
    assert_eq!(window.pending.scroll, Some(128));
    assert_eq!(window.wheel_remainder, 40);
}

#[test]
fn failed_wake_ups_are_reported_once_and_lose_nothing() {
    let mut window = ResultWindow::new(picked());
    window.queue(Intention::Layout);
    window.wake_post_failed();
    assert_eq!(window.process_pending(), Err(WakeFailed));
    let Ok(Work::Update(plan)) = window.process_pending() else {
        panic!("the queued layout is still due");
    };
    assert!(plan.layout && plan.reveal_focus);
}

fn client(width: i32, height: i32, dpi: u32) -> ResultClient {
    ResultClient {
        width,
        height,
        dpi,
        border_width_dip: 2,
        status_visible: false,
    }
}

#[test]
fn layouts_keep_the_actions_below_the_scrolling_rows() {
    let plan = result_layout(client(420, 364, 96), 0).unwrap();
    assert_eq!(plan.header_height, 112);
    assert_eq!(plan.viewport_height, 364 - 54 - 112);
    assert_eq!(plan.content_height, 196);
    assert_eq!(
        (plan.close.x, plan.close.y, plan.close.width, plan.close.height),
        (420 - 16 - 64, 364 - 54 + 8, 64, 32)
    );
    assert_eq!(plan.rows[3][1].y, 44 + 3 * 36 + 7);
    let narrow = result_layout(client(240, 206, 96), 1000).unwrap();
    assert_eq!(narrow.header_height, 48);
    assert_eq!(narrow.viewport_height, 64);
    assert_eq!(narrow.offset, 292 - 64);
    assert!(matches!(
        result_layout(client(239, 206, 96), 0),
        Err(Unavailable)
    ));
    assert!(matches!(
        result_layout(client(240, 205, 96), 0),
        Err(Unavailable)
    ));
}

#[test]
fn windows_fit_the_work_area_of_their_source() {
    let work = Rect {
        left: -1920,
        top: 0,
        right: 0,
        bottom: 1040,
    };
    assert_eq!(minimum_size(false, 96), (240, 206));
    assert_eq!(minimum_size(true, 144), (360, 393));
    assert_eq!(
        fit_window(-100, 900, work, false, 96),
        Ok(Rect {
            left: -420,
            top: 676,
            right: 0,
            bottom: 1040
        })
    );
    assert_eq!(
        fit_window(
            0,
            0,
            Rect {
                right: -1700,
                ..work
            },
            false,
            96
        ),
        Err(Unavailable)
    );
    assert_eq!(work_center(work), ScreenPointPx { x: -960, y: 520 });
}

#[test]
fn the_color_field_moves_the_window_except_under_its_buttons() {
    let area = Rect {
        left: 0,
        top: 0,
        right: 420,
        bottom: 364,
    };
    let close = caption_button_rect(false, 420, 96);
    assert_eq!(
        close,
        Rect {
            left: 378,
            top: 6,
            right: 414,
            bottom: 36
        }
    );
    let hit = |x: i32, y: i32| caption_hit_test(ScreenPointPx { x, y }, area, 96, 112);
    assert_eq!(hit(100, 50), CaptionHit::Caption);
    assert_eq!(hit(380, 10), CaptionHit::Client);
    assert_eq!(hit(345, 10), CaptionHit::Client);
    assert_eq!(hit(100, 112), CaptionHit::Client);
    assert_eq!(hit(-1, 50), CaptionHit::Client);
    assert_eq!(
        packed_point(0xfff6_ff9c),
        ScreenPointPx { x: -100, y: -10 }
    );
}
