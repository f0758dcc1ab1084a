use color_picker::config::{AppearanceConfig, Config, ConfigError, HotkeyConfig};
use color_picker::controls::ControlKind;
use color_picker::drawing::dip;
use color_picker::format::ColorFormat;
use color_picker::geometry::Rect;
use color_picker::hotkey::{find_key, key_name};
use color_picker::i18n::Language;
use color_picker::layout::{reveal_offset, Unavailable};
use color_picker::result_work::WakeFailed;
use color_picker::scrolling::ScrollInfo;
use color_picker::settings::{
    CaptureHint, SettingsIntention, SettingsMessage, SettingsReply, SettingsWindow,
};
use color_picker::settings_controls::{
    border_value_text, draft_error_text, preview_description, settings_controls, settings_font,
    transparency_value_text, Labelled,
};
use color_picker::settings_keys::{KeyEvent, KeyMessage, KeyReply, ESCAPE, TAB};
use color_picker::settings_layout::{
    font_line_height, initial_window, minimum_client, paint_content, preferred_client,
    settings_content_layout, settings_layout, status_view, SettingsClient, StatusView, ALT, APPLY,
    AUTO_COPY, BACKGROUND_TRANSPARENCY, BORDER_WIDTH, CLOSE, CTRL, DETAILS, FORMAT, HINT, KEY,
    LANGUAGE, QUICK_PICK, SHIFT, STATUS, TITLE,
};
use color_picker::settings_preview::AppearancePreview;
use color_picker::settings_work::{
    auto_copy_enabled, initial_controls, preview_outdated, DraftControls, DraftError,
    SettingsAction, SettingsWork,
};
use color_picker::theme::{Theme, Tone};

const ROOT: isize = 1;
const VIEWPORT: isize = 2;
const ENTER: u32 = 0x0d;

fn config() -> Config {
    Config {
        schema_version: 1,
        language: Language::SimplifiedChinese,
        hotkey: HotkeyConfig::default(),
        default_format: ColorFormat::Hex,
        auto_copy_on_pick: false,
        quick_pick: false,
        appearance: AppearanceConfig::default(),
    }
}

fn window() -> SettingsWindow {
    let mut window = SettingsWindow::new(&config(), true).unwrap();
    window.viewport = VIEWPORT;
    window
}

fn click(window: &mut SettingsWindow, id: usize) -> bool {
    let dispatched = window.dispatch(ROOT, SettingsMessage::Command { wparam: id });
    assert_eq!(dispatched.reply, SettingsReply::Value(0));
    dispatched.post_wake
}

fn press(window: &mut SettingsWindow, key: u32) -> KeyReply {
    window.key_dispatch(KeyMessage::Down { key }).reply
}

#[test]
fn settings_content_reflows_without_horizontal_clipping_or_hidden_focus() {
    for width in [260, 300, 364, 430, 459, 460, 480] {
        let geometry = settings_content_layout(width);
        assert_eq!(geometry.controls.len(), 28);
        for (id, r) in geometry.controls {
            assert!(
                r.left >= 0 && r.right <= width && r.right > r.left,
                "{id} at {width}: {r:?}"
            );
            assert!(r.top >= 0 && r.bottom <= geometry.height);
            if matches!(
                id,
                CTRL | ALT
                    | SHIFT
                    | KEY
                    | FORMAT
                    | LANGUAGE
                    | QUICK_PICK
                    | AUTO_COPY
                    | BORDER_WIDTH
                    | BACKGROUND_TRANSPARENCY
            ) {
                let offset = reveal_offset(0, r.top, r.bottom, 80, geometry.height, 8);
                assert!(
                    r.top - offset >= 0 && r.bottom - offset <= 80,
                    "{id} at {width}"
                );
            }
        }
        for r in geometry.panels {
            assert!(r.left >= 0 && r.right <= width && r.bottom <= geometry.height);
        }
    }
}

#[test]
fn full_windows_release_the_scroll_bar_and_stay_balanced() {
    let full = settings_layout(
        SettingsClient {
            width: 500,
            height: 750,
            dpi: 96,
        },
        50,
    )
    .unwrap();
    assert_eq!(full.content_width_dip, 500);
    assert_eq!((full.content_height, full.viewport_height), (686, 686));
    assert_eq!(full.offset, 0);
    let place = |id: usize| full.controls.iter().find(|c| c.0 == id).unwrap().1;
    assert_eq!(place(TITLE).x, 34);
    assert_eq!(place(LANGUAGE).x + place(LANGUAGE).width, 500 - 34);
    assert_eq!(place(LANGUAGE).height, 160);
    assert_eq!(full.choice_height, 24);
    assert_eq!((full.apply.x, full.apply.y), (500 - 16 - 92, 750 - 64 + 8));
    assert_eq!(full.status.width, 500 - 240);
    let short = settings_layout(
        SettingsClient {
            width: 360,
            height: 350,
            dpi: 96,
        },
        5000,
    )
    .unwrap();
    assert_eq!(short.content_width_dip, 340);
    assert_eq!(short.content_height, 1212);
    assert_eq!(short.offset, 1212 - 250);
    assert_eq!(short.close.y, short.status.y + 44);
    assert!(matches!(
        settings_layout(
            SettingsClient {
                width: 280,
                height: 179,
                dpi: 96
            },
            0
        ),
        Err(Unavailable)
    ));
}

/// Left and right end of the header, and whether every control stands inside.
fn header_margins(client: SettingsClient) -> (i32, i32) {
    assert!(client.is_representable());
    let plan = settings_layout(client, 0).unwrap();
    let scrolls = plan.content_height > plan.viewport_height;
    let end = client.width - if scrolls { dip(20, client.dpi) } else { 0 };
    for (id, place) in &plan.controls {
        assert!(
            place.x >= 0 && place.x + place.width <= end,
            "{id} at {} DPI: {place:?}",
            client.dpi
        );
    }
    let place = |id: usize| plan.controls.iter().find(|c| c.0 == id).unwrap().1;
    (
        place(TITLE).x,
        client.width - place(LANGUAGE).x - place(LANGUAGE).width,
    )
}

#[test]
fn settings_header_and_content_recover_after_scrollbar_reflow() {
    for dpi in 96..=9600 {
        let (width, height) = preferred_client(dpi);
        let full = SettingsClient { width, height, dpi };
        let (left, right) = header_margins(full);
        assert!(left > 0 && right > 0 && (left - right).abs() <= 2, "{dpi}");
        let plan = settings_layout(full, 0).unwrap();
        assert_eq!(plan.content_width_dip, 500);
        assert_eq!(plan.content_height, plan.viewport_height);
        let short = SettingsClient {
            width: dip(360, dpi),
            height: dip(350, dpi),
            dpi,
        };
        header_margins(short);
        let plan = settings_layout(short, 0).unwrap();
        assert_eq!(plan.content_width_dip, 340);
        assert!(plan.content_height > plan.viewport_height);
    }
    let margins = |dpi: u32| {
        let (width, height) = preferred_client(dpi);
        header_margins(SettingsClient { width, height, dpi })
    };
    assert_eq!(margins(96), (34, 34));
    assert_eq!(margins(100), (35, 36));
    assert_eq!(margins(125), (44, 44));
}

#[test]
fn focused_settings_are_shown_completely_in_physical_pixels() {
    for dpi in [96, 100, 111, 120, 125, 144, 9600] {
        for (width, height) in [(280, 184), (380, 360), (500, 300)] {
            let client = SettingsClient {
                width: dip(width, dpi),
                height: dip(height, dpi),
                dpi,
            };
            let mut window = window();
            let mut plan = settings_layout(client, 5000).unwrap();
            window.laid_out(&plan);
            for index in 0..plan.controls.len() {
                let (id, place) = plan.controls[index];
                if id < CTRL {
                    continue;
                }
                let shown_height = if id == LANGUAGE || id == FORMAT {
                    plan.choice_height
                } else {
                    place.height
                };
                assert!(window.reveal_is_representable(place.y, place.y + shown_height, dpi));
                if window.reveal_control(place.y, place.y + shown_height, dpi) {
                    plan = settings_layout(client, window.scroll_offset).unwrap();
                    window.laid_out(&plan);
                }
                let y = plan.controls[index].1.y;
                assert!(
                    y >= 0 && y + shown_height <= plan.viewport_height,
                    "{id} at {dpi} DPI"
                );
            }
        }
    }
}

#[test]
fn minimum_windows_lack_a_pixel_only_where_their_parts_round_up() {
    for dpi in 96..=9600 {
        let (width, height) = minimum_client(dpi);
        let laid_out = settings_layout(SettingsClient { width, height, dpi }, 0);
        assert_eq!(laid_out.is_err(), [13, 14, 15, 21].contains(&(dpi % 24)), "{dpi}");
    }
}

#[test]
fn windows_open_in_the_middle_of_their_work_area() {
    assert_eq!(preferred_client(120), (625, 938));
    assert_eq!(preferred_client(100), (521, 782));
    assert_eq!(minimum_client(96), (280, 180));
    let work = Rect {
        left: 0,
        top: 0,
        right: 1920,
        bottom: 1040,
    };
    assert_eq!(
        initial_window(work, (516, 789), (296, 219)),
        Ok(Rect {
            left: 702,
            top: 126,
            right: 1218,
            bottom: 915
        })
    );
    assert_eq!(
        initial_window(
            Rect {
                bottom: 200,
                ..work
            },
            (516, 789),
            (296, 219)
        ),
        Err(Unavailable)
    );
}

#[test]
fn long_messages_go_to_the_details() {
    assert_eq!(status_view(1, 40, 16), StatusView::Hint);
    assert_eq!(status_view(2, 40, 16), StatusView::Hint);
    assert_eq!(status_view(3, 40, 16), StatusView::Details);
    assert_eq!(status_view(2, 10, 16), StatusView::Details);
    assert_eq!(font_line_height(Some(0), 96), 1);
    assert_eq!(font_line_height(Some(15), 96), 15);
    assert_eq!(font_line_height(None, 144), 24);
    let controls = settings_controls();
    let kind = |id: usize| controls.iter().find(|c| c.id == id).unwrap().kind;
    assert_eq!(kind(STATUS), ControlKind::Label);
    assert_eq!(kind(DETAILS), ControlKind::Details);
    let order: Vec<usize> = controls.iter().map(|c| c.id).collect();
    assert_eq!(order.len(), 32);
    assert_eq!(&order[28..], &[STATUS, DETAILS, CLOSE, APPLY]);
}

#[test]
fn cards_scroll_with_the_content() {
    let paint = paint_content(100, 480, 96);
    assert_eq!(paint.canvas, 0x00fa_f7f5);
    assert_eq!(paint.card, 0x00ff_ffff);
    assert_eq!(paint.outline, 0x00f0_e8e2);
    assert_eq!(paint.rounding, 16);
    assert_eq!(
        paint.cards[0],
        Rect {
            left: 24,
            top: -12,
            right: 456,
            bottom: 120
        }
    );
    assert_eq!(paint_content(0, 300, 0).cards[2].bottom, 1062);
}

#[test]
fn key_names_and_keys_belong_together() {
    for (key, name) in [
        (0x30, "0"),
        (0x39, "9"),
        (0x41, "A"),
        (0x43, "C"),
        (0x5a, "Z"),
        (0x70, "F1"),
        (0x79, "F10"),
        (0x7a, "F11"),
    ] {
        assert_eq!(key_name(key).as_deref(), Some(name));
        assert_eq!(find_key(name), Some(key));
    }
    for key in [0, 0x2f, 0x3a, 0x40, 0x5b, 0x6f, 0x7b, 0x1_0041] {
        assert_eq!(key_name(key), None);
    }
}

#[test]
fn unusable_shortcuts_are_refused() {
    for key in ["F12", "F0", "F01", "c", "Ctrl+C", " ", "", "ESC"] {
        let hotkey = HotkeyConfig {
            key: key.into(),
            ..HotkeyConfig::default()
        };
        assert_eq!(hotkey.validate(), Err(ConfigError::UnsupportedKey), "{key}");
    }
    let unmodified = HotkeyConfig {
        ctrl: false,
        alt: false,
        shift: true,
        key: "C".into(),
    };
    assert_eq!(unmodified.validate(), Err(ConfigError::MissingModifier));
    for key in ["A", "Z", "0", "9", "F1", "F10", "F11"] {
        let hotkey = HotkeyConfig {
            key: key.into(),
            ..HotkeyConfig::default()
        };
        assert_eq!(hotkey.validate(), Ok(()));
    }
    assert_eq!(HotkeyConfig::default().virtual_key(), Ok(u32::from(b'C')));
}

#[test]
fn recording_accepts_a_key_and_owns_it_until_released() {
    let mut window = window();
    assert!(click(&mut window, KEY));
    assert!(window.recording);
    assert_eq!(window.capture_hint, CaptureHint::Listening);
    assert!(window.pending.capture && window.pending.focus_key);
    assert_eq!(press(&mut window, 0x11), KeyReply::Consumed);
    assert_eq!(window.capture_hint, CaptureHint::Listening);
    assert_eq!(press(&mut window, ENTER), KeyReply::Consumed);
    assert_eq!(window.capture_hint, CaptureHint::Invalid);
    assert_eq!(press(&mut window, 0x46), KeyReply::Consumed);
    assert_eq!(window.selected_key, 0x46);
    assert!(!window.recording);
    assert_eq!(window.capture_hint, CaptureHint::Accepted);
    // Enter is still held: repeats must not press the default button.
    assert!(window.filter_key_message(
        true,
        KeyEvent::Down {
            key: ENTER,
            repeated: true
        }
    ));
    assert_eq!(
        window.key_dispatch(KeyMessage::DialogCode { key: ENTER }).reply,
        KeyReply::WantAllKeys
    );
    assert!(window.filter_key_message(true, KeyEvent::Up { key: ENTER }));
    assert!(!window.filter_key_message(
        true,
        KeyEvent::Down {
            key: ENTER,
            repeated: false
        }
    ));
    assert!(!window.filter_key_message(true, KeyEvent::Up { key: ENTER }));
    // The release of F went to another window: a fresh press is not lost.
    assert!(!window.filter_key_message(false, KeyEvent::Up { key: 0x46 }));
    assert!(!window.filter_key_message(
        true,
        KeyEvent::Down {
            key: 0x46,
            repeated: false
        }
    ));
    assert_eq!(press(&mut window, 0x46), KeyReply::Default);
}

#[test]
fn leaving_a_recording_keeps_the_old_key() {
    for leave in [
        KeyMessage::FocusLost,
        KeyMessage::Down { key: TAB },
        KeyMessage::Down { key: ESCAPE },
    ] {
        let mut window = window();
        click(&mut window, KEY);
        let reply = window.key_dispatch(leave).reply;
        assert_eq!(
            reply == KeyReply::Consumed,
            leave == (KeyMessage::Down { key: ESCAPE })
        );
        assert!(!window.recording);
        assert_eq!(window.selected_key, 0x43);
        assert_eq!(window.capture_hint, CaptureHint::Cancelled);
    }
    let mut window = window();
    click(&mut window, KEY);
    let inactive = window.dispatch(ROOT, SettingsMessage::Activate { wparam: 0 });
    assert_eq!(inactive.reply, SettingsReply::Default);
    assert!(!window.recording);
    assert_eq!(
        window.key_dispatch(KeyMessage::Character).reply,
        KeyReply::Consumed
    );
    assert_eq!(
        window.key_dispatch(KeyMessage::Destroyed).reply,
        KeyReply::Detach
    );
}

#[test]
fn unchanged_drafts_apply_the_same_settings() {
    let settings = Config {
        language: Language::English,
        hotkey: HotkeyConfig {
            ctrl: true,
            alt: false,
            shift: true,
            key: "F11".into(),
        },
        default_format: ColorFormat::CssRgb,
        auto_copy_on_pick: true,
        appearance: AppearanceConfig {
            border_width_dip: 6,
            background_transparency_percent: 80,
        },
        ..config()
    };
    let mut window = SettingsWindow::new(&settings, true).unwrap();
    let Ok(SettingsAction::Apply(draft)) = window.apply(initial_controls(&settings)) else {
        panic!("valid settings apply");
    };
    assert_eq!(draft.schema_version, 1);
    assert_eq!(draft.language, Language::English);
    assert!(draft.hotkey.ctrl && !draft.hotkey.alt && draft.hotkey.shift);
    assert_eq!(draft.hotkey.key, "F11");
    assert_eq!(draft.default_format, ColorFormat::CssRgb);
    assert!(draft.auto_copy_on_pick && !draft.quick_pick);
    assert_eq!(draft.appearance, settings.appearance);
    let broken = Config {
        hotkey: HotkeyConfig {
            key: "F12".into(),
            ..HotkeyConfig::default()
        },
        ..config()
    };
    assert!(SettingsWindow::new(&broken, true).is_err());
}

#[test]
fn drafts_name_what_is_wrong_with_them() {
    let usual = initial_controls(&config());
    for (controls, error, text) in [
        (
            DraftControls {
                format: -1,
                ..usual
            },
            DraftError::NoChoice,
            Some("Choose a valid option"),
        ),
        (
            DraftControls { format: 4, ..usual },
            DraftError::Format,
            Some("Choose a valid color format"),
        ),
        (
            DraftControls {
                language: -1,
                ..usual
            },
            DraftError::NoChoice,
            Some("Choose a valid option"),
        ),
        (
            DraftControls {
                language: 2,
                ..usual
            },
            DraftError::Language,
            Some("Choose a valid language"),
        ),
        (
            DraftControls {
                border_width: 256,
                ..usual
            },
            DraftError::Appearance,
            Some("Choose a valid appearance value"),
        ),
        (
            DraftControls {
                background_transparency: -1,
                ..usual
            },
            DraftError::Appearance,
            Some("Choose a valid appearance value"),
        ),
        (
            DraftControls {
                ctrl: false,
                alt: false,
                ..usual
            },
            DraftError::Invalid(ConfigError::MissingModifier),
            None,
        ),
        (
            DraftControls {
                border_width: 7,
                ..usual
            },
            DraftError::Invalid(ConfigError::BorderTooWide),
            None,
        ),
        (
            DraftControls {
                background_transparency: 81,
                ..usual
            },
            DraftError::Invalid(ConfigError::BackgroundTooTransparent),
            None,
        ),
    ] {
        let mut window = window();
        assert_eq!(window.apply(controls).err(), Some(error));
        assert_eq!(window.status_tone, Tone::Error);
        assert_eq!(draft_error_text(error, Language::English), text);
    }
    assert_eq!(
        draft_error_text(DraftError::Key, Language::English),
        Some("Choose a valid key")
    );
}

#[test]
fn apply_waits_for_processing_and_needs_permission() {
    let mut editable = window();
    assert!(click(&mut editable, APPLY));
    let Ok(SettingsWork::Update(steps)) = editable.process_pending() else {
        panic!("a draft is due");
    };
    assert!(steps.apply && !steps.layout);
    let mut read_only = SettingsWindow::new(&config(), false).unwrap();
    assert_eq!(read_only.default_id, CLOSE);
    click(&mut read_only, APPLY);
    let Ok(SettingsWork::Update(steps)) = read_only.process_pending() else {
        panic!("nothing is closed");
    };
    assert!(!steps.apply);
    click(&mut read_only, CLOSE);
    assert_eq!(read_only.process_pending(), Ok(SettingsWork::Close));
    assert!(!read_only.queue(SettingsIntention::Layout));
    assert!(!read_only.pending.layout);
    let mut failing = window();
    click(&mut failing, KEY);
    failing.wake_post_failed();
    assert_eq!(failing.process_pending(), Err(WakeFailed));
    let Ok(SettingsWork::Update(steps)) = failing.process_pending() else {
        panic!("the recording is still to be shown");
    };
    assert!(steps.capture && failing.focuses_key(steps));
    failing.key_dispatch(KeyMessage::FocusLost);
    assert!(!failing.focuses_key(steps));
}

#[test]
fn scrolling_counts_full_notches_and_skips_the_focus() {
    let mut window = window();
    window.scroll_offset = 200;
    let wheel = |window: &mut SettingsWindow, delta: usize| {
        window.dispatch(
            VIEWPORT,
            SettingsMessage::MouseWheel {
                wparam: delta << 16,
                dpi: 96,
            },
        )
    };
    assert!(!wheel(&mut window, 80).post_wake);
    assert_eq!(window.pending.scroll, None);
    assert!(wheel(&mut window, 80).post_wake);
    assert_eq!(window.pending.scroll, Some(128));
    assert_eq!(window.wheel_remainder, 40);
    let Ok(SettingsWork::Update(steps)) = window.process_pending() else {
        panic!("a scroll is due");
    };
    assert!(steps.layout && !steps.reveal_focus);
    assert_eq!(steps.scroll, Some(128));
    assert_eq!(window.scroll_offset, 200);
    window.scroll_to(128);
    assert_eq!(window.scroll_offset, 128);
    window.dispatch(ROOT, SettingsMessage::Size { wparam: 0 });
    let Ok(SettingsWork::Update(steps)) = window.process_pending() else {
        panic!("a layout is due");
    };
    assert!(steps.layout && steps.reveal_focus);
    assert_eq!(
        window
            .dispatch(VIEWPORT, SettingsMessage::Size { wparam: 0 })
            .reply,
        SettingsReply::Default
    );
}

#[test]
fn controls_have_their_tones() {
    let mut window = window();
    window.capture_hint = CaptureHint::Invalid;
    for (id, panel, tone) in [
        (TITLE, false, Tone::Text),
        (HINT, true, Tone::Error),
        (STATUS, false, Tone::Muted),
        (CTRL, true, Tone::Text),
        (10, true, Tone::Accent),
        (27, true, Tone::Muted),
        (APPLY, false, Tone::Text),
    ] {
        assert_eq!(
            window
                .dispatch(ROOT, SettingsMessage::ControlColor { id })
                .reply,
            SettingsReply::ControlColor { panel, tone }
        );
    }
    assert_eq!(
        window.dispatch(VIEWPORT, SettingsMessage::Paint).reply,
        SettingsReply::PaintContent {
            offset: 0,
            width: 480
        }
    );
    window.show_status(true);
    assert_eq!(window.status_tone, Tone::Success);
}

#[test]
fn languages_are_switched_once() {
    let mut window = window();
    let labels = window.refresh_language(Language::English).unwrap();
    assert_eq!(labels.len(), 22);
    let text = |of: Labelled| labels.iter().find(|label| label.of == of).unwrap().text;
    assert_eq!(text(Labelled::Window), "Settings — Color Picker");
    assert_eq!(text(Labelled::Control(TITLE)), "Preferences");
    assert_eq!(text(Labelled::Control(APPLY)), "Apply");
    assert_eq!(window.fonts_due(96), (true, true));
    assert!(window.refresh_language(Language::English).is_none());
    assert_eq!(window.fonts_due(96), (false, false));
    let chinese = window.refresh_language(Language::SimplifiedChinese).unwrap();
    assert_eq!(chinese[2].text, "偏好设置");
    assert_eq!(window.fonts_due(96), (false, true));
    assert_eq!(window.fonts_due(144), (true, true));
    assert_eq!(
        settings_font(LANGUAGE, 96, Language::English).face,
        "Microsoft YaHei UI"
    );
    let title = settings_font(TITLE, 96, Language::English);
    assert_eq!((title.height, title.weight, title.face), (-20, 600, "Segoe UI"));
}

#[test]
fn texts_show_the_state() {
    let mut window = window();
    assert_eq!(window.key_button_label(Language::English), "C · Change");
    assert!(window
        .capture_hint_label(Language::English)
        .starts_with("Click, then press"));
    click(&mut window, KEY);
    assert_eq!(
        window.key_button_label(Language::SimplifiedChinese),
        "按下主键…"
    );
    assert_eq!(border_value_text(2), "2 DIP");
    assert_eq!(transparency_value_text(35), "35%");
    assert_eq!(
        preview_description(AppearanceConfig::default(), Language::English),
        "Appearance sample: #49A7C6, X 1280 Y 720, border 2 DIP, transparency 35%"
    );
    assert_eq!(
        window.opening_status(None, Language::English),
        "Click Apply to save changes."
    );
    assert_eq!(window.status_tone, Tone::Muted);
    assert_eq!(window.opening_status(Some("Hello"), Language::English), "Hello");
    assert_eq!(window.status_tone, Tone::Error);
    let mut read_only = SettingsWindow::new(&config(), false).unwrap();
    assert_eq!(
        read_only.opening_status(Some("Hello"), Language::English),
        "Hello\r\nSettings are read-only; changes cannot be applied."
    );
}

#[test]
fn default_buttons_follow_the_dialog() {
    let mut window = window();
    assert!(window
        .default_styles()
        .iter()
        .all(|style| style.default == (style.id == APPLY)));
    window.dispatch(ROOT, SettingsMessage::SetDefaultId { wparam: KEY });
    assert!(window
        .default_styles()
        .iter()
        .all(|style| style.default == (style.id == KEY)));
    assert!(auto_copy_enabled(false) && !auto_copy_enabled(true));
    assert!(window.control_focused(5) == false);
    assert_eq!(window.pending.reveal, Some(5));
}

#[test]
fn examples_and_resources_are_made_anew_when_needed() {
    let appearance = AppearanceConfig::default();
    assert!(preview_outdated(&None, 96, appearance));
    let shown = Some(AppearancePreview::new(96, appearance));
    assert!(!preview_outdated(&shown, 96, appearance));
    assert!(preview_outdated(&shown, 144, appearance));
    let mut theme = Theme::new();
    assert!(theme.icons_due(96));
    theme.icons_made(96);
    assert!(!theme.icons_due(96) && theme.icons_due(144));
    theme.control_drawn(true);
    assert!(!theme.fonts_must_be_retained());
    theme.control_drawn(false);
    theme.control_drawn(true);
    assert!(theme.fonts_must_be_retained());
}

#[test]
fn scroll_positions_beyond_the_coordinates_are_told() {
    let mut window = window();
    window.scroll_offset = i32::MAX - 10;
    let wheel = |delta: i16, dpi: u32| SettingsMessage::MouseWheel {
        wparam: usize::from(delta as u16) << 16,
        dpi,
    };
    assert!(window.scroll_is_representable(VIEWPORT, wheel(120, 96)));
    assert!(!window.scroll_is_representable(VIEWPORT, wheel(-120, 96)));
    assert!(window.scroll_is_representable(VIEWPORT, wheel(-119, 96)));
    assert!(!window.scroll_is_representable(VIEWPORT, wheel(120, 9601)));
    let bar = |command: usize, page: u32| SettingsMessage::VerticalScroll {
        wparam: command,
        from_bar: true,
        info: Some(ScrollInfo {
            page,
            track_position: i32::MAX,
            maximum: 700,
        }),
        dpi: 96,
    };
    assert!(window.scroll_is_representable(VIEWPORT, bar(0, 0)));
    assert!(!window.scroll_is_representable(VIEWPORT, bar(1, 0)));
    assert!(window.scroll_is_representable(VIEWPORT, bar(2, 400)));
    assert!(!window.scroll_is_representable(VIEWPORT, bar(3, 400)));
    assert!(window.scroll_is_representable(VIEWPORT, bar(3, 10)));
    assert!(window.scroll_is_representable(VIEWPORT, bar(5, 400)));
    assert!(window.scroll_is_representable(ROOT, bar(3, 400)));
    window.viewport_height = 100;
    assert!(!window.reveal_is_representable(200, 240, 96));
    assert!(window.reveal_is_representable(0, 40, 96));
}

#[test]
fn settings_are_laid_out_up_to_the_ends_of_the_coordinates() {
    let client = |width, height, dpi| SettingsClient { width, height, dpi };
    assert!(client(i32::MAX, i32::MAX, 96).is_representable());
    let plan = settings_layout(client(i32::MAX, i32::MAX, 96), 0).unwrap();
    assert_eq!(plan.apply.x, i32::MAX - 16 - 92);
    assert!(!client(i32::MAX, 700, 95).is_representable());
    assert!(!client(500, -1, 96).is_representable());
    assert!(!client(500, 750, 0).is_representable());
}
