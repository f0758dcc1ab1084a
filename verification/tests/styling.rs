use color_picker::caption::{caption_tint, draw_caption_button, Stroke, CLOSE_HOT, WHITE};
use color_picker::color::rgb;
use color_picker::geometry::Rect;
use color_picker::i18n::Language;
use color_picker::text::{push_decimal, push_hex_byte, push_natural, wide, wide_terminated};
use color_picker::result::{CAPTION_CLOSE, CAPTION_MINIMIZE, CLOSE};
use color_picker::theme::{
    control_color, control_font, draw_button, scaled_panels, ButtonPlan, Theme, Tone, PRE_PAINT,
    SKIP_DEFAULT,
};

const SELECTED: u32 = 0x1;
const GRAYED: u32 = 0x2;
const DISABLED: u32 = 0x4;
const FOCUS: u32 = 0x10;
const HOT: u32 = 0x40;

fn button() -> Rect {
    Rect {
        left: 10,
        top: 20,
        right: 110,
        bottom: 52,
    }
}

fn plan(
    state: u32,
    enabled: bool,
    id: usize,
    primary_id: usize,
    minimal: bool,
    text: &[u16],
    dpi: u32,
    language: Language,
) -> ButtonPlan {
    draw_button(
        PRE_PAINT, button(), state, enabled, id, primary_id, minimal, text, dpi, language,
    )
    .unwrap()
}

fn units(text: &str) -> Vec<u16> {
    text.encode_utf16().collect()
}

#[test]
fn primary_buttons_are_filled_and_others_outlined() {
    let apply = units("Apply");
    let primary = plan(0, true, 1, 1, false, &apply, 96, Language::English);
    assert_eq!(primary.fill, rgb(0x2563eb));
    assert_eq!(primary.border, primary.fill);
    assert_eq!(primary.text, rgb(0xffffff));
    assert_eq!(primary.background, rgb(0xf5f7fa));
    assert_eq!(primary.corner, 10);
    assert_eq!(primary.label, apply);
    assert!(primary.hide_prefix);
    let hot = plan(HOT, true, 2, 1, false, &apply, 96, Language::English);
    assert_eq!((hot.fill, hot.border), (rgb(0xeff6ff), rgb(0x93b4f3)));
    let pressed = plan(
        SELECTED | HOT,
        true,
        1,
        1,
        true,
        &apply,
        96,
        Language::English,
    );
    assert_eq!(pressed.fill, rgb(0x0b101a));
    assert_eq!(pressed.background, rgb(0xffffff));
}

#[test]
fn disabled_buttons_neither_react_nor_show_focus() {
    let text = units("Apply");
    for state in [GRAYED, DISABLED, DISABLED | HOT | SELECTED | FOCUS] {
        let drawn = plan(state, true, 1, 1, false, &text, 96, Language::English);
        assert_eq!(drawn.fill, rgb(0xe9edf3));
        assert_eq!(drawn.text, rgb(0x94a3b8));
        assert_eq!(drawn.focus, None);
    }
    let unusable = plan(FOCUS, false, 1, 1, false, &text, 96, Language::English);
    assert_eq!(unusable.fill, rgb(0xe9edf3));
    let focused = plan(FOCUS, true, 1, 1, false, &text, 144, Language::English);
    assert_eq!(
        focused.focus.unwrap().rect,
        Rect {
            left: 16,
            top: 26,
            right: 104,
            bottom: 46
        }
    );
}

#[test]
fn notifications_are_answered_only_before_painting_and_after_a_restore() {
    let text = units("Apply");
    for stage in [0, 2, 3, 0x10001] {
        let plan = draw_button(
            stage,
            button(),
            FOCUS,
            true,
            1,
            1,
            false,
            &text,
            96,
            Language::English,
        );
        assert!(plan.is_none());
    }
    let mut theme = Theme::new();
    assert_eq!(theme.control_drawn(true), Some(4));
    assert!(!theme.fonts_must_be_retained());
    assert_eq!(theme.control_drawn(false), None);
    assert!(theme.fonts_must_be_retained());
    assert_eq!(theme.control_drawn(true), Some(SKIP_DEFAULT));
    assert!(theme.fonts_must_be_retained());
}

#[test]
fn only_the_two_caption_buttons_are_drawn_as_such() {
    let draw = |stage, id| draw_caption_button(stage, id, 0, button(), 0, WHITE, 96);
    assert!(draw(PRE_PAINT, CLOSE).is_none());
    assert!(draw(2, CAPTION_CLOSE).is_none());
    assert_eq!(draw(PRE_PAINT, CAPTION_CLOSE).unwrap().answer, SKIP_DEFAULT);
    assert!(draw(PRE_PAINT, CAPTION_MINIMIZE).unwrap().second.is_none());
}

#[test]
fn row_buttons_show_short_words() {
    let copy = units("Copy CSS RGB");
    let row = plan(0, true, 102, 1, true, &copy, 96, Language::English);
    assert_eq!(row.label, units("Copy"));
    assert_eq!(row.text, rgb(0x64748b));
    let copied = units("Copied CSS RGB");
    let done = plan(0, true, 102, 1, true, &copied, 96, Language::English);
    assert_eq!(done.label, units("Copied"));
    let primary = plan(0, true, 1, 1, true, &copy, 96, Language::English);
    assert_eq!(primary.label, copy);
}

#[test]
fn controls_take_their_colors_from_the_panel_or_the_canvas() {
    let panel = control_color(true, Tone::Error);
    assert_eq!((panel.text, panel.background), (rgb(0xc2413b), rgb(0xffffff)));
    assert!(panel.panel);
    let canvas = control_color(false, Tone::Success);
    assert_eq!(
        (canvas.text, canvas.background),
        (rgb(0x16815d), rgb(0xf5f7fa))
    );
    let mono = control_font(14, 120, 400, true, Language::English);
    assert_eq!((mono.height, mono.face), (-18, "Consolas"));
    assert_eq!(
        scaled_panels(
            &[Rect {
                left: 24,
                top: 88,
                right: 456,
                bottom: 220
            }],
            144
        ),
        vec![Rect {
            left: 36,
            top: 132,
            right: 684,
            bottom: 330
        }]
    );
}

#[test]
fn caption_buttons_mix_their_ink_into_the_color() {
    assert_eq!(caption_tint(0x0000_0000, WHITE, 10), 0x0019_1919);
    assert_eq!(caption_tint(0x0012_3456, 0x00ab_cdef, 0), 0x0012_3456);
    assert_eq!(caption_tint(0x0012_3456, 0x00ab_cdef, 100), 0x00ab_cdef);
    let rect = Rect {
        left: 378,
        top: 6,
        right: 414,
        bottom: 36,
    };
    let close = draw_caption_button(PRE_PAINT, CAPTION_CLOSE, HOT, rect, 0, WHITE, 96).unwrap();
    assert_eq!((close.fill, close.ink), (CLOSE_HOT, WHITE));
    assert_eq!(
        close.first,
        Stroke {
            from_x: 392,
            from_y: 17,
            to_x: 401,
            to_y: 26
        }
    );
    assert!(close.second.is_some());
    let minimize = draw_caption_button(
        PRE_PAINT,
        CAPTION_MINIMIZE,
        DISABLED | FOCUS,
        rect,
        0,
        WHITE,
        96,
    )
    .unwrap();
    assert_eq!((minimize.fill, minimize.ink), (0, 0x0066_6666));
    assert_eq!((minimize.second, minimize.focus), (None, None));
    let focused = draw_caption_button(PRE_PAINT, CAPTION_MINIMIZE, FOCUS, rect, 0, WHITE, 96).unwrap();
    assert_eq!(
        focused.focus,
        Some(Rect {
            left: 380,
            top: 8,
            right: 412,
            bottom: 34
        })
    );
}

#[test]
fn texts_are_written_in_decimal_hexadecimal_and_utf16() {
    let mut text = String::new();
    push_decimal(&mut text, i32::MIN);
    assert_eq!(text, "-2147483648");
    push_natural(&mut text, 100);
    push_hex_byte(&mut text, 0xaf);
    assert_eq!(text, "-2147483648100AF");
    for sample in ["", "HEX", "取色 — 😀"] {
        let units: Vec<u16> = sample.encode_utf16().collect();
        assert_eq!(wide(sample), units);
        let mut terminated = units.clone();
        terminated.push(0);
        assert_eq!(wide_terminated(sample), terminated);
    }
}
