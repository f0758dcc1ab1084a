use color_picker::color::Rgb8;
use color_picker::config::AppearanceConfig;
use color_picker::drawing::{
    border_thickness, bottom_right_border, dip, invalid_selection, live_preview_height_dip,
    overlay_font, overlay_font_for, Content, DrawStep, OverlayFont, Palette, Surface,
};
use color_picker::geometry::Rect;
use color_picker::i18n::Language;

fn surface(width: i32, height: i32, dpi: u32, border_width_dip: u8) -> Surface {
    Surface::new(
        width,
        height,
        dpi,
        false,
        AppearanceConfig {
            border_width_dip,
            background_transparency_percent: 0,
        },
    )
}

fn covers(rect: &Rect, x: i32, y: i32) -> bool {
    x >= rect.left && x < rect.right && y >= rect.top && y < rect.bottom
}

/// The colour of a pixel. Texts are shorter than their field: they start at its
/// left, and keep at least `inset` pixels from its upper and lower end and four
/// times as many from its right one. Everything between counts as text.
fn pixel(steps: &[DrawStep], inset: i32, x: i32, y: i32) -> u32 {
    let mut found = 0;
    for step in steps {
        match step {
            DrawStep::Fill { rect, color } if covers(rect, x, y) => found = *color,
            DrawStep::Backdrop { rect, fallback } if covers(rect, x, y) => found = *fallback,
            DrawStep::Label { rect, color, .. }
                if covers(rect, x, y - inset) && covers(rect, x + 4 * inset, y + inset) =>
            {
                found = *color
            }
            _ => {}
        }
    }
    found
}

#[test]
fn wide_live_borders_leave_both_text_lines_intact_at_common_dpis() {
    let content = Content {
        rgb: Some(Rgb8::new(0x49, 0xa7, 0xc6)),
        color_text: "#49A7C6".encode_utf16().collect(),
        coordinates: "X -12345  Y -67890".encode_utf16().collect(),
    };
    assert_eq!(live_preview_height_dip(2), 38);
    for dpi in [96, 120, 144, 168, 192] {
        let width = dip(168, dpi);
        let reference = surface(width, dip(44, dpi), dpi, 0).draw(&content);
        for border in 0..=6 {
            let height = dip(live_preview_height_dip(border), dpi);
            let actual = surface(width, height, dpi, border).draw(&content);
            let mut text_pixels = [0, 0];
            for y in dip(2, dpi)..dip(37, dpi) {
                for x in dip(44, dpi)..dip(164, dpi) {
                    let expected = pixel(&reference, dip(1, dpi), x, y);
                    if expected != Palette::Panel.color() {
                        let line = usize::from(y >= dip(21, dpi));
                        text_pixels[line] += 1;
                        assert_eq!(
                            pixel(&actual, dip(1, dpi), x, y),
                            expected,
                            "border {border} at {dpi} DPI covered text at ({x}, {y})"
                        );
                    }
                }
            }
            assert!(
                text_pixels.into_iter().all(|count| count > 20),
                "both lines must render"
            );
            if border > 0 {
                assert_eq!(
                    pixel(&actual, 0, width - 1, height / 2),
                    Palette::Border.color()
                );
                assert_eq!(
                    pixel(&actual, 0, width / 2, height - 1),
                    Palette::Border.color()
                );
            }
        }
    }
}

#[test]
fn live_previews_grow_with_wide_borders_only() {
    for (border, height) in [(0, 38), (2, 38), (3, 39), (6, 42)] {
        assert_eq!(live_preview_height_dip(border), height);
    }
}

#[test]
fn borders_follow_the_bottom_and_the_right_edge() {
    assert_eq!(border_thickness(100, 50, 144, 2), 3);
    assert_eq!(border_thickness(100, 50, 144, 0), 0);
    assert_eq!(border_thickness(2, 50, 96, 6), 2);
    assert_eq!(bottom_right_border(100, 50, 96, 0), None);
    assert_eq!(
        bottom_right_border(100, 50, 96, 2),
        Some((
            Rect {
                left: 0,
                top: 48,
                right: 100,
                bottom: 50
            },
            Rect {
                left: 98,
                top: 0,
                right: 100,
                bottom: 50
            }
        ))
    );
}

#[test]
fn empty_samples_show_a_neutral_swatch_and_no_text() {
    let steps = surface(168, 38, 96, 2).draw(&Content {
        rgb: None,
        color_text: Vec::new(),
        coordinates: Vec::new(),
    });
    assert_eq!(pixel(&steps, 0, 10, 10), Palette::Empty.color());
    assert!(!steps
        .iter()
        .any(|step| matches!(step, DrawStep::Label { .. })));
}

#[test]
fn overlay_fonts_follow_the_language() {
    let font = overlay_font(13, 600, 144, Language::English);
    assert_eq!((font.height, font.weight, font.face), (-20, 600, "Segoe UI"));
    assert_eq!(
        overlay_font(13, 600, 144, Language::SimplifiedChinese).face,
        "Microsoft YaHei UI"
    );
}

#[test]
fn small_overlay_fonts_do_not_grow_with_the_display() {
    let fonts = [
        OverlayFont::Heading,
        OverlayFont::Body,
        OverlayFont::Compact,
        OverlayFont::Narrow,
    ];
    for (dpi, heights) in [
        (96, [-13, -10, -8, -8]),
        (192, [-26, -20, -12, -8]),
    ] {
        let requests = fonts.map(|font| overlay_font_for(font, dpi, Language::English));
        assert_eq!(requests.map(|request| request.height), heights);
        assert_eq!(requests.map(|request| request.weight), [600, 400, 400, 400]);
        assert!(requests.iter().all(|request| request.face == "Segoe UI"));
    }
}

#[test]
fn failed_selections_are_recognized() {
    assert!(invalid_selection(0));
    assert!(invalid_selection(-1));
    assert!(!invalid_selection(1));
}
