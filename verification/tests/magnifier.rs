use color_picker::color::Rgb8;
use color_picker::config::{AppearanceConfig, ConfigError};
use color_picker::drawing::{dip, overlay_font_for, DrawStep, OverlayFont, OverlayText};
use color_picker::footer::{
    footer_fonts, footer_labels, footer_swatch_width, smallest_width, widest_hex, Footer,
    FooterMeasure, TextSize,
};
use color_picker::format::{format_color, ColorFormat};
use color_picker::geometry::{freeze_rect, Rect, ScreenPointPx, ScreenRectPx};
use color_picker::i18n::Language;
use color_picker::magnifier::{
    clipped_frame_edges, compact_rows, footer_height, inside_uncovered_window, local_rect,
    window_layout, LayoutFault,
};
use color_picker::magnifier_window::{
    FreezeError, MagnifierFault, MagnifierWindow, ScaleStep, Surface,
};
use color_picker::sample::SampleKind;
use color_picker::zoom::{CachePoint, FrozenImage, ImageError, ZoomScale, ZoomView};

fn image(width: u32, height: u32) -> FrozenImage {
    FrozenImage {
        origin: ScreenPointPx { x: 0, y: 0 },
        width,
        height,
        stride_bytes: width as usize * 4,
        bgrx: vec![0; width as usize * height as usize * 4],
    }
}

fn measures() -> [FooterMeasure; 4] {
    let measure = |scale: i32| FooterMeasure {
        hex: TextSize {
            cx: 10 * scale,
            cy: 12,
        },
        position: TextSize {
            cx: 20 * scale,
            cy: 12,
        },
        scale: TextSize {
            cx: 4 * scale,
            cy: 12,
        },
    };
    [measure(6), measure(5), measure(4), measure(3)]
}

fn opaque_surface(width: i32, height: i32, dpi: u32, border_width_dip: u8) -> Surface {
    Surface::new(
        width,
        height,
        dpi,
        false,
        AppearanceConfig {
            border_width_dip,
            background_transparency_percent: 0,
        },
    )
}

/// The picture that the steps draw; texts are left out.
struct Picture {
    width: i32,
    height: i32,
    pixels: Vec<u32>,
}

impl Picture {
    fn of(window: &MagnifierWindow) -> Picture {
        let surface = window.surface.as_ref().unwrap();
        let view = window.view.as_ref().unwrap();
        let mut picture = Picture {
            width: surface.width,
            height: surface.height,
            pixels: vec![0; (surface.width * surface.height) as usize],
        };
        for step in window.draw(&measures()) {
            match step {
                DrawStep::Fill { rect, color } => picture.fill(rect, |_, _| color),
                DrawStep::Backdrop { rect, fallback } => picture.fill(rect, |_, _| fallback),
                DrawStep::Pixels { dest, source, .. } => {
                    let x_scale = (dest.right - dest.left) / source.width as i32;
                    let y_scale = (dest.bottom - dest.top) / source.height as i32;
                    picture.fill(dest, |x, y| {
                        view.image()
                            .pixel_at(
                                source.x + ((x - dest.left) / x_scale) as u32,
                                source.y + ((y - dest.top) / y_scale) as u32,
                            )
                            .unwrap()
                            .to_color_ref()
                    });
                }
                DrawStep::Label { .. } => {}
            }
        }
        picture
    }

    fn fill(&mut self, rect: Rect, color: impl Fn(i32, i32) -> u32) {
        for y in rect.top.max(0)..rect.bottom.min(self.height) {
            for x in rect.left.max(0)..rect.right.min(self.width) {
                self.pixels[(y * self.width + x) as usize] = color(x, y);
            }
        }
    }

    fn at(&self, x: i32, y: i32) -> u32 {
        self.pixels[(y * self.width + x) as usize]
    }
}

fn edge_state(focus: ScreenPointPx, monitor: ScreenRectPx) -> MagnifierWindow {
    let work = ScreenRectPx {
        bottom: monitor.bottom - 40,
        ..monitor
    };
    let capture = freeze_rect(focus, monitor).unwrap();
    let mut snapshot = image(capture.width(), capture.height());
    snapshot.origin = ScreenPointPx {
        x: capture.left,
        y: capture.top,
    };
    for y in 0..snapshot.height {
        for x in 0..snapshot.width {
            let offset = y as usize * snapshot.stride_bytes + x as usize * 4;
            snapshot.bgrx[offset..offset + 4].copy_from_slice(&[17, y as u8 + 1, x as u8 + 1, 0]);
        }
    }
    let (bounds, viewport) =
        window_layout(focus, work, 96, snapshot.width, snapshot.height).unwrap();
    let view = ZoomView::new(
        snapshot,
        viewport,
        ZoomScale::X4,
        CachePoint {
            x: (focus.x - capture.left) as u32,
            y: (focus.y - capture.top) as u32,
        },
    )
    .unwrap();
    let surface = opaque_surface(bounds.width() as i32, bounds.height() as i32, 96, 2);
    let mut state = MagnifierWindow {
        view: Some(view),
        surface: Some(surface),
        bounds: Some(bounds),
        visible: true,
        ..MagnifierWindow::default()
    };
    let selected = state.view.as_ref().unwrap().selected();
    // Only the hover follows the cursor: the view keeps its initial anchor.
    state.hover = state.view.as_ref().unwrap().hit_test(focus);
    assert_eq!(
        state.hit_test(focus).is_some(),
        state.hover.is_some(),
        "the cursor lies on an uncovered pixel"
    );
    state.refresh_text();
    assert_eq!(state.view.as_ref().unwrap().selected(), selected);
    state
}

fn follow(state: &mut MagnifierWindow, point: ScreenPointPx) {
    state.update_hover(point).unwrap();
    state.refresh_text();
}

fn assert_hover_frame(state: &MagnifierWindow, point: ScreenPointPx) {
    let view = state.view.as_ref().unwrap();
    let bounds = state.bounds.unwrap();
    let picture = Picture::of(state);
    let clicked = state.hit_test(point);
    assert_eq!(
        state.hover.map(|pixel| (pixel.rgb, pixel.source)),
        clicked.map(|picked| (picked.rgb, picked.source)),
        "click mapping must agree"
    );
    assert_eq!(state.footer.rgb, state.hover.map(|pixel| pixel.rgb));
    if let Some(pixel) = state.hover {
        assert_eq!(clicked.unwrap().kind, SampleKind::Frozen);
        assert_eq!(
            String::from_utf16(&state.footer.hex).unwrap(),
            format_color(pixel.rgb, ColorFormat::Hex, ""),
        );
        assert_eq!(
            String::from_utf16(&state.footer.coordinates).unwrap(),
            format!("X {}  Y {}", pixel.source.x, pixel.source.y),
        );
        let center = view.cell_center(pixel.cache).unwrap();
        let scale = view.scale().factor() as i32;
        assert_eq!(
            picture.at(
                center.x - bounds.left - scale / 2 + 1,
                center.y - bounds.top - scale / 2
            ),
            0x00ff_ffff,
            "the frame must surround the hovered pixel",
        );
    } else {
        assert_eq!(String::from_utf16(&state.footer.hex).unwrap(), "—");
        // No white pixels occur in the fixture or grid. Any white in the image
        // would therefore be a stale current-pixel frame.
        let drawn = local_rect(view.drawn_rect(), bounds);
        for y in drawn.top..drawn.bottom {
            for x in drawn.left..drawn.right - 2 {
                assert_ne!(picture.at(x, y), 0x00ff_ffff);
            }
        }
    }
}

#[test]
fn edge_highlight_uses_hover_instead_of_the_initial_zoom_anchor() {
    for monitor in [
        ScreenRectPx {
            left: 0,
            top: 0,
            right: 1920,
            bottom: 1080,
        },
        ScreenRectPx {
            left: -1920,
            top: -1080,
            right: 0,
            bottom: 0,
        },
    ] {
        for (x, y) in [
            (20, 500),
            (500, 20),
            (20, 20),
            (1900, 20),
            (20, 1000),
            (1900, 1000),
        ] {
            let focus = ScreenPointPx {
                x: monitor.left + x,
                y: monitor.top + y,
            };
            let state = edge_state(focus, monitor);
            let hover = state.hover.unwrap();
            if x == 20 && y == 500 {
                assert_eq!(hover.cache.x, 5);
                assert_eq!(state.view.as_ref().unwrap().selected().x, 20);
            }
            assert_hover_frame(&state, focus);
        }
    }
}

#[test]
fn hover_frame_and_footer_follow_zoom_clamping_exit_and_reentry() {
    let focus = ScreenPointPx { x: 20, y: 500 };
    let mut state = edge_state(
        focus,
        ScreenRectPx {
            left: 0,
            top: 0,
            right: 1920,
            bottom: 1080,
        },
    );
    for scale in [
        ZoomScale::X8,
        ZoomScale::X16,
        ZoomScale::X32,
        ZoomScale::X16,
        ZoomScale::X8,
        ZoomScale::X4,
    ] {
        let drawn = state.view.as_ref().unwrap().drawn_rect();
        let point = ScreenPointPx {
            x: drawn.left + 3,
            y: drawn.top + 3,
        };
        state.view.as_mut().unwrap().change_scale(scale, point);
        follow(&mut state, point);
        assert_hover_frame(&state, point);
    }
    let bounds = state.bounds.unwrap();
    let viewport = state.view.as_ref().unwrap().viewport();
    for point in [
        ScreenPointPx {
            x: bounds.left + 20,
            y: viewport.bottom + 1,
        },
        ScreenPointPx {
            x: bounds.right - 1,
            y: bounds.top + 20,
        },
        ScreenPointPx {
            x: bounds.left - 1,
            y: bounds.top + 20,
        },
        ScreenPointPx {
            x: bounds.left + 20,
            y: bounds.top + 20,
        },
    ] {
        follow(&mut state, point);
        assert_hover_frame(&state, point);
    }
    let prior_hover = state.hover.unwrap();
    let same = state
        .hit_test(ScreenPointPx {
            x: bounds.left + 21,
            y: bounds.top + 21,
        })
        .unwrap();
    assert_eq!(
        (same.rgb, same.source),
        (prior_hover.rgb, prior_hover.source),
        "small movement within the same source cell keeps the target",
    );
    let other = ScreenPointPx {
        x: bounds.left + 100,
        y: bounds.top + 100,
    };
    assert_ne!(
        state.hit_test(other).map(|picked| picked.source),
        Some(prior_hover.source),
        "clicks remap without waiting for hover"
    );
}

#[test]
fn footer_tracks_hover_source_coordinates_across_pixels_and_zoom() {
    let mut snapshot = image(65, 65);
    snapshot.origin = ScreenPointPx { x: -1800, y: -500 };
    let viewport = ScreenRectPx {
        left: -900,
        top: 200,
        right: -640,
        bottom: 460,
    };
    let view = ZoomView::new(
        snapshot,
        viewport,
        ZoomScale::X4,
        CachePoint { x: 32, y: 32 },
    )
    .unwrap();
    let mut state = MagnifierWindow {
        view: Some(view),
        ..MagnifierWindow::default()
    };
    let anchor = ScreenPointPx { x: -770, y: 330 };
    for scale in [ZoomScale::X4, ZoomScale::X8, ZoomScale::X16, ZoomScale::X32] {
        state.view.as_mut().unwrap().change_scale(scale, anchor);
        for offset in [0, scale.factor() as i32] {
            let cursor = ScreenPointPx {
                x: anchor.x + offset,
                ..anchor
            };
            state.hover = state.view.as_mut().unwrap().select_at(cursor);
            let pixel = state.hover.unwrap();
            state.refresh_text();
            assert_ne!(
                pixel.source, cursor,
                "coordinates refer to the frozen source"
            );
            assert_eq!(
                String::from_utf16(&state.footer.coordinates).unwrap(),
                format!(
                    "X {}  Y {}",
                    -1800 + pixel.cache.x as i32,
                    -500 + pixel.cache.y as i32
                )
            );
            assert_eq!(
                String::from_utf16(&state.footer.scale).unwrap(),
                format!("{}×", scale.factor())
            );
        }
    }
    state.hover = None;
    state.refresh_text();
    assert_eq!(
        String::from_utf16(&state.footer.coordinates).unwrap(),
        "X —  Y —"
    );
    assert_eq!(String::from_utf16(&state.footer.hex).unwrap(), "—");
}

#[test]
fn footers_fit_every_width_with_measured_texts() {
    for dpi in [96, 120, 144, 168, 192] {
        for width in [132, 260] {
            for border in [0, dip(6, dpi)] {
                let swatch = footer_swatch_width(width, dpi, border, 90);
                let (hex, scale, position) = footer_labels(width, dpi, border, swatch, &measures());
                assert!(hex.rect.right < position.rect.left);
                for label in [hex, scale, position] {
                    if !label.shown {
                        continue;
                    }
                    assert!(label.rect.left >= 0 && label.rect.right <= width - border);
                    assert!(label.rect.bottom <= footer_height(dpi) - border);
                }
            }
        }
    }
    assert_eq!(footer_swatch_width(260, 96, 2, 90), 26);
    assert_eq!(footer_swatch_width(132, 96, 2, 90), 16);
    assert_eq!(footer_swatch_width(96, 96, 0, 90), 0);
}

/// The size of a text in a font whose characters are half as wide as they are high.
fn text_size(font: OverlayFont, dpi: u32, text: &[u16]) -> TextSize {
    let height = -overlay_font_for(font, dpi, Language::English).height;
    TextSize {
        cx: text.len() as i32 * (height / 2),
        cy: height + height / 3,
    }
}

#[test]
fn single_row_footer_fits_the_actual_pixel_width_at_supported_desktop_scaling() {
    let footer = Footer {
        rgb: Some(Rgb8::new(221, 221, 221)),
        hex: "#DDDDDD".encode_utf16().collect(),
        scale: "32×".encode_utf16().collect(),
        coordinates: "X -65535  Y -65535".encode_utf16().collect(),
        compact_coordinates: "X-65535 Y-65535".encode_utf16().collect(),
    };
    assert_eq!(widest_hex(), footer.hex);
    for dpi in [96, 120, 144, 168, 192] {
        let measures = [0, 1, 2, 3].map(|choice| {
            let fonts = footer_fonts(choice);
            FooterMeasure {
                hex: text_size(fonts.hex, dpi, &widest_hex()),
                position: text_size(fonts.info, dpi, footer.text(fonts.position)),
                scale: text_size(fonts.info, dpi, footer.text(OverlayText::Scale)),
            }
        });
        for width in [132, 260] {
            for border in [0, dip(6, dpi)] {
                let swatch = footer_swatch_width(width, dpi, border, smallest_width(&measures));
                let (hex, scale, position) = footer_labels(width, dpi, border, swatch, &measures);
                assert!(hex.rect.right < position.rect.left);
                for label in [hex, scale, position] {
                    if !label.shown {
                        continue;
                    }
                    let size = text_size(label.font, dpi, footer.text(label.text));
                    assert!(
                        size.cx <= label.rect.right - label.rect.left,
                        "text clips at width {width}, {dpi} DPI"
                    );
                    assert!(size.cy <= label.rect.bottom - label.rect.top);
                    assert!(label.rect.left >= 0 && label.rect.right <= width - border);
                    assert!(label.rect.bottom <= footer_height(dpi) - border);
                }
            }
        }
    }
}

#[test]
fn font_choices_go_from_readable_to_small() {
    let choices = [0, 1, 2, 3].map(footer_fonts);
    assert_eq!(
        choices.map(|fonts| (fonts.hex, fonts.info)),
        [
            (OverlayFont::Heading, OverlayFont::Body),
            (OverlayFont::Body, OverlayFont::Body),
            (OverlayFont::Compact, OverlayFont::Compact),
            (OverlayFont::Narrow, OverlayFont::Narrow),
        ]
    );
    assert_eq!(choices[0].position, OverlayText::Coordinates);
    assert!(choices[1..]
        .iter()
        .all(|fonts| fonts.position == OverlayText::CompactCoordinates));
    assert_eq!(smallest_width(&measures()), 90);
}

#[test]
fn rendered_rows_follow_upper_and_lower_cursor_anchors_at_every_zoom() {
    let bounds = ScreenRectPx {
        left: -500,
        top: -300,
        right: -240,
        bottom: 37,
    };
    let viewport = ScreenRectPx {
        bottom: -40,
        ..bounds
    };
    for anchor_y in [52, 208] {
        let mut snapshot = image(65, 65);
        for y in 0..65 {
            for x in 0..65 {
                let offset = (y * 65 + x) * 4;
                snapshot.bgrx[offset..offset + 4].copy_from_slice(&[
                    (x ^ y) as u8,
                    y as u8,
                    x as u8,
                    0,
                ]);
            }
        }
        let view = ZoomView::new(
            snapshot,
            viewport,
            ZoomScale::X4,
            CachePoint { x: 32, y: 32 },
        )
        .unwrap();
        let mut state = MagnifierWindow {
            view: Some(view),
            surface: Some(opaque_surface(260, 337, 168, 0)),
            bounds: Some(bounds),
            visible: true,
            ..MagnifierWindow::default()
        };
        let anchor = ScreenPointPx {
            x: bounds.left + 130,
            y: bounds.top + anchor_y,
        };
        let expected_anchor = state.view.as_ref().unwrap().hit_test(anchor).unwrap();
        for scale in [
            ZoomScale::X4,
            ZoomScale::X8,
            ZoomScale::X16,
            ZoomScale::X32,
            ZoomScale::X16,
            ZoomScale::X8,
            ZoomScale::X4,
        ] {
            state.view.as_mut().unwrap().change_scale(scale, anchor);
            let view = state.view.as_ref().unwrap();
            assert_eq!(view.hit_test(anchor), Some(expected_anchor));
            let picture = Picture::of(&state);
            let source = view.source_view();
            for y in [
                source.y,
                source.y + source.height / 2,
                source.y + source.height - 1,
            ] {
                for x in [
                    source.x,
                    source.x + source.width / 2,
                    source.x + source.width - 1,
                ] {
                    let point = view.cell_center(CachePoint { x, y }).unwrap();
                    let pixel = view.hit_test(point).unwrap();
                    assert_eq!(
                        picture.at(point.x - bounds.left, point.y - bounds.top),
                        u32::from(pixel.rgb.r)
                            | (u32::from(pixel.rgb.g) << 8)
                            | (u32::from(pixel.rgb.b) << 16),
                        "anchor y={anchor_y}, scale={scale:?}, cache=({x},{y})"
                    );
                }
            }
        }
    }
}

#[test]
fn frozen_layout_uses_target_dpi_and_stays_inside_work_area() {
    let work = ScreenRectPx {
        left: -1200,
        top: -700,
        right: -200,
        bottom: 100,
    };
    for dpi in [96, 120, 144, 168, 192] {
        let (window, viewport) =
            window_layout(ScreenPointPx { x: -1199, y: -699 }, work, dpi, 65, 65).unwrap();
        assert_eq!(window.intersection(work), Some(window));
        assert_eq!(viewport.width(), viewport.height());
        assert_eq!(viewport.width(), dip(240, dpi).min(260) as u32 / 4 * 4);
        assert_eq!((viewport.left, viewport.right), (window.left, window.right));
        assert!(viewport.contains(ScreenPointPx { x: -1199, y: -699 }));
        assert_eq!(viewport.top, window.top);
        assert_eq!(window.width(), viewport.width());
        assert_eq!(
            window.height(),
            viewport.height() + footer_height(dpi) as u32
        );
        assert!(viewport.width() >= 32);
        assert!(viewport.bottom < window.bottom);
    }
    assert!(window_layout(
        ScreenPointPx { x: 0, y: 0 },
        ScreenRectPx {
            left: 0,
            top: 0,
            right: 16,
            bottom: 16
        },
        96,
        65,
        65,
    )
    .is_err());
}

#[test]
fn edge_crops_and_small_work_areas_use_rectangular_complete_cells() {
    let work = ScreenRectPx {
        left: -1000,
        top: -800,
        right: 0,
        bottom: 0,
    };
    let (window, viewport) =
        window_layout(ScreenPointPx { x: -1, y: -1 }, work, 168, 33, 65).unwrap();
    assert_eq!(viewport.width(), 132);
    assert_eq!(viewport.height(), 260);
    assert_eq!(window.height(), 309);
    assert_eq!(window.width(), 132);
    assert!(viewport.left <= -1 && viewport.right > -1);
    assert_eq!(window.intersection(work), Some(window));
    let mut view = ZoomView::new(
        image(33, 65),
        viewport,
        ZoomScale::X4,
        CachePoint { x: 16, y: 32 },
    )
    .unwrap();
    assert_eq!(
        view.drawn_rect(),
        viewport,
        "initial view has no unused margins"
    );
    let anchor = ScreenPointPx {
        x: viewport.left + 66,
        y: viewport.top + 130,
    };
    for scale in [ZoomScale::X8, ZoomScale::X16, ZoomScale::X32] {
        view.change_scale(scale, anchor);
        assert_eq!(
            view.viewport(),
            viewport,
            "zoom keeps the physical viewport fixed"
        );
        assert_eq!(view.drawn_rect().width() % scale.factor(), 0);
        assert_eq!(view.drawn_rect().height() % scale.factor(), 0);
        assert!(view.hit_test(anchor).is_some());
        assert!(view
            .hit_test(ScreenPointPx {
                x: viewport.left,
                y: viewport.bottom
            })
            .is_none());
    }

    let small_work = ScreenRectPx {
        left: -119,
        top: -103,
        right: 0,
        bottom: 0,
    };
    let (window, viewport) =
        window_layout(ScreenPointPx { x: -1, y: -1 }, small_work, 96, 65, 65).unwrap();
    assert_eq!((viewport.width(), viewport.height()), (116, 72));
    assert_eq!(window.intersection(small_work), Some(window));
}

#[test]
fn tiny_images_keep_one_complete_cell_at_the_highest_scale() {
    let work = ScreenRectPx {
        left: 0,
        top: 0,
        right: 1000,
        bottom: 800,
    };
    for size in 1..=7 {
        let (_, viewport) =
            window_layout(ScreenPointPx { x: 50, y: 50 }, work, 168, size, 8 - size).unwrap();
        assert_eq!((viewport.width(), viewport.height()), (32, 32));
        let mut view = ZoomView::new(
            image(size, 8 - size),
            viewport,
            ZoomScale::X4,
            CachePoint { x: 0, y: 0 },
        )
        .unwrap();
        let anchor = view.cell_center(CachePoint { x: 0, y: 0 }).unwrap();
        view.change_scale(ZoomScale::X32, anchor);
        assert_eq!(view.drawn_rect(), viewport);
        assert_eq!(
            view.hit_test(anchor).unwrap().cache,
            CachePoint { x: 0, y: 0 }
        );
    }
}

#[test]
fn selection_frame_clips_original_edges_to_pixels_only() {
    let pixels = Rect {
        left: 0,
        top: 0,
        right: 32,
        bottom: 32,
    };
    let edges = clipped_frame_edges(
        Rect {
            left: -1,
            top: 27,
            right: 5,
            bottom: 33,
        },
        pixels,
    );
    assert!(
        edges[1].is_none(),
        "outer bottom edge cannot enter the footer"
    );
    assert!(
        edges[2].is_none(),
        "outer left edge cannot escape the image"
    );
    assert_eq!(edges[0].unwrap().top, 27);
    assert_eq!(edges[3].unwrap().left, 4);
    for edge in edges.into_iter().flatten() {
        assert!(edge.left >= 0 && edge.top >= 0 && edge.right <= 32 && edge.bottom <= 32);
    }
    let bounds = ScreenRectPx {
        left: -100,
        top: 20,
        right: 140,
        bottom: 284,
    };
    for dpi in [96, 144] {
        for border in [0u8, 2, 6] {
            let first_covered_x = bounds.right - dip(i32::from(border), dpi);
            assert!(inside_uncovered_window(
                ScreenPointPx {
                    x: first_covered_x - 1,
                    y: 100
                },
                bounds,
                dpi,
                border,
            ));
            assert!(!inside_uncovered_window(
                ScreenPointPx {
                    x: first_covered_x,
                    y: 100
                },
                bounds,
                dpi,
                border,
            ));
        }
    }
}

fn work() -> ScreenRectPx {
    ScreenRectPx {
        left: 0,
        top: 0,
        right: 1000,
        bottom: 800,
    }
}

#[test]
fn freezing_names_what_is_wrong() {
    let focus = ScreenPointPx { x: 3, y: 3 };
    let usual = AppearanceConfig::default();
    let freeze = |image: FrozenImage, appearance: AppearanceConfig| {
        MagnifierWindow::with_appearance(image, focus, work(), appearance, 96, false)
            .err()
            .unwrap()
    };
    assert_eq!(
        freeze(
            image(7, 7),
            AppearanceConfig {
                border_width_dip: 7,
                ..usual
            }
        ),
        FreezeError::Appearance(ConfigError::BorderTooWide)
    );
    assert_eq!(
        freeze(
            image(7, 7),
            AppearanceConfig {
                background_transparency_percent: 81,
                ..usual
            }
        ),
        FreezeError::Appearance(ConfigError::BackgroundTooTransparent)
    );
    assert_eq!(
        freeze(image(0, 7), usual),
        FreezeError::Image(ImageError::EmptyImage)
    );
    assert_eq!(freeze(image(66, 7), usual), FreezeError::OutsideLimits);
    assert_eq!(freeze(image(3, 7), usual), FreezeError::FocusOutside);
    assert_eq!(
        MagnifierWindow::new(
            image(7, 7),
            focus,
            ScreenRectPx {
                right: 20,
                bottom: 20,
                ..work()
            },
            96,
            false
        )
        .err()
        .unwrap(),
        FreezeError::Layout(LayoutFault::TooSmall)
    );
}

#[test]
fn open_magnifiers_zoom_in_leave_and_refuse_after_faults() {
    let focus = ScreenPointPx { x: 32, y: 32 };
    let mut window = MagnifierWindow::new(image(65, 65), focus, work(), 96, true).unwrap();
    assert_eq!(window.rect(), None);
    assert_eq!(window.hit_test(focus), None, "hidden windows pick nothing");
    window.shown();
    assert!(window.rect().is_some());
    assert_eq!(window.scale_factor(), 4);
    assert_eq!(window.change_scale(true, focus), Ok(ScaleStep::Redraw));
    assert_eq!(window.scale_factor(), 8);
    assert_eq!(window.change_scale(false, focus), Ok(ScaleStep::Redraw));
    assert_eq!(window.change_scale(false, focus), Ok(ScaleStep::Leave));
    assert_eq!(window.scale_factor(), 4);
    assert_eq!(window.update_hover(focus), Ok(false));
    window.scaling_changed();
    assert_eq!(
        window.update_hover(focus),
        Err(MagnifierFault::ScalingChanged)
    );
    assert_eq!(window.hit_test(focus), None);
    let mut failing = MagnifierWindow::new(image(65, 65), focus, work(), 96, true).unwrap();
    failing.shown();
    failing.painting_failed();
    assert_eq!(
        failing.change_scale(true, focus),
        Err(MagnifierFault::Paint)
    );
    let mut empty = MagnifierWindow::default();
    assert_eq!(
        empty.change_scale(true, focus),
        Err(MagnifierFault::MissingView)
    );
}

#[test]
fn padded_rows_are_packed_without_changing_a_pixel() {
    let mut padded = FrozenImage {
        origin: ScreenPointPx { x: 0, y: 0 },
        width: 2,
        height: 2,
        stride_bytes: 12,
        bgrx: (0..24).collect(),
    };
    compact_rows(&mut padded);
    assert_eq!(padded.stride_bytes, 8);
    assert_eq!(
        padded.bgrx,
        vec![0, 1, 2, 3, 4, 5, 6, 7, 12, 13, 14, 15, 16, 17, 18, 19]
    );
    assert_eq!(
        padded.pixel_at(1, 1),
        Some(Rgb8 {
            r: 18,
            g: 17,
            b: 16
        })
    );
}
