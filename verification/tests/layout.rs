use color_picker::drawing::dip;
use color_picker::geometry::Rect;
use color_picker::i18n::Language;
use color_picker::layout::{
    fit_rect, reveal_offset, supported_dpi, unavailable_text, SheetLayout, Unavailable,
};

#[test]
fn sheets_fit_small_negative_origin_work_areas_at_each_supported_scale() {
    for dpi in [96, 120, 144, 192, 240, 288] {
        for (width, height) in [(900, 650), (800, 650), (1920, 1040)] {
            let work = Rect {
                left: -width,
                top: -height,
                right: 0,
                bottom: 0,
            };
            for (desired_width, desired_height, minimum_width) in
                [(420, 364, 240), (420, 420, 240), (500, 750, 280)]
            {
                let request = Rect {
                    left: -20,
                    top: -20,
                    right: -20 + dip(desired_width, dpi),
                    bottom: -20 + dip(desired_height, dpi),
                };
                let minimum = (dip(minimum_width, dpi), dip(212, dpi));
                let fitted = fit_rect(request, work, minimum);
                if width < minimum.0 || height < minimum.1 {
                    assert!(fitted.is_none());
                    continue;
                }
                let fitted = fitted.unwrap();
                assert!(fitted.left >= work.left && fitted.right <= work.right);
                assert!(fitted.top >= work.top && fitted.bottom <= work.bottom);
                let panes = SheetLayout::new(
                    fitted.right - fitted.left,
                    fitted.bottom - fitted.top,
                    dip(48, dpi),
                    dip(100, dpi),
                    dip(64, dpi),
                )
                .unwrap();
                assert_eq!(panes.viewport.bottom, panes.actions.top);
                assert!(panes.actions.bottom <= fitted.bottom - fitted.top);
            }
        }
    }
}

#[test]
fn focused_content_is_reachable_and_extreme_work_areas_fail_explicitly() {
    for top in (0..1000).step_by(40) {
        let offset = reveal_offset(0, top, top + 32, 80, 1040, 8);
        assert!(top - offset >= 0 && top + 32 - offset <= 80);
    }
    assert!(fit_rect(
        Rect {
            right: 800,
            bottom: 700,
            ..Default::default()
        },
        Rect {
            right: 1,
            bottom: 1,
            ..Default::default()
        },
        (240, 212)
    )
    .is_none());
}

#[test]
fn initial_placement_keeps_the_selected_monitors_dpi_at_shared_edges() {
    // A neighbouring monitor must not be selected by the oversized request
    // rectangle. It may have a completely different DPI from this monitor.
    for (work, dpi) in [
        (
            Rect {
                left: 0,
                top: 0,
                right: 1920,
                bottom: 1040,
            },
            96,
        ),
        (
            Rect {
                left: -1920,
                top: -1080,
                right: 0,
                bottom: -40,
            },
            192,
        ),
    ] {
        for (x, y) in [
            (work.right - 20, work.top + 40),
            (work.left + 20, work.bottom - 20),
        ] {
            let request = Rect {
                left: x,
                top: y,
                right: x + dip(420, dpi),
                bottom: y + dip(390, dpi),
            };
            let fitted = fit_rect(request, work, (dip(240, dpi), dip(262, dpi))).unwrap();
            assert!(fitted.left >= work.left && fitted.right <= work.right);
            assert!(fitted.top >= work.top && fitted.bottom <= work.bottom);
            assert_eq!(fitted.right - fitted.left, dip(420, dpi));
            assert_eq!(fitted.bottom - fitted.top, dip(390, dpi));
        }
    }
}

#[test]
fn requests_inside_the_work_area_are_not_moved() {
    let work = Rect {
        left: -100,
        top: -100,
        right: 900,
        bottom: 700,
    };
    let request = Rect {
        left: 10,
        top: 20,
        right: 310,
        bottom: 220,
    };
    assert_eq!(fit_rect(request, work, (240, 180)), Some(request));
    let beyond = Rect {
        left: 800,
        top: 650,
        right: 1100,
        bottom: 850,
    };
    assert_eq!(
        fit_rect(beyond, work, (240, 180)),
        Some(Rect {
            left: 600,
            top: 500,
            right: 900,
            bottom: 700
        })
    );
    let too_large = Rect {
        left: -500,
        top: -500,
        right: 2000,
        bottom: 2000,
    };
    assert_eq!(fit_rect(too_large, work, (240, 180)), Some(work));
    assert_eq!(fit_rect(request, work, (301, 180)), None);
}

#[test]
fn sheets_without_room_for_content_are_refused() {
    assert_eq!(SheetLayout::new(0, 300, 0, 100, 64), Err(Unavailable));
    assert_eq!(SheetLayout::new(200, 263, 100, 100, 64), Err(Unavailable));
    let panes = SheetLayout::new(200, 264, 100, 100, 64).unwrap();
    assert_eq!(
        panes.viewport,
        Rect {
            left: 0,
            top: 100,
            right: 200,
            bottom: 164
        }
    );
    assert_eq!(
        panes.actions,
        Rect {
            left: 0,
            top: 164,
            right: 200,
            bottom: 264
        }
    );
}

#[test]
fn revealing_aligns_tall_controls_at_their_top_and_leaves_visible_ones() {
    assert_eq!(reveal_offset(100, 20, 50, 80, 1000, 8), 100);
    assert_eq!(reveal_offset(100, -30, 0, 80, 1000, 8), 62);
    assert_eq!(reveal_offset(100, 90, 120, 80, 1000, 8), 148);
    assert_eq!(reveal_offset(100, 90, 290, 80, 1000, 8), 182);
    assert_eq!(reveal_offset(100, 90, 120, 80, 60, 8), 0);
}

#[test]
fn lengths_round_to_the_nearest_physical_pixel() {
    assert_eq!(dip(10, 96), 10);
    assert_eq!(dip(10, 120), 13);
    assert_eq!(dip(1, 144), 2);
    assert_eq!(dip(-1, 96), 0);
    assert_eq!(dip(-10, 96), -9);
    assert_eq!(dip(36, 192), 72);
}

#[test]
fn display_scalings_are_known_and_bounded() {
    assert!(!supported_dpi(0));
    assert!(supported_dpi(96));
    assert!(supported_dpi(9600));
    assert!(!supported_dpi(9601));
    assert!(unavailable_text(Language::English).starts_with("The display work area is too small"));
    assert!(unavailable_text(Language::SimplifiedChinese).starts_with("当前显示器工作区太小"));
}
