use color_picker::frost::{BackdropStep, FrostError, FrostedPanel};
use color_picker::geometry::{Rect, ScreenPointPx};

fn bar() -> Rect {
    Rect {
        left: 0,
        top: 0,
        right: 2,
        bottom: 2,
    }
}

#[test]
fn cache_reuses_same_origin_and_retries_after_failed_refresh() {
    let mut panel = FrostedPanel::new(2, 2, 3, 35).unwrap();
    let origin = ScreenPointPx { x: 0, y: 0 };
    let mut pixels = vec![9; 16];
    assert_eq!(
        panel.begin_paint(bar(), origin),
        Ok(BackdropStep::Capture(origin))
    );
    panel.finish_capture(&mut pixels, origin).unwrap();
    // Nothing is captured while the origin is unchanged.
    assert_eq!(panel.begin_paint(bar(), origin), Ok(BackdropStep::Reuse));
    let moved = ScreenPointPx { x: 1, y: 1 };
    assert_eq!(
        panel.begin_paint(bar(), moved),
        Ok(BackdropStep::Capture(moved))
    );
    // The capture fails natively: the cache is empty, also for the old origin.
    assert_eq!(
        panel.begin_paint(bar(), moved),
        Ok(BackdropStep::Capture(moved))
    );
    panel.finish_capture(&mut pixels, moved).unwrap();
    assert_eq!(panel.begin_paint(bar(), moved), Ok(BackdropStep::Reuse));
    assert_eq!(
        panel.begin_paint(bar(), origin),
        Ok(BackdropStep::Capture(origin))
    );
    assert_eq!(
        panel.begin_paint(bar(), origin),
        Ok(BackdropStep::Capture(origin))
    );
    panel.finish_capture(&mut pixels, origin).unwrap();
    assert_eq!(panel.begin_paint(bar(), origin), Ok(BackdropStep::Reuse));
}

#[test]
fn ui_transparency_limit_and_invalid_layout_are_preserved() {
    assert!(FrostedPanel::new(1, 1, 1, 81).is_err());
    assert!(FrostedPanel::new(-1, 1, 1, 35).is_err());
    assert!(FrostedPanel::new(1, i32::MIN, 1, 35).is_err());
}

#[test]
fn panels_name_what_is_wrong_with_them() {
    assert!(matches!(
        FrostedPanel::new(1, 1, 1, 81),
        Err(FrostError::InvalidTransparency)
    ));
    assert!(matches!(
        FrostedPanel::new(0, 1, 1, 35),
        Err(FrostError::InvalidLayout)
    ));
    let mut panel = FrostedPanel::new(2, 2, 3, 35).unwrap();
    assert_eq!(
        panel.begin_paint(
            Rect {
                left: 10,
                right: 12,
                ..bar()
            },
            ScreenPointPx {
                x: i32::MAX - 5,
                y: 0
            }
        ),
        Err(FrostError::OriginOverflow)
    );
    let mut wrong = vec![0; 15];
    assert_eq!(
        panel.finish_capture(&mut wrong, ScreenPointPx { x: 0, y: 0 }),
        Err(FrostError::InvalidEffect)
    );
    assert_eq!(wrong, vec![0; 15]);
}

#[test]
fn captures_are_taken_where_the_panel_is_drawn() {
    let mut panel = FrostedPanel::new(2, 2, 3, 35).unwrap();
    let rect = Rect {
        left: 40,
        top: 5,
        right: 42,
        bottom: 7,
    };
    assert_eq!(
        panel.begin_paint(rect, ScreenPointPx { x: -300, y: 20 }),
        Ok(BackdropStep::Capture(ScreenPointPx { x: -260, y: 25 }))
    );
}
