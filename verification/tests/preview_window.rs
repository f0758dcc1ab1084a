use color_picker::color::Rgb8;
use color_picker::config::{AppearanceConfig, ConfigError};
use color_picker::geometry::{ScreenPointPx, ScreenRectPx};
use color_picker::i18n::Language;
use color_picker::preview::{
    overlay_reply, DisplayStep, OverlayMessage, OverlayReply, PreviewFault, PreviewWindow, Refused,
    UpdateProgress,
};

const DISPLAY: isize = 5;

fn work() -> ScreenRectPx {
    ScreenRectPx {
        left: 0,
        top: 0,
        right: 1920,
        bottom: 1040,
    }
}

fn point() -> ScreenPointPx {
    ScreenPointPx { x: 100, y: 100 }
}

#[test]
fn previews_are_placed_once_and_reused() {
    let mut preview = PreviewWindow::new();
    assert_eq!(preview.begin_update(work()), Ok(()));
    assert_eq!(
        preview.target_display(DISPLAY, DISPLAY, work()),
        Ok(DisplayStep::Stay)
    );
    assert!(preview.set_sample(point(), Some(Rgb8::new(1, 10, 15)), Language::English));
    let content = preview.content.as_ref().unwrap();
    assert_eq!(String::from_utf16(&content.color_text).unwrap(), "#010A0F");
    assert_eq!(
        String::from_utf16(&content.coordinates).unwrap(),
        "X 100  Y 100"
    );
    let pass = preview.layout_pass(point(), work(), 96).unwrap();
    assert!(pass.rebuilt && pass.reposition);
    assert_eq!((pass.width, pass.height), (168, 38));
    assert_eq!(
        pass.rect,
        ScreenRectPx {
            left: 117,
            top: 117,
            right: 285,
            bottom: 155
        }
    );
    preview.positioned(pass.rect);
    assert_eq!(preview.rect(), Some(pass.rect));
    assert!(!preview.set_sample(point(), Some(Rgb8::new(1, 10, 15)), Language::English));
    let again = preview.layout_pass(point(), work(), 96).unwrap();
    assert!(!again.rebuilt && !again.reposition);
    let finer = preview.layout_pass(point(), work(), 144).unwrap();
    assert!(finer.rebuilt && finer.reposition);
    assert!(preview.hide_window());
    assert!(!preview.hide_window());
    assert_eq!(preview.rect(), None);
}

#[test]
fn samples_that_cannot_be_taken_say_so() {
    let mut preview = PreviewWindow::new();
    preview.set_sample(point(), None, Language::English);
    let content = preview.content.as_ref().unwrap();
    assert_eq!(content.rgb, None);
    assert_eq!(
        String::from_utf16(&content.color_text).unwrap(),
        "Unavailable"
    );
}

#[test]
fn refused_updates_name_their_reason() {
    let mut preview = PreviewWindow::new();
    preview.positioned(work());
    assert_eq!(
        preview.begin_update(ScreenRectPx { right: 0, ..work() }),
        Err(Refused {
            fault: PreviewFault::EmptyWorkArea,
            hide_native: true
        })
    );
    preview.paint_failed = true;
    assert_eq!(
        preview.begin_update(work()),
        Err(Refused {
            fault: PreviewFault::Paint,
            hide_native: false
        })
    );
    assert_eq!(preview.begin_update(work()), Ok(()));
    assert_eq!(
        preview.target_display(0, DISPLAY, work()),
        Err(Refused {
            fault: PreviewFault::OutsideDisplays,
            hide_native: false
        })
    );
    assert_eq!(
        preview.target_display(DISPLAY, 4, work()),
        Ok(DisplayStep::Move {
            hide_native: false,
            left: 0,
            top: 0
        })
    );
    assert_eq!(
        PreviewWindow::display_reached(DISPLAY, 4),
        Err(Refused {
            fault: PreviewFault::WrongDisplay,
            hide_native: false
        })
    );
    assert_eq!(
        preview.layout_pass(point(), work(), 0),
        Err(Refused {
            fault: PreviewFault::UnknownDpi,
            hide_native: false
        })
    );
    assert_eq!(
        preview.layout_pass(
            point(),
            ScreenRectPx {
                right: 160,
                ..work()
            },
            96
        ),
        Err(Refused {
            fault: PreviewFault::NoSpace,
            hide_native: false
        })
    );
}

#[test]
fn updates_make_at_most_two_passes() {
    let mut preview = PreviewWindow::new();
    let pass = preview.layout_pass(point(), work(), 96).unwrap();
    let mut progress = UpdateProgress::new(false);
    assert!(progress.finish_pass(pass, true));
    assert!(!progress.finish_pass(pass, true));
    assert!(progress.changed);
    assert!(!UpdateProgress::new(true).finish_pass(pass, false));
}

#[test]
fn appearances_beyond_their_limits_are_refused() {
    for (border_width_dip, background_transparency_percent, error) in [
        (7, 35, ConfigError::BorderTooWide),
        (2, 81, ConfigError::BackgroundTooTransparent),
    ] {
        assert_eq!(
            PreviewWindow::with_appearance(AppearanceConfig {
                border_width_dip,
                background_transparency_percent
            })
            .err(),
            Some(error)
        );
    }
    assert!(PreviewWindow::with_appearance(AppearanceConfig::default()).is_ok());
    assert!(!PreviewWindow::new().capture_exclusion_enabled());
}

#[test]
fn overlays_never_take_the_focus_or_the_mouse() {
    for (message, reply) in [
        (OverlayMessage::Paint, OverlayReply::Draw),
        (OverlayMessage::DpiChanged, OverlayReply::RecordDpi),
        (OverlayMessage::EraseBackground, OverlayReply::Value(1)),
        (OverlayMessage::MouseActivate, OverlayReply::Value(3)),
        (OverlayMessage::HitTest, OverlayReply::Value(-1)),
        (OverlayMessage::Other, OverlayReply::Default),
    ] {
        assert_eq!(overlay_reply(true, message), reply);
        assert_eq!(overlay_reply(false, message), OverlayReply::Default);
    }
}
