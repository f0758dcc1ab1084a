use color_picker::config::AppearanceConfig;
use color_picker::drawing::dip;
use color_picker::settings_preview::{
    example_pixels, AppearancePreview, HEIGHT, OVERLAY_HEIGHT, OVERLAY_WIDTH, WIDTH,
};

#[test]
fn example_transparency_only_changes_the_information_panel() {
    for dpi in [96, 144, 192] {
        let opaque = example_pixels(dpi, 0);
        let transparent = example_pixels(dpi, 80);
        let width = dip(WIDTH, dpi) as usize;
        let height = dip(HEIGHT, dpi) as usize;
        let left = (width - dip(OVERLAY_WIDTH, dpi) as usize) / 2;
        let top = (height - dip(OVERLAY_HEIGHT, dpi) as usize) / 2;
        let at = |x: usize, y: usize| (y * width + x) * 4;
        let swatch = at(left + dip(10, dpi) as usize, top + dip(10, dpi) as usize);
        assert_eq!(&opaque[swatch..swatch + 4], &[0xc6, 0xa7, 0x49, 255]);
        assert_eq!(
            &opaque[swatch..swatch + 4],
            &transparent[swatch..swatch + 4]
        );
        assert_eq!(&opaque[..width * 4], &transparent[..width * 4]);
        let info = at(left + dip(50, dpi) as usize, top + dip(10, dpi) as usize);
        assert_eq!(&opaque[info..info + 4], &[51, 32, 23, 255]);
        assert_ne!(&opaque[info..info + 4], &transparent[info..info + 4]);
    }
}

#[test]
fn examples_are_reused_for_the_same_values_only() {
    let appearance = AppearanceConfig::default();
    let preview = AppearancePreview::new(96, appearance);
    assert_eq!(preview.pixels.len(), 396 * 72 * 4);
    assert!(preview.matches(96, appearance));
    assert!(!preview.matches(120, appearance));
    assert!(!preview.matches(
        96,
        AppearanceConfig {
            border_width_dip: 3,
            ..appearance
        }
    ));
}
