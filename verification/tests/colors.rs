use color_picker::color::Rgb8;
use color_picker::format::{format_color, ColorFormat};

#[test]
fn hex_pads_every_channel_and_uses_uppercase() {
    assert_eq!(
        format_color(Rgb8::new(1, 10, 15), ColorFormat::Hex, ""),
        "#010A0F"
    );
}

#[test]
fn canonical_colors_have_exact_formats() {
    let cases = [
        (Rgb8::new(0, 0, 0), "#000000", "hsl(0 0% 0%)"),
        (Rgb8::new(255, 255, 255), "#FFFFFF", "hsl(0 0% 100%)"),
        (Rgb8::new(255, 0, 0), "#FF0000", "hsl(0 100% 50%)"),
        (Rgb8::new(0, 255, 0), "#00FF00", "hsl(120 100% 50%)"),
        (Rgb8::new(0, 0, 255), "#0000FF", "hsl(240 100% 50%)"),
        (Rgb8::new(128, 128, 128), "#808080", "hsl(0 0% 50.2%)"),
    ];
    for (rgb, hex, hsl) in cases {
        assert_eq!(format_color(rgb, ColorFormat::Hex, hsl), hex);
        assert_eq!(format_color(rgb, ColorFormat::Hsl, hsl), hsl);
    }
}

#[test]
fn rgb_formats_use_the_contractual_spacing() {
    let rgb = Rgb8::new(64, 158, 255);
    let hsl = "hsl(210.5 100% 62.5%)";
    assert_eq!(format_color(rgb, ColorFormat::Rgb, hsl), "64, 158, 255");
    assert_eq!(format_color(rgb, ColorFormat::CssRgb, hsl), "rgb(64 158 255)");
    assert_eq!(format_color(rgb, ColorFormat::Hsl, hsl), "hsl(210.5 100% 62.5%)");
}

#[test]
fn native_colors_put_red_into_the_low_byte() {
    assert_eq!(Rgb8::new(0x12, 0x34, 0x56).to_color_ref(), 0x0056_3412);
}

#[test]
fn notations_keep_their_places() {
    for (index, (format, label)) in [
        (ColorFormat::Hex, "HEX"),
        (ColorFormat::Rgb, "RGB"),
        (ColorFormat::CssRgb, "CSS RGB"),
        (ColorFormat::Hsl, "HSL"),
    ]
    .into_iter()
    .enumerate()
    {
        assert_eq!(format.index(), index);
        assert_eq!(ColorFormat::from_index(index), Some(format));
        assert_eq!(format.label(), label);
    }
    assert_eq!(ColorFormat::from_index(4), None);
}
