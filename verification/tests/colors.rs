use floem_tailwind::colors::{self, rgba};
use floem_tailwind::shadow::{
    shadow_2xl, shadow_color, shadow_default, shadow_lg, shadow_md, shadow_sm, shadow_xl, BoxShadow,
};
use peniko::Color;

fn channels(color: Color) -> [u8; 4] {
    color.to_rgba8().to_u8_array()
}

#[test]
fn rgba_unpacks_the_four_channels() {
    assert_eq!(channels(rgba(0x0102_0304)), [1, 2, 3, 4]);
    assert_eq!(channels(rgba(0xff00_80fe)), [255, 0, 128, 254]);
    assert_eq!(channels(rgba(0)), [0, 0, 0, 0]);
    assert_eq!(channels(rgba(u32::MAX)), [255, 255, 255, 255]);
    assert_eq!(rgba(0x3b82_f6ff), Color::from_rgba8(0x3b, 0x82, 0xf6, 0xff));
}

#[test]
fn black_white_and_transparent() {
    assert_eq!(channels(rgba(colors::TRANSPARENT)), [0, 0, 0, 0]);
    assert_eq!(channels(rgba(colors::BLACK)), [0, 0, 0, 255]);
    assert_eq!(channels(rgba(colors::WHITE)), [255, 255, 255, 255]);
}

#[test]
fn palette_samples() {
    assert_eq!(channels(rgba(colors::SLATE_50)), [248, 250, 252, 255]);
    assert_eq!(channels(rgba(colors::SLATE_900)), [15, 23, 42, 255]);
    assert_eq!(channels(rgba(colors::SLATE_950)), [2, 6, 23, 255]);
    assert_eq!(channels(rgba(colors::GRAY_200)), [229, 231, 235, 255]);
    assert_eq!(channels(rgba(colors::GRAY_700)), [55, 65, 81, 255]);
    assert_eq!(channels(rgba(colors::ZINC_500)), [113, 113, 122, 255]);
    assert_eq!(channels(rgba(colors::RED_500)), [239, 68, 68, 255]);
    assert_eq!(channels(rgba(colors::RED_600)), [220, 38, 38, 255]);
    assert_eq!(channels(rgba(colors::ORANGE_500)), [249, 115, 22, 255]);
    assert_eq!(channels(rgba(colors::YELLOW_500)), [234, 179, 8, 255]);
    assert_eq!(channels(rgba(colors::GREEN_500)), [34, 197, 94, 255]);
    assert_eq!(channels(rgba(colors::BLUE_500)), [59, 130, 246, 255]);
    assert_eq!(channels(rgba(colors::BLUE_600)), [37, 99, 235, 255]);
    assert_eq!(channels(rgba(colors::INDIGO_500)), [99, 102, 241, 255]);
    assert_eq!(channels(rgba(colors::PURPLE_500)), [168, 85, 247, 255]);
    assert_eq!(channels(rgba(colors::PINK_500)), [236, 72, 153, 255]);
}

#[test]
fn every_shade_is_opaque_and_darkens() {
    let hues = [
        [
            colors::SLATE_50, colors::SLATE_100, colors::SLATE_200, colors::SLATE_300,
            colors::SLATE_400, colors::SLATE_500, colors::SLATE_600, colors::SLATE_700,
            colors::SLATE_800, colors::SLATE_900, colors::SLATE_950,
        ],
        [
            colors::GRAY_50, colors::GRAY_100, colors::GRAY_200, colors::GRAY_300, colors::GRAY_400,
            colors::GRAY_500, colors::GRAY_600, colors::GRAY_700, colors::GRAY_800,
            colors::GRAY_900, colors::GRAY_950,
        ],
        [
            colors::ZINC_50, colors::ZINC_100, colors::ZINC_200, colors::ZINC_300, colors::ZINC_400,
            colors::ZINC_500, colors::ZINC_600, colors::ZINC_700, colors::ZINC_800,
            colors::ZINC_900, colors::ZINC_950,
        ],
        [
            colors::RED_50, colors::RED_100, colors::RED_200, colors::RED_300, colors::RED_400,
            colors::RED_500, colors::RED_600, colors::RED_700, colors::RED_800, colors::RED_900,
            colors::RED_950,
        ],
        [
            colors::ORANGE_50, colors::ORANGE_100, colors::ORANGE_200, colors::ORANGE_300,
            colors::ORANGE_400, colors::ORANGE_500, colors::ORANGE_600, colors::ORANGE_700,
            colors::ORANGE_800, colors::ORANGE_900, colors::ORANGE_950,
        ],
        [
            colors::YELLOW_50, colors::YELLOW_100, colors::YELLOW_200, colors::YELLOW_300,
            colors::YELLOW_400, colors::YELLOW_500, colors::YELLOW_600, colors::YELLOW_700,
            colors::YELLOW_800, colors::YELLOW_900, colors::YELLOW_950,
        ],
        [
            colors::GREEN_50, colors::GREEN_100, colors::GREEN_200, colors::GREEN_300,
            colors::GREEN_400, colors::GREEN_500, colors::GREEN_600, colors::GREEN_700,
            colors::GREEN_800, colors::GREEN_900, colors::GREEN_950,
        ],
        [
            colors::BLUE_50, colors::BLUE_100, colors::BLUE_200, colors::BLUE_300, colors::BLUE_400,
            colors::BLUE_500, colors::BLUE_600, colors::BLUE_700, colors::BLUE_800,
            colors::BLUE_900, colors::BLUE_950,
        ],
        [
            colors::INDIGO_50, colors::INDIGO_100, colors::INDIGO_200, colors::INDIGO_300,
            colors::INDIGO_400, colors::INDIGO_500, colors::INDIGO_600, colors::INDIGO_700,
            colors::INDIGO_800, colors::INDIGO_900, colors::INDIGO_950,
        ],
        [
            colors::PURPLE_50, colors::PURPLE_100, colors::PURPLE_200, colors::PURPLE_300,
            colors::PURPLE_400, colors::PURPLE_500, colors::PURPLE_600, colors::PURPLE_700,
            colors::PURPLE_800, colors::PURPLE_900, colors::PURPLE_950,
        ],
        [
            colors::PINK_50, colors::PINK_100, colors::PINK_200, colors::PINK_300, colors::PINK_400,
            colors::PINK_500, colors::PINK_600, colors::PINK_700, colors::PINK_800,
            colors::PINK_900, colors::PINK_950,
        ],
    ];
    for shades in hues {
        let mut last = u32::MAX;
        for hex in shades {
            let [r, g, b, a] = channels(rgba(hex));
            assert_eq!(a, 255, "{:#010x}", hex);
            let light = u32::from(r) + u32::from(g) + u32::from(b);
            assert!(light < last, "{:#010x}", hex);
            last = light;
        }
    }
}

#[test]
fn shadow_alpha_drops_the_fraction() {
    assert_eq!(channels(shadow_color(5)), [0, 0, 0, 12]);
    assert_eq!(channels(shadow_color(10)), [0, 0, 0, 25]);
    assert_eq!(channels(shadow_color(25)), [0, 0, 0, 63]);
    assert_eq!(channels(shadow_color(50)), [0, 0, 0, 127]);
    assert_eq!(channels(shadow_color(99)), [0, 0, 0, 252]);
}

#[test]
fn shadow_alpha_at_the_ends() {
    assert_eq!(channels(shadow_color(0)), [0, 0, 0, 0]);
    assert_eq!(channels(shadow_color(1)), [0, 0, 0, 2]);
    assert_eq!(channels(shadow_color(100)), [0, 0, 0, 255]);
    assert_eq!(channels(shadow_color(101)), [0, 0, 0, 255]);
    assert_eq!(channels(shadow_color(255)), [0, 0, 0, 255]);
}

#[test]
fn shadow_alpha_matches_the_float_conversion() {
    for (hundredths, opacity) in [(5u8, 0.05f32), (10, 0.1), (25, 0.25)] {
        let alpha = (opacity * 255.0) as u8;
        assert_eq!(channels(shadow_color(hundredths))[3], alpha);
    }
}

fn parts(shadow: BoxShadow) -> (i32, i32, u32, i32, [u8; 4]) {
    (shadow.h_offset, shadow.v_offset, shadow.blur_radius, shadow.spread, channels(shadow.color))
}

#[test]
fn shadow_presets() {
    assert_eq!(parts(shadow_sm()), (0, 1, 2, 0, [0, 0, 0, 12]));
    assert_eq!(parts(shadow_default()), (0, 1, 3, 0, [0, 0, 0, 25]));
    assert_eq!(parts(shadow_md()), (0, 4, 6, -1, [0, 0, 0, 25]));
    assert_eq!(parts(shadow_lg()), (0, 10, 15, -3, [0, 0, 0, 25]));
    assert_eq!(parts(shadow_xl()), (0, 20, 25, -5, [0, 0, 0, 25]));
    assert_eq!(parts(shadow_2xl()), (0, 25, 50, -12, [0, 0, 0, 63]));
}

#[test]
fn box_shadow_builder() {
    assert_eq!(parts(BoxShadow::new()), (0, 0, 0, 0, [0, 0, 0, 255]));
    let shadow = BoxShadow::new()
        .h_offset(-2)
        .v_offset(3)
        .blur_radius(7)
        .spread(-4)
        .color(Color::from_rgba8(9, 8, 7, 6));
    assert_eq!(parts(shadow), (-2, 3, 7, -4, [9, 8, 7, 6]));
    assert_eq!(parts(shadow.spread(5)), (-2, 3, 7, 5, [9, 8, 7, 6]));
}
