//! The colour palette: eleven hues in eleven shades each, plus black, white
//! and transparent.
//!
//! Every palette entry is a packed `0xRRGGBBAA` constant; [`rgba`] turns one
//! into a [`Color`].

use vstd::prelude::*;

pub use peniko::Color;

verus! {

/// Declares the colour type that [`Color`] is an alias of,
/// `peniko::color::AlphaColor`, as an opaque type: nothing is assumed about
/// what a value of it holds.
#[verifier::external_type_specification]
#[verifier::external_body]
#[verifier::reject_recursive_types(CS)]
pub struct ExAlphaColor<CS>(peniko::color::AlphaColor<CS>);

/// Declares the marker type of the sRGB colour space, `peniko::color::Srgb`,
/// which [`Color`] has as its parameter.
#[verifier::external_type_specification]
#[verifier::external_body]
pub struct ExSrgb(peniko::color::Srgb);

/// The colour that `peniko::Color::from_rgba8` builds from four 8-bit
/// channels (red, green, blue and straight alpha).
pub uninterp spec fn rgba8(r: u8, g: u8, b: u8, a: u8) -> Color;

/// Calls `peniko::Color::from_rgba8`.
///
/// Not proved, but taken from the constructor as it is written: it computes
/// the colour from these four channels and from nothing else, so the result is
/// the one that [`rgba8`] names. What the colour holds inside is not stated.
#[verifier::external_body]
pub(crate) fn from_rgba8(r: u8, g: u8, b: u8, a: u8) -> (c: Color)
    ensures
        c == rgba8(r, g, b, a),
{
    Color::from_rgba8(r, g, b, a)
}

/// The colour that a packed `0xRRGGBBAA` value stands for.
pub open spec fn spec_rgba(hex: u32) -> Color {
    rgba8(
        (hex / 0x100_0000) as u8,
        (hex / 0x1_0000 % 0x100) as u8,
        (hex / 0x100 % 0x100) as u8,
        (hex % 0x100) as u8,
    )
}

/// Unpacks a `0xRRGGBBAA` value into a colour.
pub fn rgba(hex: u32) -> (c: Color)
    ensures
        c == spec_rgba(hex),
{
    let r: u32 = hex / 0x100_0000;
    let g: u32 = hex / 0x1_0000 % 0x100;
    let b: u32 = hex / 0x100 % 0x100;
    let a: u32 = hex % 0x100;
    from_rgba8(r as u8, g as u8, b as u8, a as u8)
}

/// Black with no opacity at all.
pub const TRANSPARENT: u32 = 0x0000_0000;
pub const BLACK: u32 = 0x0000_00ff;
pub const WHITE: u32 = 0xffff_ffff;

// Slate, from the lightest shade to the darkest.
pub const SLATE_50: u32 = 0xf8fa_fcff;
pub const SLATE_100: u32 = 0xf1f5_f9ff;
pub const SLATE_200: u32 = 0xe2e8_f0ff;
pub const SLATE_300: u32 = 0xcbd5_e1ff;
pub const SLATE_400: u32 = 0x94a3_b8ff;
pub const SLATE_500: u32 = 0x6474_8bff;
pub const SLATE_600: u32 = 0x4755_69ff;
pub const SLATE_700: u32 = 0x3341_55ff;
pub const SLATE_800: u32 = 0x1e29_3bff;
pub const SLATE_900: u32 = 0x0f17_2aff;
pub const SLATE_950: u32 = 0x0206_17ff;

// Gray, from the lightest shade to the darkest.
pub const GRAY_50: u32 = 0xf9fa_fbff;
pub const GRAY_100: u32 = 0xf3f4_f6ff;
pub const GRAY_200: u32 = 0xe5e7_ebff;
pub const GRAY_300: u32 = 0xd1d5_dbff;
pub const GRAY_400: u32 = 0x9ca3_afff;
pub const GRAY_500: u32 = 0x6b72_80ff;
pub const GRAY_600: u32 = 0x4b55_63ff;
pub const GRAY_700: u32 = 0x3741_51ff;
pub const GRAY_800: u32 = 0x1f29_37ff;
pub const GRAY_900: u32 = 0x1118_27ff;
pub const GRAY_950: u32 = 0x0307_12ff;

// Zinc, from the lightest shade to the darkest.
pub const ZINC_50: u32 = 0xfafa_faff;
pub const ZINC_100: u32 = 0xf4f4_f5ff;
pub const ZINC_200: u32 = 0xe4e4_e7ff;
pub const ZINC_300: u32 = 0xd4d4_d8ff;
pub const ZINC_400: u32 = 0xa1a1_aaff;
pub const ZINC_500: u32 = 0x7171_7aff;
pub const ZINC_600: u32 = 0x5252_5bff;
pub const ZINC_700: u32 = 0x3f3f_46ff;
pub const ZINC_800: u32 = 0x2727_2aff;
pub const ZINC_900: u32 = 0x1818_1bff;
pub const ZINC_950: u32 = 0x0909_0bff;

// Red, from the lightest shade to the darkest.
pub const RED_50: u32 = 0xfef2_f2ff;
pub const RED_100: u32 = 0xfee2_e2ff;
pub const RED_200: u32 = 0xfeca_caff;
pub const RED_300: u32 = 0xfca5_a5ff;
pub const RED_400: u32 = 0xf871_71ff;
pub const RED_500: u32 = 0xef44_44ff;
pub const RED_600: u32 = 0xdc26_26ff;
pub const RED_700: u32 = 0xb91c_1cff;
pub const RED_800: u32 = 0x991b_1bff;
pub const RED_900: u32 = 0x7f1d_1dff;
pub const RED_950: u32 = 0x450a_0aff;

// Orange, from the lightest shade to the darkest.
pub const ORANGE_50: u32 = 0xfff7_edff;
pub const ORANGE_100: u32 = 0xffed_d5ff;
pub const ORANGE_200: u32 = 0xfed7_aaff;
pub const ORANGE_300: u32 = 0xfdba_74ff;
pub const ORANGE_400: u32 = 0xfb92_3cff;
pub const ORANGE_500: u32 = 0xf973_16ff;
pub const ORANGE_600: u32 = 0xea58_0cff;
pub const ORANGE_700: u32 = 0xc241_0cff;
pub const ORANGE_800: u32 = 0x9a34_12ff;
pub const ORANGE_900: u32 = 0x7c2d_12ff;
pub const ORANGE_950: u32 = 0x4314_07ff;

// Yellow, from the lightest shade to the darkest.
pub const YELLOW_50: u32 = 0xfefc_e8ff;
pub const YELLOW_100: u32 = 0xfef9_c3ff;
pub const YELLOW_200: u32 = 0xfef0_8aff;
pub const YELLOW_300: u32 = 0xfde0_47ff;
pub const YELLOW_400: u32 = 0xfacc_15ff;
pub const YELLOW_500: u32 = 0xeab3_08ff;
pub const YELLOW_600: u32 = 0xca8a_04ff;
pub const YELLOW_700: u32 = 0xa162_07ff;
pub const YELLOW_800: u32 = 0x854d_0eff;
pub const YELLOW_900: u32 = 0x713f_12ff;
pub const YELLOW_950: u32 = 0x4220_06ff;

// Green, from the lightest shade to the darkest.
pub const GREEN_50: u32 = 0xf0fd_f4ff;
pub const GREEN_100: u32 = 0xdcfc_e7ff;
pub const GREEN_200: u32 = 0xbbf7_d0ff;
pub const GREEN_300: u32 = 0x86ef_acff;
pub const GREEN_400: u32 = 0x4ade_80ff;
pub const GREEN_500: u32 = 0x22c5_5eff;
pub const GREEN_600: u32 = 0x16a3_4aff;
pub const GREEN_700: u32 = 0x1580_3dff;
pub const GREEN_800: u32 = 0x1665_34ff;
pub const GREEN_900: u32 = 0x1453_2dff;
pub const GREEN_950: u32 = 0x052e_16ff;

// Blue, from the lightest shade to the darkest.
pub const BLUE_50: u32 = 0xeff6_ffff;
pub const BLUE_100: u32 = 0xdbea_feff;
pub const BLUE_200: u32 = 0xbfdb_feff;
pub const BLUE_300: u32 = 0x93c5_fdff;
pub const BLUE_400: u32 = 0x60a5_faff;
pub const BLUE_500: u32 = 0x3b82_f6ff;
pub const BLUE_600: u32 = 0x2563_ebff;
pub const BLUE_700: u32 = 0x1d4e_d8ff;
pub const BLUE_800: u32 = 0x1e40_afff;
pub const BLUE_900: u32 = 0x1e3a_8aff;
pub const BLUE_950: u32 = 0x1725_54ff;

// Indigo, from the lightest shade to the darkest.
pub const INDIGO_50: u32 = 0xeef2_ffff;
pub const INDIGO_100: u32 = 0xe0e7_ffff;
pub const INDIGO_200: u32 = 0xc7d2_feff;
pub const INDIGO_300: u32 = 0xa5b4_fcff;
pub const INDIGO_400: u32 = 0x818c_f8ff;
pub const INDIGO_500: u32 = 0x6366_f1ff;
pub const INDIGO_600: u32 = 0x4f46_e5ff;
pub const INDIGO_700: u32 = 0x4338_caff;
pub const INDIGO_800: u32 = 0x3730_a3ff;
pub const INDIGO_900: u32 = 0x312e_81ff;
pub const INDIGO_950: u32 = 0x1e1b_4bff;

// Purple, from the lightest shade to the darkest.
pub const PURPLE_50: u32 = 0xfaf5_ffff;
pub const PURPLE_100: u32 = 0xf3e8_ffff;
pub const PURPLE_200: u32 = 0xe9d5_ffff;
pub const PURPLE_300: u32 = 0xd8b4_feff;
pub const PURPLE_400: u32 = 0xc084_fcff;
pub const PURPLE_500: u32 = 0xa855_f7ff;
pub const PURPLE_600: u32 = 0x9333_eaff;
pub const PURPLE_700: u32 = 0x7e22_ceff;
pub const PURPLE_800: u32 = 0x6b21_a8ff;
pub const PURPLE_900: u32 = 0x581c_87ff;
pub const PURPLE_950: u32 = 0x3b07_64ff;

// Pink, from the lightest shade to the darkest.
pub const PINK_50: u32 = 0xfdf2_f8ff;
pub const PINK_100: u32 = 0xfce7_f3ff;
pub const PINK_200: u32 = 0xfbcf_e8ff;
pub const PINK_300: u32 = 0xf9a8_d4ff;
pub const PINK_400: u32 = 0xf472_b6ff;
pub const PINK_500: u32 = 0xec48_99ff;
pub const PINK_600: u32 = 0xdb27_77ff;
pub const PINK_700: u32 = 0xbe18_5dff;
pub const PINK_800: u32 = 0x9d17_4dff;
pub const PINK_900: u32 = 0x8318_43ff;
pub const PINK_950: u32 = 0x5007_24ff;

} // verus!
