//! The spacing scale and the named container sizes, in pixels.
//!
//! A whole unit of the spacing scale is four pixels, so step 4 is 16 pixels
//! and step 0.5 is two. The named sizes are whole multiples of sixteen pixels.

use vstd::prelude::*;

verus! {

pub const SPACING_0: u32 = 0;
/// The one-pixel step, which stands outside the numbered scale.
pub const SPACING_PX: u32 = 1;
pub const SPACING_0_5: u32 = 2;
pub const SPACING_1: u32 = 4;
pub const SPACING_1_5: u32 = 6;
pub const SPACING_2: u32 = 8;
pub const SPACING_2_5: u32 = 10;
pub const SPACING_3: u32 = 12;
pub const SPACING_3_5: u32 = 14;
pub const SPACING_4: u32 = 16;
pub const SPACING_5: u32 = 20;
pub const SPACING_6: u32 = 24;
pub const SPACING_7: u32 = 28;
pub const SPACING_8: u32 = 32;
pub const SPACING_9: u32 = 36;
pub const SPACING_10: u32 = 40;
pub const SPACING_11: u32 = 44;
pub const SPACING_12: u32 = 48;
pub const SPACING_14: u32 = 56;
pub const SPACING_16: u32 = 64;
pub const SPACING_20: u32 = 80;
pub const SPACING_24: u32 = 96;
pub const SPACING_28: u32 = 112;
pub const SPACING_32: u32 = 128;
pub const SPACING_36: u32 = 144;
pub const SPACING_40: u32 = 160;
pub const SPACING_44: u32 = 176;
pub const SPACING_48: u32 = 192;
pub const SPACING_52: u32 = 208;
pub const SPACING_56: u32 = 224;
pub const SPACING_60: u32 = 240;
pub const SPACING_64: u32 = 256;
pub const SPACING_72: u32 = 288;
pub const SPACING_80: u32 = 320;
pub const SPACING_96: u32 = 384;

pub const SIZE_XS: u32 = 320;
pub const SIZE_SM: u32 = 384;
pub const SIZE_MD: u32 = 448;
pub const SIZE_LG: u32 = 512;
pub const SIZE_XL: u32 = 576;
pub const SIZE_2XL: u32 = 672;
pub const SIZE_3XL: u32 = 768;
pub const SIZE_4XL: u32 = 896;
pub const SIZE_5XL: u32 = 1024;
pub const SIZE_6XL: u32 = 1152;
pub const SIZE_7XL: u32 = 1280;

/// A numbered step of the spacing scale. `S4` is step 4 and `S0p5` is step 0.5.
#[derive(Clone, Copy, Debug, PartialEq, Eq, Structural)]
pub enum Step {
    S0,
    S0p5,
    S1,
    S1p5,
    S2,
    S2p5,
    S3,
    S3p5,
    S4,
    S5,
    S6,
    S7,
    S8,
    S9,
    S10,
    S11,
    S12,
    S14,
    S16,
    S20,
    S24,
    S28,
    S32,
    S36,
    S40,
    S44,
    S48,
    S52,
    S56,
    S60,
    S64,
    S72,
    S80,
    S96,
}

impl Step {
    /// Twice the step's number, which is whole for the half steps too.
    pub open spec fn halves(self) -> nat {
        match self {
            Step::S0 => 0,
            Step::S0p5 => 1,
            Step::S1 => 2,
            Step::S1p5 => 3,
            Step::S2 => 4,
            Step::S2p5 => 5,
            Step::S3 => 6,
            Step::S3p5 => 7,
            Step::S4 => 8,
            Step::S5 => 10,
            Step::S6 => 12,
            Step::S7 => 14,
            Step::S8 => 16,
            Step::S9 => 18,
            Step::S10 => 20,
            Step::S11 => 22,
            Step::S12 => 24,
            Step::S14 => 28,
            Step::S16 => 32,
            Step::S20 => 40,
            Step::S24 => 48,
            Step::S28 => 56,
            Step::S32 => 64,
            Step::S36 => 72,
            Step::S40 => 80,
            Step::S44 => 88,
            Step::S48 => 96,
            Step::S52 => 104,
            Step::S56 => 112,
            Step::S60 => 120,
            Step::S64 => 128,
            Step::S72 => 144,
            Step::S80 => 160,
            Step::S96 => 192,
        }
    }

    /// What the step measures in pixels: four for each whole unit, so two for
    /// each half.
    pub open spec fn spec_px(self) -> u32 {
        (2 * self.halves()) as u32
    }

    /// Returns the step's length in pixels: four times the step's number.
    pub fn px(self) -> (px: u32)
        ensures
            px == self.spec_px(),
            2 * px == 4 * self.halves(),
    {
        match self {
            Step::S0 => SPACING_0,
            Step::S0p5 => SPACING_0_5,
            Step::S1 => SPACING_1,
            Step::S1p5 => SPACING_1_5,
            Step::S2 => SPACING_2,
            Step::S2p5 => SPACING_2_5,
            Step::S3 => SPACING_3,
            Step::S3p5 => SPACING_3_5,
            Step::S4 => SPACING_4,
            Step::S5 => SPACING_5,
            Step::S6 => SPACING_6,
            Step::S7 => SPACING_7,
            Step::S8 => SPACING_8,
            Step::S9 => SPACING_9,
            Step::S10 => SPACING_10,
            Step::S11 => SPACING_11,
            Step::S12 => SPACING_12,
            Step::S14 => SPACING_14,
            Step::S16 => SPACING_16,
            Step::S20 => SPACING_20,
            Step::S24 => SPACING_24,
            Step::S28 => SPACING_28,
            Step::S32 => SPACING_32,
            Step::S36 => SPACING_36,
            Step::S40 => SPACING_40,
            Step::S44 => SPACING_44,
            Step::S48 => SPACING_48,
            Step::S52 => SPACING_52,
            Step::S56 => SPACING_56,
            Step::S60 => SPACING_60,
            Step::S64 => SPACING_64,
            Step::S72 => SPACING_72,
            Step::S80 => SPACING_80,
            Step::S96 => SPACING_96,
        }
    }
}

/// A named container size, from `Xs` up to `Xl7` (the size called 7xl).
#[derive(Clone, Copy, Debug, PartialEq, Eq, Structural)]
pub enum Container {
    Xs,
    Sm,
    Md,
    Lg,
    Xl,
    Xl2,
    Xl3,
    Xl4,
    Xl5,
    Xl6,
    Xl7,
}

impl Container {
    /// The place of the size in the scale, counted from zero.
    pub open spec fn rank(self) -> nat {
        match self {
            Container::Xs => 0,
            Container::Sm => 1,
            Container::Md => 2,
            Container::Lg => 3,
            Container::Xl => 4,
            Container::Xl2 => 5,
            Container::Xl3 => 6,
            Container::Xl4 => 7,
            Container::Xl5 => 8,
            Container::Xl6 => 9,
            Container::Xl7 => 10,
        }
    }

    /// The size in units of sixteen pixels.
    pub open spec fn rems(self) -> nat {
        match self {
            Container::Xs => 20,
            Container::Sm => 24,
            Container::Md => 28,
            Container::Lg => 32,
            Container::Xl => 36,
            Container::Xl2 => 42,
            Container::Xl3 => 48,
            Container::Xl4 => 56,
            Container::Xl5 => 64,
            Container::Xl6 => 72,
            Container::Xl7 => 80,
        }
    }

    /// What the size measures in pixels.
    pub open spec fn spec_px(self) -> u32 {
        (16 * self.rems()) as u32
    }

    /// Returns the size in pixels. The first five sizes lie 64 pixels apart,
    /// starting at 320.
    pub fn px(self) -> (px: u32)
        ensures
            px == self.spec_px(),
            self.rank() <= 4 ==> px == 320 + 64 * self.rank(),
    {
        match self {
            Container::Xs => SIZE_XS,
            Container::Sm => SIZE_SM,
            Container::Md => SIZE_MD,
            Container::Lg => SIZE_LG,
            Container::Xl => SIZE_XL,
            Container::Xl2 => SIZE_2XL,
            Container::Xl3 => SIZE_3XL,
            Container::Xl4 => SIZE_4XL,
            Container::Xl5 => SIZE_5XL,
            Container::Xl6 => SIZE_6XL,
            Container::Xl7 => SIZE_7XL,
        }
    }
}

/// A larger step of the spacing scale is a longer length.
pub proof fn lemma_steps_increase(a: Step, b: Step)
    requires
        a.halves() < b.halves(),
    ensures
        a.spec_px() < b.spec_px(),
{
}

/// A later container size is a larger one.
pub proof fn lemma_containers_increase(a: Container, b: Container)
    requires
        a.rank() < b.rank(),
    ensures
        a.spec_px() < b.spec_px(),
{
}

} // verus!
