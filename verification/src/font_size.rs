//! The font size scale, in pixels.

use vstd::prelude::*;

verus! {

pub const TEXT_XS: u32 = 12;
pub const TEXT_SM: u32 = 14;
pub const TEXT_BASE: u32 = 16;
pub const TEXT_LG: u32 = 18;
pub const TEXT_XL: u32 = 20;
pub const TEXT_2XL: u32 = 24;
pub const TEXT_3XL: u32 = 30;
pub const TEXT_4XL: u32 = 36;
pub const TEXT_5XL: u32 = 48;
pub const TEXT_6XL: u32 = 60;
pub const TEXT_7XL: u32 = 72;
pub const TEXT_8XL: u32 = 96;
pub const TEXT_9XL: u32 = 128;

/// A step of the font size scale, from `Xs` up to `Xl9` (the size called 9xl).
#[derive(Clone, Copy, Debug, PartialEq, Eq, Structural)]
pub enum TextSize {
    Xs,
    Sm,
    Base,
    Lg,
    Xl,
    Xl2,
    Xl3,
    Xl4,
    Xl5,
    Xl6,
    Xl7,
    Xl8,
    Xl9,
}

impl TextSize {
    /// The place of the step in the scale, counted from zero.
    pub open spec fn rank(self) -> nat {
        match self {
            TextSize::Xs => 0,
            TextSize::Sm => 1,
            TextSize::Base => 2,
            TextSize::Lg => 3,
            TextSize::Xl => 4,
            TextSize::Xl2 => 5,
            TextSize::Xl3 => 6,
            TextSize::Xl4 => 7,
            TextSize::Xl5 => 8,
            TextSize::Xl6 => 9,
            TextSize::Xl7 => 10,
            TextSize::Xl8 => 11,
            TextSize::Xl9 => 12,
        }
    }

    /// What the step measures in pixels.
    pub open spec fn spec_px(self) -> nat {
        match self {
            TextSize::Xs => 12,
            TextSize::Sm => 14,
            TextSize::Base => 16,
            TextSize::Lg => 18,
            TextSize::Xl => 20,
            TextSize::Xl2 => 24,
            TextSize::Xl3 => 30,
            TextSize::Xl4 => 36,
            TextSize::Xl5 => 48,
            TextSize::Xl6 => 60,
            TextSize::Xl7 => 72,
            TextSize::Xl8 => 96,
            TextSize::Xl9 => 128,
        }
    }

    /// Returns the font size in pixels.
    pub fn px(self) -> (px: u32)
        ensures
            px == self.spec_px(),
    {
        match self {
            TextSize::Xs => TEXT_XS,
            TextSize::Sm => TEXT_SM,
            TextSize::Base => TEXT_BASE,
            TextSize::Lg => TEXT_LG,
            TextSize::Xl => TEXT_XL,
            TextSize::Xl2 => TEXT_2XL,
            TextSize::Xl3 => TEXT_3XL,
            TextSize::Xl4 => TEXT_4XL,
            TextSize::Xl5 => TEXT_5XL,
            TextSize::Xl6 => TEXT_6XL,
            TextSize::Xl7 => TEXT_7XL,
            TextSize::Xl8 => TEXT_8XL,
            TextSize::Xl9 => TEXT_9XL,
        }
    }
}

/// A later step of the font size scale is a larger font.
pub proof fn lemma_text_sizes_increase(a: TextSize, b: TextSize)
    requires
        a.rank() < b.rank(),
    ensures
        a.spec_px() < b.spec_px(),
{
}

} // verus!
