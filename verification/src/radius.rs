//! The border radius scale, in pixels.

use vstd::prelude::*;

verus! {

pub const ROUNDED_NONE: u32 = 0;
pub const ROUNDED_SM: u32 = 2;
pub const ROUNDED: u32 = 4;
pub const ROUNDED_MD: u32 = 6;
pub const ROUNDED_LG: u32 = 8;
pub const ROUNDED_XL: u32 = 12;
pub const ROUNDED_2XL: u32 = 16;
pub const ROUNDED_3XL: u32 = 24;
/// Large enough to round any box into a pill or a circle.
pub const ROUNDED_FULL: u32 = 9999;

/// The least radius that counts as fully rounded.
pub const FULLY_ROUNDED: u32 = 9999;

/// A step of the radius scale, from square corners to fully rounded.
#[derive(Clone, Copy, Debug, PartialEq, Eq, Structural)]
pub enum Radius {
    Square,
    Sm,
    Base,
    Md,
    Lg,
    Xl,
    Xl2,
    Xl3,
    Full,
}

impl Radius {
    /// The place of the step in the scale, counted from zero.
    pub open spec fn rank(self) -> nat {
        match self {
            Radius::Square => 0,
            Radius::Sm => 1,
            Radius::Base => 2,
            Radius::Md => 3,
            Radius::Lg => 4,
            Radius::Xl => 5,
            Radius::Xl2 => 6,
            Radius::Xl3 => 7,
            Radius::Full => 8,
        }
    }

    /// What the step measures in pixels.
    pub open spec fn spec_px(self) -> nat {
        match self {
            Radius::Square => 0,
            Radius::Sm => 2,
            Radius::Base => 4,
            Radius::Md => 6,
            Radius::Lg => 8,
            Radius::Xl => 12,
            Radius::Xl2 => 16,
            Radius::Xl3 => 24,
            Radius::Full => 9999,
        }
    }

    /// Returns the radius in pixels.
    pub fn px(self) -> (px: u32)
        ensures
            px == self.spec_px(),
            self == Radius::Full ==> px >= FULLY_ROUNDED,
    {
        match self {
            Radius::Square => ROUNDED_NONE,
            Radius::Sm => ROUNDED_SM,
            Radius::Base => ROUNDED,
            Radius::Md => ROUNDED_MD,
            Radius::Lg => ROUNDED_LG,
            Radius::Xl => ROUNDED_XL,
            Radius::Xl2 => ROUNDED_2XL,
            Radius::Xl3 => ROUNDED_3XL,
            Radius::Full => ROUNDED_FULL,
        }
    }
}

/// A later step of the radius scale is a larger radius.
pub proof fn lemma_radii_increase(a: Radius, b: Radius)
    requires
        a.rank() < b.rank(),
    ensures
        a.spec_px() < b.spec_px(),
{
}

} // verus!
