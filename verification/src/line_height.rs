//! Line heights, in thousandths of the font size: `1500` is one and a half
//! times the font size.

use vstd::prelude::*;

verus! {

pub const LEADING_NONE: u32 = 1000;
pub const LEADING_TIGHT: u32 = 1250;
pub const LEADING_SNUG: u32 = 1375;
pub const LEADING_NORMAL: u32 = 1500;
pub const LEADING_RELAXED: u32 = 1625;
pub const LEADING_LOOSE: u32 = 2000;

} // verus!
