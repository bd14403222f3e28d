//! Font weights, on the usual scale from 100 (thin) to 900 (black).

use vstd::prelude::*;

verus! {

pub const THIN: u16 = 100;
pub const EXTRALIGHT: u16 = 200;
pub const LIGHT: u16 = 300;
pub const NORMAL: u16 = 400;
pub const MEDIUM: u16 = 500;
pub const SEMIBOLD: u16 = 600;
pub const BOLD: u16 = 700;
pub const EXTRABOLD: u16 = 800;
pub const BLACK: u16 = 900;

} // verus!
