//! Box shadow presets.
//!
//! Each preset is a single shadow: horizontal offset, vertical offset, blur
//! radius and spread in pixels, and black at some opacity.

use vstd::prelude::*;
use crate::colors::{from_rgba8, rgba8, Color};

verus! {

/// A shadow cast by an element's box.
#[derive(Clone, Copy, Debug, PartialEq)]
pub struct BoxShadow {
    /// Shift to the right, in pixels.
    pub h_offset: i32,
    /// Shift downwards, in pixels.
    pub v_offset: i32,
    /// Radius of the blur, in pixels.
    pub blur_radius: u32,
    /// Growth of the shadow beyond the box, in pixels; negative shrinks it.
    pub spread: i32,
    /// Colour of the shadow.
    pub color: Color,
}

impl BoxShadow {
    /// A sharp, opaque black shadow directly under the box.
    pub fn new() -> (s: Self)
        ensures
            s == (BoxShadow {
                h_offset: 0,
                v_offset: 0,
                blur_radius: 0,
                spread: 0,
                color: rgba8(0, 0, 0, 255),
            }),
    {
        BoxShadow {
            h_offset: 0,
            v_offset: 0,
            blur_radius: 0,
            spread: 0,
            color: from_rgba8(0, 0, 0, 255),
        }
    }

    /// Sets the horizontal offset.
    pub fn h_offset(self, px: i32) -> (s: Self)
        ensures
            s == (BoxShadow { h_offset: px, ..self }),
    {
        BoxShadow { h_offset: px, ..self }
    }

    /// Sets the vertical offset.
    pub fn v_offset(self, px: i32) -> (s: Self)
        ensures
            s == (BoxShadow { v_offset: px, ..self }),
    {
        BoxShadow { v_offset: px, ..self }
    }

    /// Sets the blur radius.
    pub fn blur_radius(self, px: u32) -> (s: Self)
        ensures
            s == (BoxShadow { blur_radius: px, ..self }),
    {
        BoxShadow { blur_radius: px, ..self }
    }

    /// Sets the spread.
    pub fn spread(self, px: i32) -> (s: Self)
        ensures
            s == (BoxShadow { spread: px, ..self }),
    {
        BoxShadow { spread: px, ..self }
    }

    /// Sets the colour.
    pub fn color(self, color: Color) -> (s: Self)
        ensures
            s == (BoxShadow { color: color, ..self }),
    {
        BoxShadow { color: color, ..self }
    }
}

/// The 8-bit alpha channel for an opacity given in hundredths: the opacity
/// scaled to 0..=255 with the fractional part dropped, and full from 100
/// hundredths on.
pub open spec fn spec_alpha(opacity: u8) -> u8 {
    if opacity >= 100 {
        255u8
    } else {
        (opacity as int * 255 / 100) as u8
    }
}

/// Black at the given opacity, in hundredths (`5` is an opacity of 0.05).
pub fn shadow_color(opacity: u8) -> (c: Color)
    ensures
        c == rgba8(0, 0, 0, spec_alpha(opacity)),
{
    let alpha: u8 = if opacity >= 100 {
        255
    } else {
        let scaled: u32 = opacity as u32 * 255 / 100;
        scaled as u8
    };
    from_rgba8(0, 0, 0, alpha)
}

/// What every preset looks like: no horizontal shift, black at `opacity`
/// hundredths.
pub open spec fn preset(v_offset: i32, blur_radius: u32, spread: i32, opacity: u8) -> BoxShadow {
    BoxShadow {
        h_offset: 0,
        v_offset: v_offset,
        blur_radius: blur_radius,
        spread: spread,
        color: rgba8(0, 0, 0, spec_alpha(opacity)),
    }
}

/// The small shadow: `0 1px 2px 0`, black at 0.05.
pub fn shadow_sm() -> (s: BoxShadow)
    ensures
        s == preset(1, 2, 0, 5),
        spec_alpha(5) == 12,
{
    BoxShadow::new().h_offset(0).v_offset(1).blur_radius(2).spread(0).color(shadow_color(5))
}

/// The default shadow: `0 1px 3px 0`, black at 0.1.
pub fn shadow_default() -> (s: BoxShadow)
    ensures
        s == preset(1, 3, 0, 10),
        spec_alpha(10) == 25,
{
    BoxShadow::new().h_offset(0).v_offset(1).blur_radius(3).spread(0).color(shadow_color(10))
}

/// The medium shadow: `0 4px 6px -1px`, black at 0.1.
pub fn shadow_md() -> (s: BoxShadow)
    ensures
        s == preset(4, 6, -1i32, 10),
        spec_alpha(10) == 25,
{
    BoxShadow::new().h_offset(0).v_offset(4).blur_radius(6).spread(-1).color(shadow_color(10))
}

/// The large shadow: `0 10px 15px -3px`, black at 0.1.
pub fn shadow_lg() -> (s: BoxShadow)
    ensures
        s == preset(10, 15, -3i32, 10),
        spec_alpha(10) == 25,
{
    BoxShadow::new().h_offset(0).v_offset(10).blur_radius(15).spread(-3).color(shadow_color(10))
}

/// The extra large shadow: `0 20px 25px -5px`, black at 0.1.
pub fn shadow_xl() -> (s: BoxShadow)
    ensures
        s == preset(20, 25, -5i32, 10),
        spec_alpha(10) == 25,
{
    BoxShadow::new().h_offset(0).v_offset(20).blur_radius(25).spread(-5).color(shadow_color(10))
}

/// The largest shadow: `0 25px 50px -12px`, black at 0.25.
pub fn shadow_2xl() -> (s: BoxShadow)
    ensures
        s == preset(25, 50, -12i32, 25),
        spec_alpha(25) == 63,
{
    BoxShadow::new().h_offset(0).v_offset(25).blur_radius(50).spread(-12).color(shadow_color(25))
}

} // verus!
