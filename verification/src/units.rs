//! Units and keyword values that style properties take.

use vstd::prelude::*;
use vstd::arithmetic::div_mod::{lemma_fundamental_div_mod, lemma_mod_bound};

verus! {

/// One hundred percent, in millionths of a percent.
pub const PCT_FULL: u32 = 100_000_000;

// The fractions that the utilities offer, as tabulated percentages.
pub const PCT_1_2: u32 = 50_000_000;
pub const PCT_1_3: u32 = 33_333_333;
pub const PCT_2_3: u32 = 66_666_667;
pub const PCT_1_4: u32 = 25_000_000;
pub const PCT_3_4: u32 = 75_000_000;
pub const PCT_1_5: u32 = 20_000_000;
pub const PCT_2_5: u32 = 40_000_000;
pub const PCT_3_5: u32 = 60_000_000;
pub const PCT_4_5: u32 = 80_000_000;
pub const PCT_1_6: u32 = 16_666_667;
pub const PCT_5_6: u32 = 83_333_333;
pub const PCT_1_12: u32 = 8_333_333;

/// A length that is a number of pixels, a share of the parent, or automatic.
#[derive(Clone, Copy, Debug, PartialEq, Eq, Structural)]
pub enum Length {
    /// Whole pixels.
    Px(u32),
    /// Millionths of a percent of the parent's extent: `50_000_000` is 50%.
    Pct(u32),
    /// Left to the layout.
    Auto,
}

/// How an element lays out its children, or that it is not shown.
#[derive(Clone, Copy, Debug, PartialEq, Eq, Structural)]
pub enum Display {
    Flex,
    Block,
    Grid,
    Hidden,
}

/// The main axis of a flex container.
#[derive(Clone, Copy, Debug, PartialEq, Eq, Structural)]
pub enum FlexDirection {
    Row,
    Column,
    RowReverse,
    ColumnReverse,
}

/// Whether the children of a flex container may wrap onto further lines.
#[derive(Clone, Copy, Debug, PartialEq, Eq, Structural)]
pub enum FlexWrap {
    NoWrap,
    Wrap,
    WrapReverse,
}

/// The pointer shown over an element.
#[derive(Clone, Copy, Debug, PartialEq, Eq, Structural)]
pub enum CursorStyle {
    Default,
    Pointer,
    Text,
    Move,
    Grab,
    Grabbing,
}

/// The share `num / den` as millionths of a percent, rounded to the nearest
/// millionth (a tie rounds up): one third is `33_333_333`, two thirds are
/// `66_666_667`.
pub open spec fn spec_fraction(num: nat, den: nat) -> nat
    recommends
        den > 0,
{
    (2 * num * 100_000_000 + den) / (2 * den)
}

/// Computes the percentage that the fraction `num / den` stands for.
///
/// Returns `None` when the denominator is zero or the fraction is more than
/// the whole.
pub fn fraction(num: u32, den: u32) -> (pct: Option<Length>)
    ensures
        pct == if den == 0 || num > den {
            None
        } else {
            Some(Length::Pct(spec_fraction(num as nat, den as nat) as u32))
        },
        den != 0 && num <= den ==> spec_fraction(num as nat, den as nat) <= PCT_FULL,
{
    if den == 0 || num > den {
        return None;
    }
    let n: u64 = 2 * (num as u64) * 100_000_000 + den as u64;
    let d: u64 = 2 * (den as u64);
    let q: u64 = n / d;
    assert(q <= 100_000_000) by (nonlinear_arith)
        requires
            q == n / d,
            d == 2 * (den as u64),
            n == 2 * (num as u64) * 100_000_000 + den as u64,
            0 < den,
            num <= den,
    ;
    Some(Length::Pct(q as u32))
}

/// Each tabulated percentage is the fraction it is named after, rounded to
/// the nearest millionth of a percent.
pub proof fn lemma_tabulated_fractions()
    ensures
        PCT_1_2 == spec_fraction(1, 2),
        PCT_1_3 == spec_fraction(1, 3),
        PCT_2_3 == spec_fraction(2, 3),
        PCT_1_4 == spec_fraction(1, 4),
        PCT_3_4 == spec_fraction(3, 4),
        PCT_1_5 == spec_fraction(1, 5),
        PCT_2_5 == spec_fraction(2, 5),
        PCT_3_5 == spec_fraction(3, 5),
        PCT_4_5 == spec_fraction(4, 5),
        PCT_1_6 == spec_fraction(1, 6),
        PCT_5_6 == spec_fraction(5, 6),
        PCT_1_12 == spec_fraction(1, 12),
{
    assert(PCT_1_2 == spec_fraction(1, 2)) by (nonlinear_arith);
    assert(PCT_1_3 == spec_fraction(1, 3)) by (nonlinear_arith);
    assert(PCT_2_3 == spec_fraction(2, 3)) by (nonlinear_arith);
    assert(PCT_1_4 == spec_fraction(1, 4)) by (nonlinear_arith);
    assert(PCT_3_4 == spec_fraction(3, 4)) by (nonlinear_arith);
    assert(PCT_1_5 == spec_fraction(1, 5)) by (nonlinear_arith);
    assert(PCT_2_5 == spec_fraction(2, 5)) by (nonlinear_arith);
    assert(PCT_3_5 == spec_fraction(3, 5)) by (nonlinear_arith);
    assert(PCT_4_5 == spec_fraction(4, 5)) by (nonlinear_arith);
    assert(PCT_1_6 == spec_fraction(1, 6)) by (nonlinear_arith);
    assert(PCT_5_6 == spec_fraction(5, 6)) by (nonlinear_arith);
    assert(PCT_1_12 == spec_fraction(1, 12)) by (nonlinear_arith);
}

/// A fraction and its complement make up the whole, give or take the one
/// millionth of a percent that rounding both of them can add.
pub proof fn lemma_complementary_fractions(num: nat, den: nat)
    requires
        0 < den,
        num <= den,
    ensures
        PCT_FULL <= spec_fraction(num, den) + spec_fraction((den - num) as nat, den) <= PCT_FULL
            + 1,
{
    let d = (2 * den) as int;
    let a = (2 * num * 100_000_000 + den) as int;
    let b = (2 * ((den - num) as nat) * 100_000_000 + den) as int;
    assert(a + b == d * 100_000_001) by (nonlinear_arith)
        requires
            d == 2 * den,
            a == 2 * num * 100_000_000 + den,
            b == 2 * (den - num) * 100_000_000 + den,
    ;
    lemma_fundamental_div_mod(a, d);
    lemma_fundamental_div_mod(b, d);
    lemma_mod_bound(a, d);
    lemma_mod_bound(b, d);
    let qa = a / d;
    let qb = b / d;
    let ra = a % d;
    let rb = b % d;
    assert(100_000_000 <= qa + qb <= 100_000_001) by (nonlinear_arith)
        requires
            a == d * qa + ra,
            b == d * qb + rb,
            0 <= ra < d,
            0 <= rb < d,
            a + b == d * 100_000_001,
            0 < d,
    ;
}

} // verus!
