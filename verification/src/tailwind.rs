//! The utility methods.
//!
//! Every method writes one constant to one property, or the same constant to a
//! few sibling properties (both sides of an axis, all four sides, width and
//! height), and leaves every other property alone. Nothing is added to what
//! was there, so a method applied twice does what it does applied once, and of
//! two methods that write the same property the later one decides.

use vstd::prelude::*;
use crate::colors;
use crate::colors::{rgba, spec_rgba, Color};
use crate::font_size;
use crate::font_weight;
use crate::line_height;
use crate::radius;
use crate::shadow;
use crate::spacing;
use crate::spacing::{Container, Step};
use crate::style::{written, Prop, Style, Value};
use crate::units;
use crate::units::{spec_fraction, CursorStyle, Display, FlexDirection, FlexWrap, Length};

verus! {

/// Short, predictably named methods for composing a style by chaining.
///
/// Numbered methods follow the spacing scale (`w_4` is a width of step 4, 16 pixels),
/// `_px` is one pixel, a `p` in a number is a decimal point (`w_0p5`), and a
/// pair of numbers is a fraction (`w_1_3` is a third of the parent).
pub trait TailwindExt: Sized {
    // Width.
    fn w_0(self) -> Self;
    fn w_px(self) -> Self;
    fn w_0p5(self) -> Self;
    fn w_1(self) -> Self;
    fn w_1p5(self) -> Self;
    fn w_2(self) -> Self;
    fn w_2p5(self) -> Self;
    fn w_3(self) -> Self;
    fn w_3p5(self) -> Self;
    fn w_4(self) -> Self;
    fn w_5(self) -> Self;
    fn w_6(self) -> Self;
    fn w_7(self) -> Self;
    fn w_8(self) -> Self;
    fn w_9(self) -> Self;
    fn w_10(self) -> Self;
    fn w_11(self) -> Self;
    fn w_12(self) -> Self;
    fn w_14(self) -> Self;
    fn w_16(self) -> Self;
    fn w_20(self) -> Self;
    fn w_24(self) -> Self;
    fn w_28(self) -> Self;
    fn w_32(self) -> Self;
    fn w_36(self) -> Self;
    fn w_40(self) -> Self;
    fn w_44(self) -> Self;
    fn w_48(self) -> Self;
    fn w_52(self) -> Self;
    fn w_56(self) -> Self;
    fn w_60(self) -> Self;
    fn w_64(self) -> Self;
    fn w_72(self) -> Self;
    fn w_80(self) -> Self;
    fn w_96(self) -> Self;
    fn w_xs(self) -> Self;
    fn w_sm(self) -> Self;
    fn w_md(self) -> Self;
    fn w_lg(self) -> Self;
    fn w_xl(self) -> Self;
    fn w_2xl(self) -> Self;
    fn w_3xl(self) -> Self;
    fn w_4xl(self) -> Self;
    fn w_5xl(self) -> Self;
    fn w_6xl(self) -> Self;
    fn w_7xl(self) -> Self;
    fn w_full(self) -> Self;
    fn w_auto(self) -> Self;
    fn w_1_2(self) -> Self;
    fn w_1_3(self) -> Self;
    fn w_2_3(self) -> Self;
    fn w_1_4(self) -> Self;
    fn w_3_4(self) -> Self;
    fn w_1_5(self) -> Self;
    fn w_2_5(self) -> Self;
    fn w_3_5(self) -> Self;
    fn w_4_5(self) -> Self;
    fn w_1_6(self) -> Self;
    fn w_5_6(self) -> Self;
    fn w_1_12(self) -> Self;

    // Height.
    fn h_0(self) -> Self;
    fn h_px(self) -> Self;
    fn h_0p5(self) -> Self;
    fn h_1(self) -> Self;
    fn h_1p5(self) -> Self;
    fn h_2(self) -> Self;
    fn h_2p5(self) -> Self;
    fn h_3(self) -> Self;
    fn h_3p5(self) -> Self;
    fn h_4(self) -> Self;
    fn h_5(self) -> Self;
    fn h_6(self) -> Self;
    fn h_7(self) -> Self;
    fn h_8(self) -> Self;
    fn h_9(self) -> Self;
    fn h_10(self) -> Self;
    fn h_11(self) -> Self;
    fn h_12(self) -> Self;
    fn h_14(self) -> Self;
    fn h_16(self) -> Self;
    fn h_20(self) -> Self;
    fn h_24(self) -> Self;
    fn h_28(self) -> Self;
    fn h_32(self) -> Self;
    fn h_36(self) -> Self;
    fn h_40(self) -> Self;
    fn h_44(self) -> Self;
    fn h_48(self) -> Self;
    fn h_52(self) -> Self;
    fn h_56(self) -> Self;
    fn h_60(self) -> Self;
    fn h_64(self) -> Self;
    fn h_72(self) -> Self;
    fn h_80(self) -> Self;
    fn h_96(self) -> Self;
    fn h_xs(self) -> Self;
    fn h_sm(self) -> Self;
    fn h_md(self) -> Self;
    fn h_lg(self) -> Self;
    fn h_xl(self) -> Self;
    fn h_2xl(self) -> Self;
    fn h_3xl(self) -> Self;
    fn h_4xl(self) -> Self;
    fn h_5xl(self) -> Self;
    fn h_6xl(self) -> Self;
    fn h_7xl(self) -> Self;
    fn h_full(self) -> Self;
    fn h_auto(self) -> Self;
    fn h_1_2(self) -> Self;
    fn h_1_3(self) -> Self;
    fn h_2_3(self) -> Self;
    fn h_1_4(self) -> Self;
    fn h_3_4(self) -> Self;
    fn h_1_5(self) -> Self;
    fn h_2_5(self) -> Self;
    fn h_3_5(self) -> Self;
    fn h_4_5(self) -> Self;
    fn h_1_6(self) -> Self;
    fn h_5_6(self) -> Self;
    fn h_1_12(self) -> Self;

    // Width and height together.
    fn size_0(self) -> Self;
    fn size_px(self) -> Self;
    fn size_0p5(self) -> Self;
    fn size_1(self) -> Self;
    fn size_1p5(self) -> Self;
    fn size_2(self) -> Self;
    fn size_2p5(self) -> Self;
    fn size_3(self) -> Self;
    fn size_3p5(self) -> Self;
    fn size_4(self) -> Self;
    fn size_5(self) -> Self;
    fn size_6(self) -> Self;
    fn size_7(self) -> Self;
    fn size_8(self) -> Self;
    fn size_9(self) -> Self;
    fn size_10(self) -> Self;
    fn size_11(self) -> Self;
    fn size_12(self) -> Self;
    fn size_14(self) -> Self;
    fn size_16(self) -> Self;
    fn size_20(self) -> Self;
    fn size_24(self) -> Self;
    fn size_28(self) -> Self;
    fn size_32(self) -> Self;
    fn size_36(self) -> Self;
    fn size_40(self) -> Self;
    fn size_44(self) -> Self;
    fn size_48(self) -> Self;
    fn size_52(self) -> Self;
    fn size_56(self) -> Self;
    fn size_60(self) -> Self;
    fn size_64(self) -> Self;
    fn size_72(self) -> Self;
    fn size_80(self) -> Self;
    fn size_96(self) -> Self;

    // Least width.
    fn min_w_0(self) -> Self;
    fn min_w_px(self) -> Self;
    fn min_w_1(self) -> Self;
    fn min_w_2(self) -> Self;
    fn min_w_4(self) -> Self;
    fn min_w_8(self) -> Self;
    fn min_w_16(self) -> Self;
    fn min_w_32(self) -> Self;
    fn min_w_64(self) -> Self;
    fn min_w_96(self) -> Self;
    fn min_w_full(self) -> Self;
    fn min_w_xs(self) -> Self;
    fn min_w_sm(self) -> Self;
    fn min_w_md(self) -> Self;
    fn min_w_lg(self) -> Self;
    fn min_w_xl(self) -> Self;

    // Greatest width.
    fn max_w_0(self) -> Self;
    fn max_w_px(self) -> Self;
    fn max_w_1(self) -> Self;
    fn max_w_2(self) -> Self;
    fn max_w_4(self) -> Self;
    fn max_w_8(self) -> Self;
    fn max_w_16(self) -> Self;
    fn max_w_32(self) -> Self;
    fn max_w_64(self) -> Self;
    fn max_w_96(self) -> Self;
    fn max_w_full(self) -> Self;
    fn max_w_xs(self) -> Self;
    fn max_w_sm(self) -> Self;
    fn max_w_md(self) -> Self;
    fn max_w_lg(self) -> Self;
    fn max_w_xl(self) -> Self;
    fn max_w_2xl(self) -> Self;
    fn max_w_3xl(self) -> Self;
    fn max_w_4xl(self) -> Self;
    fn max_w_5xl(self) -> Self;
    fn max_w_6xl(self) -> Self;
    fn max_w_7xl(self) -> Self;

    // Padding on all sides.
    fn p_0(self) -> Self;
    fn p_px(self) -> Self;
    fn p_0p5(self) -> Self;
    fn p_1(self) -> Self;
    fn p_1p5(self) -> Self;
    fn p_2(self) -> Self;
    fn p_2p5(self) -> Self;
    fn p_3(self) -> Self;
    fn p_3p5(self) -> Self;
    fn p_4(self) -> Self;
    fn p_5(self) -> Self;
    fn p_6(self) -> Self;
    fn p_7(self) -> Self;
    fn p_8(self) -> Self;
    fn p_9(self) -> Self;
    fn p_10(self) -> Self;
    fn p_11(self) -> Self;
    fn p_12(self) -> Self;
    fn p_14(self) -> Self;
    fn p_16(self) -> Self;
    fn p_20(self) -> Self;
    fn p_24(self) -> Self;

    // Padding left and right.
    fn px_0(self) -> Self;
    fn px_px(self) -> Self;
    fn px_0p5(self) -> Self;
    fn px_1(self) -> Self;
    fn px_1p5(self) -> Self;
    fn px_2(self) -> Self;
    fn px_2p5(self) -> Self;
    fn px_3(self) -> Self;
    fn px_3p5(self) -> Self;
    fn px_4(self) -> Self;
    fn px_5(self) -> Self;
    fn px_6(self) -> Self;
    fn px_7(self) -> Self;
    fn px_8(self) -> Self;
    fn px_9(self) -> Self;
    fn px_10(self) -> Self;
    fn px_12(self) -> Self;
    fn px_16(self) -> Self;
    fn px_20(self) -> Self;
    fn px_24(self) -> Self;

    // Padding top and bottom.
    fn py_0(self) -> Self;
    fn py_px(self) -> Self;
    fn py_0p5(self) -> Self;
    fn py_1(self) -> Self;
    fn py_1p5(self) -> Self;
    fn py_2(self) -> Self;
    fn py_2p5(self) -> Self;
    fn py_3(self) -> Self;
    fn py_3p5(self) -> Self;
    fn py_4(self) -> Self;
    fn py_5(self) -> Self;
    fn py_6(self) -> Self;
    fn py_7(self) -> Self;
    fn py_8(self) -> Self;
    fn py_9(self) -> Self;
    fn py_10(self) -> Self;
    fn py_12(self) -> Self;
    fn py_16(self) -> Self;
    fn py_20(self) -> Self;
    fn py_24(self) -> Self;

    // Padding on one side.
    fn pt_0(self) -> Self;
    fn pt_1(self) -> Self;
    fn pt_2(self) -> Self;
    fn pt_3(self) -> Self;
    fn pt_4(self) -> Self;
    fn pt_5(self) -> Self;
    fn pt_6(self) -> Self;
    fn pt_8(self) -> Self;
    fn pb_0(self) -> Self;
    fn pb_1(self) -> Self;
    fn pb_2(self) -> Self;
    fn pb_3(self) -> Self;
    fn pb_4(self) -> Self;
    fn pb_5(self) -> Self;
    fn pb_6(self) -> Self;
    fn pb_8(self) -> Self;
    fn pl_0(self) -> Self;
    fn pl_1(self) -> Self;
    fn pl_2(self) -> Self;
    fn pl_3(self) -> Self;
    fn pl_4(self) -> Self;
    fn pl_5(self) -> Self;
    fn pl_6(self) -> Self;
    fn pl_8(self) -> Self;
    fn pr_0(self) -> Self;
    fn pr_1(self) -> Self;
    fn pr_2(self) -> Self;
    fn pr_3(self) -> Self;
    fn pr_4(self) -> Self;
    fn pr_5(self) -> Self;
    fn pr_6(self) -> Self;
    fn pr_8(self) -> Self;

    // Margin on all sides.
    fn m_0(self) -> Self;
    fn m_px(self) -> Self;
    fn m_0p5(self) -> Self;
    fn m_1(self) -> Self;
    fn m_1p5(self) -> Self;
    fn m_2(self) -> Self;
    fn m_2p5(self) -> Self;
    fn m_3(self) -> Self;
    fn m_3p5(self) -> Self;
    fn m_4(self) -> Self;
    fn m_5(self) -> Self;
    fn m_6(self) -> Self;
    fn m_7(self) -> Self;
    fn m_8(self) -> Self;
    fn m_9(self) -> Self;
    fn m_10(self) -> Self;
    fn m_11(self) -> Self;
    fn m_12(self) -> Self;
    fn m_14(self) -> Self;
    fn m_16(self) -> Self;
    fn m_20(self) -> Self;
    fn m_24(self) -> Self;
    fn m_auto(self) -> Self;

    // Margin left and right.
    fn mx_0(self) -> Self;
    fn mx_px(self) -> Self;
    fn mx_0p5(self) -> Self;
    fn mx_1(self) -> Self;
    fn mx_1p5(self) -> Self;
    fn mx_2(self) -> Self;
    fn mx_2p5(self) -> Self;
    fn mx_3(self) -> Self;
    fn mx_3p5(self) -> Self;
    fn mx_4(self) -> Self;
    fn mx_5(self) -> Self;
    fn mx_6(self) -> Self;
    fn mx_8(self) -> Self;
    fn mx_10(self) -> Self;
    fn mx_12(self) -> Self;
    fn mx_16(self) -> Self;
    fn mx_20(self) -> Self;
    fn mx_24(self) -> Self;
    fn mx_auto(self) -> Self;

    // Margin top and bottom.
    fn my_0(self) -> Self;
    fn my_px(self) -> Self;
    fn my_0p5(self) -> Self;
    fn my_1(self) -> Self;
    fn my_1p5(self) -> Self;
    fn my_2(self) -> Self;
    fn my_2p5(self) -> Self;
    fn my_3(self) -> Self;
    fn my_3p5(self) -> Self;
    fn my_4(self) -> Self;
    fn my_5(self) -> Self;
    fn my_6(self) -> Self;
    fn my_8(self) -> Self;
    fn my_10(self) -> Self;
    fn my_12(self) -> Self;
    fn my_16(self) -> Self;
    fn my_20(self) -> Self;
    fn my_24(self) -> Self;
    fn my_auto(self) -> Self;

    // Margin on one side.
    fn mt_0(self) -> Self;
    fn mt_1(self) -> Self;
    fn mt_2(self) -> Self;
    fn mt_3(self) -> Self;
    fn mt_4(self) -> Self;
    fn mt_5(self) -> Self;
    fn mt_6(self) -> Self;
    fn mt_8(self) -> Self;
    fn mt_auto(self) -> Self;
    fn mb_0(self) -> Self;
    fn mb_1(self) -> Self;
    fn mb_2(self) -> Self;
    fn mb_3(self) -> Self;
    fn mb_4(self) -> Self;
    fn mb_5(self) -> Self;
    fn mb_6(self) -> Self;
    fn mb_8(self) -> Self;
    fn mb_auto(self) -> Self;
    fn ml_0(self) -> Self;
    fn ml_1(self) -> Self;
    fn ml_2(self) -> Self;
    fn ml_3(self) -> Self;
    fn ml_4(self) -> Self;
    fn ml_5(self) -> Self;
    fn ml_6(self) -> Self;
    fn ml_8(self) -> Self;
    fn ml_auto(self) -> Self;
    fn mr_0(self) -> Self;
    fn mr_1(self) -> Self;
    fn mr_2(self) -> Self;
    fn mr_3(self) -> Self;
    fn mr_4(self) -> Self;
    fn mr_5(self) -> Self;
    fn mr_6(self) -> Self;
    fn mr_8(self) -> Self;
    fn mr_auto(self) -> Self;

    // Gap between children.
    fn gap_0(self) -> Self;
    fn gap_px(self) -> Self;
    fn gap_0p5(self) -> Self;
    fn gap_1(self) -> Self;
    fn gap_1p5(self) -> Self;
    fn gap_2(self) -> Self;
    fn gap_2p5(self) -> Self;
    fn gap_3(self) -> Self;
    fn gap_3p5(self) -> Self;
    fn gap_4(self) -> Self;
    fn gap_5(self) -> Self;
    fn gap_6(self) -> Self;
    fn gap_7(self) -> Self;
    fn gap_8(self) -> Self;
    fn gap_9(self) -> Self;
    fn gap_10(self) -> Self;
    fn gap_11(self) -> Self;
    fn gap_12(self) -> Self;
    fn gap_14(self) -> Self;
    fn gap_16(self) -> Self;
    fn gap_20(self) -> Self;
    fn gap_24(self) -> Self;

    // Corner radius.
    fn rounded_none(self) -> Self;
    fn rounded_sm(self) -> Self;
    fn rounded(self) -> Self;
    fn rounded_md(self) -> Self;
    fn rounded_lg(self) -> Self;
    fn rounded_xl(self) -> Self;
    fn rounded_2xl(self) -> Self;
    fn rounded_3xl(self) -> Self;
    fn rounded_full(self) -> Self;

    // Border width.
    fn border_0(self) -> Self;
    fn border_1(self) -> Self;
    fn border_2(self) -> Self;
    fn border_4(self) -> Self;
    fn border_8(self) -> Self;

    // Box shadow.
    fn shadow_sm(self) -> Self;
    fn shadow(self) -> Self;
    fn shadow_md(self) -> Self;
    fn shadow_lg(self) -> Self;
    fn shadow_xl(self) -> Self;
    fn shadow_2xl(self) -> Self;
    fn shadow_none(self) -> Self;

    // Background colour.
    fn bg(self, color: Color) -> Self;
    fn bg_transparent(self) -> Self;
    fn bg_black(self) -> Self;
    fn bg_white(self) -> Self;
    fn bg_slate_50(self) -> Self;
    fn bg_slate_100(self) -> Self;
    fn bg_slate_200(self) -> Self;
    fn bg_slate_300(self) -> Self;
    fn bg_slate_400(self) -> Self;
    fn bg_slate_500(self) -> Self;
    fn bg_slate_600(self) -> Self;
    fn bg_slate_700(self) -> Self;
    fn bg_slate_800(self) -> Self;
    fn bg_slate_900(self) -> Self;
    fn bg_slate_950(self) -> Self;
    fn bg_gray_50(self) -> Self;
    fn bg_gray_100(self) -> Self;
    fn bg_gray_200(self) -> Self;
    fn bg_gray_300(self) -> Self;
    fn bg_gray_400(self) -> Self;
    fn bg_gray_500(self) -> Self;
    fn bg_gray_600(self) -> Self;
    fn bg_gray_700(self) -> Self;
    fn bg_gray_800(self) -> Self;
    fn bg_gray_900(self) -> Self;
    fn bg_gray_950(self) -> Self;
    fn bg_zinc_50(self) -> Self;
    fn bg_zinc_100(self) -> Self;
    fn bg_zinc_200(self) -> Self;
    fn bg_zinc_300(self) -> Self;
    fn bg_zinc_400(self) -> Self;
    fn bg_zinc_500(self) -> Self;
    fn bg_zinc_600(self) -> Self;
    fn bg_zinc_700(self) -> Self;
    fn bg_zinc_800(self) -> Self;
    fn bg_zinc_900(self) -> Self;
    fn bg_zinc_950(self) -> Self;
    fn bg_red_50(self) -> Self;
    fn bg_red_100(self) -> Self;
    fn bg_red_200(self) -> Self;
    fn bg_red_300(self) -> Self;
    fn bg_red_400(self) -> Self;
    fn bg_red_500(self) -> Self;
    fn bg_red_600(self) -> Self;
    fn bg_red_700(self) -> Self;
    fn bg_red_800(self) -> Self;
    fn bg_red_900(self) -> Self;
    fn bg_red_950(self) -> Self;
    fn bg_orange_50(self) -> Self;
    fn bg_orange_100(self) -> Self;
    fn bg_orange_200(self) -> Self;
    fn bg_orange_300(self) -> Self;
    fn bg_orange_400(self) -> Self;
    fn bg_orange_500(self) -> Self;
    fn bg_orange_600(self) -> Self;
    fn bg_orange_700(self) -> Self;
    fn bg_orange_800(self) -> Self;
    fn bg_orange_900(self) -> Self;
    fn bg_orange_950(self) -> Self;
    fn bg_yellow_50(self) -> Self;
    fn bg_yellow_100(self) -> Self;
    fn bg_yellow_200(self) -> Self;
    fn bg_yellow_300(self) -> Self;
    fn bg_yellow_400(self) -> Self;
    fn bg_yellow_500(self) -> Self;
    fn bg_yellow_600(self) -> Self;
    fn bg_yellow_700(self) -> Self;
    fn bg_yellow_800(self) -> Self;
    fn bg_yellow_900(self) -> Self;
    fn bg_yellow_950(self) -> Self;
    fn bg_green_50(self) -> Self;
    fn bg_green_100(self) -> Self;
    fn bg_green_200(self) -> Self;
    fn bg_green_300(self) -> Self;
    fn bg_green_400(self) -> Self;
    fn bg_green_500(self) -> Self;
    fn bg_green_600(self) -> Self;
    fn bg_green_700(self) -> Self;
    fn bg_green_800(self) -> Self;
    fn bg_green_900(self) -> Self;
    fn bg_green_950(self) -> Self;
    fn bg_blue_50(self) -> Self;
    fn bg_blue_100(self) -> Self;
    fn bg_blue_200(self) -> Self;
    fn bg_blue_300(self) -> Self;
    fn bg_blue_400(self) -> Self;
    fn bg_blue_500(self) -> Self;
    fn bg_blue_600(self) -> Self;
    fn bg_blue_700(self) -> Self;
    fn bg_blue_800(self) -> Self;
    fn bg_blue_900(self) -> Self;
    fn bg_blue_950(self) -> Self;
    fn bg_indigo_50(self) -> Self;
    fn bg_indigo_100(self) -> Self;
    fn bg_indigo_200(self) -> Self;
    fn bg_indigo_300(self) -> Self;
    fn bg_indigo_400(self) -> Self;
    fn bg_indigo_500(self) -> Self;
    fn bg_indigo_600(self) -> Self;
    fn bg_indigo_700(self) -> Self;
    fn bg_indigo_800(self) -> Self;
    fn bg_indigo_900(self) -> Self;
    fn bg_indigo_950(self) -> Self;
    fn bg_purple_50(self) -> Self;
    fn bg_purple_100(self) -> Self;
    fn bg_purple_200(self) -> Self;
    fn bg_purple_300(self) -> Self;
    fn bg_purple_400(self) -> Self;
    fn bg_purple_500(self) -> Self;
    fn bg_purple_600(self) -> Self;
    fn bg_purple_700(self) -> Self;
    fn bg_purple_800(self) -> Self;
    fn bg_purple_900(self) -> Self;
    fn bg_purple_950(self) -> Self;
    fn bg_pink_50(self) -> Self;
    fn bg_pink_100(self) -> Self;
    fn bg_pink_200(self) -> Self;
    fn bg_pink_300(self) -> Self;
    fn bg_pink_400(self) -> Self;
    fn bg_pink_500(self) -> Self;
    fn bg_pink_600(self) -> Self;
    fn bg_pink_700(self) -> Self;
    fn bg_pink_800(self) -> Self;
    fn bg_pink_900(self) -> Self;
    fn bg_pink_950(self) -> Self;

    // Text colour.
    fn text(self, color: Color) -> Self;
    fn text_transparent(self) -> Self;
    fn text_black(self) -> Self;
    fn text_white(self) -> Self;
    fn text_slate_50(self) -> Self;
    fn text_slate_100(self) -> Self;
    fn text_slate_200(self) -> Self;
    fn text_slate_300(self) -> Self;
    fn text_slate_400(self) -> Self;
    fn text_slate_500(self) -> Self;
    fn text_slate_600(self) -> Self;
    fn text_slate_700(self) -> Self;
    fn text_slate_800(self) -> Self;
    fn text_slate_900(self) -> Self;
    fn text_slate_950(self) -> Self;
    fn text_gray_50(self) -> Self;
    fn text_gray_100(self) -> Self;
    fn text_gray_200(self) -> Self;
    fn text_gray_300(self) -> Self;
    fn text_gray_400(self) -> Self;
    fn text_gray_500(self) -> Self;
    fn text_gray_600(self) -> Self;
    fn text_gray_700(self) -> Self;
    fn text_gray_800(self) -> Self;
    fn text_gray_900(self) -> Self;
    fn text_gray_950(self) -> Self;
    fn text_red_50(self) -> Self;
    fn text_red_100(self) -> Self;
    fn text_red_200(self) -> Self;
    fn text_red_300(self) -> Self;
    fn text_red_400(self) -> Self;
    fn text_red_500(self) -> Self;
    fn text_red_600(self) -> Self;
    fn text_red_700(self) -> Self;
    fn text_red_800(self) -> Self;
    fn text_red_900(self) -> Self;
    fn text_red_950(self) -> Self;
    fn text_green_50(self) -> Self;
    fn text_green_100(self) -> Self;
    fn text_green_200(self) -> Self;
    fn text_green_300(self) -> Self;
    fn text_green_400(self) -> Self;
    fn text_green_500(self) -> Self;
    fn text_green_600(self) -> Self;
    fn text_green_700(self) -> Self;
    fn text_green_800(self) -> Self;
    fn text_green_900(self) -> Self;
    fn text_green_950(self) -> Self;
    fn text_blue_50(self) -> Self;
    fn text_blue_100(self) -> Self;
    fn text_blue_200(self) -> Self;
    fn text_blue_300(self) -> Self;
    fn text_blue_400(self) -> Self;
    fn text_blue_500(self) -> Self;
    fn text_blue_600(self) -> Self;
    fn text_blue_700(self) -> Self;
    fn text_blue_800(self) -> Self;
    fn text_blue_900(self) -> Self;
    fn text_blue_950(self) -> Self;

    // Font size.
    fn text_xs(self) -> Self;
    fn text_sm(self) -> Self;
    fn text_base(self) -> Self;
    fn text_lg(self) -> Self;
    fn text_xl(self) -> Self;
    fn text_2xl(self) -> Self;
    fn text_3xl(self) -> Self;
    fn text_4xl(self) -> Self;
    fn text_5xl(self) -> Self;
    fn text_6xl(self) -> Self;
    fn text_7xl(self) -> Self;
    fn text_8xl(self) -> Self;
    fn text_9xl(self) -> Self;

    // Font weight.
    fn font_thin(self) -> Self;
    fn font_extralight(self) -> Self;
    fn font_light(self) -> Self;
    fn font_normal(self) -> Self;
    fn font_medium(self) -> Self;
    fn font_semibold(self) -> Self;
    fn font_bold(self) -> Self;
    fn font_extrabold(self) -> Self;
    fn font_black(self) -> Self;

    // Line height.
    fn leading_none(self) -> Self;
    fn leading_tight(self) -> Self;
    fn leading_snug(self) -> Self;
    fn leading_normal(self) -> Self;
    fn leading_relaxed(self) -> Self;
    fn leading_loose(self) -> Self;

    // Layout mode.
    fn flex(self) -> Self;
    fn block(self) -> Self;
    fn grid(self) -> Self;
    fn hidden(self) -> Self;

    // Flex axis.
    fn flex_row(self) -> Self;
    fn flex_col(self) -> Self;
    fn flex_row_reverse(self) -> Self;
    fn flex_col_reverse(self) -> Self;

    // Flex wrapping.
    fn wrap(self) -> Self;
    fn nowrap(self) -> Self;
    fn wrap_reverse(self) -> Self;

    // Pointer.
    fn cursor_pointer(self) -> Self;
    fn cursor_default(self) -> Self;
    fn cursor_text(self) -> Self;
    fn cursor_move(self) -> Self;
    fn cursor_grab(self) -> Self;
    fn cursor_grabbing(self) -> Self;

    // Border colour.
    fn border_transparent(self) -> Self;
    fn border_black(self) -> Self;
    fn border_white(self) -> Self;
    fn border_gray_200(self) -> Self;
    fn border_gray_300(self) -> Self;
    fn border_gray_400(self) -> Self;
    fn border_gray_500(self) -> Self;
    fn border_gray_600(self) -> Self;
    fn border_red_500(self) -> Self;
    fn border_blue_500(self) -> Self;
    fn border_green_500(self) -> Self;
}

/// Sets the width and the height to the same length.
fn square(style: Style, side: Length) -> (out: Style)
    ensures
        out@ == written(style@, set![Prop::Width, Prop::Height], Value::Length(side)),
{
    let out = style.width(side).height(side);
    assert(out@ =~= written(style@, set![Prop::Width, Prop::Height], Value::Length(side)));
    out
}

/// Replaces the shadows by a single one.
fn one_shadow(style: Style, shadow: shadow::BoxShadow) -> (out: Style)
    ensures
        out@ == written(style@, set![Prop::BoxShadows], Value::Shadows(seq![shadow])),
{
    let list = vec![shadow];
    assert(list@ =~= seq![shadow]);
    style.apply_box_shadows(list)
}

/// Removes every shadow.
fn no_shadow(style: Style) -> (out: Style)
    ensures
        out@ == written(style@, set![Prop::BoxShadows], Value::Shadows(Seq::empty())),
{
    let list: Vec<shadow::BoxShadow> = Vec::new();
    assert(list@ =~= Seq::empty());
    style.apply_box_shadows(list)
}

impl TailwindExt for Style {
    // Width.
    fn w_0(self) -> (out: Self)
        ensures
            out@ == written(
                self@,
                set![Prop::Width],
                Value::Length(Length::Px(Step::S0.spec_px())),
            ),
    {
        self.width(Length::Px(spacing::SPACING_0))
    }

    fn w_px(self) -> (out: Self)
        ensures
            out@ == written(
                self@,
                set![Prop::Width],
                Value::Length(Length::Px(spacing::SPACING_PX)),
            ),
    {
        self.width(Length::Px(spacing::SPACING_PX))
    }

    fn w_0p5(self) -> (out: Self)
        ensures
            out@ == written(
                self@,
                set![Prop::Width],
                Value::Length(Length::Px(Step::S0p5.spec_px())),
            ),
    {
        self.width(Length::Px(spacing::SPACING_0_5))
    }

    fn w_1(self) -> (out: Self)
        ensures
            out@ == written(
                self@,
                set![Prop::Width],
                Value::Length(Length::Px(Step::S1.spec_px())),
            ),
    {
        self.width(Length::Px(spacing::SPACING_1))
    }

    fn w_1p5(self) -> (out: Self)
        ensures
            out@ == written(
                self@,
                set![Prop::Width],
                Value::Length(Length::Px(Step::S1p5.spec_px())),
            ),
    {
        self.width(Length::Px(spacing::SPACING_1_5))
    }

    fn w_2(self) -> (out: Self)
        ensures
            out@ == written(
                self@,
                set![Prop::Width],
                Value::Length(Length::Px(Step::S2.spec_px())),
            ),
    {
        self.width(Length::Px(spacing::SPACING_2))
    }

    fn w_2p5(self) -> (out: Self)
        ensures
            out@ == written(
                self@,
                set![Prop::Width],
                Value::Length(Length::Px(Step::S2p5.spec_px())),
            ),
    {
        self.width(Length::Px(spacing::SPACING_2_5))
    }

    fn w_3(self) -> (out: Self)
        ensures
            out@ == written(
                self@,
                set![Prop::Width],
                Value::Length(Length::Px(Step::S3.spec_px())),
            ),
    {
        self.width(Length::Px(spacing::SPACING_3))
    }

    fn w_3p5(self) -> (out: Self)
        ensures
            out@ == written(
                self@,
                set![Prop::Width],
                Value::Length(Length::Px(Step::S3p5.spec_px())),
            ),
    {
        self.width(Length::Px(spacing::SPACING_3_5))
    }

    fn w_4(self) -> (out: Self)
        ensures
            out@ == written(
                self@,
                set![Prop::Width],
                Value::Length(Length::Px(Step::S4.spec_px())),
            ),
    {
        self.width(Length::Px(spacing::SPACING_4))
    }

    fn w_5(self) -> (out: Self)
        ensures
            out@ == written(
                self@,
                set![Prop::Width],
                Value::Length(Length::Px(Step::S5.spec_px())),
            ),
    {
        self.width(Length::Px(spacing::SPACING_5))
    }

    fn w_6(self) -> (out: Self)
        ensures
            out@ == written(
                self@,
                set![Prop::Width],
                Value::Length(Length::Px(Step::S6.spec_px())),
            ),
    {
        self.width(Length::Px(spacing::SPACING_6))
    }

    fn w_7(self) -> (out: Self)
        ensures
            out@ == written(
                self@,
                set![Prop::Width],
                Value::Length(Length::Px(Step::S7.spec_px())),
            ),
    {
        self.width(Length::Px(spacing::SPACING_7))
    }

    fn w_8(self) -> (out: Self)
        ensures
            out@ == written(
                self@,
                set![Prop::Width],
                Value::Length(Length::Px(Step::S8.spec_px())),
            ),
    {
        self.width(Length::Px(spacing::SPACING_8))
    }

    fn w_9(self) -> (out: Self)
        ensures
            out@ == written(
                self@,
                set![Prop::Width],
                Value::Length(Length::Px(Step::S9.spec_px())),
            ),
    {
        self.width(Length::Px(spacing::SPACING_9))
    }

    fn w_10(self) -> (out: Self)
        ensures
            out@ == written(
                self@,
                set![Prop::Width],
                Value::Length(Length::Px(Step::S10.spec_px())),
            ),
    {
        self.width(Length::Px(spacing::SPACING_10))
    }

    fn w_11(self) -> (out: Self)
        ensures
            out@ == written(
                self@,
                set![Prop::Width],
                Value::Length(Length::Px(Step::S11.spec_px())),
            ),
    {
        self.width(Length::Px(spacing::SPACING_11))
    }

    fn w_12(self) -> (out: Self)
        ensures
            out@ == written(
                self@,
                set![Prop::Width],
                Value::Length(Length::Px(Step::S12.spec_px())),
            ),
    {
        self.width(Length::Px(spacing::SPACING_12))
    }

    fn w_14(self) -> (out: Self)
        ensures
            out@ == written(
                self@,
                set![Prop::Width],
                Value::Length(Length::Px(Step::S14.spec_px())),
            ),
    {
        self.width(Length::Px(spacing::SPACING_14))
    }

    fn w_16(self) -> (out: Self)
        ensures
            out@ == written(
                self@,
                set![Prop::Width],
                Value::Length(Length::Px(Step::S16.spec_px())),
            ),
    {
        self.width(Length::Px(spacing::SPACING_16))
    }

    fn w_20(self) -> (out: Self)
        ensures
            out@ == written(
                self@,
                set![Prop::Width],
                Value::Length(Length::Px(Step::S20.spec_px())),
            ),
    {
        self.width(Length::Px(spacing::SPACING_20))
    }

    fn w_24(self) -> (out: Self)
        ensures
            out@ == written(
                self@,
                set![Prop::Width],
                Value::Length(Length::Px(Step::S24.spec_px())),
            ),
    {
        self.width(Length::Px(spacing::SPACING_24))
    }

    fn w_28(self) -> (out: Self)
        ensures
            out@ == written(
                self@,
                set![Prop::Width],
                Value::Length(Length::Px(Step::S28.spec_px())),
            ),
    {
        self.width(Length::Px(spacing::SPACING_28))
    }

    fn w_32(self) -> (out: Self)
        ensures
            out@ == written(
                self@,
                set![Prop::Width],
                Value::Length(Length::Px(Step::S32.spec_px())),
            ),
    {
        self.width(Length::Px(spacing::SPACING_32))
    }

    fn w_36(self) -> (out: Self)
        ensures
            out@ == written(
                self@,
                set![Prop::Width],
                Value::Length(Length::Px(Step::S36.spec_px())),
            ),
    {
        self.width(Length::Px(spacing::SPACING_36))
    }

    fn w_40(self) -> (out: Self)
        ensures
            out@ == written(
                self@,
                set![Prop::Width],
                Value::Length(Length::Px(Step::S40.spec_px())),
            ),
    {
        self.width(Length::Px(spacing::SPACING_40))
    }

    fn w_44(self) -> (out: Self)
        ensures
            out@ == written(
                self@,
                set![Prop::Width],
                Value::Length(Length::Px(Step::S44.spec_px())),
            ),
    {
        self.width(Length::Px(spacing::SPACING_44))
    }

    fn w_48(self) -> (out: Self)
        ensures
            out@ == written(
                self@,
                set![Prop::Width],
                Value::Length(Length::Px(Step::S48.spec_px())),
            ),
    {
        self.width(Length::Px(spacing::SPACING_48))
    }

    fn w_52(self) -> (out: Self)
        ensures
            out@ == written(
                self@,
                set![Prop::Width],
                Value::Length(Length::Px(Step::S52.spec_px())),
            ),
    {
        self.width(Length::Px(spacing::SPACING_52))
    }

    fn w_56(self) -> (out: Self)
        ensures
            out@ == written(
                self@,
                set![Prop::Width],
                Value::Length(Length::Px(Step::S56.spec_px())),
            ),
    {
        self.width(Length::Px(spacing::SPACING_56))
    }

    fn w_60(self) -> (out: Self)
        ensures
            out@ == written(
                self@,
                set![Prop::Width],
                Value::Length(Length::Px(Step::S60.spec_px())),
            ),
    {
        self.width(Length::Px(spacing::SPACING_60))
    }

    fn w_64(self) -> (out: Self)
        ensures
            out@ == written(
                self@,
                set![Prop::Width],
                Value::Length(Length::Px(Step::S64.spec_px())),
            ),
    {
        self.width(Length::Px(spacing::SPACING_64))
    }

    fn w_72(self) -> (out: Self)
        ensures
            out@ == written(
                self@,
                set![Prop::Width],
                Value::Length(Length::Px(Step::S72.spec_px())),
            ),
    {
        self.width(Length::Px(spacing::SPACING_72))
    }

    fn w_80(self) -> (out: Self)
        ensures
            out@ == written(
                self@,
                set![Prop::Width],
                Value::Length(Length::Px(Step::S80.spec_px())),
            ),
    {
        self.width(Length::Px(spacing::SPACING_80))
    }

    fn w_96(self) -> (out: Self)
        ensures
            out@ == written(
                self@,
                set![Prop::Width],
                Value::Length(Length::Px(Step::S96.spec_px())),
            ),
    {
        self.width(Length::Px(spacing::SPACING_96))
    }

    fn w_xs(self) -> (out: Self)
        ensures
            out@ == written(
                self@,
                set![Prop::Width],
                Value::Length(Length::Px(Container::Xs.spec_px())),
            ),
    {
        self.width(Length::Px(spacing::SIZE_XS))
    }

    fn w_sm(self) -> (out: Self)
        ensures
            out@ == written(
                self@,
                set![Prop::Width],
                Value::Length(Length::Px(Container::Sm.spec_px())),
            ),
    {
        self.width(Length::Px(spacing::SIZE_SM))
    }

    fn w_md(self) -> (out: Self)
        ensures
            out@ == written(
                self@,
                set![Prop::Width],
                Value::Length(Length::Px(Container::Md.spec_px())),
            ),
    {
        self.width(Length::Px(spacing::SIZE_MD))
    }

    fn w_lg(self) -> (out: Self)
        ensures
            out@ == written(
                self@,
                set![Prop::Width],
                Value::Length(Length::Px(Container::Lg.spec_px())),
            ),
    {
        self.width(Length::Px(spacing::SIZE_LG))
    }

    fn w_xl(self) -> (out: Self)
        ensures
            out@ == written(
                self@,
                set![Prop::Width],
                Value::Length(Length::Px(Container::Xl.spec_px())),
            ),
    {
        self.width(Length::Px(spacing::SIZE_XL))
    }

    fn w_2xl(self) -> (out: Self)
        ensures
            out@ == written(
                self@,
                set![Prop::Width],
                Value::Length(Length::Px(Container::Xl2.spec_px())),
            ),
    {
        self.width(Length::Px(spacing::SIZE_2XL))
    }

    fn w_3xl(self) -> (out: Self)
        ensures
            out@ == written(
                self@,
                set![Prop::Width],
                Value::Length(Length::Px(Container::Xl3.spec_px())),
            ),
    {
        self.width(Length::Px(spacing::SIZE_3XL))
    }

    fn w_4xl(self) -> (out: Self)
        ensures
            out@ == written(
                self@,
                set![Prop::Width],
                Value::Length(Length::Px(Container::Xl4.spec_px())),
            ),
    {
        self.width(Length::Px(spacing::SIZE_4XL))
    }

    fn w_5xl(self) -> (out: Self)
        ensures
            out@ == written(
                self@,
                set![Prop::Width],
                Value::Length(Length::Px(Container::Xl5.spec_px())),
            ),
    {
        self.width(Length::Px(spacing::SIZE_5XL))
    }

    fn w_6xl(self) -> (out: Self)
        ensures
            out@ == written(
                self@,
                set![Prop::Width],
                Value::Length(Length::Px(Container::Xl6.spec_px())),
            ),
    {
        self.width(Length::Px(spacing::SIZE_6XL))
    }

    fn w_7xl(self) -> (out: Self)
        ensures
            out@ == written(
                self@,
                set![Prop::Width],
                Value::Length(Length::Px(Container::Xl7.spec_px())),
            ),
    {
        self.width(Length::Px(spacing::SIZE_7XL))
    }

    fn w_full(self) -> (out: Self)
        ensures
            out@ == written(self@, set![Prop::Width], Value::Length(Length::Pct(units::PCT_FULL))),
    {
        self.width(Length::Pct(units::PCT_FULL))
    }

    fn w_auto(self) -> (out: Self)
        ensures
            out@ == written(self@, set![Prop::Width], Value::Length(Length::Auto)),
    {
        self.width(Length::Auto)
    }

    fn w_1_2(self) -> (out: Self)
        ensures
            out@ == written(self@, set![Prop::Width], Value::Length(Length::Pct(units::PCT_1_2))),
            units::PCT_1_2 == spec_fraction(1, 2),
    {
        proof {
            units::lemma_tabulated_fractions();
        }
        self.width(Length::Pct(units::PCT_1_2))
    }

    fn w_1_3(self) -> (out: Self)
        ensures
            out@ == written(self@, set![Prop::Width], Value::Length(Length::Pct(units::PCT_1_3))),
            units::PCT_1_3 == spec_fraction(1, 3),
    {
        proof {
            units::lemma_tabulated_fractions();
        }
        self.width(Length::Pct(units::PCT_1_3))
    }

    fn w_2_3(self) -> (out: Self)
        ensures
            out@ == written(self@, set![Prop::Width], Value::Length(Length::Pct(units::PCT_2_3))),
            units::PCT_2_3 == spec_fraction(2, 3),
    {
        proof {
            units::lemma_tabulated_fractions();
        }
        self.width(Length::Pct(units::PCT_2_3))
    }

    fn w_1_4(self) -> (out: Self)
        ensures
            out@ == written(self@, set![Prop::Width], Value::Length(Length::Pct(units::PCT_1_4))),
            units::PCT_1_4 == spec_fraction(1, 4),
    {
        proof {
            units::lemma_tabulated_fractions();
        }
        self.width(Length::Pct(units::PCT_1_4))
    }

    fn w_3_4(self) -> (out: Self)
        ensures
            out@ == written(self@, set![Prop::Width], Value::Length(Length::Pct(units::PCT_3_4))),
            units::PCT_3_4 == spec_fraction(3, 4),
    {
        proof {
            units::lemma_tabulated_fractions();
        }
        self.width(Length::Pct(units::PCT_3_4))
    }

    fn w_1_5(self) -> (out: Self)
        ensures
            out@ == written(self@, set![Prop::Width], Value::Length(Length::Pct(units::PCT_1_5))),
            units::PCT_1_5 == spec_fraction(1, 5),
    {
        proof {
            units::lemma_tabulated_fractions();
        }
        self.width(Length::Pct(units::PCT_1_5))
    }

    fn w_2_5(self) -> (out: Self)
        ensures
            out@ == written(self@, set![Prop::Width], Value::Length(Length::Pct(units::PCT_2_5))),
            units::PCT_2_5 == spec_fraction(2, 5),
    {
        proof {
            units::lemma_tabulated_fractions();
        }
        self.width(Length::Pct(units::PCT_2_5))
    }

    fn w_3_5(self) -> (out: Self)
        ensures
            out@ == written(self@, set![Prop::Width], Value::Length(Length::Pct(units::PCT_3_5))),
            units::PCT_3_5 == spec_fraction(3, 5),
    {
        proof {
            units::lemma_tabulated_fractions();
        }
        self.width(Length::Pct(units::PCT_3_5))
    }

    fn w_4_5(self) -> (out: Self)
        ensures
            out@ == written(self@, set![Prop::Width], Value::Length(Length::Pct(units::PCT_4_5))),
            units::PCT_4_5 == spec_fraction(4, 5),
    {
        proof {
            units::lemma_tabulated_fractions();
        }
        self.width(Length::Pct(units::PCT_4_5))
    }

    fn w_1_6(self) -> (out: Self)
        ensures
            out@ == written(self@, set![Prop::Width], Value::Length(Length::Pct(units::PCT_1_6))),
            units::PCT_1_6 == spec_fraction(1, 6),
    {
        proof {
            units::lemma_tabulated_fractions();
        }
        self.width(Length::Pct(units::PCT_1_6))
    }

    fn w_5_6(self) -> (out: Self)
        ensures
            out@ == written(self@, set![Prop::Width], Value::Length(Length::Pct(units::PCT_5_6))),
            units::PCT_5_6 == spec_fraction(5, 6),
    {
        proof {
            units::lemma_tabulated_fractions();
        }
        self.width(Length::Pct(units::PCT_5_6))
    }

    fn w_1_12(self) -> (out: Self)
        ensures
            out@ == written(self@, set![Prop::Width], Value::Length(Length::Pct(units::PCT_1_12))),
            units::PCT_1_12 == spec_fraction(1, 12),
    {
        proof {
            units::lemma_tabulated_fractions();
        }
        self.width(Length::Pct(units::PCT_1_12))
    }

    // Height.
    fn h_0(self) -> (out: Self)
        ensures
            out@ == written(
                self@,
                set![Prop::Height],
                Value::Length(Length::Px(Step::S0.spec_px())),
            ),
    {
        self.height(Length::Px(spacing::SPACING_0))
    }

    fn h_px(self) -> (out: Self)
        ensures
            out@ == written(
                self@,
                set![Prop::Height],
                Value::Length(Length::Px(spacing::SPACING_PX)),
            ),
    {
        self.height(Length::Px(spacing::SPACING_PX))
    }

    fn h_0p5(self) -> (out: Self)
        ensures
            out@ == written(
                self@,
                set![Prop::Height],
                Value::Length(Length::Px(Step::S0p5.spec_px())),
            ),
    {
        self.height(Length::Px(spacing::SPACING_0_5))
    }

    fn h_1(self) -> (out: Self)
        ensures
            out@ == written(
                self@,
                set![Prop::Height],
                Value::Length(Length::Px(Step::S1.spec_px())),
            ),
    {
        self.height(Length::Px(spacing::SPACING_1))
    }

    fn h_1p5(self) -> (out: Self)
        ensures
            out@ == written(
                self@,
                set![Prop::Height],
                Value::Length(Length::Px(Step::S1p5.spec_px())),
            ),
    {
        self.height(Length::Px(spacing::SPACING_1_5))
    }

    fn h_2(self) -> (out: Self)
        ensures
            out@ == written(
                self@,
                set![Prop::Height],
                Value::Length(Length::Px(Step::S2.spec_px())),
            ),
    {
        self.height(Length::Px(spacing::SPACING_2))
    }

    fn h_2p5(self) -> (out: Self)
        ensures
            out@ == written(
                self@,
                set![Prop::Height],
                Value::Length(Length::Px(Step::S2p5.spec_px())),
            ),
    {
        self.height(Length::Px(spacing::SPACING_2_5))
    }

    fn h_3(self) -> (out: Self)
        ensures
            out@ == written(
                self@,
                set![Prop::Height],
                Value::Length(Length::Px(Step::S3.spec_px())),
            ),
    {
        self.height(Length::Px(spacing::SPACING_3))
    }

    fn h_3p5(self) -> (out: Self)
        ensures
            out@ == written(
                self@,
                set![Prop::Height],
                Value::Length(Length::Px(Step::S3p5.spec_px())),
            ),
    {
        self.height(Length::Px(spacing::SPACING_3_5))
    }

    fn h_4(self) -> (out: Self)
        ensures
            out@ == written(
                self@,
                set![Prop::Height],
                Value::Length(Length::Px(Step::S4.spec_px())),
            ),
    {
        self.height(Length::Px(spacing::SPACING_4))
    }

    fn h_5(self) -> (out: Self)
        ensures
            out@ == written(
                self@,
                set![Prop::Height],
                Value::Length(Length::Px(Step::S5.spec_px())),
            ),
    {
        self.height(Length::Px(spacing::SPACING_5))
    }

    fn h_6(self) -> (out: Self)
        ensures
            out@ == written(
                self@,
                set![Prop::Height],
                Value::Length(Length::Px(Step::S6.spec_px())),
            ),
    {
        self.height(Length::Px(spacing::SPACING_6))
    }

    fn h_7(self) -> (out: Self)
        ensures
            out@ == written(
                self@,
                set![Prop::Height],
                Value::Length(Length::Px(Step::S7.spec_px())),
            ),
    {
        self.height(Length::Px(spacing::SPACING_7))
    }

    fn h_8(self) -> (out: Self)
        ensures
            out@ == written(
                self@,
                set![Prop::Height],
                Value::Length(Length::Px(Step::S8.spec_px())),
            ),
    {
        self.height(Length::Px(spacing::SPACING_8))
    }

    fn h_9(self) -> (out: Self)
        ensures
            out@ == written(
                self@,
                set![Prop::Height],
                Value::Length(Length::Px(Step::S9.spec_px())),
            ),
    {
        self.height(Length::Px(spacing::SPACING_9))
    }

    fn h_10(self) -> (out: Self)
        ensures
            out@ == written(
                self@,
                set![Prop::Height],
                Value::Length(Length::Px(Step::S10.spec_px())),
            ),
    {
        self.height(Length::Px(spacing::SPACING_10))
    }

    fn h_11(self) -> (out: Self)
        ensures
            out@ == written(
                self@,
                set![Prop::Height],
                Value::Length(Length::Px(Step::S11.spec_px())),
            ),
    {
        self.height(Length::Px(spacing::SPACING_11))
    }

    fn h_12(self) -> (out: Self)
        ensures
            out@ == written(
                self@,
                set![Prop::Height],
                Value::Length(Length::Px(Step::S12.spec_px())),
            ),
    {
        self.height(Length::Px(spacing::SPACING_12))
    }

    fn h_14(self) -> (out: Self)
        ensures
            out@ == written(
                self@,
                set![Prop::Height],
                Value::Length(Length::Px(Step::S14.spec_px())),
            ),
    {
        self.height(Length::Px(spacing::SPACING_14))
    }

    fn h_16(self) -> (out: Self)
        ensures
            out@ == written(
                self@,
                set![Prop::Height],
                Value::Length(Length::Px(Step::S16.spec_px())),
            ),
    {
        self.height(Length::Px(spacing::SPACING_16))
    }

    fn h_20(self) -> (out: Self)
        ensures
            out@ == written(
                self@,
                set![Prop::Height],
                Value::Length(Length::Px(Step::S20.spec_px())),
            ),
    {
        self.height(Length::Px(spacing::SPACING_20))
    }

    fn h_24(self) -> (out: Self)
        ensures
            out@ == written(
                self@,
                set![Prop::Height],
                Value::Length(Length::Px(Step::S24.spec_px())),
            ),
    {
        self.height(Length::Px(spacing::SPACING_24))
    }

    fn h_28(self) -> (out: Self)
        ensures
            out@ == written(
                self@,
                set![Prop::Height],
                Value::Length(Length::Px(Step::S28.spec_px())),
            ),
    {
        self.height(Length::Px(spacing::SPACING_28))
    }

    fn h_32(self) -> (out: Self)
        ensures
            out@ == written(
                self@,
                set![Prop::Height],
                Value::Length(Length::Px(Step::S32.spec_px())),
            ),
    {
        self.height(Length::Px(spacing::SPACING_32))
    }

    fn h_36(self) -> (out: Self)
        ensures
            out@ == written(
                self@,
                set![Prop::Height],
                Value::Length(Length::Px(Step::S36.spec_px())),
            ),
    {
        self.height(Length::Px(spacing::SPACING_36))
    }

    fn h_40(self) -> (out: Self)
        ensures
            out@ == written(
                self@,
                set![Prop::Height],
                Value::Length(Length::Px(Step::S40.spec_px())),
            ),
    {
        self.height(Length::Px(spacing::SPACING_40))
    }

    fn h_44(self) -> (out: Self)
        ensures
            out@ == written(
                self@,
                set![Prop::Height],
                Value::Length(Length::Px(Step::S44.spec_px())),
            ),
    {
        self.height(Length::Px(spacing::SPACING_44))
    }

    fn h_48(self) -> (out: Self)
        ensures
            out@ == written(
                self@,
                set![Prop::Height],
                Value::Length(Length::Px(Step::S48.spec_px())),
            ),
    {
        self.height(Length::Px(spacing::SPACING_48))
    }

    fn h_52(self) -> (out: Self)
        ensures
            out@ == written(
                self@,
                set![Prop::Height],
                Value::Length(Length::Px(Step::S52.spec_px())),
            ),
    {
        self.height(Length::Px(spacing::SPACING_52))
    }

    fn h_56(self) -> (out: Self)
        ensures
            out@ == written(
                self@,
                set![Prop::Height],
                Value::Length(Length::Px(Step::S56.spec_px())),
            ),
    {
        self.height(Length::Px(spacing::SPACING_56))
    }

    fn h_60(self) -> (out: Self)
        ensures
            out@ == written(
                self@,
                set![Prop::Height],
                Value::Length(Length::Px(Step::S60.spec_px())),
            ),
    {
        self.height(Length::Px(spacing::SPACING_60))
    }

    fn h_64(self) -> (out: Self)
        ensures
            out@ == written(
                self@,
                set![Prop::Height],
                Value::Length(Length::Px(Step::S64.spec_px())),
            ),
    {
        self.height(Length::Px(spacing::SPACING_64))
    }

    fn h_72(self) -> (out: Self)
        ensures
            out@ == written(
                self@,
                set![Prop::Height],
                Value::Length(Length::Px(Step::S72.spec_px())),
            ),
    {
        self.height(Length::Px(spacing::SPACING_72))
    }

    fn h_80(self) -> (out: Self)
        ensures
            out@ == written(
                self@,
                set![Prop::Height],
                Value::Length(Length::Px(Step::S80.spec_px())),
            ),
    {
        self.height(Length::Px(spacing::SPACING_80))
    }

    fn h_96(self) -> (out: Self)
        ensures
            out@ == written(
                self@,
                set![Prop::Height],
                Value::Length(Length::Px(Step::S96.spec_px())),
            ),
    {
        self.height(Length::Px(spacing::SPACING_96))
    }

    fn h_xs(self) -> (out: Self)
        ensures
            out@ == written(
                self@,
                set![Prop::Height],
                Value::Length(Length::Px(Container::Xs.spec_px())),
            ),
    {
        self.height(Length::Px(spacing::SIZE_XS))
    }

    fn h_sm(self) -> (out: Self)
        ensures
            out@ == written(
                self@,
                set![Prop::Height],
                Value::Length(Length::Px(Container::Sm.spec_px())),
            ),
    {
        self.height(Length::Px(spacing::SIZE_SM))
    }

    fn h_md(self) -> (out: Self)
        ensures
            out@ == written(
                self@,
                set![Prop::Height],
                Value::Length(Length::Px(Container::Md.spec_px())),
            ),
    {
        self.height(Length::Px(spacing::SIZE_MD))
    }

    fn h_lg(self) -> (out: Self)
        ensures
            out@ == written(
                self@,
                set![Prop::Height],
                Value::Length(Length::Px(Container::Lg.spec_px())),
            ),
    {
        self.height(Length::Px(spacing::SIZE_LG))
    }

    fn h_xl(self) -> (out: Self)
        ensures
            out@ == written(
                self@,
                set![Prop::Height],
                Value::Length(Length::Px(Container::Xl.spec_px())),
            ),
    {
        self.height(Length::Px(spacing::SIZE_XL))
    }

    fn h_2xl(self) -> (out: Self)
        ensures
            out@ == written(
                self@,
                set![Prop::Height],
                Value::Length(Length::Px(Container::Xl2.spec_px())),
            ),
    {
        self.height(Length::Px(spacing::SIZE_2XL))
    }

    fn h_3xl(self) -> (out: Self)
        ensures
            out@ == written(
                self@,
                set![Prop::Height],
                Value::Length(Length::Px(Container::Xl3.spec_px())),
            ),
    {
        self.height(Length::Px(spacing::SIZE_3XL))
    }

    fn h_4xl(self) -> (out: Self)
        ensures
            out@ == written(
                self@,
                set![Prop::Height],
                Value::Length(Length::Px(Container::Xl4.spec_px())),
            ),
    {
        self.height(Length::Px(spacing::SIZE_4XL))
    }

    fn h_5xl(self) -> (out: Self)
        ensures
            out@ == written(
                self@,
                set![Prop::Height],
                Value::Length(Length::Px(Container::Xl5.spec_px())),
            ),
    {
        self.height(Length::Px(spacing::SIZE_5XL))
    }

    fn h_6xl(self) -> (out: Self)
        ensures
            out@ == written(
                self@,
                set![Prop::Height],
                Value::Length(Length::Px(Container::Xl6.spec_px())),
            ),
    {
        self.height(Length::Px(spacing::SIZE_6XL))
    }

    fn h_7xl(self) -> (out: Self)
        ensures
            out@ == written(
                self@,
                set![Prop::Height],
                Value::Length(Length::Px(Container::Xl7.spec_px())),
            ),
    {
        self.height(Length::Px(spacing::SIZE_7XL))
    }

    fn h_full(self) -> (out: Self)
        ensures
            out@ == written(self@, set![Prop::Height], Value::Length(Length::Pct(units::PCT_FULL))),
    {
        self.height(Length::Pct(units::PCT_FULL))
    }

    fn h_auto(self) -> (out: Self)
        ensures
            out@ == written(self@, set![Prop::Height], Value::Length(Length::Auto)),
    {
        self.height(Length::Auto)
    }

    fn h_1_2(self) -> (out: Self)
        ensures
            out@ == written(self@, set![Prop::Height], Value::Length(Length::Pct(units::PCT_1_2))),
            units::PCT_1_2 == spec_fraction(1, 2),
    {
        proof {
            units::lemma_tabulated_fractions();
        }
        self.height(Length::Pct(units::PCT_1_2))
    }

    fn h_1_3(self) -> (out: Self)
        ensures
            out@ == written(self@, set![Prop::Height], Value::Length(Length::Pct(units::PCT_1_3))),
            units::PCT_1_3 == spec_fraction(1, 3),
    {
        proof {
            units::lemma_tabulated_fractions();
        }
        self.height(Length::Pct(units::PCT_1_3))
    }

    fn h_2_3(self) -> (out: Self)
        ensures
            out@ == written(self@, set![Prop::Height], Value::Length(Length::Pct(units::PCT_2_3))),
            units::PCT_2_3 == spec_fraction(2, 3),
    {
        proof {
            units::lemma_tabulated_fractions();
        }
        self.height(Length::Pct(units::PCT_2_3))
    }

    fn h_1_4(self) -> (out: Self)
        ensures
            out@ == written(self@, set![Prop::Height], Value::Length(Length::Pct(units::PCT_1_4))),
            units::PCT_1_4 == spec_fraction(1, 4),
    {
        proof {
            units::lemma_tabulated_fractions();
        }
        self.height(Length::Pct(units::PCT_1_4))
    }

    fn h_3_4(self) -> (out: Self)
        ensures
            out@ == written(self@, set![Prop::Height], Value::Length(Length::Pct(units::PCT_3_4))),
            units::PCT_3_4 == spec_fraction(3, 4),
    {
        proof {
            units::lemma_tabulated_fractions();
        }
        self.height(Length::Pct(units::PCT_3_4))
    }

    fn h_1_5(self) -> (out: Self)
        ensures
            out@ == written(self@, set![Prop::Height], Value::Length(Length::Pct(units::PCT_1_5))),
            units::PCT_1_5 == spec_fraction(1, 5),
    {
        proof {
            units::lemma_tabulated_fractions();
        }
        self.height(Length::Pct(units::PCT_1_5))
    }

    fn h_2_5(self) -> (out: Self)
        ensures
            out@ == written(self@, set![Prop::Height], Value::Length(Length::Pct(units::PCT_2_5))),
            units::PCT_2_5 == spec_fraction(2, 5),
    {
        proof {
            units::lemma_tabulated_fractions();
        }
        self.height(Length::Pct(units::PCT_2_5))
    }

    fn h_3_5(self) -> (out: Self)
        ensures
            out@ == written(self@, set![Prop::Height], Value::Length(Length::Pct(units::PCT_3_5))),
            units::PCT_3_5 == spec_fraction(3, 5),
    {
        proof {
            units::lemma_tabulated_fractions();
        }
        self.height(Length::Pct(units::PCT_3_5))
    }

    fn h_4_5(self) -> (out: Self)
        ensures
            out@ == written(self@, set![Prop::Height], Value::Length(Length::Pct(units::PCT_4_5))),
            units::PCT_4_5 == spec_fraction(4, 5),
    {
        proof {
            units::lemma_tabulated_fractions();
        }
        self.height(Length::Pct(units::PCT_4_5))
    }

    fn h_1_6(self) -> (out: Self)
        ensures
            out@ == written(self@, set![Prop::Height], Value::Length(Length::Pct(units::PCT_1_6))),
            units::PCT_1_6 == spec_fraction(1, 6),
    {
        proof {
            units::lemma_tabulated_fractions();
        }
        self.height(Length::Pct(units::PCT_1_6))
    }

    fn h_5_6(self) -> (out: Self)
        ensures
            out@ == written(self@, set![Prop::Height], Value::Length(Length::Pct(units::PCT_5_6))),
            units::PCT_5_6 == spec_fraction(5, 6),
    {
        proof {
            units::lemma_tabulated_fractions();
        }
        self.height(Length::Pct(units::PCT_5_6))
    }

    fn h_1_12(self) -> (out: Self)
        ensures
            out@ == written(self@, set![Prop::Height], Value::Length(Length::Pct(units::PCT_1_12))),
            units::PCT_1_12 == spec_fraction(1, 12),
    {
        proof {
            units::lemma_tabulated_fractions();
        }
        self.height(Length::Pct(units::PCT_1_12))
    }

    // Width and height together.
    fn size_0(self) -> (out: Self)
        ensures
            out@ == written(
                self@,
                set![Prop::Width, Prop::Height],
                Value::Length(Length::Px(Step::S0.spec_px())),
            ),
    {
        square(self, Length::Px(spacing::SPACING_0))
    }

    fn size_px(self) -> (out: Self)
        ensures
            out@ == written(
                self@,
                set![Prop::Width, Prop::Height],
                Value::Length(Length::Px(spacing::SPACING_PX)),
            ),
    {
        square(self, Length::Px(spacing::SPACING_PX))
    }

    fn size_0p5(self) -> (out: Self)
        ensures
            out@ == written(
                self@,
                set![Prop::Width, Prop::Height],
                Value::Length(Length::Px(Step::S0p5.spec_px())),
            ),
    {
        square(self, Length::Px(spacing::SPACING_0_5))
    }

    fn size_1(self) -> (out: Self)
        ensures
            out@ == written(
                self@,
                set![Prop::Width, Prop::Height],
                Value::Length(Length::Px(Step::S1.spec_px())),
            ),
    {
        square(self, Length::Px(spacing::SPACING_1))
    }

    fn size_1p5(self) -> (out: Self)
        ensures
            out@ == written(
                self@,
                set![Prop::Width, Prop::Height],
                Value::Length(Length::Px(Step::S1p5.spec_px())),
            ),
    {
        square(self, Length::Px(spacing::SPACING_1_5))
    }

    fn size_2(self) -> (out: Self)
        ensures
            out@ == written(
                self@,
                set![Prop::Width, Prop::Height],
                Value::Length(Length::Px(Step::S2.spec_px())),
            ),
    {
        square(self, Length::Px(spacing::SPACING_2))
    }

    fn size_2p5(self) -> (out: Self)
        ensures
            out@ == written(
                self@,
                set![Prop::Width, Prop::Height],
                Value::Length(Length::Px(Step::S2p5.spec_px())),
            ),
    {
        square(self, Length::Px(spacing::SPACING_2_5))
    }

    fn size_3(self) -> (out: Self)
        ensures
            out@ == written(
                self@,
                set![Prop::Width, Prop::Height],
                Value::Length(Length::Px(Step::S3.spec_px())),
            ),
    {
        square(self, Length::Px(spacing::SPACING_3))
    }

    fn size_3p5(self) -> (out: Self)
        ensures
            out@ == written(
                self@,
                set![Prop::Width, Prop::Height],
                Value::Length(Length::Px(Step::S3p5.spec_px())),
            ),
    {
        square(self, Length::Px(spacing::SPACING_3_5))
    }

    fn size_4(self) -> (out: Self)
        ensures
            out@ == written(
                self@,
                set![Prop::Width, Prop::Height],
                Value::Length(Length::Px(Step::S4.spec_px())),
            ),
    {
        square(self, Length::Px(spacing::SPACING_4))
    }

    fn size_5(self) -> (out: Self)
        ensures
            out@ == written(
                self@,
                set![Prop::Width, Prop::Height],
                Value::Length(Length::Px(Step::S5.spec_px())),
            ),
    {
        square(self, Length::Px(spacing::SPACING_5))
    }

    fn size_6(self) -> (out: Self)
        ensures
            out@ == written(
                self@,
                set![Prop::Width, Prop::Height],
                Value::Length(Length::Px(Step::S6.spec_px())),
            ),
    {
        square(self, Length::Px(spacing::SPACING_6))
    }

    fn size_7(self) -> (out: Self)
        ensures
            out@ == written(
                self@,
                set![Prop::Width, Prop::Height],
                Value::Length(Length::Px(Step::S7.spec_px())),
            ),
    {
        square(self, Length::Px(spacing::SPACING_7))
    }

    fn size_8(self) -> (out: Self)
        ensures
            out@ == written(
                self@,
                set![Prop::Width, Prop::Height],
                Value::Length(Length::Px(Step::S8.spec_px())),
            ),
    {
        square(self, Length::Px(spacing::SPACING_8))
    }

    fn size_9(self) -> (out: Self)
        ensures
            out@ == written(
                self@,
                set![Prop::Width, Prop::Height],
                Value::Length(Length::Px(Step::S9.spec_px())),
            ),
    {
        square(self, Length::Px(spacing::SPACING_9))
    }

    fn size_10(self) -> (out: Self)
        ensures
            out@ == written(
                self@,
                set![Prop::Width, Prop::Height],
                Value::Length(Length::Px(Step::S10.spec_px())),
            ),
    {
        square(self, Length::Px(spacing::SPACING_10))
    }

    fn size_11(self) -> (out: Self)
        ensures
            out@ == written(
                self@,
                set![Prop::Width, Prop::Height],
                Value::Length(Length::Px(Step::S11.spec_px())),
            ),
    {
        square(self, Length::Px(spacing::SPACING_11))
    }

    fn size_12(self) -> (out: Self)
        ensures
            out@ == written(
                self@,
                set![Prop::Width, Prop::Height],
                Value::Length(Length::Px(Step::S12.spec_px())),
            ),
    {
        square(self, Length::Px(spacing::SPACING_12))
    }

    fn size_14(self) -> (out: Self)
        ensures
            out@ == written(
                self@,
                set![Prop::Width, Prop::Height],
                Value::Length(Length::Px(Step::S14.spec_px())),
            ),
    {
        square(self, Length::Px(spacing::SPACING_14))
    }

    fn size_16(self) -> (out: Self)
        ensures
            out@ == written(
                self@,
                set![Prop::Width, Prop::Height],
                Value::Length(Length::Px(Step::S16.spec_px())),
            ),
    {
        square(self, Length::Px(spacing::SPACING_16))
    }

    fn size_20(self) -> (out: Self)
        ensures
            out@ == written(
                self@,
                set![Prop::Width, Prop::Height],
                Value::Length(Length::Px(Step::S20.spec_px())),
            ),
    {
        square(self, Length::Px(spacing::SPACING_20))
    }

    fn size_24(self) -> (out: Self)
        ensures
            out@ == written(
                self@,
                set![Prop::Width, Prop::Height],
                Value::Length(Length::Px(Step::S24.spec_px())),
            ),
    {
        square(self, Length::Px(spacing::SPACING_24))
    }

    fn size_28(self) -> (out: Self)
        ensures
            out@ == written(
                self@,
                set![Prop::Width, Prop::Height],
                Value::Length(Length::Px(Step::S28.spec_px())),
            ),
    {
        square(self, Length::Px(spacing::SPACING_28))
    }

    fn size_32(self) -> (out: Self)
        ensures
            out@ == written(
                self@,
                set![Prop::Width, Prop::Height],
                Value::Length(Length::Px(Step::S32.spec_px())),
            ),
    {
        square(self, Length::Px(spacing::SPACING_32))
    }

    fn size_36(self) -> (out: Self)
        ensures
            out@ == written(
                self@,
                set![Prop::Width, Prop::Height],
                Value::Length(Length::Px(Step::S36.spec_px())),
            ),
    {
        square(self, Length::Px(spacing::SPACING_36))
    }

    fn size_40(self) -> (out: Self)
        ensures
            out@ == written(
                self@,
                set![Prop::Width, Prop::Height],
                Value::Length(Length::Px(Step::S40.spec_px())),
            ),
    {
        square(self, Length::Px(spacing::SPACING_40))
    }

    fn size_44(self) -> (out: Self)
        ensures
            out@ == written(
                self@,
                set![Prop::Width, Prop::Height],
                Value::Length(Length::Px(Step::S44.spec_px())),
            ),
    {
        square(self, Length::Px(spacing::SPACING_44))
    }

    fn size_48(self) -> (out: Self)
        ensures
            out@ == written(
                self@,
                set![Prop::Width, Prop::Height],
                Value::Length(Length::Px(Step::S48.spec_px())),
            ),
    {
        square(self, Length::Px(spacing::SPACING_48))
    }

    fn size_52(self) -> (out: Self)
        ensures
            out@ == written(
                self@,
                set![Prop::Width, Prop::Height],
                Value::Length(Length::Px(Step::S52.spec_px())),
            ),
    {
        square(self, Length::Px(spacing::SPACING_52))
    }

    fn size_56(self) -> (out: Self)
        ensures
            out@ == written(
                self@,
                set![Prop::Width, Prop::Height],
                Value::Length(Length::Px(Step::S56.spec_px())),
            ),
    {
        square(self, Length::Px(spacing::SPACING_56))
    }

    fn size_60(self) -> (out: Self)
        ensures
            out@ == written(
                self@,
                set![Prop::Width, Prop::Height],
                Value::Length(Length::Px(Step::S60.spec_px())),
            ),
    {
        square(self, Length::Px(spacing::SPACING_60))
    }

    fn size_64(self) -> (out: Self)
        ensures
            out@ == written(
                self@,
                set![Prop::Width, Prop::Height],
                Value::Length(Length::Px(Step::S64.spec_px())),
            ),
    {
        square(self, Length::Px(spacing::SPACING_64))
    }

    fn size_72(self) -> (out: Self)
        ensures
            out@ == written(
                self@,
                set![Prop::Width, Prop::Height],
                Value::Length(Length::Px(Step::S72.spec_px())),
            ),
    {
        square(self, Length::Px(spacing::SPACING_72))
    }

    fn size_80(self) -> (out: Self)
        ensures
            out@ == written(
                self@,
                set![Prop::Width, Prop::Height],
                Value::Length(Length::Px(Step::S80.spec_px())),
            ),
    {
        square(self, Length::Px(spacing::SPACING_80))
    }

    fn size_96(self) -> (out: Self)
        ensures
            out@ == written(
                self@,
                set![Prop::Width, Prop::Height],
                Value::Length(Length::Px(Step::S96.spec_px())),
            ),
    {
        square(self, Length::Px(spacing::SPACING_96))
    }

    // Least width.
    fn min_w_0(self) -> (out: Self)
        ensures
            out@ == written(
                self@,
                set![Prop::MinWidth],
                Value::Length(Length::Px(Step::S0.spec_px())),
            ),
    {
        self.min_width(Length::Px(spacing::SPACING_0))
    }

    fn min_w_px(self) -> (out: Self)
        ensures
            out@ == written(
                self@,
                set![Prop::MinWidth],
                Value::Length(Length::Px(spacing::SPACING_PX)),
            ),
    {
        self.min_width(Length::Px(spacing::SPACING_PX))
    }

    fn min_w_1(self) -> (out: Self)
        ensures
            out@ == written(
                self@,
                set![Prop::MinWidth],
                Value::Length(Length::Px(Step::S1.spec_px())),
            ),
    {
        self.min_width(Length::Px(spacing::SPACING_1))
    }

    fn min_w_2(self) -> (out: Self)
        ensures
            out@ == written(
                self@,
                set![Prop::MinWidth],
                Value::Length(Length::Px(Step::S2.spec_px())),
            ),
    {
        self.min_width(Length::Px(spacing::SPACING_2))
    }

    fn min_w_4(self) -> (out: Self)
        ensures
            out@ == written(
                self@,
                set![Prop::MinWidth],
                Value::Length(Length::Px(Step::S4.spec_px())),
            ),
    {
        self.min_width(Length::Px(spacing::SPACING_4))
    }

    fn min_w_8(self) -> (out: Self)
        ensures
            out@ == written(
                self@,
                set![Prop::MinWidth],
                Value::Length(Length::Px(Step::S8.spec_px())),
            ),
    {
        self.min_width(Length::Px(spacing::SPACING_8))
    }

    fn min_w_16(self) -> (out: Self)
        ensures
            out@ == written(
                self@,
                set![Prop::MinWidth],
                Value::Length(Length::Px(Step::S16.spec_px())),
            ),
    {
        self.min_width(Length::Px(spacing::SPACING_16))
    }

    fn min_w_32(self) -> (out: Self)
        ensures
            out@ == written(
                self@,
                set![Prop::MinWidth],
                Value::Length(Length::Px(Step::S32.spec_px())),
            ),
    {
        self.min_width(Length::Px(spacing::SPACING_32))
    }

    fn min_w_64(self) -> (out: Self)
        ensures
            out@ == written(
                self@,
                set![Prop::MinWidth],
                Value::Length(Length::Px(Step::S64.spec_px())),
            ),
    {
        self.min_width(Length::Px(spacing::SPACING_64))
    }

    fn min_w_96(self) -> (out: Self)
        ensures
            out@ == written(
                self@,
                set![Prop::MinWidth],
                Value::Length(Length::Px(Step::S96.spec_px())),
            ),
    {
        self.min_width(Length::Px(spacing::SPACING_96))
    }

    fn min_w_full(self) -> (out: Self)
        ensures
            out@ == written(
                self@,
                set![Prop::MinWidth],
                Value::Length(Length::Pct(units::PCT_FULL)),
            ),
    {
        self.min_width(Length::Pct(units::PCT_FULL))
    }

    fn min_w_xs(self) -> (out: Self)
        ensures
            out@ == written(
                self@,
                set![Prop::MinWidth],
                Value::Length(Length::Px(Container::Xs.spec_px())),
            ),
    {
        self.min_width(Length::Px(spacing::SIZE_XS))
    }

    fn min_w_sm(self) -> (out: Self)
        ensures
            out@ == written(
                self@,
                set![Prop::MinWidth],
                Value::Length(Length::Px(Container::Sm.spec_px())),
            ),
    {
        self.min_width(Length::Px(spacing::SIZE_SM))
    }

    fn min_w_md(self) -> (out: Self)
        ensures
            out@ == written(
                self@,
                set![Prop::MinWidth],
                Value::Length(Length::Px(Container::Md.spec_px())),
            ),
    {
        self.min_width(Length::Px(spacing::SIZE_MD))
    }

    fn min_w_lg(self) -> (out: Self)
        ensures
            out@ == written(
                self@,
                set![Prop::MinWidth],
                Value::Length(Length::Px(Container::Lg.spec_px())),
            ),
    {
        self.min_width(Length::Px(spacing::SIZE_LG))
    }

    fn min_w_xl(self) -> (out: Self)
        ensures
            out@ == written(
                self@,
                set![Prop::MinWidth],
                Value::Length(Length::Px(Container::Xl.spec_px())),
            ),
    {
        self.min_width(Length::Px(spacing::SIZE_XL))
    }

    // Greatest width.
    fn max_w_0(self) -> (out: Self)
        ensures
            out@ == written(
                self@,
                set![Prop::MaxWidth],
                Value::Length(Length::Px(Step::S0.spec_px())),
            ),
    {
        self.max_width(Length::Px(spacing::SPACING_0))
    }

    fn max_w_px(self) -> (out: Self)
        ensures
            out@ == written(
                self@,
                set![Prop::MaxWidth],
                Value::Length(Length::Px(spacing::SPACING_PX)),
            ),
    {
        self.max_width(Length::Px(spacing::SPACING_PX))
    }

    fn max_w_1(self) -> (out: Self)
        ensures
            out@ == written(
                self@,
                set![Prop::MaxWidth],
                Value::Length(Length::Px(Step::S1.spec_px())),
            ),
    {
        self.max_width(Length::Px(spacing::SPACING_1))
    }

    fn max_w_2(self) -> (out: Self)
        ensures
            out@ == written(
                self@,
                set![Prop::MaxWidth],
                Value::Length(Length::Px(Step::S2.spec_px())),
            ),
    {
        self.max_width(Length::Px(spacing::SPACING_2))
    }

    fn max_w_4(self) -> (out: Self)
        ensures
            out@ == written(
                self@,
                set![Prop::MaxWidth],
                Value::Length(Length::Px(Step::S4.spec_px())),
            ),
    {
        self.max_width(Length::Px(spacing::SPACING_4))
    }

    fn max_w_8(self) -> (out: Self)
        ensures
            out@ == written(
                self@,
                set![Prop::MaxWidth],
                Value::Length(Length::Px(Step::S8.spec_px())),
            ),
    {
        self.max_width(Length::Px(spacing::SPACING_8))
    }

    fn max_w_16(self) -> (out: Self)
        ensures
            out@ == written(
                self@,
                set![Prop::MaxWidth],
                Value::Length(Length::Px(Step::S16.spec_px())),
            ),
    {
        self.max_width(Length::Px(spacing::SPACING_16))
    }

    fn max_w_32(self) -> (out: Self)
        ensures
            out@ == written(
                self@,
                set![Prop::MaxWidth],
                Value::Length(Length::Px(Step::S32.spec_px())),
            ),
    {
        self.max_width(Length::Px(spacing::SPACING_32))
    }

    fn max_w_64(self) -> (out: Self)
        ensures
            out@ == written(
                self@,
                set![Prop::MaxWidth],
                Value::Length(Length::Px(Step::S64.spec_px())),
            ),
    {
        self.max_width(Length::Px(spacing::SPACING_64))
    }

    fn max_w_96(self) -> (out: Self)
        ensures
            out@ == written(
                self@,
                set![Prop::MaxWidth],
                Value::Length(Length::Px(Step::S96.spec_px())),
            ),
    {
        self.max_width(Length::Px(spacing::SPACING_96))
    }

    fn max_w_full(self) -> (out: Self)
        ensures
            out@ == written(
                self@,
                set![Prop::MaxWidth],
                Value::Length(Length::Pct(units::PCT_FULL)),
            ),
    {
        self.max_width(Length::Pct(units::PCT_FULL))
    }

    fn max_w_xs(self) -> (out: Self)
        ensures
            out@ == written(
                self@,
                set![Prop::MaxWidth],
                Value::Length(Length::Px(Container::Xs.spec_px())),
            ),
    {
        self.max_width(Length::Px(spacing::SIZE_XS))
    }

    fn max_w_sm(self) -> (out: Self)
        ensures
            out@ == written(
                self@,
                set![Prop::MaxWidth],
                Value::Length(Length::Px(Container::Sm.spec_px())),
            ),
    {
        self.max_width(Length::Px(spacing::SIZE_SM))
    }

    fn max_w_md(self) -> (out: Self)
        ensures
            out@ == written(
                self@,
                set![Prop::MaxWidth],
                Value::Length(Length::Px(Container::Md.spec_px())),
            ),
    {
        self.max_width(Length::Px(spacing::SIZE_MD))
    }

    fn max_w_lg(self) -> (out: Self)
        ensures
            out@ == written(
                self@,
                set![Prop::MaxWidth],
                Value::Length(Length::Px(Container::Lg.spec_px())),
            ),
    {
        self.max_width(Length::Px(spacing::SIZE_LG))
    }

    fn max_w_xl(self) -> (out: Self)
        ensures
            out@ == written(
                self@,
                set![Prop::MaxWidth],
                Value::Length(Length::Px(Container::Xl.spec_px())),
            ),
    {
        self.max_width(Length::Px(spacing::SIZE_XL))
    }

    fn max_w_2xl(self) -> (out: Self)
        ensures
            out@ == written(
                self@,
                set![Prop::MaxWidth],
                Value::Length(Length::Px(Container::Xl2.spec_px())),
            ),
    {
        self.max_width(Length::Px(spacing::SIZE_2XL))
    }

    fn max_w_3xl(self) -> (out: Self)
        ensures
            out@ == written(
                self@,
                set![Prop::MaxWidth],
                Value::Length(Length::Px(Container::Xl3.spec_px())),
            ),
    {
        self.max_width(Length::Px(spacing::SIZE_3XL))
    }

    fn max_w_4xl(self) -> (out: Self)
        ensures
            out@ == written(
                self@,
                set![Prop::MaxWidth],
                Value::Length(Length::Px(Container::Xl4.spec_px())),
            ),
    {
        self.max_width(Length::Px(spacing::SIZE_4XL))
    }

    fn max_w_5xl(self) -> (out: Self)
        ensures
            out@ == written(
                self@,
                set![Prop::MaxWidth],
                Value::Length(Length::Px(Container::Xl5.spec_px())),
            ),
    {
        self.max_width(Length::Px(spacing::SIZE_5XL))
    }

    fn max_w_6xl(self) -> (out: Self)
        ensures
            out@ == written(
                self@,
                set![Prop::MaxWidth],
                Value::Length(Length::Px(Container::Xl6.spec_px())),
            ),
    {
        self.max_width(Length::Px(spacing::SIZE_6XL))
    }

    fn max_w_7xl(self) -> (out: Self)
        ensures
            out@ == written(
                self@,
                set![Prop::MaxWidth],
                Value::Length(Length::Px(Container::Xl7.spec_px())),
            ),
    {
        self.max_width(Length::Px(spacing::SIZE_7XL))
    }

    // Padding on all sides.
    fn p_0(self) -> (out: Self)
        ensures
            out@ == written(
                self@,
                set![Prop::PaddingLeft, Prop::PaddingTop, Prop::PaddingRight, Prop::PaddingBottom],
                Value::Px(Step::S0.spec_px()),
            ),
    {
        self.padding(spacing::SPACING_0)
    }

    fn p_px(self) -> (out: Self)
        ensures
            out@ == written(
                self@,
                set![Prop::PaddingLeft, Prop::PaddingTop, Prop::PaddingRight, Prop::PaddingBottom],
                Value::Px(spacing::SPACING_PX),
            ),
    {
        self.padding(spacing::SPACING_PX)
    }

    fn p_0p5(self) -> (out: Self)
        ensures
            out@ == written(
                self@,
                set![Prop::PaddingLeft, Prop::PaddingTop, Prop::PaddingRight, Prop::PaddingBottom],
                Value::Px(Step::S0p5.spec_px()),
            ),
    {
        self.padding(spacing::SPACING_0_5)
    }

    fn p_1(self) -> (out: Self)
        ensures
            out@ == written(
                self@,
                set![Prop::PaddingLeft, Prop::PaddingTop, Prop::PaddingRight, Prop::PaddingBottom],
                Value::Px(Step::S1.spec_px()),
            ),
    {
        self.padding(spacing::SPACING_1)
    }

    fn p_1p5(self) -> (out: Self)
        ensures
            out@ == written(
                self@,
                set![Prop::PaddingLeft, Prop::PaddingTop, Prop::PaddingRight, Prop::PaddingBottom],
                Value::Px(Step::S1p5.spec_px()),
            ),
    {
        self.padding(spacing::SPACING_1_5)
    }

    fn p_2(self) -> (out: Self)
        ensures
            out@ == written(
                self@,
                set![Prop::PaddingLeft, Prop::PaddingTop, Prop::PaddingRight, Prop::PaddingBottom],
                Value::Px(Step::S2.spec_px()),
            ),
    {
        self.padding(spacing::SPACING_2)
    }

    fn p_2p5(self) -> (out: Self)
        ensures
            out@ == written(
                self@,
                set![Prop::PaddingLeft, Prop::PaddingTop, Prop::PaddingRight, Prop::PaddingBottom],
                Value::Px(Step::S2p5.spec_px()),
            ),
    {
        self.padding(spacing::SPACING_2_5)
    }

    fn p_3(self) -> (out: Self)
        ensures
            out@ == written(
                self@,
                set![Prop::PaddingLeft, Prop::PaddingTop, Prop::PaddingRight, Prop::PaddingBottom],
                Value::Px(Step::S3.spec_px()),
            ),
    {
        self.padding(spacing::SPACING_3)
    }

    fn p_3p5(self) -> (out: Self)
        ensures
            out@ == written(
                self@,
                set![Prop::PaddingLeft, Prop::PaddingTop, Prop::PaddingRight, Prop::PaddingBottom],
                Value::Px(Step::S3p5.spec_px()),
            ),
    {
        self.padding(spacing::SPACING_3_5)
    }

    fn p_4(self) -> (out: Self)
        ensures
            out@ == written(
                self@,
                set![Prop::PaddingLeft, Prop::PaddingTop, Prop::PaddingRight, Prop::PaddingBottom],
                Value::Px(Step::S4.spec_px()),
            ),
    {
        self.padding(spacing::SPACING_4)
    }

    fn p_5(self) -> (out: Self)
        ensures
            out@ == written(
                self@,
                set![Prop::PaddingLeft, Prop::PaddingTop, Prop::PaddingRight, Prop::PaddingBottom],
                Value::Px(Step::S5.spec_px()),
            ),
    {
        self.padding(spacing::SPACING_5)
    }

    fn p_6(self) -> (out: Self)
        ensures
            out@ == written(
                self@,
                set![Prop::PaddingLeft, Prop::PaddingTop, Prop::PaddingRight, Prop::PaddingBottom],
                Value::Px(Step::S6.spec_px()),
            ),
    {
        self.padding(spacing::SPACING_6)
    }

    fn p_7(self) -> (out: Self)
        ensures
            out@ == written(
                self@,
                set![Prop::PaddingLeft, Prop::PaddingTop, Prop::PaddingRight, Prop::PaddingBottom],
                Value::Px(Step::S7.spec_px()),
            ),
    {
        self.padding(spacing::SPACING_7)
    }

    fn p_8(self) -> (out: Self)
        ensures
            out@ == written(
                self@,
                set![Prop::PaddingLeft, Prop::PaddingTop, Prop::PaddingRight, Prop::PaddingBottom],
                Value::Px(Step::S8.spec_px()),
            ),
    {
        self.padding(spacing::SPACING_8)
    }

    fn p_9(self) -> (out: Self)
        ensures
            out@ == written(
                self@,
                set![Prop::PaddingLeft, Prop::PaddingTop, Prop::PaddingRight, Prop::PaddingBottom],
                Value::Px(Step::S9.spec_px()),
            ),
    {
        self.padding(spacing::SPACING_9)
    }

    fn p_10(self) -> (out: Self)
        ensures
            out@ == written(
                self@,
                set![Prop::PaddingLeft, Prop::PaddingTop, Prop::PaddingRight, Prop::PaddingBottom],
                Value::Px(Step::S10.spec_px()),
            ),
    {
        self.padding(spacing::SPACING_10)
    }

    fn p_11(self) -> (out: Self)
        ensures
            out@ == written(
                self@,
                set![Prop::PaddingLeft, Prop::PaddingTop, Prop::PaddingRight, Prop::PaddingBottom],
                Value::Px(Step::S11.spec_px()),
            ),
    {
        self.padding(spacing::SPACING_11)
    }

    fn p_12(self) -> (out: Self)
        ensures
            out@ == written(
                self@,
                set![Prop::PaddingLeft, Prop::PaddingTop, Prop::PaddingRight, Prop::PaddingBottom],
                Value::Px(Step::S12.spec_px()),
            ),
    {
        self.padding(spacing::SPACING_12)
    }

    fn p_14(self) -> (out: Self)
        ensures
            out@ == written(
                self@,
                set![Prop::PaddingLeft, Prop::PaddingTop, Prop::PaddingRight, Prop::PaddingBottom],
                Value::Px(Step::S14.spec_px()),
            ),
    {
        self.padding(spacing::SPACING_14)
    }

    fn p_16(self) -> (out: Self)
        ensures
            out@ == written(
                self@,
                set![Prop::PaddingLeft, Prop::PaddingTop, Prop::PaddingRight, Prop::PaddingBottom],
                Value::Px(Step::S16.spec_px()),
            ),
    {
        self.padding(spacing::SPACING_16)
    }

    fn p_20(self) -> (out: Self)
        ensures
            out@ == written(
                self@,
                set![Prop::PaddingLeft, Prop::PaddingTop, Prop::PaddingRight, Prop::PaddingBottom],
                Value::Px(Step::S20.spec_px()),
            ),
    {
        self.padding(spacing::SPACING_20)
    }

    fn p_24(self) -> (out: Self)
        ensures
            out@ == written(
                self@,
                set![Prop::PaddingLeft, Prop::PaddingTop, Prop::PaddingRight, Prop::PaddingBottom],
                Value::Px(Step::S24.spec_px()),
            ),
    {
        self.padding(spacing::SPACING_24)
    }

    // Padding left and right.
    fn px_0(self) -> (out: Self)
        ensures
            out@ == written(
                self@,
                set![Prop::PaddingLeft, Prop::PaddingRight],
                Value::Px(Step::S0.spec_px()),
            ),
    {
        self.padding_horiz(spacing::SPACING_0)
    }

    fn px_px(self) -> (out: Self)
        ensures
            out@ == written(
                self@,
                set![Prop::PaddingLeft, Prop::PaddingRight],
                Value::Px(spacing::SPACING_PX),
            ),
    {
        self.padding_horiz(spacing::SPACING_PX)
    }

    fn px_0p5(self) -> (out: Self)
        ensures
            out@ == written(
                self@,
                set![Prop::PaddingLeft, Prop::PaddingRight],
                Value::Px(Step::S0p5.spec_px()),
            ),
    {
        self.padding_horiz(spacing::SPACING_0_5)
    }

    fn px_1(self) -> (out: Self)
        ensures
            out@ == written(
                self@,
                set![Prop::PaddingLeft, Prop::PaddingRight],
                Value::Px(Step::S1.spec_px()),
            ),
    {
        self.padding_horiz(spacing::SPACING_1)
    }

    fn px_1p5(self) -> (out: Self)
        ensures
            out@ == written(
                self@,
                set![Prop::PaddingLeft, Prop::PaddingRight],
                Value::Px(Step::S1p5.spec_px()),
            ),
    {
        self.padding_horiz(spacing::SPACING_1_5)
    }

    fn px_2(self) -> (out: Self)
        ensures
            out@ == written(
                self@,
                set![Prop::PaddingLeft, Prop::PaddingRight],
                Value::Px(Step::S2.spec_px()),
            ),
    {
        self.padding_horiz(spacing::SPACING_2)
    }

    fn px_2p5(self) -> (out: Self)
        ensures
            out@ == written(
                self@,
                set![Prop::PaddingLeft, Prop::PaddingRight],
                Value::Px(Step::S2p5.spec_px()),
            ),
    {
        self.padding_horiz(spacing::SPACING_2_5)
    }

    fn px_3(self) -> (out: Self)
        ensures
            out@ == written(
                self@,
                set![Prop::PaddingLeft, Prop::PaddingRight],
                Value::Px(Step::S3.spec_px()),
            ),
    {
        self.padding_horiz(spacing::SPACING_3)
    }

    fn px_3p5(self) -> (out: Self)
        ensures
            out@ == written(
                self@,
                set![Prop::PaddingLeft, Prop::PaddingRight],
                Value::Px(Step::S3p5.spec_px()),
            ),
    {
        self.padding_horiz(spacing::SPACING_3_5)
    }

    fn px_4(self) -> (out: Self)
        ensures
            out@ == written(
                self@,
                set![Prop::PaddingLeft, Prop::PaddingRight],
                Value::Px(Step::S4.spec_px()),
            ),
    {
        self.padding_horiz(spacing::SPACING_4)
    }

    fn px_5(self) -> (out: Self)
        ensures
            out@ == written(
                self@,
                set![Prop::PaddingLeft, Prop::PaddingRight],
                Value::Px(Step::S5.spec_px()),
            ),
    {
        self.padding_horiz(spacing::SPACING_5)
    }

    fn px_6(self) -> (out: Self)
        ensures
            out@ == written(
                self@,
                set![Prop::PaddingLeft, Prop::PaddingRight],
                Value::Px(Step::S6.spec_px()),
            ),
    {
        self.padding_horiz(spacing::SPACING_6)
    }

    fn px_7(self) -> (out: Self)
        ensures
            out@ == written(
                self@,
                set![Prop::PaddingLeft, Prop::PaddingRight],
                Value::Px(Step::S7.spec_px()),
            ),
    {
        self.padding_horiz(spacing::SPACING_7)
    }

    fn px_8(self) -> (out: Self)
        ensures
            out@ == written(
                self@,
                set![Prop::PaddingLeft, Prop::PaddingRight],
                Value::Px(Step::S8.spec_px()),
            ),
    {
        self.padding_horiz(spacing::SPACING_8)
    }

    fn px_9(self) -> (out: Self)
        ensures
            out@ == written(
                self@,
                set![Prop::PaddingLeft, Prop::PaddingRight],
                Value::Px(Step::S9.spec_px()),
            ),
    {
        self.padding_horiz(spacing::SPACING_9)
    }

    fn px_10(self) -> (out: Self)
        ensures
            out@ == written(
                self@,
                set![Prop::PaddingLeft, Prop::PaddingRight],
                Value::Px(Step::S10.spec_px()),
            ),
    {
        self.padding_horiz(spacing::SPACING_10)
    }

    fn px_12(self) -> (out: Self)
        ensures
            out@ == written(
                self@,
                set![Prop::PaddingLeft, Prop::PaddingRight],
                Value::Px(Step::S12.spec_px()),
            ),
    {
        self.padding_horiz(spacing::SPACING_12)
    }

    fn px_16(self) -> (out: Self)
        ensures
            out@ == written(
                self@,
                set![Prop::PaddingLeft, Prop::PaddingRight],
                Value::Px(Step::S16.spec_px()),
            ),
    {
        self.padding_horiz(spacing::SPACING_16)
    }

    fn px_20(self) -> (out: Self)
        ensures
            out@ == written(
                self@,
                set![Prop::PaddingLeft, Prop::PaddingRight],
                Value::Px(Step::S20.spec_px()),
            ),
    {
        self.padding_horiz(spacing::SPACING_20)
    }

    fn px_24(self) -> (out: Self)
        ensures
            out@ == written(
                self@,
                set![Prop::PaddingLeft, Prop::PaddingRight],
                Value::Px(Step::S24.spec_px()),
            ),
    {
        self.padding_horiz(spacing::SPACING_24)
    }

    // Padding top and bottom.
    fn py_0(self) -> (out: Self)
        ensures
            out@ == written(
                self@,
                set![Prop::PaddingTop, Prop::PaddingBottom],
                Value::Px(Step::S0.spec_px()),
            ),
    {
        self.padding_vert(spacing::SPACING_0)
    }

    fn py_px(self) -> (out: Self)
        ensures
            out@ == written(
                self@,
                set![Prop::PaddingTop, Prop::PaddingBottom],
                Value::Px(spacing::SPACING_PX),
            ),
    {
        self.padding_vert(spacing::SPACING_PX)
    }

    fn py_0p5(self) -> (out: Self)
        ensures
            out@ == written(
                self@,
                set![Prop::PaddingTop, Prop::PaddingBottom],
                Value::Px(Step::S0p5.spec_px()),
            ),
    {
        self.padding_vert(spacing::SPACING_0_5)
    }

    fn py_1(self) -> (out: Self)
        ensures
            out@ == written(
                self@,
                set![Prop::PaddingTop, Prop::PaddingBottom],
                Value::Px(Step::S1.spec_px()),
            ),
    {
        self.padding_vert(spacing::SPACING_1)
    }

    fn py_1p5(self) -> (out: Self)
        ensures
            out@ == written(
                self@,
                set![Prop::PaddingTop, Prop::PaddingBottom],
                Value::Px(Step::S1p5.spec_px()),
            ),
    {
        self.padding_vert(spacing::SPACING_1_5)
    }

    fn py_2(self) -> (out: Self)
        ensures
            out@ == written(
                self@,
                set![Prop::PaddingTop, Prop::PaddingBottom],
                Value::Px(Step::S2.spec_px()),
            ),
    {
        self.padding_vert(spacing::SPACING_2)
    }

    fn py_2p5(self) -> (out: Self)
        ensures
            out@ == written(
                self@,
                set![Prop::PaddingTop, Prop::PaddingBottom],
                Value::Px(Step::S2p5.spec_px()),
            ),
    {
        self.padding_vert(spacing::SPACING_2_5)
    }

    fn py_3(self) -> (out: Self)
        ensures
            out@ == written(
                self@,
                set![Prop::PaddingTop, Prop::PaddingBottom],
                Value::Px(Step::S3.spec_px()),
            ),
    {
        self.padding_vert(spacing::SPACING_3)
    }

    fn py_3p5(self) -> (out: Self)
        ensures
            out@ == written(
                self@,
                set![Prop::PaddingTop, Prop::PaddingBottom],
                Value::Px(Step::S3p5.spec_px()),
            ),
    {
        self.padding_vert(spacing::SPACING_3_5)
    }

    fn py_4(self) -> (out: Self)
        ensures
            out@ == written(
                self@,
                set![Prop::PaddingTop, Prop::PaddingBottom],
                Value::Px(Step::S4.spec_px()),
            ),
    {
        self.padding_vert(spacing::SPACING_4)
    }

    fn py_5(self) -> (out: Self)
        ensures
            out@ == written(
                self@,
                set![Prop::PaddingTop, Prop::PaddingBottom],
                Value::Px(Step::S5.spec_px()),
            ),
    {
        self.padding_vert(spacing::SPACING_5)
    }

    fn py_6(self) -> (out: Self)
        ensures
            out@ == written(
                self@,
                set![Prop::PaddingTop, Prop::PaddingBottom],
                Value::Px(Step::S6.spec_px()),
            ),
    {
        self.padding_vert(spacing::SPACING_6)
    }

    fn py_7(self) -> (out: Self)
        ensures
            out@ == written(
                self@,
                set![Prop::PaddingTop, Prop::PaddingBottom],
                Value::Px(Step::S7.spec_px()),
            ),
    {
        self.padding_vert(spacing::SPACING_7)
    }

    fn py_8(self) -> (out: Self)
        ensures
            out@ == written(
                self@,
                set![Prop::PaddingTop, Prop::PaddingBottom],
                Value::Px(Step::S8.spec_px()),
            ),
    {
        self.padding_vert(spacing::SPACING_8)
    }

    fn py_9(self) -> (out: Self)
        ensures
            out@ == written(
                self@,
                set![Prop::PaddingTop, Prop::PaddingBottom],
                Value::Px(Step::S9.spec_px()),
            ),
    {
        self.padding_vert(spacing::SPACING_9)
    }

    fn py_10(self) -> (out: Self)
        ensures
            out@ == written(
                self@,
                set![Prop::PaddingTop, Prop::PaddingBottom],
                Value::Px(Step::S10.spec_px()),
            ),
    {
        self.padding_vert(spacing::SPACING_10)
    }

    fn py_12(self) -> (out: Self)
        ensures
            out@ == written(
                self@,
                set![Prop::PaddingTop, Prop::PaddingBottom],
                Value::Px(Step::S12.spec_px()),
            ),
    {
        self.padding_vert(spacing::SPACING_12)
    }

    fn py_16(self) -> (out: Self)
        ensures
            out@ == written(
                self@,
                set![Prop::PaddingTop, Prop::PaddingBottom],
                Value::Px(Step::S16.spec_px()),
            ),
    {
        self.padding_vert(spacing::SPACING_16)
    }

    fn py_20(self) -> (out: Self)
        ensures
            out@ == written(
                self@,
                set![Prop::PaddingTop, Prop::PaddingBottom],
                Value::Px(Step::S20.spec_px()),
            ),
    {
        self.padding_vert(spacing::SPACING_20)
    }

    fn py_24(self) -> (out: Self)
        ensures
            out@ == written(
                self@,
                set![Prop::PaddingTop, Prop::PaddingBottom],
                Value::Px(Step::S24.spec_px()),
            ),
    {
        self.padding_vert(spacing::SPACING_24)
    }

    // Padding on one side.
    fn pt_0(self) -> (out: Self)
        ensures
            out@ == written(self@, set![Prop::PaddingTop], Value::Px(Step::S0.spec_px())),
    {
        self.padding_top(spacing::SPACING_0)
    }

    fn pt_1(self) -> (out: Self)
        ensures
            out@ == written(self@, set![Prop::PaddingTop], Value::Px(Step::S1.spec_px())),
    {
        self.padding_top(spacing::SPACING_1)
    }

    fn pt_2(self) -> (out: Self)
        ensures
            out@ == written(self@, set![Prop::PaddingTop], Value::Px(Step::S2.spec_px())),
    {
        self.padding_top(spacing::SPACING_2)
    }

    fn pt_3(self) -> (out: Self)
        ensures
            out@ == written(self@, set![Prop::PaddingTop], Value::Px(Step::S3.spec_px())),
    {
        self.padding_top(spacing::SPACING_3)
    }

    fn pt_4(self) -> (out: Self)
        ensures
            out@ == written(self@, set![Prop::PaddingTop], Value::Px(Step::S4.spec_px())),
    {
        self.padding_top(spacing::SPACING_4)
    }

    fn pt_5(self) -> (out: Self)
        ensures
            out@ == written(self@, set![Prop::PaddingTop], Value::Px(Step::S5.spec_px())),
    {
        self.padding_top(spacing::SPACING_5)
    }

    fn pt_6(self) -> (out: Self)
        ensures
            out@ == written(self@, set![Prop::PaddingTop], Value::Px(Step::S6.spec_px())),
    {
        self.padding_top(spacing::SPACING_6)
    }

    fn pt_8(self) -> (out: Self)
        ensures
            out@ == written(self@, set![Prop::PaddingTop], Value::Px(Step::S8.spec_px())),
    {
        self.padding_top(spacing::SPACING_8)
    }

    fn pb_0(self) -> (out: Self)
        ensures
            out@ == written(self@, set![Prop::PaddingBottom], Value::Px(Step::S0.spec_px())),
    {
        self.padding_bottom(spacing::SPACING_0)
    }

    fn pb_1(self) -> (out: Self)
        ensures
            out@ == written(self@, set![Prop::PaddingBottom], Value::Px(Step::S1.spec_px())),
    {
        self.padding_bottom(spacing::SPACING_1)
    }

    fn pb_2(self) -> (out: Self)
        ensures
            out@ == written(self@, set![Prop::PaddingBottom], Value::Px(Step::S2.spec_px())),
    {
        self.padding_bottom(spacing::SPACING_2)
    }

    fn pb_3(self) -> (out: Self)
        ensures
            out@ == written(self@, set![Prop::PaddingBottom], Value::Px(Step::S3.spec_px())),
    {
        self.padding_bottom(spacing::SPACING_3)
    }

    fn pb_4(self) -> (out: Self)
        ensures
            out@ == written(self@, set![Prop::PaddingBottom], Value::Px(Step::S4.spec_px())),
    {
        self.padding_bottom(spacing::SPACING_4)
    }

    fn pb_5(self) -> (out: Self)
        ensures
            out@ == written(self@, set![Prop::PaddingBottom], Value::Px(Step::S5.spec_px())),
    {
        self.padding_bottom(spacing::SPACING_5)
    }

    fn pb_6(self) -> (out: Self)
        ensures
            out@ == written(self@, set![Prop::PaddingBottom], Value::Px(Step::S6.spec_px())),
    {
        self.padding_bottom(spacing::SPACING_6)
    }

    fn pb_8(self) -> (out: Self)
        ensures
            out@ == written(self@, set![Prop::PaddingBottom], Value::Px(Step::S8.spec_px())),
    {
        self.padding_bottom(spacing::SPACING_8)
    }

    fn pl_0(self) -> (out: Self)
        ensures
            out@ == written(self@, set![Prop::PaddingLeft], Value::Px(Step::S0.spec_px())),
    {
        self.padding_left(spacing::SPACING_0)
    }

    fn pl_1(self) -> (out: Self)
        ensures
            out@ == written(self@, set![Prop::PaddingLeft], Value::Px(Step::S1.spec_px())),
    {
        self.padding_left(spacing::SPACING_1)
    }

    fn pl_2(self) -> (out: Self)
        ensures
            out@ == written(self@, set![Prop::PaddingLeft], Value::Px(Step::S2.spec_px())),
    {
        self.padding_left(spacing::SPACING_2)
    }

    fn pl_3(self) -> (out: Self)
        ensures
            out@ == written(self@, set![Prop::PaddingLeft], Value::Px(Step::S3.spec_px())),
    {
        self.padding_left(spacing::SPACING_3)
    }

    fn pl_4(self) -> (out: Self)
        ensures
            out@ == written(self@, set![Prop::PaddingLeft], Value::Px(Step::S4.spec_px())),
    {
        self.padding_left(spacing::SPACING_4)
    }

    fn pl_5(self) -> (out: Self)
        ensures
            out@ == written(self@, set![Prop::PaddingLeft], Value::Px(Step::S5.spec_px())),
    {
        self.padding_left(spacing::SPACING_5)
    }

    fn pl_6(self) -> (out: Self)
        ensures
            out@ == written(self@, set![Prop::PaddingLeft], Value::Px(Step::S6.spec_px())),
    {
        self.padding_left(spacing::SPACING_6)
    }

    fn pl_8(self) -> (out: Self)
        ensures
            out@ == written(self@, set![Prop::PaddingLeft], Value::Px(Step::S8.spec_px())),
    {
        self.padding_left(spacing::SPACING_8)
    }

    fn pr_0(self) -> (out: Self)
        ensures
            out@ == written(self@, set![Prop::PaddingRight], Value::Px(Step::S0.spec_px())),
    {
        self.padding_right(spacing::SPACING_0)
    }

    fn pr_1(self) -> (out: Self)
        ensures
            out@ == written(self@, set![Prop::PaddingRight], Value::Px(Step::S1.spec_px())),
    {
        self.padding_right(spacing::SPACING_1)
    }

    fn pr_2(self) -> (out: Self)
        ensures
            out@ == written(self@, set![Prop::PaddingRight], Value::Px(Step::S2.spec_px())),
    {
        self.padding_right(spacing::SPACING_2)
    }

    fn pr_3(self) -> (out: Self)
        ensures
            out@ == written(self@, set![Prop::PaddingRight], Value::Px(Step::S3.spec_px())),
    {
        self.padding_right(spacing::SPACING_3)
    }

    fn pr_4(self) -> (out: Self)
        ensures
            out@ == written(self@, set![Prop::PaddingRight], Value::Px(Step::S4.spec_px())),
    {
        self.padding_right(spacing::SPACING_4)
    }

    fn pr_5(self) -> (out: Self)
        ensures
            out@ == written(self@, set![Prop::PaddingRight], Value::Px(Step::S5.spec_px())),
    {
        self.padding_right(spacing::SPACING_5)
    }

    fn pr_6(self) -> (out: Self)
        ensures
            out@ == written(self@, set![Prop::PaddingRight], Value::Px(Step::S6.spec_px())),
    {
        self.padding_right(spacing::SPACING_6)
    }

    fn pr_8(self) -> (out: Self)
        ensures
            out@ == written(self@, set![Prop::PaddingRight], Value::Px(Step::S8.spec_px())),
    {
        self.padding_right(spacing::SPACING_8)
    }

    // Margin on all sides.
    fn m_0(self) -> (out: Self)
        ensures
            out@ == written(
                self@,
                set![Prop::MarginLeft, Prop::MarginTop, Prop::MarginRight, Prop::MarginBottom],
                Value::Length(Length::Px(Step::S0.spec_px())),
            ),
    {
        self.margin(Length::Px(spacing::SPACING_0))
    }

    fn m_px(self) -> (out: Self)
        ensures
            out@ == written(
                self@,
                set![Prop::MarginLeft, Prop::MarginTop, Prop::MarginRight, Prop::MarginBottom],
                Value::Length(Length::Px(spacing::SPACING_PX)),
            ),
    {
        self.margin(Length::Px(spacing::SPACING_PX))
    }

    fn m_0p5(self) -> (out: Self)
        ensures
            out@ == written(
                self@,
                set![Prop::MarginLeft, Prop::MarginTop, Prop::MarginRight, Prop::MarginBottom],
                Value::Length(Length::Px(Step::S0p5.spec_px())),
            ),
    {
        self.margin(Length::Px(spacing::SPACING_0_5))
    }

    fn m_1(self) -> (out: Self)
        ensures
            out@ == written(
                self@,
                set![Prop::MarginLeft, Prop::MarginTop, Prop::MarginRight, Prop::MarginBottom],
                Value::Length(Length::Px(Step::S1.spec_px())),
            ),
    {
        self.margin(Length::Px(spacing::SPACING_1))
    }

    fn m_1p5(self) -> (out: Self)
        ensures
            out@ == written(
                self@,
                set![Prop::MarginLeft, Prop::MarginTop, Prop::MarginRight, Prop::MarginBottom],
                Value::Length(Length::Px(Step::S1p5.spec_px())),
            ),
    {
        self.margin(Length::Px(spacing::SPACING_1_5))
    }

    fn m_2(self) -> (out: Self)
        ensures
            out@ == written(
                self@,
                set![Prop::MarginLeft, Prop::MarginTop, Prop::MarginRight, Prop::MarginBottom],
                Value::Length(Length::Px(Step::S2.spec_px())),
            ),
    {
        self.margin(Length::Px(spacing::SPACING_2))
    }

    fn m_2p5(self) -> (out: Self)
        ensures
            out@ == written(
                self@,
                set![Prop::MarginLeft, Prop::MarginTop, Prop::MarginRight, Prop::MarginBottom],
                Value::Length(Length::Px(Step::S2p5.spec_px())),
            ),
    {
        self.margin(Length::Px(spacing::SPACING_2_5))
    }

    fn m_3(self) -> (out: Self)
        ensures
            out@ == written(
                self@,
                set![Prop::MarginLeft, Prop::MarginTop, Prop::MarginRight, Prop::MarginBottom],
                Value::Length(Length::Px(Step::S3.spec_px())),
            ),
    {
        self.margin(Length::Px(spacing::SPACING_3))
    }

    fn m_3p5(self) -> (out: Self)
        ensures
            out@ == written(
                self@,
                set![Prop::MarginLeft, Prop::MarginTop, Prop::MarginRight, Prop::MarginBottom],
                Value::Length(Length::Px(Step::S3p5.spec_px())),
            ),
    {
        self.margin(Length::Px(spacing::SPACING_3_5))
    }

    fn m_4(self) -> (out: Self)
        ensures
            out@ == written(
                self@,
                set![Prop::MarginLeft, Prop::MarginTop, Prop::MarginRight, Prop::MarginBottom],
                Value::Length(Length::Px(Step::S4.spec_px())),
            ),
    {
        self.margin(Length::Px(spacing::SPACING_4))
    }

    fn m_5(self) -> (out: Self)
        ensures
            out@ == written(
                self@,
                set![Prop::MarginLeft, Prop::MarginTop, Prop::MarginRight, Prop::MarginBottom],
                Value::Length(Length::Px(Step::S5.spec_px())),
            ),
    {
        self.margin(Length::Px(spacing::SPACING_5))
    }

    fn m_6(self) -> (out: Self)
        ensures
            out@ == written(
                self@,
                set![Prop::MarginLeft, Prop::MarginTop, Prop::MarginRight, Prop::MarginBottom],
                Value::Length(Length::Px(Step::S6.spec_px())),
            ),
    {
        self.margin(Length::Px(spacing::SPACING_6))
    }

    fn m_7(self) -> (out: Self)
        ensures
            out@ == written(
                self@,
                set![Prop::MarginLeft, Prop::MarginTop, Prop::MarginRight, Prop::MarginBottom],
                Value::Length(Length::Px(Step::S7.spec_px())),
            ),
    {
        self.margin(Length::Px(spacing::SPACING_7))
    }

    fn m_8(self) -> (out: Self)
        ensures
            out@ == written(
                self@,
                set![Prop::MarginLeft, Prop::MarginTop, Prop::MarginRight, Prop::MarginBottom],
                Value::Length(Length::Px(Step::S8.spec_px())),
            ),
    {
        self.margin(Length::Px(spacing::SPACING_8))
    }

    fn m_9(self) -> (out: Self)
        ensures
            out@ == written(
                self@,
                set![Prop::MarginLeft, Prop::MarginTop, Prop::MarginRight, Prop::MarginBottom],
                Value::Length(Length::Px(Step::S9.spec_px())),
            ),
    {
        self.margin(Length::Px(spacing::SPACING_9))
    }

    fn m_10(self) -> (out: Self)
        ensures
            out@ == written(
                self@,
                set![Prop::MarginLeft, Prop::MarginTop, Prop::MarginRight, Prop::MarginBottom],
                Value::Length(Length::Px(Step::S10.spec_px())),
            ),
    {
        self.margin(Length::Px(spacing::SPACING_10))
    }

    fn m_11(self) -> (out: Self)
        ensures
            out@ == written(
                self@,
                set![Prop::MarginLeft, Prop::MarginTop, Prop::MarginRight, Prop::MarginBottom],
                Value::Length(Length::Px(Step::S11.spec_px())),
            ),
    {
        self.margin(Length::Px(spacing::SPACING_11))
    }

    fn m_12(self) -> (out: Self)
        ensures
            out@ == written(
                self@,
                set![Prop::MarginLeft, Prop::MarginTop, Prop::MarginRight, Prop::MarginBottom],
                Value::Length(Length::Px(Step::S12.spec_px())),
            ),
    {
        self.margin(Length::Px(spacing::SPACING_12))
    }

    fn m_14(self) -> (out: Self)
        ensures
            out@ == written(
                self@,
                set![Prop::MarginLeft, Prop::MarginTop, Prop::MarginRight, Prop::MarginBottom],
                Value::Length(Length::Px(Step::S14.spec_px())),
            ),
    {
        self.margin(Length::Px(spacing::SPACING_14))
    }

    fn m_16(self) -> (out: Self)
        ensures
            out@ == written(
                self@,
                set![Prop::MarginLeft, Prop::MarginTop, Prop::MarginRight, Prop::MarginBottom],
                Value::Length(Length::Px(Step::S16.spec_px())),
            ),
    {
        self.margin(Length::Px(spacing::SPACING_16))
    }

    fn m_20(self) -> (out: Self)
        ensures
            out@ == written(
                self@,
                set![Prop::MarginLeft, Prop::MarginTop, Prop::MarginRight, Prop::MarginBottom],
                Value::Length(Length::Px(Step::S20.spec_px())),
            ),
    {
        self.margin(Length::Px(spacing::SPACING_20))
    }

    fn m_24(self) -> (out: Self)
        ensures
            out@ == written(
                self@,
                set![Prop::MarginLeft, Prop::MarginTop, Prop::MarginRight, Prop::MarginBottom],
                Value::Length(Length::Px(Step::S24.spec_px())),
            ),
    {
        self.margin(Length::Px(spacing::SPACING_24))
    }

    fn m_auto(self) -> (out: Self)
        ensures
            out@ == written(
                self@,
                set![Prop::MarginLeft, Prop::MarginTop, Prop::MarginRight, Prop::MarginBottom],
                Value::Length(Length::Auto),
            ),
    {
        self.margin(Length::Auto)
    }

    // Margin left and right.
    fn mx_0(self) -> (out: Self)
        ensures
            out@ == written(
                self@,
                set![Prop::MarginLeft, Prop::MarginRight],
                Value::Length(Length::Px(Step::S0.spec_px())),
            ),
    {
        self.margin_horiz(Length::Px(spacing::SPACING_0))
    }

    fn mx_px(self) -> (out: Self)
        ensures
            out@ == written(
                self@,
                set![Prop::MarginLeft, Prop::MarginRight],
                Value::Length(Length::Px(spacing::SPACING_PX)),
            ),
    {
        self.margin_horiz(Length::Px(spacing::SPACING_PX))
    }

    fn mx_0p5(self) -> (out: Self)
        ensures
            out@ == written(
                self@,
                set![Prop::MarginLeft, Prop::MarginRight],
                Value::Length(Length::Px(Step::S0p5.spec_px())),
            ),
    {
        self.margin_horiz(Length::Px(spacing::SPACING_0_5))
    }

    fn mx_1(self) -> (out: Self)
        ensures
            out@ == written(
                self@,
                set![Prop::MarginLeft, Prop::MarginRight],
                Value::Length(Length::Px(Step::S1.spec_px())),
            ),
    {
        self.margin_horiz(Length::Px(spacing::SPACING_1))
    }

    fn mx_1p5(self) -> (out: Self)
        ensures
            out@ == written(
                self@,
                set![Prop::MarginLeft, Prop::MarginRight],
                Value::Length(Length::Px(Step::S1p5.spec_px())),
            ),
    {
        self.margin_horiz(Length::Px(spacing::SPACING_1_5))
    }

    fn mx_2(self) -> (out: Self)
        ensures
            out@ == written(
                self@,
                set![Prop::MarginLeft, Prop::MarginRight],
                Value::Length(Length::Px(Step::S2.spec_px())),
            ),
    {
        self.margin_horiz(Length::Px(spacing::SPACING_2))
    }

    fn mx_2p5(self) -> (out: Self)
        ensures
            out@ == written(
                self@,
                set![Prop::MarginLeft, Prop::MarginRight],
                Value::Length(Length::Px(Step::S2p5.spec_px())),
            ),
    {
        self.margin_horiz(Length::Px(spacing::SPACING_2_5))
    }

    fn mx_3(self) -> (out: Self)
        ensures
            out@ == written(
                self@,
                set![Prop::MarginLeft, Prop::MarginRight],
                Value::Length(Length::Px(Step::S3.spec_px())),
            ),
    {
        self.margin_horiz(Length::Px(spacing::SPACING_3))
    }

    fn mx_3p5(self) -> (out: Self)
        ensures
            out@ == written(
                self@,
                set![Prop::MarginLeft, Prop::MarginRight],
                Value::Length(Length::Px(Step::S3p5.spec_px())),
            ),
    {
        self.margin_horiz(Length::Px(spacing::SPACING_3_5))
    }

    fn mx_4(self) -> (out: Self)
        ensures
            out@ == written(
                self@,
                set![Prop::MarginLeft, Prop::MarginRight],
                Value::Length(Length::Px(Step::S4.spec_px())),
            ),
    {
        self.margin_horiz(Length::Px(spacing::SPACING_4))
    }

    fn mx_5(self) -> (out: Self)
        ensures
            out@ == written(
                self@,
                set![Prop::MarginLeft, Prop::MarginRight],
                Value::Length(Length::Px(Step::S5.spec_px())),
            ),
    {
        self.margin_horiz(Length::Px(spacing::SPACING_5))
    }

    fn mx_6(self) -> (out: Self)
        ensures
            out@ == written(
                self@,
                set![Prop::MarginLeft, Prop::MarginRight],
                Value::Length(Length::Px(Step::S6.spec_px())),
            ),
    {
        self.margin_horiz(Length::Px(spacing::SPACING_6))
    }

    fn mx_8(self) -> (out: Self)
        ensures
            out@ == written(
                self@,
                set![Prop::MarginLeft, Prop::MarginRight],
                Value::Length(Length::Px(Step::S8.spec_px())),
            ),
    {
        self.margin_horiz(Length::Px(spacing::SPACING_8))
    }

    fn mx_10(self) -> (out: Self)
        ensures
            out@ == written(
                self@,
                set![Prop::MarginLeft, Prop::MarginRight],
                Value::Length(Length::Px(Step::S10.spec_px())),
            ),
    {
        self.margin_horiz(Length::Px(spacing::SPACING_10))
    }

    fn mx_12(self) -> (out: Self)
        ensures
            out@ == written(
                self@,
                set![Prop::MarginLeft, Prop::MarginRight],
                Value::Length(Length::Px(Step::S12.spec_px())),
            ),
    {
        self.margin_horiz(Length::Px(spacing::SPACING_12))
    }

    fn mx_16(self) -> (out: Self)
        ensures
            out@ == written(
                self@,
                set![Prop::MarginLeft, Prop::MarginRight],
                Value::Length(Length::Px(Step::S16.spec_px())),
            ),
    {
        self.margin_horiz(Length::Px(spacing::SPACING_16))
    }

    fn mx_20(self) -> (out: Self)
        ensures
            out@ == written(
                self@,
                set![Prop::MarginLeft, Prop::MarginRight],
                Value::Length(Length::Px(Step::S20.spec_px())),
            ),
    {
        self.margin_horiz(Length::Px(spacing::SPACING_20))
    }

    fn mx_24(self) -> (out: Self)
        ensures
            out@ == written(
                self@,
                set![Prop::MarginLeft, Prop::MarginRight],
                Value::Length(Length::Px(Step::S24.spec_px())),
            ),
    {
        self.margin_horiz(Length::Px(spacing::SPACING_24))
    }

    fn mx_auto(self) -> (out: Self)
        ensures
            out@ == written(
                self@,
                set![Prop::MarginLeft, Prop::MarginRight],
                Value::Length(Length::Auto),
            ),
    {
        self.margin_horiz(Length::Auto)
    }

    // Margin top and bottom.
    fn my_0(self) -> (out: Self)
        ensures
            out@ == written(
                self@,
                set![Prop::MarginTop, Prop::MarginBottom],
                Value::Length(Length::Px(Step::S0.spec_px())),
            ),
    {
        self.margin_vert(Length::Px(spacing::SPACING_0))
    }

    fn my_px(self) -> (out: Self)
        ensures
            out@ == written(
                self@,
                set![Prop::MarginTop, Prop::MarginBottom],
                Value::Length(Length::Px(spacing::SPACING_PX)),
            ),
    {
        self.margin_vert(Length::Px(spacing::SPACING_PX))
    }

    fn my_0p5(self) -> (out: Self)
        ensures
            out@ == written(
                self@,
                set![Prop::MarginTop, Prop::MarginBottom],
                Value::Length(Length::Px(Step::S0p5.spec_px())),
            ),
    {
        self.margin_vert(Length::Px(spacing::SPACING_0_5))
    }

    fn my_1(self) -> (out: Self)
        ensures
            out@ == written(
                self@,
                set![Prop::MarginTop, Prop::MarginBottom],
                Value::Length(Length::Px(Step::S1.spec_px())),
            ),
    {
        self.margin_vert(Length::Px(spacing::SPACING_1))
    }

    fn my_1p5(self) -> (out: Self)
        ensures
            out@ == written(
                self@,
                set![Prop::MarginTop, Prop::MarginBottom],
                Value::Length(Length::Px(Step::S1p5.spec_px())),
            ),
    {
        self.margin_vert(Length::Px(spacing::SPACING_1_5))
    }

    fn my_2(self) -> (out: Self)
        ensures
            out@ == written(
                self@,
                set![Prop::MarginTop, Prop::MarginBottom],
                Value::Length(Length::Px(Step::S2.spec_px())),
            ),
    {
        self.margin_vert(Length::Px(spacing::SPACING_2))
    }

    fn my_2p5(self) -> (out: Self)
        ensures
            out@ == written(
                self@,
                set![Prop::MarginTop, Prop::MarginBottom],
                Value::Length(Length::Px(Step::S2p5.spec_px())),
            ),
    {
        self.margin_vert(Length::Px(spacing::SPACING_2_5))
    }

    fn my_3(self) -> (out: Self)
        ensures
            out@ == written(
                self@,
                set![Prop::MarginTop, Prop::MarginBottom],
                Value::Length(Length::Px(Step::S3.spec_px())),
            ),
    {
        self.margin_vert(Length::Px(spacing::SPACING_3))
    }

    fn my_3p5(self) -> (out: Self)
        ensures
            out@ == written(
                self@,
                set![Prop::MarginTop, Prop::MarginBottom],
                Value::Length(Length::Px(Step::S3p5.spec_px())),
            ),
    {
        self.margin_vert(Length::Px(spacing::SPACING_3_5))
    }

    fn my_4(self) -> (out: Self)
        ensures
            out@ == written(
                self@,
                set![Prop::MarginTop, Prop::MarginBottom],
                Value::Length(Length::Px(Step::S4.spec_px())),
            ),
    {
        self.margin_vert(Length::Px(spacing::SPACING_4))
    }

    fn my_5(self) -> (out: Self)
        ensures
            out@ == written(
                self@,
                set![Prop::MarginTop, Prop::MarginBottom],
                Value::Length(Length::Px(Step::S5.spec_px())),
            ),
    {
        self.margin_vert(Length::Px(spacing::SPACING_5))
    }

    fn my_6(self) -> (out: Self)
        ensures
            out@ == written(
                self@,
                set![Prop::MarginTop, Prop::MarginBottom],
                Value::Length(Length::Px(Step::S6.spec_px())),
            ),
    {
        self.margin_vert(Length::Px(spacing::SPACING_6))
    }

    fn my_8(self) -> (out: Self)
        ensures
            out@ == written(
                self@,
                set![Prop::MarginTop, Prop::MarginBottom],
                Value::Length(Length::Px(Step::S8.spec_px())),
            ),
    {
        self.margin_vert(Length::Px(spacing::SPACING_8))
    }

    fn my_10(self) -> (out: Self)
        ensures
            out@ == written(
                self@,
                set![Prop::MarginTop, Prop::MarginBottom],
                Value::Length(Length::Px(Step::S10.spec_px())),
            ),
    {
        self.margin_vert(Length::Px(spacing::SPACING_10))
    }

    fn my_12(self) -> (out: Self)
        ensures
            out@ == written(
                self@,
                set![Prop::MarginTop, Prop::MarginBottom],
                Value::Length(Length::Px(Step::S12.spec_px())),
            ),
    {
        self.margin_vert(Length::Px(spacing::SPACING_12))
    }

    fn my_16(self) -> (out: Self)
        ensures
            out@ == written(
                self@,
                set![Prop::MarginTop, Prop::MarginBottom],
                Value::Length(Length::Px(Step::S16.spec_px())),
            ),
    {
        self.margin_vert(Length::Px(spacing::SPACING_16))
    }

    fn my_20(self) -> (out: Self)
        ensures
            out@ == written(
                self@,
                set![Prop::MarginTop, Prop::MarginBottom],
                Value::Length(Length::Px(Step::S20.spec_px())),
            ),
    {
        self.margin_vert(Length::Px(spacing::SPACING_20))
    }

    fn my_24(self) -> (out: Self)
        ensures
            out@ == written(
                self@,
                set![Prop::MarginTop, Prop::MarginBottom],
                Value::Length(Length::Px(Step::S24.spec_px())),
            ),
    {
        self.margin_vert(Length::Px(spacing::SPACING_24))
    }

    fn my_auto(self) -> (out: Self)
        ensures
            out@ == written(
                self@,
                set![Prop::MarginTop, Prop::MarginBottom],
                Value::Length(Length::Auto),
            ),
    {
        self.margin_vert(Length::Auto)
    }

    // Margin on one side.
    fn mt_0(self) -> (out: Self)
        ensures
            out@ == written(
                self@,
                set![Prop::MarginTop],
                Value::Length(Length::Px(Step::S0.spec_px())),
            ),
    {
        self.margin_top(Length::Px(spacing::SPACING_0))
    }

    fn mt_1(self) -> (out: Self)
        ensures
            out@ == written(
                self@,
                set![Prop::MarginTop],
                Value::Length(Length::Px(Step::S1.spec_px())),
            ),
    {
        self.margin_top(Length::Px(spacing::SPACING_1))
    }

    fn mt_2(self) -> (out: Self)
        ensures
            out@ == written(
                self@,
                set![Prop::MarginTop],
                Value::Length(Length::Px(Step::S2.spec_px())),
            ),
    {
        self.margin_top(Length::Px(spacing::SPACING_2))
    }

    fn mt_3(self) -> (out: Self)
        ensures
            out@ == written(
                self@,
                set![Prop::MarginTop],
                Value::Length(Length::Px(Step::S3.spec_px())),
            ),
    {
        self.margin_top(Length::Px(spacing::SPACING_3))
    }

    fn mt_4(self) -> (out: Self)
        ensures
            out@ == written(
                self@,
                set![Prop::MarginTop],
                Value::Length(Length::Px(Step::S4.spec_px())),
            ),
    {
        self.margin_top(Length::Px(spacing::SPACING_4))
    }

    fn mt_5(self) -> (out: Self)
        ensures
            out@ == written(
                self@,
                set![Prop::MarginTop],
                Value::Length(Length::Px(Step::S5.spec_px())),
            ),
    {
        self.margin_top(Length::Px(spacing::SPACING_5))
    }

    fn mt_6(self) -> (out: Self)
        ensures
            out@ == written(
                self@,
                set![Prop::MarginTop],
                Value::Length(Length::Px(Step::S6.spec_px())),
            ),
    {
        self.margin_top(Length::Px(spacing::SPACING_6))
    }

    fn mt_8(self) -> (out: Self)
        ensures
            out@ == written(
                self@,
                set![Prop::MarginTop],
                Value::Length(Length::Px(Step::S8.spec_px())),
            ),
    {
        self.margin_top(Length::Px(spacing::SPACING_8))
    }

    fn mt_auto(self) -> (out: Self)
        ensures
            out@ == written(self@, set![Prop::MarginTop], Value::Length(Length::Auto)),
    {
        self.margin_top(Length::Auto)
    }

    fn mb_0(self) -> (out: Self)
        ensures
            out@ == written(
                self@,
                set![Prop::MarginBottom],
                Value::Length(Length::Px(Step::S0.spec_px())),
            ),
    {
        self.margin_bottom(Length::Px(spacing::SPACING_0))
    }

    fn mb_1(self) -> (out: Self)
        ensures
            out@ == written(
                self@,
                set![Prop::MarginBottom],
                Value::Length(Length::Px(Step::S1.spec_px())),
            ),
    {
        self.margin_bottom(Length::Px(spacing::SPACING_1))
    }

    fn mb_2(self) -> (out: Self)
        ensures
            out@ == written(
                self@,
                set![Prop::MarginBottom],
                Value::Length(Length::Px(Step::S2.spec_px())),
            ),
    {
        self.margin_bottom(Length::Px(spacing::SPACING_2))
    }

    fn mb_3(self) -> (out: Self)
        ensures
            out@ == written(
                self@,
                set![Prop::MarginBottom],
                Value::Length(Length::Px(Step::S3.spec_px())),
            ),
    {
        self.margin_bottom(Length::Px(spacing::SPACING_3))
    }

    fn mb_4(self) -> (out: Self)
        ensures
            out@ == written(
                self@,
                set![Prop::MarginBottom],
                Value::Length(Length::Px(Step::S4.spec_px())),
            ),
    {
        self.margin_bottom(Length::Px(spacing::SPACING_4))
    }

    fn mb_5(self) -> (out: Self)
        ensures
            out@ == written(
                self@,
                set![Prop::MarginBottom],
                Value::Length(Length::Px(Step::S5.spec_px())),
            ),
    {
        self.margin_bottom(Length::Px(spacing::SPACING_5))
    }

    fn mb_6(self) -> (out: Self)
        ensures
            out@ == written(
                self@,
                set![Prop::MarginBottom],
                Value::Length(Length::Px(Step::S6.spec_px())),
            ),
    {
        self.margin_bottom(Length::Px(spacing::SPACING_6))
    }

    fn mb_8(self) -> (out: Self)
        ensures
            out@ == written(
                self@,
                set![Prop::MarginBottom],
                Value::Length(Length::Px(Step::S8.spec_px())),
            ),
    {
        self.margin_bottom(Length::Px(spacing::SPACING_8))
    }

    fn mb_auto(self) -> (out: Self)
        ensures
            out@ == written(self@, set![Prop::MarginBottom], Value::Length(Length::Auto)),
    {
        self.margin_bottom(Length::Auto)
    }

    fn ml_0(self) -> (out: Self)
        ensures
            out@ == written(
                self@,
                set![Prop::MarginLeft],
                Value::Length(Length::Px(Step::S0.spec_px())),
            ),
    {
        self.margin_left(Length::Px(spacing::SPACING_0))
    }

    fn ml_1(self) -> (out: Self)
        ensures
            out@ == written(
                self@,
                set![Prop::MarginLeft],
                Value::Length(Length::Px(Step::S1.spec_px())),
            ),
    {
        self.margin_left(Length::Px(spacing::SPACING_1))
    }

    fn ml_2(self) -> (out: Self)
        ensures
            out@ == written(
                self@,
                set![Prop::MarginLeft],
                Value::Length(Length::Px(Step::S2.spec_px())),
            ),
    {
        self.margin_left(Length::Px(spacing::SPACING_2))
    }

    fn ml_3(self) -> (out: Self)
        ensures
            out@ == written(
                self@,
                set![Prop::MarginLeft],
                Value::Length(Length::Px(Step::S3.spec_px())),
            ),
    {
        self.margin_left(Length::Px(spacing::SPACING_3))
    }

    fn ml_4(self) -> (out: Self)
        ensures
            out@ == written(
                self@,
                set![Prop::MarginLeft],
                Value::Length(Length::Px(Step::S4.spec_px())),
            ),
    {
        self.margin_left(Length::Px(spacing::SPACING_4))
    }

    fn ml_5(self) -> (out: Self)
        ensures
            out@ == written(
                self@,
                set![Prop::MarginLeft],
                Value::Length(Length::Px(Step::S5.spec_px())),
            ),
    {
        self.margin_left(Length::Px(spacing::SPACING_5))
    }

    fn ml_6(self) -> (out: Self)
        ensures
            out@ == written(
                self@,
                set![Prop::MarginLeft],
                Value::Length(Length::Px(Step::S6.spec_px())),
            ),
    {
        self.margin_left(Length::Px(spacing::SPACING_6))
    }

    fn ml_8(self) -> (out: Self)
        ensures
            out@ == written(
                self@,
                set![Prop::MarginLeft],
                Value::Length(Length::Px(Step::S8.spec_px())),
            ),
    {
        self.margin_left(Length::Px(spacing::SPACING_8))
    }

    fn ml_auto(self) -> (out: Self)
        ensures
            out@ == written(self@, set![Prop::MarginLeft], Value::Length(Length::Auto)),
    {
        self.margin_left(Length::Auto)
    }

    fn mr_0(self) -> (out: Self)
        ensures
            out@ == written(
                self@,
                set![Prop::MarginRight],
                Value::Length(Length::Px(Step::S0.spec_px())),
            ),
    {
        self.margin_right(Length::Px(spacing::SPACING_0))
    }

    fn mr_1(self) -> (out: Self)
        ensures
            out@ == written(
                self@,
                set![Prop::MarginRight],
                Value::Length(Length::Px(Step::S1.spec_px())),
            ),
    {
        self.margin_right(Length::Px(spacing::SPACING_1))
    }

    fn mr_2(self) -> (out: Self)
        ensures
            out@ == written(
                self@,
                set![Prop::MarginRight],
                Value::Length(Length::Px(Step::S2.spec_px())),
            ),
    {
        self.margin_right(Length::Px(spacing::SPACING_2))
    }

    fn mr_3(self) -> (out: Self)
        ensures
            out@ == written(
                self@,
                set![Prop::MarginRight],
                Value::Length(Length::Px(Step::S3.spec_px())),
            ),
    {
        self.margin_right(Length::Px(spacing::SPACING_3))
    }

    fn mr_4(self) -> (out: Self)
        ensures
            out@ == written(
                self@,
                set![Prop::MarginRight],
                Value::Length(Length::Px(Step::S4.spec_px())),
            ),
    {
        self.margin_right(Length::Px(spacing::SPACING_4))
    }

    fn mr_5(self) -> (out: Self)
        ensures
            out@ == written(
                self@,
                set![Prop::MarginRight],
                Value::Length(Length::Px(Step::S5.spec_px())),
            ),
    {
        self.margin_right(Length::Px(spacing::SPACING_5))
    }

    fn mr_6(self) -> (out: Self)
        ensures
            out@ == written(
                self@,
                set![Prop::MarginRight],
                Value::Length(Length::Px(Step::S6.spec_px())),
            ),
    {
        self.margin_right(Length::Px(spacing::SPACING_6))
    }

    fn mr_8(self) -> (out: Self)
        ensures
            out@ == written(
                self@,
                set![Prop::MarginRight],
                Value::Length(Length::Px(Step::S8.spec_px())),
            ),
    {
        self.margin_right(Length::Px(spacing::SPACING_8))
    }

    fn mr_auto(self) -> (out: Self)
        ensures
            out@ == written(self@, set![Prop::MarginRight], Value::Length(Length::Auto)),
    {
        self.margin_right(Length::Auto)
    }

    // Gap between children.
    fn gap_0(self) -> (out: Self)
        ensures
            out@ == written(self@, set![Prop::Gap], Value::Px(Step::S0.spec_px())),
    {
        self.gap(spacing::SPACING_0)
    }

    fn gap_px(self) -> (out: Self)
        ensures
            out@ == written(self@, set![Prop::Gap], Value::Px(spacing::SPACING_PX)),
    {
        self.gap(spacing::SPACING_PX)
    }

    fn gap_0p5(self) -> (out: Self)
        ensures
            out@ == written(self@, set![Prop::Gap], Value::Px(Step::S0p5.spec_px())),
    {
        self.gap(spacing::SPACING_0_5)
    }

    fn gap_1(self) -> (out: Self)
        ensures
            out@ == written(self@, set![Prop::Gap], Value::Px(Step::S1.spec_px())),
    {
        self.gap(spacing::SPACING_1)
    }

    fn gap_1p5(self) -> (out: Self)
        ensures
            out@ == written(self@, set![Prop::Gap], Value::Px(Step::S1p5.spec_px())),
    {
        self.gap(spacing::SPACING_1_5)
    }

    fn gap_2(self) -> (out: Self)
        ensures
            out@ == written(self@, set![Prop::Gap], Value::Px(Step::S2.spec_px())),
    {
        self.gap(spacing::SPACING_2)
    }

    fn gap_2p5(self) -> (out: Self)
        ensures
            out@ == written(self@, set![Prop::Gap], Value::Px(Step::S2p5.spec_px())),
    {
        self.gap(spacing::SPACING_2_5)
    }

    fn gap_3(self) -> (out: Self)
        ensures
            out@ == written(self@, set![Prop::Gap], Value::Px(Step::S3.spec_px())),
    {
        self.gap(spacing::SPACING_3)
    }

    fn gap_3p5(self) -> (out: Self)
        ensures
            out@ == written(self@, set![Prop::Gap], Value::Px(Step::S3p5.spec_px())),
    {
        self.gap(spacing::SPACING_3_5)
    }

    fn gap_4(self) -> (out: Self)
        ensures
            out@ == written(self@, set![Prop::Gap], Value::Px(Step::S4.spec_px())),
    {
        self.gap(spacing::SPACING_4)
    }

    fn gap_5(self) -> (out: Self)
        ensures
            out@ == written(self@, set![Prop::Gap], Value::Px(Step::S5.spec_px())),
    {
        self.gap(spacing::SPACING_5)
    }

    fn gap_6(self) -> (out: Self)
        ensures
            out@ == written(self@, set![Prop::Gap], Value::Px(Step::S6.spec_px())),
    {
        self.gap(spacing::SPACING_6)
    }

    fn gap_7(self) -> (out: Self)
        ensures
            out@ == written(self@, set![Prop::Gap], Value::Px(Step::S7.spec_px())),
    {
        self.gap(spacing::SPACING_7)
    }

    fn gap_8(self) -> (out: Self)
        ensures
            out@ == written(self@, set![Prop::Gap], Value::Px(Step::S8.spec_px())),
    {
        self.gap(spacing::SPACING_8)
    }

    fn gap_9(self) -> (out: Self)
        ensures
            out@ == written(self@, set![Prop::Gap], Value::Px(Step::S9.spec_px())),
    {
        self.gap(spacing::SPACING_9)
    }

    fn gap_10(self) -> (out: Self)
        ensures
            out@ == written(self@, set![Prop::Gap], Value::Px(Step::S10.spec_px())),
    {
        self.gap(spacing::SPACING_10)
    }

    fn gap_11(self) -> (out: Self)
        ensures
            out@ == written(self@, set![Prop::Gap], Value::Px(Step::S11.spec_px())),
    {
        self.gap(spacing::SPACING_11)
    }

    fn gap_12(self) -> (out: Self)
        ensures
            out@ == written(self@, set![Prop::Gap], Value::Px(Step::S12.spec_px())),
    {
        self.gap(spacing::SPACING_12)
    }

    fn gap_14(self) -> (out: Self)
        ensures
            out@ == written(self@, set![Prop::Gap], Value::Px(Step::S14.spec_px())),
    {
        self.gap(spacing::SPACING_14)
    }

    fn gap_16(self) -> (out: Self)
        ensures
            out@ == written(self@, set![Prop::Gap], Value::Px(Step::S16.spec_px())),
    {
        self.gap(spacing::SPACING_16)
    }

    fn gap_20(self) -> (out: Self)
        ensures
            out@ == written(self@, set![Prop::Gap], Value::Px(Step::S20.spec_px())),
    {
        self.gap(spacing::SPACING_20)
    }

    fn gap_24(self) -> (out: Self)
        ensures
            out@ == written(self@, set![Prop::Gap], Value::Px(Step::S24.spec_px())),
    {
        self.gap(spacing::SPACING_24)
    }

    // Corner radius.
    fn rounded_none(self) -> (out: Self)
        ensures
            out@ == written(self@, set![Prop::BorderRadius], Value::Px(radius::ROUNDED_NONE)),
    {
        self.border_radius(radius::ROUNDED_NONE)
    }

    fn rounded_sm(self) -> (out: Self)
        ensures
            out@ == written(self@, set![Prop::BorderRadius], Value::Px(radius::ROUNDED_SM)),
    {
        self.border_radius(radius::ROUNDED_SM)
    }

    fn rounded(self) -> (out: Self)
        ensures
            out@ == written(self@, set![Prop::BorderRadius], Value::Px(radius::ROUNDED)),
    {
        self.border_radius(radius::ROUNDED)
    }

    fn rounded_md(self) -> (out: Self)
        ensures
            out@ == written(self@, set![Prop::BorderRadius], Value::Px(radius::ROUNDED_MD)),
    {
        self.border_radius(radius::ROUNDED_MD)
    }

    fn rounded_lg(self) -> (out: Self)
        ensures
            out@ == written(self@, set![Prop::BorderRadius], Value::Px(radius::ROUNDED_LG)),
    {
        self.border_radius(radius::ROUNDED_LG)
    }

    fn rounded_xl(self) -> (out: Self)
        ensures
            out@ == written(self@, set![Prop::BorderRadius], Value::Px(radius::ROUNDED_XL)),
    {
        self.border_radius(radius::ROUNDED_XL)
    }

    fn rounded_2xl(self) -> (out: Self)
        ensures
            out@ == written(self@, set![Prop::BorderRadius], Value::Px(radius::ROUNDED_2XL)),
    {
        self.border_radius(radius::ROUNDED_2XL)
    }

    fn rounded_3xl(self) -> (out: Self)
        ensures
            out@ == written(self@, set![Prop::BorderRadius], Value::Px(radius::ROUNDED_3XL)),
    {
        self.border_radius(radius::ROUNDED_3XL)
    }

    fn rounded_full(self) -> (out: Self)
        ensures
            out@ == written(self@, set![Prop::BorderRadius], Value::Px(radius::ROUNDED_FULL)),
    {
        self.border_radius(radius::ROUNDED_FULL)
    }

    // Border width.
    fn border_0(self) -> (out: Self)
        ensures
            out@ == written(self@, set![Prop::Border], Value::Px(0)),
    {
        self.border(0)
    }

    fn border_1(self) -> (out: Self)
        ensures
            out@ == written(self@, set![Prop::Border], Value::Px(1)),
    {
        self.border(1)
    }

    fn border_2(self) -> (out: Self)
        ensures
            out@ == written(self@, set![Prop::Border], Value::Px(2)),
    {
        self.border(2)
    }

    fn border_4(self) -> (out: Self)
        ensures
            out@ == written(self@, set![Prop::Border], Value::Px(4)),
    {
        self.border(4)
    }

    fn border_8(self) -> (out: Self)
        ensures
            out@ == written(self@, set![Prop::Border], Value::Px(8)),
    {
        self.border(8)
    }

    // Box shadow.
    fn shadow_sm(self) -> (out: Self)
        ensures
            out@ == written(
                self@,
                set![Prop::BoxShadows],
                Value::Shadows(seq![shadow::preset(1, 2, 0, 5)]),
            ),
    {
        one_shadow(self, shadow::shadow_sm())
    }

    fn shadow(self) -> (out: Self)
        ensures
            out@ == written(
                self@,
                set![Prop::BoxShadows],
                Value::Shadows(seq![shadow::preset(1, 3, 0, 10)]),
            ),
    {
        one_shadow(self, shadow::shadow_default())
    }

    fn shadow_md(self) -> (out: Self)
        ensures
            out@ == written(
                self@,
                set![Prop::BoxShadows],
                Value::Shadows(seq![shadow::preset(4, 6, -1i32, 10)]),
            ),
    {
        one_shadow(self, shadow::shadow_md())
    }

    fn shadow_lg(self) -> (out: Self)
        ensures
            out@ == written(
                self@,
                set![Prop::BoxShadows],
                Value::Shadows(seq![shadow::preset(10, 15, -3i32, 10)]),
            ),
    {
        one_shadow(self, shadow::shadow_lg())
    }

    fn shadow_xl(self) -> (out: Self)
        ensures
            out@ == written(
                self@,
                set![Prop::BoxShadows],
                Value::Shadows(seq![shadow::preset(20, 25, -5i32, 10)]),
            ),
    {
        one_shadow(self, shadow::shadow_xl())
    }

    fn shadow_2xl(self) -> (out: Self)
        ensures
            out@ == written(
                self@,
                set![Prop::BoxShadows],
                Value::Shadows(seq![shadow::preset(25, 50, -12i32, 25)]),
            ),
    {
        one_shadow(self, shadow::shadow_2xl())
    }

    fn shadow_none(self) -> (out: Self)
        ensures
            out@ == written(self@, set![Prop::BoxShadows], Value::Shadows(Seq::empty())),
    {
        no_shadow(self)
    }

    // Background colour.
    fn bg(self, color: Color) -> (out: Self)
        ensures
            out@ == written(self@, set![Prop::Background], Value::Color(color)),
    {
        self.background(color)
    }

    fn bg_transparent(self) -> (out: Self)
        ensures
            out@ == written(
                self@,
                set![Prop::Background],
                Value::Color(spec_rgba(colors::TRANSPARENT)),
            ),
    {
        self.background(rgba(colors::TRANSPARENT))
    }

    fn bg_black(self) -> (out: Self)
        ensures
            out@ == written(self@, set![Prop::Background], Value::Color(spec_rgba(colors::BLACK))),
    {
        self.background(rgba(colors::BLACK))
    }

    fn bg_white(self) -> (out: Self)
        ensures
            out@ == written(self@, set![Prop::Background], Value::Color(spec_rgba(colors::WHITE))),
    {
        self.background(rgba(colors::WHITE))
    }

    fn bg_slate_50(self) -> (out: Self)
        ensures
            out@ == written(
                self@,
                set![Prop::Background],
                Value::Color(spec_rgba(colors::SLATE_50)),
            ),
    {
        self.background(rgba(colors::SLATE_50))
    }

    fn bg_slate_100(self) -> (out: Self)
        ensures
            out@ == written(
                self@,
                set![Prop::Background],
                Value::Color(spec_rgba(colors::SLATE_100)),
            ),
    {
        self.background(rgba(colors::SLATE_100))
    }

    fn bg_slate_200(self) -> (out: Self)
        ensures
            out@ == written(
                self@,
                set![Prop::Background],
                Value::Color(spec_rgba(colors::SLATE_200)),
            ),
    {
        self.background(rgba(colors::SLATE_200))
    }

    fn bg_slate_300(self) -> (out: Self)
        ensures
            out@ == written(
                self@,
                set![Prop::Background],
                Value::Color(spec_rgba(colors::SLATE_300)),
            ),
    {
        self.background(rgba(colors::SLATE_300))
    }

    fn bg_slate_400(self) -> (out: Self)
        ensures
            out@ == written(
                self@,
                set![Prop::Background],
                Value::Color(spec_rgba(colors::SLATE_400)),
            ),
    {
        self.background(rgba(colors::SLATE_400))
    }

    fn bg_slate_500(self) -> (out: Self)
        ensures
            out@ == written(
                self@,
                set![Prop::Background],
                Value::Color(spec_rgba(colors::SLATE_500)),
            ),
    {
        self.background(rgba(colors::SLATE_500))
    }

    fn bg_slate_600(self) -> (out: Self)
        ensures
            out@ == written(
                self@,
                set![Prop::Background],
                Value::Color(spec_rgba(colors::SLATE_600)),
            ),
    {
        self.background(rgba(colors::SLATE_600))
    }

    fn bg_slate_700(self) -> (out: Self)
        ensures
            out@ == written(
                self@,
                set![Prop::Background],
                Value::Color(spec_rgba(colors::SLATE_700)),
            ),
    {
        self.background(rgba(colors::SLATE_700))
    }

    fn bg_slate_800(self) -> (out: Self)
        ensures
            out@ == written(
                self@,
                set![Prop::Background],
                Value::Color(spec_rgba(colors::SLATE_800)),
            ),
    {
        self.background(rgba(colors::SLATE_800))
    }

    fn bg_slate_900(self) -> (out: Self)
        ensures
            out@ == written(
                self@,
                set![Prop::Background],
                Value::Color(spec_rgba(colors::SLATE_900)),
            ),
    {
        self.background(rgba(colors::SLATE_900))
    }

    fn bg_slate_950(self) -> (out: Self)
        ensures
            out@ == written(
                self@,
                set![Prop::Background],
                Value::Color(spec_rgba(colors::SLATE_950)),
            ),
    {
        self.background(rgba(colors::SLATE_950))
    }

    fn bg_gray_50(self) -> (out: Self)
        ensures
            out@ == written(
                self@,
                set![Prop::Background],
                Value::Color(spec_rgba(colors::GRAY_50)),
            ),
    {
        self.background(rgba(colors::GRAY_50))
    }

    fn bg_gray_100(self) -> (out: Self)
        ensures
            out@ == written(
                self@,
                set![Prop::Background],
                Value::Color(spec_rgba(colors::GRAY_100)),
            ),
    {
        self.background(rgba(colors::GRAY_100))
    }

    fn bg_gray_200(self) -> (out: Self)
        ensures
            out@ == written(
                self@,
                set![Prop::Background],
                Value::Color(spec_rgba(colors::GRAY_200)),
            ),
    {
        self.background(rgba(colors::GRAY_200))
    }

    fn bg_gray_300(self) -> (out: Self)
        ensures
            out@ == written(
                self@,
                set![Prop::Background],
                Value::Color(spec_rgba(colors::GRAY_300)),
            ),
    {
        self.background(rgba(colors::GRAY_300))
    }

    fn bg_gray_400(self) -> (out: Self)
        ensures
            out@ == written(
                self@,
                set![Prop::Background],
                Value::Color(spec_rgba(colors::GRAY_400)),
            ),
    {
        self.background(rgba(colors::GRAY_400))
    }

    fn bg_gray_500(self) -> (out: Self)
        ensures
            out@ == written(
                self@,
                set![Prop::Background],
                Value::Color(spec_rgba(colors::GRAY_500)),
            ),
    {
        self.background(rgba(colors::GRAY_500))
    }

    fn bg_gray_600(self) -> (out: Self)
        ensures
            out@ == written(
                self@,
                set![Prop::Background],
                Value::Color(spec_rgba(colors::GRAY_600)),
            ),
    {
        self.background(rgba(colors::GRAY_600))
    }

    fn bg_gray_700(self) -> (out: Self)
        ensures
            out@ == written(
                self@,
                set![Prop::Background],
                Value::Color(spec_rgba(colors::GRAY_700)),
            ),
    {
        self.background(rgba(colors::GRAY_700))
    }

    fn bg_gray_800(self) -> (out: Self)
        ensures
            out@ == written(
                self@,
                set![Prop::Background],
                Value::Color(spec_rgba(colors::GRAY_800)),
            ),
    {
        self.background(rgba(colors::GRAY_800))
    }

    fn bg_gray_900(self) -> (out: Self)
        ensures
            out@ == written(
                self@,
                set![Prop::Background],
                Value::Color(spec_rgba(colors::GRAY_900)),
            ),
    {
        self.background(rgba(colors::GRAY_900))
    }

    fn bg_gray_950(self) -> (out: Self)
        ensures
            out@ == written(
                self@,
                set![Prop::Background],
                Value::Color(spec_rgba(colors::GRAY_950)),
            ),
    {
        self.background(rgba(colors::GRAY_950))
    }

    fn bg_zinc_50(self) -> (out: Self)
        ensures
            out@ == written(
                self@,
                set![Prop::Background],
                Value::Color(spec_rgba(colors::ZINC_50)),
            ),
    {
        self.background(rgba(colors::ZINC_50))
    }

    fn bg_zinc_100(self) -> (out: Self)
        ensures
            out@ == written(
                self@,
                set![Prop::Background],
                Value::Color(spec_rgba(colors::ZINC_100)),
            ),
    {
        self.background(rgba(colors::ZINC_100))
    }

    fn bg_zinc_200(self) -> (out: Self)
        ensures
            out@ == written(
                self@,
                set![Prop::Background],
                Value::Color(spec_rgba(colors::ZINC_200)),
            ),
    {
        self.background(rgba(colors::ZINC_200))
    }

    fn bg_zinc_300(self) -> (out: Self)
        ensures
            out@ == written(
                self@,
                set![Prop::Background],
                Value::Color(spec_rgba(colors::ZINC_300)),
            ),
    {
        self.background(rgba(colors::ZINC_300))
    }

    fn bg_zinc_400(self) -> (out: Self)
        ensures
            out@ == written(
                self@,
                set![Prop::Background],
                Value::Color(spec_rgba(colors::ZINC_400)),
            ),
    {
        self.background(rgba(colors::ZINC_400))
    }

    fn bg_zinc_500(self) -> (out: Self)
        ensures
            out@ == written(
                self@,
                set![Prop::Background],
                Value::Color(spec_rgba(colors::ZINC_500)),
            ),
    {
        self.background(rgba(colors::ZINC_500))
    }

    fn bg_zinc_600(self) -> (out: Self)
        ensures
            out@ == written(
                self@,
                set![Prop::Background],
                Value::Color(spec_rgba(colors::ZINC_600)),
            ),
    {
        self.background(rgba(colors::ZINC_600))
    }

    fn bg_zinc_700(self) -> (out: Self)
        ensures
            out@ == written(
                self@,
                set![Prop::Background],
                Value::Color(spec_rgba(colors::ZINC_700)),
            ),
    {
        self.background(rgba(colors::ZINC_700))
    }

    fn bg_zinc_800(self) -> (out: Self)
        ensures
            out@ == written(
                self@,
                set![Prop::Background],
                Value::Color(spec_rgba(colors::ZINC_800)),
            ),
    {
        self.background(rgba(colors::ZINC_800))
    }

    fn bg_zinc_900(self) -> (out: Self)
        ensures
            out@ == written(
                self@,
                set![Prop::Background],
                Value::Color(spec_rgba(colors::ZINC_900)),
            ),
    {
        self.background(rgba(colors::ZINC_900))
    }

    fn bg_zinc_950(self) -> (out: Self)
        ensures
            out@ == written(
                self@,
                set![Prop::Background],
                Value::Color(spec_rgba(colors::ZINC_950)),
            ),
    {
        self.background(rgba(colors::ZINC_950))
    }

    fn bg_red_50(self) -> (out: Self)
        ensures
            out@ == written(self@, set![Prop::Background], Value::Color(spec_rgba(colors::RED_50))),
    {
        self.background(rgba(colors::RED_50))
    }

    fn bg_red_100(self) -> (out: Self)
        ensures
            out@ == written(
                self@,
                set![Prop::Background],
                Value::Color(spec_rgba(colors::RED_100)),
            ),
    {
        self.background(rgba(colors::RED_100))
    }

    fn bg_red_200(self) -> (out: Self)
        ensures
            out@ == written(
                self@,
                set![Prop::Background],
                Value::Color(spec_rgba(colors::RED_200)),
            ),
    {
        self.background(rgba(colors::RED_200))
    }

    fn bg_red_300(self) -> (out: Self)
        ensures
            out@ == written(
                self@,
                set![Prop::Background],
                Value::Color(spec_rgba(colors::RED_300)),
            ),
    {
        self.background(rgba(colors::RED_300))
    }

    fn bg_red_400(self) -> (out: Self)
        ensures
            out@ == written(
                self@,
                set![Prop::Background],
                Value::Color(spec_rgba(colors::RED_400)),
            ),
    {
        self.background(rgba(colors::RED_400))
    }

    fn bg_red_500(self) -> (out: Self)
        ensures
            out@ == written(
                self@,
                set![Prop::Background],
                Value::Color(spec_rgba(colors::RED_500)),
            ),
    {
        self.background(rgba(colors::RED_500))
    }

    fn bg_red_600(self) -> (out: Self)
        ensures
            out@ == written(
                self@,
                set![Prop::Background],
                Value::Color(spec_rgba(colors::RED_600)),
            ),
    {
        self.background(rgba(colors::RED_600))
    }

    fn bg_red_700(self) -> (out: Self)
        ensures
            out@ == written(
                self@,
                set![Prop::Background],
                Value::Color(spec_rgba(colors::RED_700)),
            ),
    {
        self.background(rgba(colors::RED_700))
    }

    fn bg_red_800(self) -> (out: Self)
        ensures
            out@ == written(
                self@,
                set![Prop::Background],
                Value::Color(spec_rgba(colors::RED_800)),
            ),
    {
        self.background(rgba(colors::RED_800))
    }

    fn bg_red_900(self) -> (out: Self)
        ensures
            out@ == written(
                self@,
                set![Prop::Background],
                Value::Color(spec_rgba(colors::RED_900)),
            ),
    {
        self.background(rgba(colors::RED_900))
    }

    fn bg_red_950(self) -> (out: Self)
        ensures
            out@ == written(
                self@,
                set![Prop::Background],
                Value::Color(spec_rgba(colors::RED_950)),
            ),
    {
        self.background(rgba(colors::RED_950))
    }

    fn bg_orange_50(self) -> (out: Self)
        ensures
            out@ == written(
                self@,
                set![Prop::Background],
                Value::Color(spec_rgba(colors::ORANGE_50)),
            ),
    {
        self.background(rgba(colors::ORANGE_50))
    }

    fn bg_orange_100(self) -> (out: Self)
        ensures
            out@ == written(
                self@,
                set![Prop::Background],
                Value::Color(spec_rgba(colors::ORANGE_100)),
            ),
    {
        self.background(rgba(colors::ORANGE_100))
    }

    fn bg_orange_200(self) -> (out: Self)
        ensures
            out@ == written(
                self@,
                set![Prop::Background],
                Value::Color(spec_rgba(colors::ORANGE_200)),
            ),
    {
        self.background(rgba(colors::ORANGE_200))
    }

    fn bg_orange_300(self) -> (out: Self)
        ensures
            out@ == written(
                self@,
                set![Prop::Background],
                Value::Color(spec_rgba(colors::ORANGE_300)),
            ),
    {
        self.background(rgba(colors::ORANGE_300))
    }

    fn bg_orange_400(self) -> (out: Self)
        ensures
            out@ == written(
                self@,
                set![Prop::Background],
                Value::Color(spec_rgba(colors::ORANGE_400)),
            ),
    {
        self.background(rgba(colors::ORANGE_400))
    }

    fn bg_orange_500(self) -> (out: Self)
        ensures
            out@ == written(
                self@,
                set![Prop::Background],
                Value::Color(spec_rgba(colors::ORANGE_500)),
            ),
    {
        self.background(rgba(colors::ORANGE_500))
    }

    fn bg_orange_600(self) -> (out: Self)
        ensures
            out@ == written(
                self@,
                set![Prop::Background],
                Value::Color(spec_rgba(colors::ORANGE_600)),
            ),
    {
        self.background(rgba(colors::ORANGE_600))
    }

    fn bg_orange_700(self) -> (out: Self)
        ensures
            out@ == written(
                self@,
                set![Prop::Background],
                Value::Color(spec_rgba(colors::ORANGE_700)),
            ),
    {
        self.background(rgba(colors::ORANGE_700))
    }

    fn bg_orange_800(self) -> (out: Self)
        ensures
            out@ == written(
                self@,
                set![Prop::Background],
                Value::Color(spec_rgba(colors::ORANGE_800)),
            ),
    {
        self.background(rgba(colors::ORANGE_800))
    }

    fn bg_orange_900(self) -> (out: Self)
        ensures
            out@ == written(
                self@,
                set![Prop::Background],
                Value::Color(spec_rgba(colors::ORANGE_900)),
            ),
    {
        self.background(rgba(colors::ORANGE_900))
    }

    fn bg_orange_950(self) -> (out: Self)
        ensures
            out@ == written(
                self@,
                set![Prop::Background],
                Value::Color(spec_rgba(colors::ORANGE_950)),
            ),
    {
        self.background(rgba(colors::ORANGE_950))
    }

    fn bg_yellow_50(self) -> (out: Self)
        ensures
            out@ == written(
                self@,
                set![Prop::Background],
                Value::Color(spec_rgba(colors::YELLOW_50)),
            ),
    {
        self.background(rgba(colors::YELLOW_50))
    }

    fn bg_yellow_100(self) -> (out: Self)
        ensures
            out@ == written(
                self@,
                set![Prop::Background],
                Value::Color(spec_rgba(colors::YELLOW_100)),
            ),
    {
        self.background(rgba(colors::YELLOW_100))
    }

    fn bg_yellow_200(self) -> (out: Self)
        ensures
            out@ == written(
                self@,
                set![Prop::Background],
                Value::Color(spec_rgba(colors::YELLOW_200)),
            ),
    {
        self.background(rgba(colors::YELLOW_200))
    }

    fn bg_yellow_300(self) -> (out: Self)
        ensures
            out@ == written(
                self@,
                set![Prop::Background],
                Value::Color(spec_rgba(colors::YELLOW_300)),
            ),
    {
        self.background(rgba(colors::YELLOW_300))
    }

    fn bg_yellow_400(self) -> (out: Self)
        ensures
            out@ == written(
                self@,
                set![Prop::Background],
                Value::Color(spec_rgba(colors::YELLOW_400)),
            ),
    {
        self.background(rgba(colors::YELLOW_400))
    }

    fn bg_yellow_500(self) -> (out: Self)
        ensures
            out@ == written(
                self@,
                set![Prop::Background],
                Value::Color(spec_rgba(colors::YELLOW_500)),
            ),
    {
        self.background(rgba(colors::YELLOW_500))
    }

    fn bg_yellow_600(self) -> (out: Self)
        ensures
            out@ == written(
                self@,
                set![Prop::Background],
                Value::Color(spec_rgba(colors::YELLOW_600)),
            ),
    {
        self.background(rgba(colors::YELLOW_600))
    }

    fn bg_yellow_700(self) -> (out: Self)
        ensures
            out@ == written(
                self@,
                set![Prop::Background],
                Value::Color(spec_rgba(colors::YELLOW_700)),
            ),
    {
        self.background(rgba(colors::YELLOW_700))
    }

    fn bg_yellow_800(self) -> (out: Self)
        ensures
            out@ == written(
                self@,
                set![Prop::Background],
                Value::Color(spec_rgba(colors::YELLOW_800)),
            ),
    {
        self.background(rgba(colors::YELLOW_800))
    }

    fn bg_yellow_900(self) -> (out: Self)
        ensures
            out@ == written(
                self@,
                set![Prop::Background],
                Value::Color(spec_rgba(colors::YELLOW_900)),
            ),
    {
        self.background(rgba(colors::YELLOW_900))
    }

    fn bg_yellow_950(self) -> (out: Self)
        ensures
            out@ == written(
                self@,
                set![Prop::Background],
                Value::Color(spec_rgba(colors::YELLOW_950)),
            ),
    {
        self.background(rgba(colors::YELLOW_950))
    }

    fn bg_green_50(self) -> (out: Self)
        ensures
            out@ == written(
                self@,
                set![Prop::Background],
                Value::Color(spec_rgba(colors::GREEN_50)),
            ),
    {
        self.background(rgba(colors::GREEN_50))
    }

    fn bg_green_100(self) -> (out: Self)
        ensures
            out@ == written(
                self@,
                set![Prop::Background],
                Value::Color(spec_rgba(colors::GREEN_100)),
            ),
    {
        self.background(rgba(colors::GREEN_100))
    }

    fn bg_green_200(self) -> (out: Self)
        ensures
            out@ == written(
                self@,
                set![Prop::Background],
                Value::Color(spec_rgba(colors::GREEN_200)),
            ),
    {
        self.background(rgba(colors::GREEN_200))
    }

    fn bg_green_300(self) -> (out: Self)
        ensures
            out@ == written(
                self@,
                set![Prop::Background],
                Value::Color(spec_rgba(colors::GREEN_300)),
            ),
    {
        self.background(rgba(colors::GREEN_300))
    }

    fn bg_green_400(self) -> (out: Self)
        ensures
            out@ == written(
                self@,
                set![Prop::Background],
                Value::Color(spec_rgba(colors::GREEN_400)),
            ),
    {
        self.background(rgba(colors::GREEN_400))
    }

    fn bg_green_500(self) -> (out: Self)
        ensures
            out@ == written(
                self@,
                set![Prop::Background],
                Value::Color(spec_rgba(colors::GREEN_500)),
            ),
    {
        self.background(rgba(colors::GREEN_500))
    }

    fn bg_green_600(self) -> (out: Self)
        ensures
            out@ == written(
                self@,
                set![Prop::Background],
                Value::Color(spec_rgba(colors::GREEN_600)),
            ),
    {
        self.background(rgba(colors::GREEN_600))
    }

    fn bg_green_700(self) -> (out: Self)
        ensures
            out@ == written(
                self@,
                set![Prop::Background],
                Value::Color(spec_rgba(colors::GREEN_700)),
            ),
    {
        self.background(rgba(colors::GREEN_700))
    }

    fn bg_green_800(self) -> (out: Self)
        ensures
            out@ == written(
                self@,
                set![Prop::Background],
                Value::Color(spec_rgba(colors::GREEN_800)),
            ),
    {
        self.background(rgba(colors::GREEN_800))
    }

    fn bg_green_900(self) -> (out: Self)
        ensures
            out@ == written(
                self@,
                set![Prop::Background],
                Value::Color(spec_rgba(colors::GREEN_900)),
            ),
    {
        self.background(rgba(colors::GREEN_900))
    }

    fn bg_green_950(self) -> (out: Self)
        ensures
            out@ == written(
                self@,
                set![Prop::Background],
                Value::Color(spec_rgba(colors::GREEN_950)),
            ),
    {
        self.background(rgba(colors::GREEN_950))
    }

    fn bg_blue_50(self) -> (out: Self)
        ensures
            out@ == written(
                self@,
                set![Prop::Background],
                Value::Color(spec_rgba(colors::BLUE_50)),
            ),
    {
        self.background(rgba(colors::BLUE_50))
    }

    fn bg_blue_100(self) -> (out: Self)
        ensures
            out@ == written(
                self@,
                set![Prop::Background],
                Value::Color(spec_rgba(colors::BLUE_100)),
            ),
    {
        self.background(rgba(colors::BLUE_100))
    }

    fn bg_blue_200(self) -> (out: Self)
        ensures
            out@ == written(
                self@,
                set![Prop::Background],
                Value::Color(spec_rgba(colors::BLUE_200)),
            ),
    {
        self.background(rgba(colors::BLUE_200))
    }

    fn bg_blue_300(self) -> (out: Self)
        ensures
            out@ == written(
                self@,
                set![Prop::Background],
                Value::Color(spec_rgba(colors::BLUE_300)),
            ),
    {
        self.background(rgba(colors::BLUE_300))
    }

    fn bg_blue_400(self) -> (out: Self)
        ensures
            out@ == written(
                self@,
                set![Prop::Background],
                Value::Color(spec_rgba(colors::BLUE_400)),
            ),
    {
        self.background(rgba(colors::BLUE_400))
    }

    fn bg_blue_500(self) -> (out: Self)
        ensures
            out@ == written(
                self@,
                set![Prop::Background],
                Value::Color(spec_rgba(colors::BLUE_500)),
            ),
    {
        self.background(rgba(colors::BLUE_500))
    }

    fn bg_blue_600(self) -> (out: Self)
        ensures
            out@ == written(
                self@,
                set![Prop::Background],
                Value::Color(spec_rgba(colors::BLUE_600)),
            ),
    {
        self.background(rgba(colors::BLUE_600))
    }

    fn bg_blue_700(self) -> (out: Self)
        ensures
            out@ == written(
                self@,
                set![Prop::Background],
                Value::Color(spec_rgba(colors::BLUE_700)),
            ),
    {
        self.background(rgba(colors::BLUE_700))
    }

    fn bg_blue_800(self) -> (out: Self)
        ensures
            out@ == written(
                self@,
                set![Prop::Background],
                Value::Color(spec_rgba(colors::BLUE_800)),
            ),
    {
        self.background(rgba(colors::BLUE_800))
    }

    fn bg_blue_900(self) -> (out: Self)
        ensures
            out@ == written(
                self@,
                set![Prop::Background],
                Value::Color(spec_rgba(colors::BLUE_900)),
            ),
    {
        self.background(rgba(colors::BLUE_900))
    }

    fn bg_blue_950(self) -> (out: Self)
        ensures
            out@ == written(
                self@,
                set![Prop::Background],
                Value::Color(spec_rgba(colors::BLUE_950)),
            ),
    {
        self.background(rgba(colors::BLUE_950))
    }

    fn bg_indigo_50(self) -> (out: Self)
        ensures
            out@ == written(
                self@,
                set![Prop::Background],
                Value::Color(spec_rgba(colors::INDIGO_50)),
            ),
    {
        self.background(rgba(colors::INDIGO_50))
    }

    fn bg_indigo_100(self) -> (out: Self)
        ensures
            out@ == written(
                self@,
                set![Prop::Background],
                Value::Color(spec_rgba(colors::INDIGO_100)),
            ),
    {
        self.background(rgba(colors::INDIGO_100))
    }

    fn bg_indigo_200(self) -> (out: Self)
        ensures
            out@ == written(
                self@,
                set![Prop::Background],
                Value::Color(spec_rgba(colors::INDIGO_200)),
            ),
    {
        self.background(rgba(colors::INDIGO_200))
    }

    fn bg_indigo_300(self) -> (out: Self)
        ensures
            out@ == written(
                self@,
                set![Prop::Background],
                Value::Color(spec_rgba(colors::INDIGO_300)),
            ),
    {
        self.background(rgba(colors::INDIGO_300))
    }

    fn bg_indigo_400(self) -> (out: Self)
        ensures
            out@ == written(
                self@,
                set![Prop::Background],
                Value::Color(spec_rgba(colors::INDIGO_400)),
            ),
    {
        self.background(rgba(colors::INDIGO_400))
    }

    fn bg_indigo_500(self) -> (out: Self)
        ensures
            out@ == written(
                self@,
                set![Prop::Background],
                Value::Color(spec_rgba(colors::INDIGO_500)),
            ),
    {
        self.background(rgba(colors::INDIGO_500))
    }

    fn bg_indigo_600(self) -> (out: Self)
        ensures
            out@ == written(
                self@,
                set![Prop::Background],
                Value::Color(spec_rgba(colors::INDIGO_600)),
            ),
    {
        self.background(rgba(colors::INDIGO_600))
    }

    fn bg_indigo_700(self) -> (out: Self)
        ensures
            out@ == written(
                self@,
                set![Prop::Background],
                Value::Color(spec_rgba(colors::INDIGO_700)),
            ),
    {
        self.background(rgba(colors::INDIGO_700))
    }

    fn bg_indigo_800(self) -> (out: Self)
        ensures
            out@ == written(
                self@,
                set![Prop::Background],
                Value::Color(spec_rgba(colors::INDIGO_800)),
            ),
    {
        self.background(rgba(colors::INDIGO_800))
    }

    fn bg_indigo_900(self) -> (out: Self)
        ensures
            out@ == written(
                self@,
                set![Prop::Background],
                Value::Color(spec_rgba(colors::INDIGO_900)),
            ),
    {
        self.background(rgba(colors::INDIGO_900))
    }

    fn bg_indigo_950(self) -> (out: Self)
        ensures
            out@ == written(
                self@,
                set![Prop::Background],
                Value::Color(spec_rgba(colors::INDIGO_950)),
            ),
    {
        self.background(rgba(colors::INDIGO_950))
    }

    fn bg_purple_50(self) -> (out: Self)
        ensures
            out@ == written(
                self@,
                set![Prop::Background],
                Value::Color(spec_rgba(colors::PURPLE_50)),
            ),
    {
        self.background(rgba(colors::PURPLE_50))
    }

    fn bg_purple_100(self) -> (out: Self)
        ensures
            out@ == written(
                self@,
                set![Prop::Background],
                Value::Color(spec_rgba(colors::PURPLE_100)),
            ),
    {
        self.background(rgba(colors::PURPLE_100))
    }

    fn bg_purple_200(self) -> (out: Self)
        ensures
            out@ == written(
                self@,
                set![Prop::Background],
                Value::Color(spec_rgba(colors::PURPLE_200)),
            ),
    {
        self.background(rgba(colors::PURPLE_200))
    }

    fn bg_purple_300(self) -> (out: Self)
        ensures
            out@ == written(
                self@,
                set![Prop::Background],
                Value::Color(spec_rgba(colors::PURPLE_300)),
            ),
    {
        self.background(rgba(colors::PURPLE_300))
    }

    fn bg_purple_400(self) -> (out: Self)
        ensures
            out@ == written(
                self@,
                set![Prop::Background],
                Value::Color(spec_rgba(colors::PURPLE_400)),
            ),
    {
        self.background(rgba(colors::PURPLE_400))
    }

    fn bg_purple_500(self) -> (out: Self)
        ensures
            out@ == written(
                self@,
                set![Prop::Background],
                Value::Color(spec_rgba(colors::PURPLE_500)),
            ),
    {
        self.background(rgba(colors::PURPLE_500))
    }

    fn bg_purple_600(self) -> (out: Self)
        ensures
            out@ == written(
                self@,
                set![Prop::Background],
                Value::Color(spec_rgba(colors::PURPLE_600)),
            ),
    {
        self.background(rgba(colors::PURPLE_600))
    }

    fn bg_purple_700(self) -> (out: Self)
        ensures
            out@ == written(
                self@,
                set![Prop::Background],
                Value::Color(spec_rgba(colors::PURPLE_700)),
            ),
    {
        self.background(rgba(colors::PURPLE_700))
    }

    fn bg_purple_800(self) -> (out: Self)
        ensures
            out@ == written(
                self@,
                set![Prop::Background],
                Value::Color(spec_rgba(colors::PURPLE_800)),
            ),
    {
        self.background(rgba(colors::PURPLE_800))
    }

    fn bg_purple_900(self) -> (out: Self)
        ensures
            out@ == written(
                self@,
                set![Prop::Background],
                Value::Color(spec_rgba(colors::PURPLE_900)),
            ),
    {
        self.background(rgba(colors::PURPLE_900))
    }

    fn bg_purple_950(self) -> (out: Self)
        ensures
            out@ == written(
                self@,
                set![Prop::Background],
                Value::Color(spec_rgba(colors::PURPLE_950)),
            ),
    {
        self.background(rgba(colors::PURPLE_950))
    }

    fn bg_pink_50(self) -> (out: Self)
        ensures
            out@ == written(
                self@,
                set![Prop::Background],
                Value::Color(spec_rgba(colors::PINK_50)),
            ),
    {
        self.background(rgba(colors::PINK_50))
    }

    fn bg_pink_100(self) -> (out: Self)
        ensures
            out@ == written(
                self@,
                set![Prop::Background],
                Value::Color(spec_rgba(colors::PINK_100)),
            ),
    {
        self.background(rgba(colors::PINK_100))
    }

    fn bg_pink_200(self) -> (out: Self)
        ensures
            out@ == written(
                self@,
                set![Prop::Background],
                Value::Color(spec_rgba(colors::PINK_200)),
            ),
    {
        self.background(rgba(colors::PINK_200))
    }

    fn bg_pink_300(self) -> (out: Self)
        ensures
            out@ == written(
                self@,
                set![Prop::Background],
                Value::Color(spec_rgba(colors::PINK_300)),
            ),
    {
        self.background(rgba(colors::PINK_300))
    }

    fn bg_pink_400(self) -> (out: Self)
        ensures
            out@ == written(
                self@,
                set![Prop::Background],
                Value::Color(spec_rgba(colors::PINK_400)),
            ),
    {
        self.background(rgba(colors::PINK_400))
    }

    fn bg_pink_500(self) -> (out: Self)
        ensures
            out@ == written(
                self@,
                set![Prop::Background],
                Value::Color(spec_rgba(colors::PINK_500)),
            ),
    {
        self.background(rgba(colors::PINK_500))
    }

    fn bg_pink_600(self) -> (out: Self)
        ensures
            out@ == written(
                self@,
                set![Prop::Background],
                Value::Color(spec_rgba(colors::PINK_600)),
            ),
    {
        self.background(rgba(colors::PINK_600))
    }

    fn bg_pink_700(self) -> (out: Self)
        ensures
            out@ == written(
                self@,
                set![Prop::Background],
                Value::Color(spec_rgba(colors::PINK_700)),
            ),
    {
        self.background(rgba(colors::PINK_700))
    }

    fn bg_pink_800(self) -> (out: Self)
        ensures
            out@ == written(
                self@,
                set![Prop::Background],
                Value::Color(spec_rgba(colors::PINK_800)),
            ),
    {
        self.background(rgba(colors::PINK_800))
    }

    fn bg_pink_900(self) -> (out: Self)
        ensures
            out@ == written(
                self@,
                set![Prop::Background],
                Value::Color(spec_rgba(colors::PINK_900)),
            ),
    {
        self.background(rgba(colors::PINK_900))
    }

    fn bg_pink_950(self) -> (out: Self)
        ensures
            out@ == written(
                self@,
                set![Prop::Background],
                Value::Color(spec_rgba(colors::PINK_950)),
            ),
    {
        self.background(rgba(colors::PINK_950))
    }

    // Text colour.
    fn text(self, color: Color) -> (out: Self)
        ensures
            out@ == written(self@, set![Prop::TextColor], Value::Color(color)),
    {
        self.color(color)
    }

    fn text_transparent(self) -> (out: Self)
        ensures
            out@ == written(
                self@,
                set![Prop::TextColor],
                Value::Color(spec_rgba(colors::TRANSPARENT)),
            ),
    {
        self.color(rgba(colors::TRANSPARENT))
    }

    fn text_black(self) -> (out: Self)
        ensures
            out@ == written(self@, set![Prop::TextColor], Value::Color(spec_rgba(colors::BLACK))),
    {
        self.color(rgba(colors::BLACK))
    }

    fn text_white(self) -> (out: Self)
        ensures
            out@ == written(self@, set![Prop::TextColor], Value::Color(spec_rgba(colors::WHITE))),
    {
        self.color(rgba(colors::WHITE))
    }

    fn text_slate_50(self) -> (out: Self)
        ensures
            out@ == written(
                self@,
                set![Prop::TextColor],
                Value::Color(spec_rgba(colors::SLATE_50)),
            ),
    {
        self.color(rgba(colors::SLATE_50))
    }

    fn text_slate_100(self) -> (out: Self)
        ensures
            out@ == written(
                self@,
                set![Prop::TextColor],
                Value::Color(spec_rgba(colors::SLATE_100)),
            ),
    {
        self.color(rgba(colors::SLATE_100))
    }

    fn text_slate_200(self) -> (out: Self)
        ensures
            out@ == written(
                self@,
                set![Prop::TextColor],
                Value::Color(spec_rgba(colors::SLATE_200)),
            ),
    {
        self.color(rgba(colors::SLATE_200))
    }

    fn text_slate_300(self) -> (out: Self)
        ensures
            out@ == written(
                self@,
                set![Prop::TextColor],
                Value::Color(spec_rgba(colors::SLATE_300)),
            ),
    {
        self.color(rgba(colors::SLATE_300))
    }

    fn text_slate_400(self) -> (out: Self)
        ensures
            out@ == written(
                self@,
                set![Prop::TextColor],
                Value::Color(spec_rgba(colors::SLATE_400)),
            ),
    {
        self.color(rgba(colors::SLATE_400))
    }

    fn text_slate_500(self) -> (out: Self)
        ensures
            out@ == written(
                self@,
                set![Prop::TextColor],
                Value::Color(spec_rgba(colors::SLATE_500)),
            ),
    {
        self.color(rgba(colors::SLATE_500))
    }

    fn text_slate_600(self) -> (out: Self)
        ensures
            out@ == written(
                self@,
                set![Prop::TextColor],
                Value::Color(spec_rgba(colors::SLATE_600)),
            ),
    {
        self.color(rgba(colors::SLATE_600))
    }

    fn text_slate_700(self) -> (out: Self)
        ensures
            out@ == written(
                self@,
                set![Prop::TextColor],
                Value::Color(spec_rgba(colors::SLATE_700)),
            ),
    {
        self.color(rgba(colors::SLATE_700))
    }

    fn text_slate_800(self) -> (out: Self)
        ensures
            out@ == written(
                self@,
                set![Prop::TextColor],
                Value::Color(spec_rgba(colors::SLATE_800)),
            ),
    {
        self.color(rgba(colors::SLATE_800))
    }

    fn text_slate_900(self) -> (out: Self)
        ensures
            out@ == written(
                self@,
                set![Prop::TextColor],
                Value::Color(spec_rgba(colors::SLATE_900)),
            ),
    {
        self.color(rgba(colors::SLATE_900))
    }

    fn text_slate_950(self) -> (out: Self)
        ensures
            out@ == written(
                self@,
                set![Prop::TextColor],
                Value::Color(spec_rgba(colors::SLATE_950)),
            ),
    {
        self.color(rgba(colors::SLATE_950))
    }

    fn text_gray_50(self) -> (out: Self)
        ensures
            out@ == written(self@, set![Prop::TextColor], Value::Color(spec_rgba(colors::GRAY_50))),
    {
        self.color(rgba(colors::GRAY_50))
    }

    fn text_gray_100(self) -> (out: Self)
        ensures
            out@ == written(
                self@,
                set![Prop::TextColor],
                Value::Color(spec_rgba(colors::GRAY_100)),
            ),
    {
        self.color(rgba(colors::GRAY_100))
    }

    fn text_gray_200(self) -> (out: Self)
        ensures
            out@ == written(
                self@,
                set![Prop::TextColor],
                Value::Color(spec_rgba(colors::GRAY_200)),
            ),
    {
        self.color(rgba(colors::GRAY_200))
    }

    fn text_gray_300(self) -> (out: Self)
        ensures
            out@ == written(
                self@,
                set![Prop::TextColor],
                Value::Color(spec_rgba(colors::GRAY_300)),
            ),
    {
        self.color(rgba(colors::GRAY_300))
    }

    fn text_gray_400(self) -> (out: Self)
        ensures
            out@ == written(
                self@,
                set![Prop::TextColor],
                Value::Color(spec_rgba(colors::GRAY_400)),
            ),
    {
        self.color(rgba(colors::GRAY_400))
    }

    fn text_gray_500(self) -> (out: Self)
        ensures
            out@ == written(
                self@,
                set![Prop::TextColor],
                Value::Color(spec_rgba(colors::GRAY_500)),
            ),
    {
        self.color(rgba(colors::GRAY_500))
    }

    fn text_gray_600(self) -> (out: Self)
        ensures
            out@ == written(
                self@,
                set![Prop::TextColor],
                Value::Color(spec_rgba(colors::GRAY_600)),
            ),
    {
        self.color(rgba(colors::GRAY_600))
    }

    fn text_gray_700(self) -> (out: Self)
        ensures
            out@ == written(
                self@,
                set![Prop::TextColor],
                Value::Color(spec_rgba(colors::GRAY_700)),
            ),
    {
        self.color(rgba(colors::GRAY_700))
    }

    fn text_gray_800(self) -> (out: Self)
        ensures
            out@ == written(
                self@,
                set![Prop::TextColor],
                Value::Color(spec_rgba(colors::GRAY_800)),
            ),
    {
        self.color(rgba(colors::GRAY_800))
    }

    fn text_gray_900(self) -> (out: Self)
        ensures
            out@ == written(
                self@,
                set![Prop::TextColor],
                Value::Color(spec_rgba(colors::GRAY_900)),
            ),
    {
        self.color(rgba(colors::GRAY_900))
    }

    fn text_gray_950(self) -> (out: Self)
        ensures
            out@ == written(
                self@,
                set![Prop::TextColor],
                Value::Color(spec_rgba(colors::GRAY_950)),
            ),
    {
        self.color(rgba(colors::GRAY_950))
    }

    fn text_red_50(self) -> (out: Self)
        ensures
            out@ == written(self@, set![Prop::TextColor], Value::Color(spec_rgba(colors::RED_50))),
    {
        self.color(rgba(colors::RED_50))
    }

    fn text_red_100(self) -> (out: Self)
        ensures
            out@ == written(self@, set![Prop::TextColor], Value::Color(spec_rgba(colors::RED_100))),
    {
        self.color(rgba(colors::RED_100))
    }

    fn text_red_200(self) -> (out: Self)
        ensures
            out@ == written(self@, set![Prop::TextColor], Value::Color(spec_rgba(colors::RED_200))),
    {
        self.color(rgba(colors::RED_200))
    }

    fn text_red_300(self) -> (out: Self)
        ensures
            out@ == written(self@, set![Prop::TextColor], Value::Color(spec_rgba(colors::RED_300))),
    {
        self.color(rgba(colors::RED_300))
    }

    fn text_red_400(self) -> (out: Self)
        ensures
            out@ == written(self@, set![Prop::TextColor], Value::Color(spec_rgba(colors::RED_400))),
    {
        self.color(rgba(colors::RED_400))
    }

    fn text_red_500(self) -> (out: Self)
        ensures
            out@ == written(self@, set![Prop::TextColor], Value::Color(spec_rgba(colors::RED_500))),
    {
        self.color(rgba(colors::RED_500))
    }

    fn text_red_600(self) -> (out: Self)
        ensures
            out@ == written(self@, set![Prop::TextColor], Value::Color(spec_rgba(colors::RED_600))),
    {
        self.color(rgba(colors::RED_600))
    }

    fn text_red_700(self) -> (out: Self)
        ensures
            out@ == written(self@, set![Prop::TextColor], Value::Color(spec_rgba(colors::RED_700))),
    {
        self.color(rgba(colors::RED_700))
    }

    fn text_red_800(self) -> (out: Self)
        ensures
            out@ == written(self@, set![Prop::TextColor], Value::Color(spec_rgba(colors::RED_800))),
    {
        self.color(rgba(colors::RED_800))
    }

    fn text_red_900(self) -> (out: Self)
        ensures
            out@ == written(self@, set![Prop::TextColor], Value::Color(spec_rgba(colors::RED_900))),
    {
        self.color(rgba(colors::RED_900))
    }

    fn text_red_950(self) -> (out: Self)
        ensures
            out@ == written(self@, set![Prop::TextColor], Value::Color(spec_rgba(colors::RED_950))),
    {
        self.color(rgba(colors::RED_950))
    }

    fn text_green_50(self) -> (out: Self)
        ensures
            out@ == written(
                self@,
                set![Prop::TextColor],
                Value::Color(spec_rgba(colors::GREEN_50)),
            ),
    {
        self.color(rgba(colors::GREEN_50))
    }

    fn text_green_100(self) -> (out: Self)
        ensures
            out@ == written(
                self@,
                set![Prop::TextColor],
                Value::Color(spec_rgba(colors::GREEN_100)),
            ),
    {
        self.color(rgba(colors::GREEN_100))
    }

    fn text_green_200(self) -> (out: Self)
        ensures
            out@ == written(
                self@,
                set![Prop::TextColor],
                Value::Color(spec_rgba(colors::GREEN_200)),
            ),
    {
        self.color(rgba(colors::GREEN_200))
    }

    fn text_green_300(self) -> (out: Self)
        ensures
            out@ == written(
                self@,
                set![Prop::TextColor],
                Value::Color(spec_rgba(colors::GREEN_300)),
            ),
    {
        self.color(rgba(colors::GREEN_300))
    }

    fn text_green_400(self) -> (out: Self)
        ensures
            out@ == written(
                self@,
                set![Prop::TextColor],
                Value::Color(spec_rgba(colors::GREEN_400)),
            ),
    {
        self.color(rgba(colors::GREEN_400))
    }

    fn text_green_500(self) -> (out: Self)
        ensures
            out@ == written(
                self@,
                set![Prop::TextColor],
                Value::Color(spec_rgba(colors::GREEN_500)),
            ),
    {
        self.color(rgba(colors::GREEN_500))
    }

    fn text_green_600(self) -> (out: Self)
        ensures
            out@ == written(
                self@,
                set![Prop::TextColor],
                Value::Color(spec_rgba(colors::GREEN_600)),
            ),
    {
        self.color(rgba(colors::GREEN_600))
    }

    fn text_green_700(self) -> (out: Self)
        ensures
            out@ == written(
                self@,
                set![Prop::TextColor],
                Value::Color(spec_rgba(colors::GREEN_700)),
            ),
    {
        self.color(rgba(colors::GREEN_700))
    }

    fn text_green_800(self) -> (out: Self)
        ensures
            out@ == written(
                self@,
                set![Prop::TextColor],
                Value::Color(spec_rgba(colors::GREEN_800)),
            ),
    {
        self.color(rgba(colors::GREEN_800))
    }

    fn text_green_900(self) -> (out: Self)
        ensures
            out@ == written(
                self@,
                set![Prop::TextColor],
                Value::Color(spec_rgba(colors::GREEN_900)),
            ),
    {
        self.color(rgba(colors::GREEN_900))
    }

    fn text_green_950(self) -> (out: Self)
        ensures
            out@ == written(
                self@,
                set![Prop::TextColor],
                Value::Color(spec_rgba(colors::GREEN_950)),
            ),
    {
        self.color(rgba(colors::GREEN_950))
    }

    fn text_blue_50(self) -> (out: Self)
        ensures
            out@ == written(self@, set![Prop::TextColor], Value::Color(spec_rgba(colors::BLUE_50))),
    {
        self.color(rgba(colors::BLUE_50))
    }

    fn text_blue_100(self) -> (out: Self)
        ensures
            out@ == written(
                self@,
                set![Prop::TextColor],
                Value::Color(spec_rgba(colors::BLUE_100)),
            ),
    {
        self.color(rgba(colors::BLUE_100))
    }

    fn text_blue_200(self) -> (out: Self)
        ensures
            out@ == written(
                self@,
                set![Prop::TextColor],
                Value::Color(spec_rgba(colors::BLUE_200)),
            ),
    {
        self.color(rgba(colors::BLUE_200))
    }

    fn text_blue_300(self) -> (out: Self)
        ensures
            out@ == written(
                self@,
                set![Prop::TextColor],
                Value::Color(spec_rgba(colors::BLUE_300)),
            ),
    {
        self.color(rgba(colors::BLUE_300))
    }

    fn text_blue_400(self) -> (out: Self)
        ensures
            out@ == written(
                self@,
                set![Prop::TextColor],
                Value::Color(spec_rgba(colors::BLUE_400)),
            ),
    {
        self.color(rgba(colors::BLUE_400))
    }

    fn text_blue_500(self) -> (out: Self)
        ensures
            out@ == written(
                self@,
                set![Prop::TextColor],
                Value::Color(spec_rgba(colors::BLUE_500)),
            ),
    {
        self.color(rgba(colors::BLUE_500))
    }

    fn text_blue_600(self) -> (out: Self)
        ensures
            out@ == written(
                self@,
                set![Prop::TextColor],
                Value::Color(spec_rgba(colors::BLUE_600)),
            ),
    {
        self.color(rgba(colors::BLUE_600))
    }

    fn text_blue_700(self) -> (out: Self)
        ensures
            out@ == written(
                self@,
                set![Prop::TextColor],
                Value::Color(spec_rgba(colors::BLUE_700)),
            ),
    {
        self.color(rgba(colors::BLUE_700))
    }

    fn text_blue_800(self) -> (out: Self)
        ensures
            out@ == written(
                self@,
                set![Prop::TextColor],
                Value::Color(spec_rgba(colors::BLUE_800)),
            ),
    {
        self.color(rgba(colors::BLUE_800))
    }

    fn text_blue_900(self) -> (out: Self)
        ensures
            out@ == written(
                self@,
                set![Prop::TextColor],
                Value::Color(spec_rgba(colors::BLUE_900)),
            ),
    {
        self.color(rgba(colors::BLUE_900))
    }

    fn text_blue_950(self) -> (out: Self)
        ensures
            out@ == written(
                self@,
                set![Prop::TextColor],
                Value::Color(spec_rgba(colors::BLUE_950)),
            ),
    {
        self.color(rgba(colors::BLUE_950))
    }

    // Font size.
    fn text_xs(self) -> (out: Self)
        ensures
            out@ == written(self@, set![Prop::FontSize], Value::Px(font_size::TEXT_XS)),
    {
        self.font_size(font_size::TEXT_XS)
    }

    fn text_sm(self) -> (out: Self)
        ensures
            out@ == written(self@, set![Prop::FontSize], Value::Px(font_size::TEXT_SM)),
    {
        self.font_size(font_size::TEXT_SM)
    }

    fn text_base(self) -> (out: Self)
        ensures
            out@ == written(self@, set![Prop::FontSize], Value::Px(font_size::TEXT_BASE)),
    {
        self.font_size(font_size::TEXT_BASE)
    }

    fn text_lg(self) -> (out: Self)
        ensures
            out@ == written(self@, set![Prop::FontSize], Value::Px(font_size::TEXT_LG)),
    {
        self.font_size(font_size::TEXT_LG)
    }

    fn text_xl(self) -> (out: Self)
        ensures
            out@ == written(self@, set![Prop::FontSize], Value::Px(font_size::TEXT_XL)),
    {
        self.font_size(font_size::TEXT_XL)
    }

    fn text_2xl(self) -> (out: Self)
        ensures
            out@ == written(self@, set![Prop::FontSize], Value::Px(font_size::TEXT_2XL)),
    {
        self.font_size(font_size::TEXT_2XL)
    }

    fn text_3xl(self) -> (out: Self)
        ensures
            out@ == written(self@, set![Prop::FontSize], Value::Px(font_size::TEXT_3XL)),
    {
        self.font_size(font_size::TEXT_3XL)
    }

    fn text_4xl(self) -> (out: Self)
        ensures
            out@ == written(self@, set![Prop::FontSize], Value::Px(font_size::TEXT_4XL)),
    {
        self.font_size(font_size::TEXT_4XL)
    }

    fn text_5xl(self) -> (out: Self)
        ensures
            out@ == written(self@, set![Prop::FontSize], Value::Px(font_size::TEXT_5XL)),
    {
        self.font_size(font_size::TEXT_5XL)
    }

    fn text_6xl(self) -> (out: Self)
        ensures
            out@ == written(self@, set![Prop::FontSize], Value::Px(font_size::TEXT_6XL)),
    {
        self.font_size(font_size::TEXT_6XL)
    }

    fn text_7xl(self) -> (out: Self)
        ensures
            out@ == written(self@, set![Prop::FontSize], Value::Px(font_size::TEXT_7XL)),
    {
        self.font_size(font_size::TEXT_7XL)
    }

    fn text_8xl(self) -> (out: Self)
        ensures
            out@ == written(self@, set![Prop::FontSize], Value::Px(font_size::TEXT_8XL)),
    {
        self.font_size(font_size::TEXT_8XL)
    }

    fn text_9xl(self) -> (out: Self)
        ensures
            out@ == written(self@, set![Prop::FontSize], Value::Px(font_size::TEXT_9XL)),
    {
        self.font_size(font_size::TEXT_9XL)
    }

    // Font weight.
    fn font_thin(self) -> (out: Self)
        ensures
            out@ == written(self@, set![Prop::FontWeight], Value::Weight(font_weight::THIN)),
    {
        self.font_weight(font_weight::THIN)
    }

    fn font_extralight(self) -> (out: Self)
        ensures
            out@ == written(self@, set![Prop::FontWeight], Value::Weight(font_weight::EXTRALIGHT)),
    {
        self.font_weight(font_weight::EXTRALIGHT)
    }

    fn font_light(self) -> (out: Self)
        ensures
            out@ == written(self@, set![Prop::FontWeight], Value::Weight(font_weight::LIGHT)),
    {
        self.font_weight(font_weight::LIGHT)
    }

    fn font_normal(self) -> (out: Self)
        ensures
            out@ == written(self@, set![Prop::FontWeight], Value::Weight(font_weight::NORMAL)),
    {
        self.font_weight(font_weight::NORMAL)
    }

    fn font_medium(self) -> (out: Self)
        ensures
            out@ == written(self@, set![Prop::FontWeight], Value::Weight(font_weight::MEDIUM)),
    {
        self.font_weight(font_weight::MEDIUM)
    }

    fn font_semibold(self) -> (out: Self)
        ensures
            out@ == written(self@, set![Prop::FontWeight], Value::Weight(font_weight::SEMIBOLD)),
    {
        self.font_weight(font_weight::SEMIBOLD)
    }

    fn font_bold(self) -> (out: Self)
        ensures
            out@ == written(self@, set![Prop::FontWeight], Value::Weight(font_weight::BOLD)),
    {
        self.font_weight(font_weight::BOLD)
    }

    fn font_extrabold(self) -> (out: Self)
        ensures
            out@ == written(self@, set![Prop::FontWeight], Value::Weight(font_weight::EXTRABOLD)),
    {
        self.font_weight(font_weight::EXTRABOLD)
    }

    fn font_black(self) -> (out: Self)
        ensures
            out@ == written(self@, set![Prop::FontWeight], Value::Weight(font_weight::BLACK)),
    {
        self.font_weight(font_weight::BLACK)
    }

    // Line height.
    fn leading_none(self) -> (out: Self)
        ensures
            out@ == written(self@, set![Prop::LineHeight], Value::Scale(line_height::LEADING_NONE)),
    {
        self.line_height(line_height::LEADING_NONE)
    }

    fn leading_tight(self) -> (out: Self)
        ensures
            out@ == written(
                self@,
                set![Prop::LineHeight],
                Value::Scale(line_height::LEADING_TIGHT),
            ),
    {
        self.line_height(line_height::LEADING_TIGHT)
    }

    fn leading_snug(self) -> (out: Self)
        ensures
            out@ == written(self@, set![Prop::LineHeight], Value::Scale(line_height::LEADING_SNUG)),
    {
        self.line_height(line_height::LEADING_SNUG)
    }

    fn leading_normal(self) -> (out: Self)
        ensures
            out@ == written(
                self@,
                set![Prop::LineHeight],
                Value::Scale(line_height::LEADING_NORMAL),
            ),
    {
        self.line_height(line_height::LEADING_NORMAL)
    }

    fn leading_relaxed(self) -> (out: Self)
        ensures
            out@ == written(
                self@,
                set![Prop::LineHeight],
                Value::Scale(line_height::LEADING_RELAXED),
            ),
    {
        self.line_height(line_height::LEADING_RELAXED)
    }

    fn leading_loose(self) -> (out: Self)
        ensures
            out@ == written(
                self@,
                set![Prop::LineHeight],
                Value::Scale(line_height::LEADING_LOOSE),
            ),
    {
        self.line_height(line_height::LEADING_LOOSE)
    }

    // Layout mode.
    fn flex(self) -> (out: Self)
        ensures
            out@ == written(self@, set![Prop::Display], Value::Display(Display::Flex)),
    {
        self.display(Display::Flex)
    }

    fn block(self) -> (out: Self)
        ensures
            out@ == written(self@, set![Prop::Display], Value::Display(Display::Block)),
    {
        self.display(Display::Block)
    }

    fn grid(self) -> (out: Self)
        ensures
            out@ == written(self@, set![Prop::Display], Value::Display(Display::Grid)),
    {
        self.display(Display::Grid)
    }

    fn hidden(self) -> (out: Self)
        ensures
            out@ == written(self@, set![Prop::Display], Value::Display(Display::Hidden)),
    {
        self.display(Display::Hidden)
    }

    // Flex axis.
    fn flex_row(self) -> (out: Self)
        ensures
            out@ == written(
                self@,
                set![Prop::FlexDirection],
                Value::FlexDirection(FlexDirection::Row),
            ),
    {
        self.flex_direction(FlexDirection::Row)
    }

    fn flex_col(self) -> (out: Self)
        ensures
            out@ == written(
                self@,
                set![Prop::FlexDirection],
                Value::FlexDirection(FlexDirection::Column),
            ),
    {
        self.flex_direction(FlexDirection::Column)
    }

    fn flex_row_reverse(self) -> (out: Self)
        ensures
            out@ == written(
                self@,
                set![Prop::FlexDirection],
                Value::FlexDirection(FlexDirection::RowReverse),
            ),
    {
        self.flex_direction(FlexDirection::RowReverse)
    }

    fn flex_col_reverse(self) -> (out: Self)
        ensures
            out@ == written(
                self@,
                set![Prop::FlexDirection],
                Value::FlexDirection(FlexDirection::ColumnReverse),
            ),
    {
        self.flex_direction(FlexDirection::ColumnReverse)
    }

    // Flex wrapping.
    fn wrap(self) -> (out: Self)
        ensures
            out@ == written(self@, set![Prop::FlexWrap], Value::FlexWrap(FlexWrap::Wrap)),
    {
        self.flex_wrap(FlexWrap::Wrap)
    }

    fn nowrap(self) -> (out: Self)
        ensures
            out@ == written(self@, set![Prop::FlexWrap], Value::FlexWrap(FlexWrap::NoWrap)),
    {
        self.flex_wrap(FlexWrap::NoWrap)
    }

    fn wrap_reverse(self) -> (out: Self)
        ensures
            out@ == written(self@, set![Prop::FlexWrap], Value::FlexWrap(FlexWrap::WrapReverse)),
    {
        self.flex_wrap(FlexWrap::WrapReverse)
    }

    // Pointer.
    fn cursor_pointer(self) -> (out: Self)
        ensures
            out@ == written(self@, set![Prop::Cursor], Value::Cursor(CursorStyle::Pointer)),
    {
        self.cursor(CursorStyle::Pointer)
    }

    fn cursor_default(self) -> (out: Self)
        ensures
            out@ == written(self@, set![Prop::Cursor], Value::Cursor(CursorStyle::Default)),
    {
        self.cursor(CursorStyle::Default)
    }

    fn cursor_text(self) -> (out: Self)
        ensures
            out@ == written(self@, set![Prop::Cursor], Value::Cursor(CursorStyle::Text)),
    {
        self.cursor(CursorStyle::Text)
    }

    fn cursor_move(self) -> (out: Self)
        ensures
            out@ == written(self@, set![Prop::Cursor], Value::Cursor(CursorStyle::Move)),
    {
        self.cursor(CursorStyle::Move)
    }

    fn cursor_grab(self) -> (out: Self)
        ensures
            out@ == written(self@, set![Prop::Cursor], Value::Cursor(CursorStyle::Grab)),
    {
        self.cursor(CursorStyle::Grab)
    }

    fn cursor_grabbing(self) -> (out: Self)
        ensures
            out@ == written(self@, set![Prop::Cursor], Value::Cursor(CursorStyle::Grabbing)),
    {
        self.cursor(CursorStyle::Grabbing)
    }

    // Border colour.
    fn border_transparent(self) -> (out: Self)
        ensures
            out@ == written(
                self@,
                set![Prop::BorderColor],
                Value::Color(spec_rgba(colors::TRANSPARENT)),
            ),
    {
        self.border_color(rgba(colors::TRANSPARENT))
    }

    fn border_black(self) -> (out: Self)
        ensures
            out@ == written(self@, set![Prop::BorderColor], Value::Color(spec_rgba(colors::BLACK))),
    {
        self.border_color(rgba(colors::BLACK))
    }

    fn border_white(self) -> (out: Self)
        ensures
            out@ == written(self@, set![Prop::BorderColor], Value::Color(spec_rgba(colors::WHITE))),
    {
        self.border_color(rgba(colors::WHITE))
    }

    fn border_gray_200(self) -> (out: Self)
        ensures
            out@ == written(
                self@,
                set![Prop::BorderColor],
                Value::Color(spec_rgba(colors::GRAY_200)),
            ),
    {
        self.border_color(rgba(colors::GRAY_200))
    }

    fn border_gray_300(self) -> (out: Self)
        ensures
            out@ == written(
                self@,
                set![Prop::BorderColor],
                Value::Color(spec_rgba(colors::GRAY_300)),
            ),
    {
        self.border_color(rgba(colors::GRAY_300))
    }

    fn border_gray_400(self) -> (out: Self)
        ensures
            out@ == written(
                self@,
                set![Prop::BorderColor],
                Value::Color(spec_rgba(colors::GRAY_400)),
            ),
    {
        self.border_color(rgba(colors::GRAY_400))
    }

    fn border_gray_500(self) -> (out: Self)
        ensures
            out@ == written(
                self@,
                set![Prop::BorderColor],
                Value::Color(spec_rgba(colors::GRAY_500)),
            ),
    {
        self.border_color(rgba(colors::GRAY_500))
    }

    fn border_gray_600(self) -> (out: Self)
        ensures
            out@ == written(
                self@,
                set![Prop::BorderColor],
                Value::Color(spec_rgba(colors::GRAY_600)),
            ),
    {
        self.border_color(rgba(colors::GRAY_600))
    }

    fn border_red_500(self) -> (out: Self)
        ensures
            out@ == written(
                self@,
                set![Prop::BorderColor],
                Value::Color(spec_rgba(colors::RED_500)),
            ),
    {
        self.border_color(rgba(colors::RED_500))
    }

    fn border_blue_500(self) -> (out: Self)
        ensures
            out@ == written(
                self@,
                set![Prop::BorderColor],
                Value::Color(spec_rgba(colors::BLUE_500)),
            ),
    {
        self.border_color(rgba(colors::BLUE_500))
    }

    fn border_green_500(self) -> (out: Self)
        ensures
            out@ == written(
                self@,
                set![Prop::BorderColor],
                Value::Color(spec_rgba(colors::GREEN_500)),
            ),
    {
        self.border_color(rgba(colors::GREEN_500))
    }
}

} // verus!
