use floem_tailwind::shadow::{shadow_md, shadow_sm};
use floem_tailwind::units::{CursorStyle, Display, FlexDirection, FlexWrap, Length};
use floem_tailwind::{Style, TailwindExt};
use peniko::Color;

type Utility = fn(Style) -> Style;

fn unset() -> Style {
    Style::new()
}

/// A style in which every property is already set, to values that no utility
/// writes.
fn busy() -> Style {
    let odd = Color::from_rgba8(1, 2, 3, 4);
    unset()
        .width(Length::Px(1001))
        .height(Length::Px(1002))
        .min_width(Length::Px(1003))
        .max_width(Length::Px(1004))
        .padding_left(1005)
        .padding_top(1006)
        .padding_right(1007)
        .padding_bottom(1008)
        .margin_left(Length::Px(1009))
        .margin_top(Length::Px(1010))
        .margin_right(Length::Px(1011))
        .margin_bottom(Length::Px(1012))
        .gap(1013)
        .border(1014)
        .border_color(odd)
        .border_radius(1015)
        .background(odd)
        .color(odd)
        .font_size(1016)
        .font_weight(450)
        .line_height(1017)
        .apply_box_shadows(vec![shadow_sm(), shadow_md()])
        .display(Display::Grid)
        .flex_direction(FlexDirection::ColumnReverse)
        .flex_wrap(FlexWrap::WrapReverse)
        .cursor(CursorStyle::Grabbing)
}

const EVERY_UTILITY: [Utility; 665] = [
    Style::w_0, Style::w_px, Style::w_0p5, Style::w_1, Style::w_1p5, Style::w_2, Style::w_2p5,
    Style::w_3, Style::w_3p5, Style::w_4, Style::w_5, Style::w_6, Style::w_7, Style::w_8,
    Style::w_9, Style::w_10, Style::w_11, Style::w_12, Style::w_14, Style::w_16, Style::w_20,
    Style::w_24, Style::w_28, Style::w_32, Style::w_36, Style::w_40, Style::w_44, Style::w_48,
    Style::w_52, Style::w_56, Style::w_60, Style::w_64, Style::w_72, Style::w_80, Style::w_96,
    Style::w_xs, Style::w_sm, Style::w_md, Style::w_lg, Style::w_xl, Style::w_2xl, Style::w_3xl,
    Style::w_4xl, Style::w_5xl, Style::w_6xl, Style::w_7xl, Style::w_full, Style::w_auto,
    Style::w_1_2, Style::w_1_3, Style::w_2_3, Style::w_1_4, Style::w_3_4, Style::w_1_5,
    Style::w_2_5, Style::w_3_5, Style::w_4_5, Style::w_1_6, Style::w_5_6, Style::w_1_12, Style::h_0,
    Style::h_px, Style::h_0p5, Style::h_1, Style::h_1p5, Style::h_2, Style::h_2p5, Style::h_3,
    Style::h_3p5, Style::h_4, Style::h_5, Style::h_6, Style::h_7, Style::h_8, Style::h_9,
    Style::h_10, Style::h_11, Style::h_12, Style::h_14, Style::h_16, Style::h_20, Style::h_24,
    Style::h_28, Style::h_32, Style::h_36, Style::h_40, Style::h_44, Style::h_48, Style::h_52,
    Style::h_56, Style::h_60, Style::h_64, Style::h_72, Style::h_80, Style::h_96, Style::h_xs,
    Style::h_sm, Style::h_md, Style::h_lg, Style::h_xl, Style::h_2xl, Style::h_3xl, Style::h_4xl,
    Style::h_5xl, Style::h_6xl, Style::h_7xl, Style::h_full, Style::h_auto, Style::h_1_2,
    Style::h_1_3, Style::h_2_3, Style::h_1_4, Style::h_3_4, Style::h_1_5, Style::h_2_5,
    Style::h_3_5, Style::h_4_5, Style::h_1_6, Style::h_5_6, Style::h_1_12, Style::size_0,
    Style::size_px, Style::size_0p5, Style::size_1, Style::size_1p5, Style::size_2, Style::size_2p5,
    Style::size_3, Style::size_3p5, Style::size_4, Style::size_5, Style::size_6, Style::size_7,
    Style::size_8, Style::size_9, Style::size_10, Style::size_11, Style::size_12, Style::size_14,
    Style::size_16, Style::size_20, Style::size_24, Style::size_28, Style::size_32, Style::size_36,
    Style::size_40, Style::size_44, Style::size_48, Style::size_52, Style::size_56, Style::size_60,
    Style::size_64, Style::size_72, Style::size_80, Style::size_96, Style::min_w_0, Style::min_w_px,
    Style::min_w_1, Style::min_w_2, Style::min_w_4, Style::min_w_8, Style::min_w_16,
    Style::min_w_32, Style::min_w_64, Style::min_w_96, Style::min_w_full, Style::min_w_xs,
    Style::min_w_sm, Style::min_w_md, Style::min_w_lg, Style::min_w_xl, Style::max_w_0,
    Style::max_w_px, Style::max_w_1, Style::max_w_2, Style::max_w_4, Style::max_w_8,
    Style::max_w_16, Style::max_w_32, Style::max_w_64, Style::max_w_96, Style::max_w_full,
    Style::max_w_xs, Style::max_w_sm, Style::max_w_md, Style::max_w_lg, Style::max_w_xl,
    Style::max_w_2xl, Style::max_w_3xl, Style::max_w_4xl, Style::max_w_5xl, Style::max_w_6xl,
    Style::max_w_7xl, Style::p_0, Style::p_px, Style::p_0p5, Style::p_1, Style::p_1p5, Style::p_2,
    Style::p_2p5, Style::p_3, Style::p_3p5, Style::p_4, Style::p_5, Style::p_6, Style::p_7,
    Style::p_8, Style::p_9, Style::p_10, Style::p_11, Style::p_12, Style::p_14, Style::p_16,
    Style::p_20, Style::p_24, Style::px_0, Style::px_px, Style::px_0p5, Style::px_1, Style::px_1p5,
    Style::px_2, Style::px_2p5, Style::px_3, Style::px_3p5, Style::px_4, Style::px_5, Style::px_6,
    Style::px_7, Style::px_8, Style::px_9, Style::px_10, Style::px_12, Style::px_16, Style::px_20,
    Style::px_24, Style::py_0, Style::py_px, Style::py_0p5, Style::py_1, Style::py_1p5, Style::py_2,
    Style::py_2p5, Style::py_3, Style::py_3p5, Style::py_4, Style::py_5, Style::py_6, Style::py_7,
    Style::py_8, Style::py_9, Style::py_10, Style::py_12, Style::py_16, Style::py_20, Style::py_24,
    Style::pt_0, Style::pt_1, Style::pt_2, Style::pt_3, Style::pt_4, Style::pt_5, Style::pt_6,
    Style::pt_8, Style::pb_0, Style::pb_1, Style::pb_2, Style::pb_3, Style::pb_4, Style::pb_5,
    Style::pb_6, Style::pb_8, Style::pl_0, Style::pl_1, Style::pl_2, Style::pl_3, Style::pl_4,
    Style::pl_5, Style::pl_6, Style::pl_8, Style::pr_0, Style::pr_1, Style::pr_2, Style::pr_3,
    Style::pr_4, Style::pr_5, Style::pr_6, Style::pr_8, Style::m_0, Style::m_px, Style::m_0p5,
    Style::m_1, Style::m_1p5, Style::m_2, Style::m_2p5, Style::m_3, Style::m_3p5, Style::m_4,
    Style::m_5, Style::m_6, Style::m_7, Style::m_8, Style::m_9, Style::m_10, Style::m_11,
    Style::m_12, Style::m_14, Style::m_16, Style::m_20, Style::m_24, Style::m_auto, Style::mx_0,
    Style::mx_px, Style::mx_0p5, Style::mx_1, Style::mx_1p5, Style::mx_2, Style::mx_2p5,
    Style::mx_3, Style::mx_3p5, Style::mx_4, Style::mx_5, Style::mx_6, Style::mx_8, Style::mx_10,
    Style::mx_12, Style::mx_16, Style::mx_20, Style::mx_24, Style::mx_auto, Style::my_0,
    Style::my_px, Style::my_0p5, Style::my_1, Style::my_1p5, Style::my_2, Style::my_2p5,
    Style::my_3, Style::my_3p5, Style::my_4, Style::my_5, Style::my_6, Style::my_8, Style::my_10,
    Style::my_12, Style::my_16, Style::my_20, Style::my_24, Style::my_auto, Style::mt_0,
    Style::mt_1, Style::mt_2, Style::mt_3, Style::mt_4, Style::mt_5, Style::mt_6, Style::mt_8,
    Style::mt_auto, Style::mb_0, Style::mb_1, Style::mb_2, Style::mb_3, Style::mb_4, Style::mb_5,
    Style::mb_6, Style::mb_8, Style::mb_auto, Style::ml_0, Style::ml_1, Style::ml_2, Style::ml_3,
    Style::ml_4, Style::ml_5, Style::ml_6, Style::ml_8, Style::ml_auto, Style::mr_0, Style::mr_1,
    Style::mr_2, Style::mr_3, Style::mr_4, Style::mr_5, Style::mr_6, Style::mr_8, Style::mr_auto,
    Style::gap_0, Style::gap_px, Style::gap_0p5, Style::gap_1, Style::gap_1p5, Style::gap_2,
    Style::gap_2p5, Style::gap_3, Style::gap_3p5, Style::gap_4, Style::gap_5, Style::gap_6,
    Style::gap_7, Style::gap_8, Style::gap_9, Style::gap_10, Style::gap_11, Style::gap_12,
    Style::gap_14, Style::gap_16, Style::gap_20, Style::gap_24, Style::rounded_none,
    Style::rounded_sm, Style::rounded, Style::rounded_md, Style::rounded_lg, Style::rounded_xl,
    Style::rounded_2xl, Style::rounded_3xl, Style::rounded_full, Style::border_0, Style::border_1,
    Style::border_2, Style::border_4, Style::border_8, Style::shadow_sm, Style::shadow,
    Style::shadow_md, Style::shadow_lg, Style::shadow_xl, Style::shadow_2xl, Style::shadow_none,
    Style::bg_transparent, Style::bg_black, Style::bg_white, Style::bg_slate_50,
    Style::bg_slate_100, Style::bg_slate_200, Style::bg_slate_300, Style::bg_slate_400,
    Style::bg_slate_500, Style::bg_slate_600, Style::bg_slate_700, Style::bg_slate_800,
    Style::bg_slate_900, Style::bg_slate_950, Style::bg_gray_50, Style::bg_gray_100,
    Style::bg_gray_200, Style::bg_gray_300, Style::bg_gray_400, Style::bg_gray_500,
    Style::bg_gray_600, Style::bg_gray_700, Style::bg_gray_800, Style::bg_gray_900,
    Style::bg_gray_950, Style::bg_zinc_50, Style::bg_zinc_100, Style::bg_zinc_200,
    Style::bg_zinc_300, Style::bg_zinc_400, Style::bg_zinc_500, Style::bg_zinc_600,
    Style::bg_zinc_700, Style::bg_zinc_800, Style::bg_zinc_900, Style::bg_zinc_950,
    Style::bg_red_50, Style::bg_red_100, Style::bg_red_200, Style::bg_red_300, Style::bg_red_400,
    Style::bg_red_500, Style::bg_red_600, Style::bg_red_700, Style::bg_red_800, Style::bg_red_900,
    Style::bg_red_950, Style::bg_orange_50, Style::bg_orange_100, Style::bg_orange_200,
    Style::bg_orange_300, Style::bg_orange_400, Style::bg_orange_500, Style::bg_orange_600,
    Style::bg_orange_700, Style::bg_orange_800, Style::bg_orange_900, Style::bg_orange_950,
    Style::bg_yellow_50, Style::bg_yellow_100, Style::bg_yellow_200, Style::bg_yellow_300,
    Style::bg_yellow_400, Style::bg_yellow_500, Style::bg_yellow_600, Style::bg_yellow_700,
    Style::bg_yellow_800, Style::bg_yellow_900, Style::bg_yellow_950, Style::bg_green_50,
    Style::bg_green_100, Style::bg_green_200, Style::bg_green_300, Style::bg_green_400,
    Style::bg_green_500, Style::bg_green_600, Style::bg_green_700, Style::bg_green_800,
    Style::bg_green_900, Style::bg_green_950, Style::bg_blue_50, Style::bg_blue_100,
    Style::bg_blue_200, Style::bg_blue_300, Style::bg_blue_400, Style::bg_blue_500,
    Style::bg_blue_600, Style::bg_blue_700, Style::bg_blue_800, Style::bg_blue_900,
    Style::bg_blue_950, Style::bg_indigo_50, Style::bg_indigo_100, Style::bg_indigo_200,
    Style::bg_indigo_300, Style::bg_indigo_400, Style::bg_indigo_500, Style::bg_indigo_600,
    Style::bg_indigo_700, Style::bg_indigo_800, Style::bg_indigo_900, Style::bg_indigo_950,
    Style::bg_purple_50, Style::bg_purple_100, Style::bg_purple_200, Style::bg_purple_300,
    Style::bg_purple_400, Style::bg_purple_500, Style::bg_purple_600, Style::bg_purple_700,
    Style::bg_purple_800, Style::bg_purple_900, Style::bg_purple_950, Style::bg_pink_50,
    Style::bg_pink_100, Style::bg_pink_200, Style::bg_pink_300, Style::bg_pink_400,
    Style::bg_pink_500, Style::bg_pink_600, Style::bg_pink_700, Style::bg_pink_800,
    Style::bg_pink_900, Style::bg_pink_950, Style::text_transparent, Style::text_black,
    Style::text_white, Style::text_slate_50, Style::text_slate_100, Style::text_slate_200,
    Style::text_slate_300, Style::text_slate_400, Style::text_slate_500, Style::text_slate_600,
    Style::text_slate_700, Style::text_slate_800, Style::text_slate_900, Style::text_slate_950,
    Style::text_gray_50, Style::text_gray_100, Style::text_gray_200, Style::text_gray_300,
    Style::text_gray_400, Style::text_gray_500, Style::text_gray_600, Style::text_gray_700,
    Style::text_gray_800, Style::text_gray_900, Style::text_gray_950, Style::text_red_50,
    Style::text_red_100, Style::text_red_200, Style::text_red_300, Style::text_red_400,
    Style::text_red_500, Style::text_red_600, Style::text_red_700, Style::text_red_800,
    Style::text_red_900, Style::text_red_950, Style::text_green_50, Style::text_green_100,
    Style::text_green_200, Style::text_green_300, Style::text_green_400, Style::text_green_500,
    Style::text_green_600, Style::text_green_700, Style::text_green_800, Style::text_green_900,
    Style::text_green_950, Style::text_blue_50, Style::text_blue_100, Style::text_blue_200,
    Style::text_blue_300, Style::text_blue_400, Style::text_blue_500, Style::text_blue_600,
    Style::text_blue_700, Style::text_blue_800, Style::text_blue_900, Style::text_blue_950,
    Style::text_xs, Style::text_sm, Style::text_base, Style::text_lg, Style::text_xl,
    Style::text_2xl, Style::text_3xl, Style::text_4xl, Style::text_5xl, Style::text_6xl,
    Style::text_7xl, Style::text_8xl, Style::text_9xl, Style::font_thin, Style::font_extralight,
    Style::font_light, Style::font_normal, Style::font_medium, Style::font_semibold,
    Style::font_bold, Style::font_extrabold, Style::font_black, Style::leading_none,
    Style::leading_tight, Style::leading_snug, Style::leading_normal, Style::leading_relaxed,
    Style::leading_loose, Style::flex, Style::block, Style::grid, Style::hidden, Style::flex_row,
    Style::flex_col, Style::flex_row_reverse, Style::flex_col_reverse, Style::wrap, Style::nowrap,
    Style::wrap_reverse, Style::cursor_pointer, Style::cursor_default, Style::cursor_text,
    Style::cursor_move, Style::cursor_grab, Style::cursor_grabbing, Style::border_transparent,
    Style::border_black, Style::border_white, Style::border_gray_200, Style::border_gray_300,
    Style::border_gray_400, Style::border_gray_500, Style::border_gray_600, Style::border_red_500,
    Style::border_blue_500, Style::border_green_500,
];

#[test]
fn busy_style_sets_every_property() {
    let style = busy();
    assert!(style.width.is_some() && style.height.is_some());
    assert!(style.min_width.is_some() && style.max_width.is_some());
    assert!(style.padding_left.is_some() && style.padding_top.is_some());
    assert!(style.padding_right.is_some() && style.padding_bottom.is_some());
    assert!(style.margin_left.is_some() && style.margin_top.is_some());
    assert!(style.margin_right.is_some() && style.margin_bottom.is_some());
    assert!(style.gap.is_some() && style.border.is_some() && style.border_radius.is_some());
    assert!(style.border_color.is_some() && style.background.is_some() && style.color.is_some());
    assert!(style.font_size.is_some() && style.font_weight.is_some());
    assert!(style.line_height.is_some() && style.box_shadows.is_some());
    assert!(style.display.is_some() && style.flex_direction.is_some());
    assert!(style.flex_wrap.is_some() && style.cursor.is_some());
}

#[test]
fn every_utility_is_idempotent() {
    for utility in EVERY_UTILITY {
        assert_eq!(utility(utility(unset())), utility(unset()));
        assert_eq!(utility(utility(busy())), utility(busy()));
    }
    let teal = Color::from_rgba8(13, 148, 136, 255);
    assert_eq!(unset().bg(teal).bg(teal), unset().bg(teal));
    assert_eq!(busy().text(teal).text(teal), busy().text(teal));
}

#[test]
fn every_utility_sets_something() {
    for utility in EVERY_UTILITY {
        assert_ne!(utility(unset()), unset());
    }
}

#[test]
fn idempotence_examples() {
    assert_eq!(unset().w_4().w_4(), unset().w_4());
    assert_eq!(unset().p_2().p_2().width, None);
    assert_eq!(unset().p_2().p_2().padding_left, Some(8));
    assert_eq!(busy().shadow_md().shadow_md(), busy().shadow_md());
}

/// The utilities that write exactly the same properties as `probe`.
fn same_targets(probe: Utility) -> Vec<Utility> {
    let base = busy();
    let hit = probe(unset());
    EVERY_UTILITY
        .into_iter()
        .filter(|utility| probe(utility(base.clone())) == probe(base.clone()))
        .filter(|utility| utility(hit.clone()) == utility(unset()))
        .collect()
}

#[test]
fn last_write_wins_within_every_family() {
    let probes: [(Utility, usize); 33] = [
        (Style::w_0, 60),
        (Style::h_0, 60),
        (Style::size_0, 35),
        (Style::min_w_0, 16),
        (Style::max_w_0, 22),
        (Style::p_0, 22),
        (Style::px_0, 20),
        (Style::py_0, 20),
        (Style::pt_0, 8),
        (Style::pb_0, 8),
        (Style::pl_0, 8),
        (Style::pr_0, 8),
        (Style::m_0, 23),
        (Style::mx_0, 19),
        (Style::my_0, 19),
        (Style::mt_0, 9),
        (Style::mb_0, 9),
        (Style::ml_0, 9),
        (Style::mr_0, 9),
        (Style::gap_0, 22),
        (Style::rounded_none, 9),
        (Style::border_0, 5),
        (Style::shadow_none, 7),
        (Style::bg_black, 124),
        (Style::text_black, 58),
        (Style::border_black, 11),
        (Style::text_xs, 13),
        (Style::font_thin, 9),
        (Style::leading_none, 6),
        (Style::flex, 4),
        (Style::flex_row, 4),
        (Style::wrap, 3),
        (Style::cursor_pointer, 6),
    ];
    let mut seen = 0;
    for (probe, count) in probes {
        let family = same_targets(probe);
        assert_eq!(family.len(), count);
        seen += count;
        for first in &family {
            for second in &family {
                assert_eq!(second(first(unset())), second(unset()));
                assert_eq!(first(second(busy())), first(busy()));
            }
        }
    }
    assert_eq!(seen, EVERY_UTILITY.len());
}

#[test]
fn last_write_wins_examples() {
    assert_eq!(unset().w_4().w_8().width, Some(Length::Px(32)));
    assert_eq!(unset().w_8().w_4().width, Some(Length::Px(16)));
    assert_eq!(unset().w_full().w_auto().width, Some(Length::Auto));
    assert_eq!(unset().w_auto().w_1_3().width, Some(Length::Pct(33_333_333)));
    assert_eq!(unset().flex().hidden(), unset().hidden());
    assert_eq!(unset().hidden().flex(), unset().flex());
    assert_eq!(unset().bg_red_500().bg_blue_500(), unset().bg_blue_500());
    assert_eq!(unset().bg_blue_500().bg_red_500(), unset().bg_red_500());
    assert_eq!(unset().shadow_lg().shadow_sm(), unset().shadow_sm());
}

#[test]
fn a_later_write_decides_only_what_it_targets() {
    let style = unset().p_4().pt_2();
    assert_eq!(style.padding_top, Some(8));
    assert_eq!(style.padding_left, Some(16));
    assert_eq!(style.padding_right, Some(16));
    assert_eq!(style.padding_bottom, Some(16));
    assert_eq!(unset().pt_2().p_4(), unset().p_4());

    let style = unset().m_auto().mx_4();
    assert_eq!(style.margin_left, Some(Length::Px(16)));
    assert_eq!(style.margin_right, Some(Length::Px(16)));
    assert_eq!(style.margin_top, Some(Length::Auto));
    assert_eq!(style.margin_bottom, Some(Length::Auto));

    let style = unset().size_8().h_2();
    assert_eq!(style.width, Some(Length::Px(32)));
    assert_eq!(style.height, Some(Length::Px(8)));
    assert_eq!(unset().h_2().size_8(), unset().size_8());
}

#[test]
fn writes_to_different_properties_commute() {
    assert_eq!(unset().w_4().h_8(), unset().h_8().w_4());
    assert_eq!(unset().px_4().py_2(), unset().py_2().px_4());
    assert_eq!(busy().bg_white().text_black(), busy().text_black().bg_white());
    assert_eq!(unset().w_4().h_4(), unset().size_4());
    assert_eq!(unset().px_3().py_3(), unset().p_3());
    assert_eq!(unset().mx_auto().my_auto(), unset().m_auto());
    assert_eq!(unset().pl_5().pr_5().pt_5().pb_5(), unset().p_5());
}

#[test]
fn a_chain_sets_what_each_step_says() {
    let style = unset().w_64().h_32().p_4().gap_2().rounded_lg();
    let expected = Style {
        width: Some(Length::Px(256)),
        height: Some(Length::Px(128)),
        padding_left: Some(16),
        padding_top: Some(16),
        padding_right: Some(16),
        padding_bottom: Some(16),
        gap: Some(8),
        border_radius: Some(8),
        ..unset()
    };
    assert_eq!(style, expected);
}
