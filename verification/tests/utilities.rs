use floem_tailwind::units::Length;
use floem_tailwind::{Style, TailwindExt};

type Utility = fn(Style) -> Style;

fn unset() -> Style {
    Style::new()
}

#[test]
fn new_style_sets_nothing() {
    let style = Style::new();
    assert_eq!(style.width, None);
    assert_eq!(style.height, None);
    assert_eq!(style.min_width, None);
    assert_eq!(style.max_width, None);
    assert_eq!(style.padding_left, None);
    assert_eq!(style.padding_top, None);
    assert_eq!(style.padding_right, None);
    assert_eq!(style.padding_bottom, None);
    assert_eq!(style.margin_left, None);
    assert_eq!(style.margin_top, None);
    assert_eq!(style.margin_right, None);
    assert_eq!(style.margin_bottom, None);
    assert_eq!(style.gap, None);
    assert_eq!(style.border, None);
    assert_eq!(style.border_color, None);
    assert_eq!(style.border_radius, None);
    assert_eq!(style.background, None);
    assert_eq!(style.color, None);
    assert_eq!(style.font_size, None);
    assert_eq!(style.font_weight, None);
    assert_eq!(style.line_height, None);
    assert_eq!(style.box_shadows, None);
    assert_eq!(style.display, None);
    assert_eq!(style.flex_direction, None);
    assert_eq!(style.flex_wrap, None);
    assert_eq!(style.cursor, None);
}

#[test]
fn width_utilities() {
    let cases: [(Utility, Length); 60] = [
        (Style::w_0, Length::Px(0)),
        (Style::w_px, Length::Px(1)),
        (Style::w_0p5, Length::Px(2)),
        (Style::w_1, Length::Px(4)),
        (Style::w_1p5, Length::Px(6)),
        (Style::w_2, Length::Px(8)),
        (Style::w_2p5, Length::Px(10)),
        (Style::w_3, Length::Px(12)),
        (Style::w_3p5, Length::Px(14)),
        (Style::w_4, Length::Px(16)),
        (Style::w_5, Length::Px(20)),
        (Style::w_6, Length::Px(24)),
        (Style::w_7, Length::Px(28)),
        (Style::w_8, Length::Px(32)),
        (Style::w_9, Length::Px(36)),
        (Style::w_10, Length::Px(40)),
        (Style::w_11, Length::Px(44)),
        (Style::w_12, Length::Px(48)),
        (Style::w_14, Length::Px(56)),
        (Style::w_16, Length::Px(64)),
        (Style::w_20, Length::Px(80)),
        (Style::w_24, Length::Px(96)),
        (Style::w_28, Length::Px(112)),
        (Style::w_32, Length::Px(128)),
        (Style::w_36, Length::Px(144)),
        (Style::w_40, Length::Px(160)),
        (Style::w_44, Length::Px(176)),
        (Style::w_48, Length::Px(192)),
        (Style::w_52, Length::Px(208)),
        (Style::w_56, Length::Px(224)),
        (Style::w_60, Length::Px(240)),
        (Style::w_64, Length::Px(256)),
        (Style::w_72, Length::Px(288)),
        (Style::w_80, Length::Px(320)),
        (Style::w_96, Length::Px(384)),
        (Style::w_xs, Length::Px(320)),
        (Style::w_sm, Length::Px(384)),
        (Style::w_md, Length::Px(448)),
        (Style::w_lg, Length::Px(512)),
        (Style::w_xl, Length::Px(576)),
        (Style::w_2xl, Length::Px(672)),
        (Style::w_3xl, Length::Px(768)),
        (Style::w_4xl, Length::Px(896)),
        (Style::w_5xl, Length::Px(1024)),
        (Style::w_6xl, Length::Px(1152)),
        (Style::w_7xl, Length::Px(1280)),
        (Style::w_full, Length::Pct(100_000_000)),
        (Style::w_auto, Length::Auto),
        (Style::w_1_2, Length::Pct(50000000)),
        (Style::w_1_3, Length::Pct(33333333)),
        (Style::w_2_3, Length::Pct(66666667)),
        (Style::w_1_4, Length::Pct(25000000)),
        (Style::w_3_4, Length::Pct(75000000)),
        (Style::w_1_5, Length::Pct(20000000)),
        (Style::w_2_5, Length::Pct(40000000)),
        (Style::w_3_5, Length::Pct(60000000)),
        (Style::w_4_5, Length::Pct(80000000)),
        (Style::w_1_6, Length::Pct(16666667)),
        (Style::w_5_6, Length::Pct(83333333)),
        (Style::w_1_12, Length::Pct(8333333)),
    ];
    for (utility, value) in cases {
        let expected = Style { width: Some(value), ..unset() };
        assert_eq!(utility(unset()), expected);
    }
}

#[test]
fn height_utilities() {
    let cases: [(Utility, Length); 60] = [
        (Style::h_0, Length::Px(0)),
        (Style::h_px, Length::Px(1)),
        (Style::h_0p5, Length::Px(2)),
        (Style::h_1, Length::Px(4)),
        (Style::h_1p5, Length::Px(6)),
        (Style::h_2, Length::Px(8)),
        (Style::h_2p5, Length::Px(10)),
        (Style::h_3, Length::Px(12)),
        (Style::h_3p5, Length::Px(14)),
        (Style::h_4, Length::Px(16)),
        (Style::h_5, Length::Px(20)),
        (Style::h_6, Length::Px(24)),
        (Style::h_7, Length::Px(28)),
        (Style::h_8, Length::Px(32)),
        (Style::h_9, Length::Px(36)),
        (Style::h_10, Length::Px(40)),
        (Style::h_11, Length::Px(44)),
        (Style::h_12, Length::Px(48)),
        (Style::h_14, Length::Px(56)),
        (Style::h_16, Length::Px(64)),
        (Style::h_20, Length::Px(80)),
        (Style::h_24, Length::Px(96)),
        (Style::h_28, Length::Px(112)),
        (Style::h_32, Length::Px(128)),
        (Style::h_36, Length::Px(144)),
        (Style::h_40, Length::Px(160)),
        (Style::h_44, Length::Px(176)),
        (Style::h_48, Length::Px(192)),
        (Style::h_52, Length::Px(208)),
        (Style::h_56, Length::Px(224)),
        (Style::h_60, Length::Px(240)),
        (Style::h_64, Length::Px(256)),
        (Style::h_72, Length::Px(288)),
        (Style::h_80, Length::Px(320)),
        (Style::h_96, Length::Px(384)),
        (Style::h_xs, Length::Px(320)),
        (Style::h_sm, Length::Px(384)),
        (Style::h_md, Length::Px(448)),
        (Style::h_lg, Length::Px(512)),
        (Style::h_xl, Length::Px(576)),
        (Style::h_2xl, Length::Px(672)),
        (Style::h_3xl, Length::Px(768)),
        (Style::h_4xl, Length::Px(896)),
        (Style::h_5xl, Length::Px(1024)),
        (Style::h_6xl, Length::Px(1152)),
        (Style::h_7xl, Length::Px(1280)),
        (Style::h_full, Length::Pct(100_000_000)),
        (Style::h_auto, Length::Auto),
        (Style::h_1_2, Length::Pct(50000000)),
        (Style::h_1_3, Length::Pct(33333333)),
        (Style::h_2_3, Length::Pct(66666667)),
        (Style::h_1_4, Length::Pct(25000000)),
        (Style::h_3_4, Length::Pct(75000000)),
        (Style::h_1_5, Length::Pct(20000000)),
        (Style::h_2_5, Length::Pct(40000000)),
        (Style::h_3_5, Length::Pct(60000000)),
        (Style::h_4_5, Length::Pct(80000000)),
        (Style::h_1_6, Length::Pct(16666667)),
        (Style::h_5_6, Length::Pct(83333333)),
        (Style::h_1_12, Length::Pct(8333333)),
    ];
    for (utility, value) in cases {
        let expected = Style { height: Some(value), ..unset() };
        assert_eq!(utility(unset()), expected);
    }
}

#[test]
fn width_and_height_utilities() {
    let cases: [(Utility, Length); 35] = [
        (Style::size_0, Length::Px(0)),
        (Style::size_px, Length::Px(1)),
        (Style::size_0p5, Length::Px(2)),
        (Style::size_1, Length::Px(4)),
        (Style::size_1p5, Length::Px(6)),
        (Style::size_2, Length::Px(8)),
        (Style::size_2p5, Length::Px(10)),
        (Style::size_3, Length::Px(12)),
        (Style::size_3p5, Length::Px(14)),
        (Style::size_4, Length::Px(16)),
        (Style::size_5, Length::Px(20)),
        (Style::size_6, Length::Px(24)),
        (Style::size_7, Length::Px(28)),
        (Style::size_8, Length::Px(32)),
        (Style::size_9, Length::Px(36)),
        (Style::size_10, Length::Px(40)),
        (Style::size_11, Length::Px(44)),
        (Style::size_12, Length::Px(48)),
        (Style::size_14, Length::Px(56)),
        (Style::size_16, Length::Px(64)),
        (Style::size_20, Length::Px(80)),
        (Style::size_24, Length::Px(96)),
        (Style::size_28, Length::Px(112)),
        (Style::size_32, Length::Px(128)),
        (Style::size_36, Length::Px(144)),
        (Style::size_40, Length::Px(160)),
        (Style::size_44, Length::Px(176)),
        (Style::size_48, Length::Px(192)),
        (Style::size_52, Length::Px(208)),
        (Style::size_56, Length::Px(224)),
        (Style::size_60, Length::Px(240)),
        (Style::size_64, Length::Px(256)),
        (Style::size_72, Length::Px(288)),
        (Style::size_80, Length::Px(320)),
        (Style::size_96, Length::Px(384)),
    ];
    for (utility, value) in cases {
        let expected = Style { width: Some(value), height: Some(value), ..unset() };
        assert_eq!(utility(unset()), expected);
    }
}

#[test]
fn min_width_utilities() {
    let cases: [(Utility, Length); 16] = [
        (Style::min_w_0, Length::Px(0)),
        (Style::min_w_px, Length::Px(1)),
        (Style::min_w_1, Length::Px(4)),
        (Style::min_w_2, Length::Px(8)),
        (Style::min_w_4, Length::Px(16)),
        (Style::min_w_8, Length::Px(32)),
        (Style::min_w_16, Length::Px(64)),
        (Style::min_w_32, Length::Px(128)),
        (Style::min_w_64, Length::Px(256)),
        (Style::min_w_96, Length::Px(384)),
        (Style::min_w_full, Length::Pct(100_000_000)),
        (Style::min_w_xs, Length::Px(320)),
        (Style::min_w_sm, Length::Px(384)),
        (Style::min_w_md, Length::Px(448)),
        (Style::min_w_lg, Length::Px(512)),
        (Style::min_w_xl, Length::Px(576)),
    ];
    for (utility, value) in cases {
        let expected = Style { min_width: Some(value), ..unset() };
        assert_eq!(utility(unset()), expected);
    }
}

#[test]
fn max_width_utilities() {
    let cases: [(Utility, Length); 22] = [
        (Style::max_w_0, Length::Px(0)),
        (Style::max_w_px, Length::Px(1)),
        (Style::max_w_1, Length::Px(4)),
        (Style::max_w_2, Length::Px(8)),
        (Style::max_w_4, Length::Px(16)),
        (Style::max_w_8, Length::Px(32)),
        (Style::max_w_16, Length::Px(64)),
        (Style::max_w_32, Length::Px(128)),
        (Style::max_w_64, Length::Px(256)),
        (Style::max_w_96, Length::Px(384)),
        (Style::max_w_full, Length::Pct(100_000_000)),
        (Style::max_w_xs, Length::Px(320)),
        (Style::max_w_sm, Length::Px(384)),
        (Style::max_w_md, Length::Px(448)),
        (Style::max_w_lg, Length::Px(512)),
        (Style::max_w_xl, Length::Px(576)),
        (Style::max_w_2xl, Length::Px(672)),
        (Style::max_w_3xl, Length::Px(768)),
        (Style::max_w_4xl, Length::Px(896)),
        (Style::max_w_5xl, Length::Px(1024)),
        (Style::max_w_6xl, Length::Px(1152)),
        (Style::max_w_7xl, Length::Px(1280)),
    ];
    for (utility, value) in cases {
        let expected = Style { max_width: Some(value), ..unset() };
        assert_eq!(utility(unset()), expected);
    }
}

#[test]
fn padding_utilities() {
    let cases: [(Utility, u32); 22] = [
        (Style::p_0, 0),
        (Style::p_px, 1),
        (Style::p_0p5, 2),
        (Style::p_1, 4),
        (Style::p_1p5, 6),
        (Style::p_2, 8),
        (Style::p_2p5, 10),
        (Style::p_3, 12),
        (Style::p_3p5, 14),
        (Style::p_4, 16),
        (Style::p_5, 20),
        (Style::p_6, 24),
        (Style::p_7, 28),
        (Style::p_8, 32),
        (Style::p_9, 36),
        (Style::p_10, 40),
        (Style::p_11, 44),
        (Style::p_12, 48),
        (Style::p_14, 56),
        (Style::p_16, 64),
        (Style::p_20, 80),
        (Style::p_24, 96),
    ];
    for (utility, value) in cases {
        let expected = Style {
            padding_left: Some(value),
            padding_top: Some(value),
            padding_right: Some(value),
            padding_bottom: Some(value),
            ..unset()
        };
        assert_eq!(utility(unset()), expected);
    }
}

#[test]
fn padding_x_utilities() {
    let cases: [(Utility, u32); 20] = [
        (Style::px_0, 0),
        (Style::px_px, 1),
        (Style::px_0p5, 2),
        (Style::px_1, 4),
        (Style::px_1p5, 6),
        (Style::px_2, 8),
        (Style::px_2p5, 10),
        (Style::px_3, 12),
        (Style::px_3p5, 14),
        (Style::px_4, 16),
        (Style::px_5, 20),
        (Style::px_6, 24),
        (Style::px_7, 28),
        (Style::px_8, 32),
        (Style::px_9, 36),
        (Style::px_10, 40),
        (Style::px_12, 48),
        (Style::px_16, 64),
        (Style::px_20, 80),
        (Style::px_24, 96),
    ];
    for (utility, value) in cases {
        let expected = Style { padding_left: Some(value), padding_right: Some(value), ..unset() };
        assert_eq!(utility(unset()), expected);
    }
}

#[test]
fn padding_y_utilities() {
    let cases: [(Utility, u32); 20] = [
        (Style::py_0, 0),
        (Style::py_px, 1),
        (Style::py_0p5, 2),
        (Style::py_1, 4),
        (Style::py_1p5, 6),
        (Style::py_2, 8),
        (Style::py_2p5, 10),
        (Style::py_3, 12),
        (Style::py_3p5, 14),
        (Style::py_4, 16),
        (Style::py_5, 20),
        (Style::py_6, 24),
        (Style::py_7, 28),
        (Style::py_8, 32),
        (Style::py_9, 36),
        (Style::py_10, 40),
        (Style::py_12, 48),
        (Style::py_16, 64),
        (Style::py_20, 80),
        (Style::py_24, 96),
    ];
    for (utility, value) in cases {
        let expected = Style { padding_top: Some(value), padding_bottom: Some(value), ..unset() };
        assert_eq!(utility(unset()), expected);
    }
}

#[test]
fn padding_top_utilities() {
    let cases: [(Utility, u32); 8] = [
        (Style::pt_0, 0),
        (Style::pt_1, 4),
        (Style::pt_2, 8),
        (Style::pt_3, 12),
        (Style::pt_4, 16),
        (Style::pt_5, 20),
        (Style::pt_6, 24),
        (Style::pt_8, 32),
    ];
    for (utility, value) in cases {
        let expected = Style { padding_top: Some(value), ..unset() };
        assert_eq!(utility(unset()), expected);
    }
}

#[test]
fn padding_bottom_utilities() {
    let cases: [(Utility, u32); 8] = [
        (Style::pb_0, 0),
        (Style::pb_1, 4),
        (Style::pb_2, 8),
        (Style::pb_3, 12),
        (Style::pb_4, 16),
        (Style::pb_5, 20),
        (Style::pb_6, 24),
        (Style::pb_8, 32),
    ];
    for (utility, value) in cases {
        let expected = Style { padding_bottom: Some(value), ..unset() };
        assert_eq!(utility(unset()), expected);
    }
}

#[test]
fn padding_left_utilities() {
    let cases: [(Utility, u32); 8] = [
        (Style::pl_0, 0),
        (Style::pl_1, 4),
        (Style::pl_2, 8),
        (Style::pl_3, 12),
        (Style::pl_4, 16),
        (Style::pl_5, 20),
        (Style::pl_6, 24),
        (Style::pl_8, 32),
    ];
    for (utility, value) in cases {
        let expected = Style { padding_left: Some(value), ..unset() };
        assert_eq!(utility(unset()), expected);
    }
}

#[test]
fn padding_right_utilities() {
    let cases: [(Utility, u32); 8] = [
        (Style::pr_0, 0),
        (Style::pr_1, 4),
        (Style::pr_2, 8),
        (Style::pr_3, 12),
        (Style::pr_4, 16),
        (Style::pr_5, 20),
        (Style::pr_6, 24),
        (Style::pr_8, 32),
    ];
    for (utility, value) in cases {
        let expected = Style { padding_right: Some(value), ..unset() };
        assert_eq!(utility(unset()), expected);
    }
}

#[test]
fn margin_utilities() {
    let cases: [(Utility, Length); 23] = [
        (Style::m_0, Length::Px(0)),
        (Style::m_px, Length::Px(1)),
        (Style::m_0p5, Length::Px(2)),
        (Style::m_1, Length::Px(4)),
        (Style::m_1p5, Length::Px(6)),
        (Style::m_2, Length::Px(8)),
        (Style::m_2p5, Length::Px(10)),
        (Style::m_3, Length::Px(12)),
        (Style::m_3p5, Length::Px(14)),
        (Style::m_4, Length::Px(16)),
        (Style::m_5, Length::Px(20)),
        (Style::m_6, Length::Px(24)),
        (Style::m_7, Length::Px(28)),
        (Style::m_8, Length::Px(32)),
        (Style::m_9, Length::Px(36)),
        (Style::m_10, Length::Px(40)),
        (Style::m_11, Length::Px(44)),
        (Style::m_12, Length::Px(48)),
        (Style::m_14, Length::Px(56)),
        (Style::m_16, Length::Px(64)),
        (Style::m_20, Length::Px(80)),
        (Style::m_24, Length::Px(96)),
        (Style::m_auto, Length::Auto),
    ];
    for (utility, value) in cases {
        let expected = Style {
            margin_left: Some(value),
            margin_top: Some(value),
            margin_right: Some(value),
            margin_bottom: Some(value),
            ..unset()
        };
        assert_eq!(utility(unset()), expected);
    }
}

#[test]
fn margin_x_utilities() {
    let cases: [(Utility, Length); 19] = [
        (Style::mx_0, Length::Px(0)),
        (Style::mx_px, Length::Px(1)),
        (Style::mx_0p5, Length::Px(2)),
        (Style::mx_1, Length::Px(4)),
        (Style::mx_1p5, Length::Px(6)),
        (Style::mx_2, Length::Px(8)),
        (Style::mx_2p5, Length::Px(10)),
        (Style::mx_3, Length::Px(12)),
        (Style::mx_3p5, Length::Px(14)),
        (Style::mx_4, Length::Px(16)),
        (Style::mx_5, Length::Px(20)),
        (Style::mx_6, Length::Px(24)),
        (Style::mx_8, Length::Px(32)),
        (Style::mx_10, Length::Px(40)),
        (Style::mx_12, Length::Px(48)),
        (Style::mx_16, Length::Px(64)),
        (Style::mx_20, Length::Px(80)),
        (Style::mx_24, Length::Px(96)),
        (Style::mx_auto, Length::Auto),
    ];
    for (utility, value) in cases {
        let expected = Style { margin_left: Some(value), margin_right: Some(value), ..unset() };
        assert_eq!(utility(unset()), expected);
    }
}

#[test]
fn margin_y_utilities() {
    let cases: [(Utility, Length); 19] = [
        (Style::my_0, Length::Px(0)),
        (Style::my_px, Length::Px(1)),
        (Style::my_0p5, Length::Px(2)),
        (Style::my_1, Length::Px(4)),
        (Style::my_1p5, Length::Px(6)),
        (Style::my_2, Length::Px(8)),
        (Style::my_2p5, Length::Px(10)),
        (Style::my_3, Length::Px(12)),
        (Style::my_3p5, Length::Px(14)),
        (Style::my_4, Length::Px(16)),
        (Style::my_5, Length::Px(20)),
        (Style::my_6, Length::Px(24)),
        (Style::my_8, Length::Px(32)),
        (Style::my_10, Length::Px(40)),
        (Style::my_12, Length::Px(48)),
        (Style::my_16, Length::Px(64)),
        (Style::my_20, Length::Px(80)),
        (Style::my_24, Length::Px(96)),
        (Style::my_auto, Length::Auto),
    ];
    for (utility, value) in cases {
        let expected = Style { margin_top: Some(value), margin_bottom: Some(value), ..unset() };
        assert_eq!(utility(unset()), expected);
    }
}

#[test]
fn margin_top_utilities() {
    let cases: [(Utility, Length); 9] = [
        (Style::mt_0, Length::Px(0)),
        (Style::mt_1, Length::Px(4)),
        (Style::mt_2, Length::Px(8)),
        (Style::mt_3, Length::Px(12)),
        (Style::mt_4, Length::Px(16)),
        (Style::mt_5, Length::Px(20)),
        (Style::mt_6, Length::Px(24)),
        (Style::mt_8, Length::Px(32)),
        (Style::mt_auto, Length::Auto),
    ];
    for (utility, value) in cases {
        let expected = Style { margin_top: Some(value), ..unset() };
        assert_eq!(utility(unset()), expected);
    }
}

#[test]
fn margin_bottom_utilities() {
    let cases: [(Utility, Length); 9] = [
        (Style::mb_0, Length::Px(0)),
        (Style::mb_1, Length::Px(4)),
        (Style::mb_2, Length::Px(8)),
        (Style::mb_3, Length::Px(12)),
        (Style::mb_4, Length::Px(16)),
        (Style::mb_5, Length::Px(20)),
        (Style::mb_6, Length::Px(24)),
        (Style::mb_8, Length::Px(32)),
        (Style::mb_auto, Length::Auto),
    ];
    for (utility, value) in cases {
        let expected = Style { margin_bottom: Some(value), ..unset() };
        assert_eq!(utility(unset()), expected);
    }
}

#[test]
fn margin_left_utilities() {
    let cases: [(Utility, Length); 9] = [
        (Style::ml_0, Length::Px(0)),
        (Style::ml_1, Length::Px(4)),
        (Style::ml_2, Length::Px(8)),
        (Style::ml_3, Length::Px(12)),
        (Style::ml_4, Length::Px(16)),
        (Style::ml_5, Length::Px(20)),
        (Style::ml_6, Length::Px(24)),
        (Style::ml_8, Length::Px(32)),
        (Style::ml_auto, Length::Auto),
    ];
    for (utility, value) in cases {
        let expected = Style { margin_left: Some(value), ..unset() };
        assert_eq!(utility(unset()), expected);
    }
}

#[test]
fn margin_right_utilities() {
    let cases: [(Utility, Length); 9] = [
        (Style::mr_0, Length::Px(0)),
        (Style::mr_1, Length::Px(4)),
        (Style::mr_2, Length::Px(8)),
        (Style::mr_3, Length::Px(12)),
        (Style::mr_4, Length::Px(16)),
        (Style::mr_5, Length::Px(20)),
        (Style::mr_6, Length::Px(24)),
        (Style::mr_8, Length::Px(32)),
        (Style::mr_auto, Length::Auto),
    ];
    for (utility, value) in cases {
        let expected = Style { margin_right: Some(value), ..unset() };
        assert_eq!(utility(unset()), expected);
    }
}

#[test]
fn gap_utilities() {
    let cases: [(Utility, u32); 22] = [
        (Style::gap_0, 0),
        (Style::gap_px, 1),
        (Style::gap_0p5, 2),
        (Style::gap_1, 4),
        (Style::gap_1p5, 6),
        (Style::gap_2, 8),
        (Style::gap_2p5, 10),
        (Style::gap_3, 12),
        (Style::gap_3p5, 14),
        (Style::gap_4, 16),
        (Style::gap_5, 20),
        (Style::gap_6, 24),
        (Style::gap_7, 28),
        (Style::gap_8, 32),
        (Style::gap_9, 36),
        (Style::gap_10, 40),
        (Style::gap_11, 44),
        (Style::gap_12, 48),
        (Style::gap_14, 56),
        (Style::gap_16, 64),
        (Style::gap_20, 80),
        (Style::gap_24, 96),
    ];
    for (utility, value) in cases {
        let expected = Style { gap: Some(value), ..unset() };
        assert_eq!(utility(unset()), expected);
    }
}
