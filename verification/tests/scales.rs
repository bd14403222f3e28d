use floem_tailwind::font_size::{self, TextSize};
use floem_tailwind::radius::{self, Radius};
use floem_tailwind::spacing::{self, Container, Step};
use floem_tailwind::units::{self, fraction, Length};
use floem_tailwind::{font_weight, line_height};

#[test]
fn test_spacing_values() {
    assert_eq!(f64::from(spacing::SPACING_1), 4.0);
    assert_eq!(f64::from(spacing::SPACING_2), 8.0);
    assert_eq!(f64::from(spacing::SPACING_4), 16.0);
    assert_eq!(f64::from(spacing::SPACING_8), 32.0);
    assert_eq!(f64::from(spacing::SPACING_16), 64.0);
    assert_eq!(spacing::SPACING_4, 16);
    assert_eq!(spacing::SPACING_8, 32);
    assert_eq!(spacing::SPACING_16, 64);
}

#[test]
fn test_size_values() {
    assert_eq!(f64::from(spacing::SIZE_SM), 384.0);
    assert_eq!(f64::from(spacing::SIZE_MD), 448.0);
    assert_eq!(f64::from(spacing::SIZE_LG), 512.0);
    assert_eq!(spacing::SIZE_SM, 384);
    assert_eq!(spacing::SIZE_MD, 448);
    assert_eq!(spacing::SIZE_LG, 512);
}

#[test]
fn test_radius_values() {
    assert_eq!(f64::from(radius::ROUNDED_SM), 2.0);
    assert_eq!(f64::from(radius::ROUNDED_MD), 6.0);
    assert_eq!(f64::from(radius::ROUNDED_LG), 8.0);
}

const STEPS: [(Step, u32); 34] = [
    (Step::S0, 0),
    (Step::S0p5, 1),
    (Step::S1, 2),
    (Step::S1p5, 3),
    (Step::S2, 4),
    (Step::S2p5, 5),
    (Step::S3, 6),
    (Step::S3p5, 7),
    (Step::S4, 8),
    (Step::S5, 10),
    (Step::S6, 12),
    (Step::S7, 14),
    (Step::S8, 16),
    (Step::S9, 18),
    (Step::S10, 20),
    (Step::S11, 22),
    (Step::S12, 24),
    (Step::S14, 28),
    (Step::S16, 32),
    (Step::S20, 40),
    (Step::S24, 48),
    (Step::S28, 56),
    (Step::S32, 64),
    (Step::S36, 72),
    (Step::S40, 80),
    (Step::S44, 88),
    (Step::S48, 96),
    (Step::S52, 104),
    (Step::S56, 112),
    (Step::S60, 120),
    (Step::S64, 128),
    (Step::S72, 144),
    (Step::S80, 160),
    (Step::S96, 192),
];

#[test]
fn every_step_is_four_pixels_per_unit() {
    for (step, halves) in STEPS {
        assert_eq!(2 * step.px(), 4 * halves, "{:?}", step);
    }
    assert_eq!(Step::S0p5.px(), 2);
    assert_eq!(Step::S2.px(), 8);
    assert_eq!(Step::S3p5.px(), 14);
    assert_eq!(Step::S96.px(), 384);
}

#[test]
fn steps_grow_along_the_scale() {
    for pair in STEPS.windows(2) {
        assert!(pair[0].0.px() < pair[1].0.px());
    }
}

#[test]
fn spacing_scale_ends() {
    assert_eq!(spacing::SPACING_0, 0);
    assert_eq!(spacing::SPACING_PX, 1);
    assert_eq!(spacing::SPACING_0_5, 2);
    assert_eq!(spacing::SPACING_96, 384);
}

#[test]
fn container_sizes() {
    let sizes = [
        (Container::Xs, 320),
        (Container::Sm, 384),
        (Container::Md, 448),
        (Container::Lg, 512),
        (Container::Xl, 576),
        (Container::Xl2, 672),
        (Container::Xl3, 768),
        (Container::Xl4, 896),
        (Container::Xl5, 1024),
        (Container::Xl6, 1152),
        (Container::Xl7, 1280),
    ];
    for (size, px) in sizes {
        assert_eq!(size.px(), px, "{:?}", size);
    }
    for pair in sizes[..5].windows(2) {
        assert_eq!(pair[1].0.px() - pair[0].0.px(), 64);
    }
    assert_eq!(spacing::SIZE_XS, 320);
    assert_eq!(spacing::SIZE_7XL, 1280);
}

#[test]
fn radius_scale() {
    let radii = [
        (Radius::Square, 0),
        (Radius::Sm, 2),
        (Radius::Base, 4),
        (Radius::Md, 6),
        (Radius::Lg, 8),
        (Radius::Xl, 12),
        (Radius::Xl2, 16),
        (Radius::Xl3, 24),
        (Radius::Full, 9999),
    ];
    for (radius, px) in radii {
        assert_eq!(radius.px(), px, "{:?}", radius);
    }
    for pair in radii.windows(2) {
        assert!(pair[0].0.px() < pair[1].0.px());
    }
    assert_eq!(radius::ROUNDED_NONE, 0);
    assert_eq!(radius::ROUNDED, 4);
}

#[test]
fn full_radius_is_effectively_unbounded() {
    assert!(radius::ROUNDED_FULL >= 9999);
    assert!(Radius::Full.px() >= radius::FULLY_ROUNDED);
    assert!(radius::ROUNDED_FULL > spacing::SIZE_7XL);
}

#[test]
fn font_size_scale() {
    let sizes = [
        (TextSize::Xs, 12),
        (TextSize::Sm, 14),
        (TextSize::Base, 16),
        (TextSize::Lg, 18),
        (TextSize::Xl, 20),
        (TextSize::Xl2, 24),
        (TextSize::Xl3, 30),
        (TextSize::Xl4, 36),
        (TextSize::Xl5, 48),
        (TextSize::Xl6, 60),
        (TextSize::Xl7, 72),
        (TextSize::Xl8, 96),
        (TextSize::Xl9, 128),
    ];
    assert_eq!(sizes.len(), 13);
    for (size, px) in sizes {
        assert_eq!(size.px(), px, "{:?}", size);
    }
    for pair in sizes.windows(2) {
        assert!(pair[0].0.px() < pair[1].0.px());
    }
    assert_eq!(font_size::TEXT_XS, 12);
    assert_eq!(font_size::TEXT_9XL, 128);
}

#[test]
fn font_weights_run_from_100_to_900() {
    let weights = [
        font_weight::THIN,
        font_weight::EXTRALIGHT,
        font_weight::LIGHT,
        font_weight::NORMAL,
        font_weight::MEDIUM,
        font_weight::SEMIBOLD,
        font_weight::BOLD,
        font_weight::EXTRABOLD,
        font_weight::BLACK,
    ];
    for (i, weight) in weights.iter().enumerate() {
        assert_eq!(usize::from(*weight), (i + 1) * 100);
    }
}

#[test]
fn line_heights_in_thousandths() {
    assert_eq!(line_height::LEADING_NONE, 1000);
    assert_eq!(line_height::LEADING_TIGHT, 1250);
    assert_eq!(line_height::LEADING_SNUG, 1375);
    assert_eq!(line_height::LEADING_NORMAL, 1500);
    assert_eq!(line_height::LEADING_RELAXED, 1625);
    assert_eq!(line_height::LEADING_LOOSE, 2000);
    assert_eq!(f64::from(line_height::LEADING_SNUG) / 1000.0, 1.375);
}

#[test]
fn one_half_is_fifty_percent() {
    assert_eq!(units::PCT_1_2, 50_000_000);
    assert_eq!(f64::from(units::PCT_1_2) / 1e6, 50.0);
    assert_eq!(fraction(1, 2), Some(Length::Pct(50_000_000)));
}

#[test]
fn thirds_sum_to_the_whole() {
    assert_eq!(units::PCT_1_3, 33_333_333);
    assert_eq!(units::PCT_2_3, 66_666_667);
    assert_eq!(units::PCT_1_3 + units::PCT_2_3, units::PCT_FULL);
    let sum = f64::from(units::PCT_1_3) / 1e6 + f64::from(units::PCT_2_3) / 1e6;
    assert!((sum - 100.0).abs() <= 1e-5);
    assert_eq!(f64::from(units::PCT_1_3) / 1e6, 33.333333);
    assert_eq!(f64::from(units::PCT_2_3) / 1e6, 66.666667);
}

#[test]
fn six_sixths_are_the_whole_within_rounding() {
    assert_eq!(units::PCT_1_6, 16_666_667);
    assert_eq!(6 * units::PCT_1_6, 100_000_002);
    let six = 6.0 * (f64::from(units::PCT_1_6) / 1e6);
    assert!((six - 100.0).abs() <= 1e-5);
}

#[test]
fn tabulated_fractions_are_the_rounded_quotients() {
    let table = [
        (1, 2, units::PCT_1_2),
        (1, 3, units::PCT_1_3),
        (2, 3, units::PCT_2_3),
        (1, 4, units::PCT_1_4),
        (3, 4, units::PCT_3_4),
        (1, 5, units::PCT_1_5),
        (2, 5, units::PCT_2_5),
        (3, 5, units::PCT_3_5),
        (4, 5, units::PCT_4_5),
        (1, 6, units::PCT_1_6),
        (5, 6, units::PCT_5_6),
        (1, 12, units::PCT_1_12),
    ];
    for (num, den, pct) in table {
        assert_eq!(fraction(num, den), Some(Length::Pct(pct)), "{}/{}", num, den);
    }
    assert_eq!(units::PCT_5_6, 83_333_333);
    assert_eq!(units::PCT_1_12, 8_333_333);
}

#[test]
fn a_fraction_and_its_complement_make_the_whole() {
    for den in 1..=48u32 {
        for num in 0..=den {
            let (Some(Length::Pct(part)), Some(Length::Pct(rest))) =
                (fraction(num, den), fraction(den - num, den))
            else {
                panic!("{}/{}", num, den);
            };
            let sum = part + rest;
            assert!(sum == units::PCT_FULL || sum == units::PCT_FULL + 1, "{}/{}", num, den);
        }
    }
    assert_eq!(units::PCT_1_4 + units::PCT_3_4, units::PCT_FULL);
    assert_eq!(units::PCT_1_6 + units::PCT_5_6, units::PCT_FULL);
    assert_eq!(fraction(1, 2), fraction(2, 4));
    assert_eq!(units::PCT_1_2 + units::PCT_1_2, units::PCT_FULL);
}

#[test]
fn fraction_edges() {
    assert_eq!(fraction(0, 1), Some(Length::Pct(0)));
    assert_eq!(fraction(7, 7), Some(Length::Pct(units::PCT_FULL)));
    assert_eq!(fraction(u32::MAX, u32::MAX), Some(Length::Pct(units::PCT_FULL)));
    assert_eq!(fraction(1, u32::MAX), Some(Length::Pct(0)));
    assert_eq!(fraction(1, 200_000_000), Some(Length::Pct(1)));
    assert_eq!(fraction(1, 0), None);
    assert_eq!(fraction(0, 0), None);
    assert_eq!(fraction(3, 2), None);
}
