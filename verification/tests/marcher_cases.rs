use contour_terrain::marcher::{
    ascii_case, classify, corner_sign, march, unicode_case, CASE_COUNT,
};
use contour_terrain::scalar::Scalar;

const ASCII: [&str; 16] = [
    "   ", "_  ", "  _", "___", " \\_", "/ _", " | ", "_/ ", "_/ ", " | ", "_ \\", "  \\", "___",
    "  _", "_  ", "###",
];

const UNICODE: [&str; 16] = [
    "   ", "─╮ ", " ╭─", "───", " ╰─", "╱▞╱", " │█", "╱▟█", "─╯ ", "█│ ", "╲▚╲", "█▙╲", "───",
    "█▛╱", "╲▜█", "███",
];

fn s(x: f32) -> Scalar {
    Scalar::from_bits(x.to_bits())
}

fn cell(a: f32, b: f32, c: f32, d: f32) -> [Scalar; 4] {
    [s(a), s(b), s(c), s(d)]
}

fn cell_of_case(case: usize, low: f32, high: f32) -> [Scalar; 4] {
    let pick = |bit: usize| if case & bit != 0 { high } else { low };
    cell(pick(8), pick(4), pick(2), pick(1))
}

#[test]
fn case_count_is_sixteen() {
    assert_eq!(CASE_COUNT, 16);
}

#[test]
fn ascii_table_holds_the_sixteen_glyphs() {
    for case in 0..16 {
        assert_eq!(ascii_case(case), ASCII[case], "case {}", case);
    }
}

#[test]
fn unicode_table_holds_the_sixteen_glyphs() {
    for case in 0..16 {
        assert_eq!(unicode_case(case), UNICODE[case], "case {}", case);
    }
}

#[test]
fn every_glyph_is_three_characters_wide() {
    for case in 0..16 {
        assert_eq!(ascii_case(case).chars().count(), 3);
        assert_eq!(unicode_case(case).chars().count(), 3);
    }
}

#[test]
fn case_zero_is_blank_and_case_fifteen_is_solid() {
    let t = s(0.4);
    assert_eq!(march(&cell(0.0, 0.0, 0.0, 0.0), t, false), "   ");
    assert_eq!(march(&cell(0.0, 0.0, 0.0, 0.0), t, true), "   ");
    assert_eq!(march(&cell(1.0, 1.0, 1.0, 1.0), t, false), "###");
    assert_eq!(march(&cell(1.0, 1.0, 1.0, 1.0), t, true), "███");
}

#[test]
fn march_walks_every_case_of_both_sets() {
    let t = s(0.4);
    for case in 0..16 {
        let c = cell_of_case(case, 0.1, 0.9);
        assert_eq!(classify(&c, t), case);
        assert_eq!(march(&c, t, false), ASCII[case]);
        assert_eq!(march(&c, t, true), UNICODE[case]);
    }
}

#[test]
fn first_corner_is_the_most_significant_bit() {
    let t = s(0.0);
    assert_eq!(classify(&cell(1.0, -1.0, -1.0, -1.0), t), 8);
    assert_eq!(classify(&cell(-1.0, 1.0, -1.0, -1.0), t), 4);
    assert_eq!(classify(&cell(-1.0, -1.0, 1.0, -1.0), t), 2);
    assert_eq!(classify(&cell(-1.0, -1.0, -1.0, 1.0), t), 1);
    assert_eq!(march(&cell(1.0, -1.0, -1.0, -1.0), t, false), "_/ ");
    assert_eq!(march(&cell(-1.0, -1.0, -1.0, 1.0), t, true), "─╮ ");
}

#[test]
fn a_sample_equal_to_the_threshold_is_outside() {
    let t = s(0.4);
    assert_eq!(classify(&cell(0.4, 0.4, 0.4, 0.4), t), 0);
    assert_eq!(march(&cell(0.4, 0.4, 0.4, 0.4), t, false), "   ");
    assert_eq!(classify(&cell(0.4, 0.5, 0.4, 0.5), t), 5);
    let just_above = f32::from_bits(0.4f32.to_bits() + 1);
    assert_eq!(classify(&cell(just_above, 0.4, 0.4, 0.4), t), 8);
    assert_eq!(classify(&cell(0.0, -0.0, 0.0, -0.0), s(0.0)), 0);
    assert_eq!(classify(&cell(0.0, -0.0, 0.0, -0.0), s(-0.0)), 0);
}

#[test]
fn nan_samples_and_thresholds_give_a_glyph_all_the_same() {
    let nan = f32::NAN;
    assert_eq!(classify(&cell(nan, 1.0, nan, 1.0), s(0.4)), 5);
    assert_eq!(march(&cell(nan, 1.0, nan, 1.0), s(0.4), false), "/ _");
    assert_eq!(classify(&cell(1.0, 1.0, 1.0, 1.0), s(nan)), 0);
    assert_eq!(march(&cell(1.0, 1.0, 1.0, 1.0), s(nan), true), "   ");
    let inf = f32::INFINITY;
    assert_eq!(classify(&cell(inf, -inf, inf, -inf), s(0.4)), 10);
    assert_eq!(classify(&cell(inf, inf, inf, inf), s(inf)), 0);
}

#[test]
fn march_agrees_with_thresholding_in_floating_point() {
    let mut x: u32 = 0x0bad_5eed;
    for round in 0..2000 {
        let mut vals = [0.0f32; 5];
        for v in vals.iter_mut() {
            x = x.wrapping_mul(1_664_525).wrapping_add(1_013_904_223);
            *v = if round % 2 == 0 { f32::from_bits(x) } else { (x >> 8) as f32 / 16_777_216.0 };
        }
        let t = vals[4];
        let mut want = 0usize;
        for i in 0..4 {
            want = want << 1 | if vals[i] > t { 1 } else { 0 };
        }
        let c = cell(vals[0], vals[1], vals[2], vals[3]);
        assert_eq!(classify(&c, s(t)), want);
        assert_eq!(march(&c, s(t), false), ASCII[want]);
        assert_eq!(march(&c, s(t), true), UNICODE[want]);
    }
}

#[test]
fn march_gives_the_same_glyph_every_time_and_one_of_the_table() {
    let t = s(0.25);
    let c = cell(0.3, 0.2, 0.26, 0.25);
    let first = march(&c, t, true);
    for _ in 0..10 {
        assert_eq!(march(&c, t, true), first);
    }
    assert!(UNICODE.contains(&first));
    assert!(ASCII.contains(&march(&c, t, false)));
    assert_eq!(first, "╲▚╲");
}

#[test]
fn raising_one_corner_sets_its_bit_and_no_other() {
    let t = s(0.4);
    for case in 0..16usize {
        for corner in 0..4usize {
            let weight = 8usize >> corner;
            if case & weight != 0 {
                continue;
            }
            let before = cell_of_case(case, 0.4, 0.7);
            let mut after = before;
            after[corner] = s(0.41);
            let b = classify(&before, t);
            let a = classify(&after, t);
            assert_eq!(b, case);
            assert_eq!(a, b + weight);
            assert_eq!(a ^ b, weight);
        }
    }
}

#[test]
fn corners_run_clockwise_from_the_top_left() {
    assert_eq!(corner_sign(0), (-1, -1));
    assert_eq!(corner_sign(1), (1, -1));
    assert_eq!(corner_sign(2), (1, 1));
    assert_eq!(corner_sign(3), (-1, 1));
}
