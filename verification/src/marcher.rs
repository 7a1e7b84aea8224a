//! Marching squares on one grid cell: four corner samples against a
//! threshold give a four-bit case, and the case picks a glyph.
//!
//! The corners of a cell are always taken in this order: top left, top
//! right, bottom right, bottom left (clockwise from the top left, with `y`
//! growing downwards). The first corner is the most significant bit of the
//! case. Both glyph tables are drawn for this order.

use vstd::prelude::*;
use crate::scalar::Scalar;

verus! {

/// The number of cases: every subset of the four corners.
pub const CASE_COUNT: usize = 16;

/// The glyph of a case in the plain ASCII set.
pub open spec fn ascii_glyph(case: int) -> Seq<char> {
    if case == 0 {
        "   "@
    } else if case == 1 {
        "_  "@
    } else if case == 2 {
        "  _"@
    } else if case == 3 {
        "___"@
    } else if case == 4 {
        " \\_"@
    } else if case == 5 {
        "/ _"@
    } else if case == 6 {
        " | "@
    } else if case == 7 {
        "_/ "@
    } else if case == 8 {
        "_/ "@
    } else if case == 9 {
        " | "@
    } else if case == 10 {
        "_ \\"@
    } else if case == 11 {
        "  \\"@
    } else if case == 12 {
        "___"@
    } else if case == 13 {
        "  _"@
    } else if case == 14 {
        "_  "@
    } else {
        "###"@
    }
}

/// The glyph of a case in the box-drawing set.
pub open spec fn unicode_glyph(case: int) -> Seq<char> {
    if case == 0 {
        "   "@
    } else if case == 1 {
        "─╮ "@
    } else if case == 2 {
        " ╭─"@
    } else if case == 3 {
        "───"@
    } else if case == 4 {
        " ╰─"@
    } else if case == 5 {
        "╱▞╱"@
    } else if case == 6 {
        " │█"@
    } else if case == 7 {
        "╱▟█"@
    } else if case == 8 {
        "─╯ "@
    } else if case == 9 {
        "█│ "@
    } else if case == 10 {
        "╲▚╲"@
    } else if case == 11 {
        "█▙╲"@
    } else if case == 12 {
        "───"@
    } else if case == 13 {
        "█▛╱"@
    } else if case == 14 {
        "╲▜█"@
    } else {
        "███"@
    }
}

/// The glyph of a case in the chosen set.
pub open spec fn glyph(unicode: bool, case: int) -> Seq<char> {
    if unicode {
        unicode_glyph(case)
    } else {
        ascii_glyph(case)
    }
}

/// One corner's bit: 1 where the sample lies strictly above the threshold.
/// A sample equal to the threshold counts as outside, and so does a NaN.
pub open spec fn corner_bit(sample: Scalar, threshold: Scalar) -> int {
    if sample.spec_gt(threshold) {
        1
    } else {
        0
    }
}

/// The weight of a corner's bit in the case: 8, 4, 2, 1.
pub open spec fn corner_weight(corner: int) -> int {
    if corner == 0 {
        8
    } else if corner == 1 {
        4
    } else if corner == 2 {
        2
    } else {
        1
    }
}

/// The case of a cell: its four corner bits, first corner highest.
pub open spec fn case_index(samples: [Scalar; 4], threshold: Scalar) -> int {
    8 * corner_bit(samples[0], threshold) + 4 * corner_bit(samples[1], threshold) + 2
        * corner_bit(samples[2], threshold) + corner_bit(samples[3], threshold)
}

/// Where a corner lies from the cell's centre: the signs of its offsets
/// along `x` and `y`. The offsets themselves are half a cell wide.
pub open spec fn corner_signs(corner: int) -> (int, int) {
    if corner == 0 {
        (-1, -1)
    } else if corner == 1 {
        (1, -1)
    } else if corner == 2 {
        (1, 1)
    } else {
        (-1, 1)
    }
}

/// The signs of a corner's offsets from the cell's centre.
pub fn corner_sign(corner: usize) -> (signs: (i8, i8))
    requires
        corner < 4,
    ensures
        (signs.0 as int, signs.1 as int) == corner_signs(corner as int),
{
    match corner {
        0 => (-1, -1),
        1 => (1, -1),
        2 => (1, 1),
        _ => (-1, 1),
    }
}

/// Looks a case up in the ASCII table.
pub fn ascii_case(case: usize) -> (g: &'static str)
    requires
        case < CASE_COUNT,
    ensures
        g@ == ascii_glyph(case as int),
{
    match case {
        0 => "   ",
        1 => "_  ",
        2 => "  _",
        3 => "___",
        4 => " \\_",
        5 => "/ _",
        6 => " | ",
        7 => "_/ ",
        8 => "_/ ",
        9 => " | ",
        10 => "_ \\",
        11 => "  \\",
        12 => "___",
        13 => "  _",
        14 => "_  ",
        _ => "###",
    }
}

/// Looks a case up in the box-drawing table.
pub fn unicode_case(case: usize) -> (g: &'static str)
    requires
        case < CASE_COUNT,
    ensures
        g@ == unicode_glyph(case as int),
{
    match case {
        0 => "   ",
        1 => "─╮ ",
        2 => " ╭─",
        3 => "───",
        4 => " ╰─",
        5 => "╱▞╱",
        6 => " │█",
        7 => "╱▟█",
        8 => "─╯ ",
        9 => "█│ ",
        10 => "╲▚╲",
        11 => "█▙╲",
        12 => "───",
        13 => "█▛╱",
        14 => "╲▜█",
        _ => "███",
    }
}

/// Computes the case of a cell.
pub fn classify(samples: &[Scalar; 4], threshold: Scalar) -> (case: usize)
    ensures
        case == case_index(*samples, threshold),
        case < CASE_COUNT,
{
    let b0: usize = if samples[0].gt(threshold) { 1 } else { 0 };
    let b1: usize = if samples[1].gt(threshold) { 1 } else { 0 };
    let b2: usize = if samples[2].gt(threshold) { 1 } else { 0 };
    let b3: usize = if samples[3].gt(threshold) { 1 } else { 0 };
    8 * b0 + 4 * b1 + 2 * b2 + b3
}

/// The glyph for a cell: the entry of the chosen table at the cell's case.
/// Total: every sample, NaN included, has a bit, so every cell has a glyph.
pub fn march(samples: &[Scalar; 4], threshold: Scalar, unicode: bool) -> (g: &'static str)
    ensures
        g@ == glyph(unicode, case_index(*samples, threshold)),
        0 <= case_index(*samples, threshold) < CASE_COUNT,
        g@.len() == 3,
{
    let case: usize = classify(samples, threshold);
    proof {
        lemma_glyph_width(unicode, case as int);
    }
    if unicode {
        unicode_case(case)
    } else {
        ascii_case(case)
    }
}

/// One bit of a case: the bit that the given corner contributes.
pub open spec fn case_bit(case: int, corner: int) -> int {
    (case / corner_weight(corner)) % 2
}

/// Every glyph of both sets is three characters wide.
pub proof fn lemma_glyph_width(unicode: bool, case: int)
    ensures
        glyph(unicode, case).len() == 3,
{
    reveal_strlit("   ");
    reveal_strlit("_  ");
    reveal_strlit("  _");
    reveal_strlit("___");
    reveal_strlit(" \\_");
    reveal_strlit("/ _");
    reveal_strlit(" | ");
    reveal_strlit("_/ ");
    reveal_strlit("_ \\");
    reveal_strlit("  \\");
    reveal_strlit("###");
    reveal_strlit("─╮ ");
    reveal_strlit(" ╭─");
    reveal_strlit("───");
    reveal_strlit(" ╰─");
    reveal_strlit("╱▞╱");
    reveal_strlit(" │█");
    reveal_strlit("╱▟█");
    reveal_strlit("─╯ ");
    reveal_strlit("█│ ");
    reveal_strlit("╲▚╲");
    reveal_strlit("█▙╲");
    reveal_strlit("█▛╱");
    reveal_strlit("╲▜█");
    reveal_strlit("███");
}

/// The case holds each corner's bit at that corner's place, and nothing
/// else: it lies below 16.
pub proof fn lemma_case_bits(samples: [Scalar; 4], threshold: Scalar, corner: int)
    requires
        0 <= corner < 4,
    ensures
        0 <= case_index(samples, threshold) < 16,
        case_bit(case_index(samples, threshold), corner) == corner_bit(samples[corner], threshold),
{
}

/// Raising one corner from outside to inside, with the other three corners
/// classified as before, sets that corner's bit and changes no other: the
/// case grows by exactly the corner's weight.
pub proof fn lemma_raise_corner(
    before: [Scalar; 4],
    after: [Scalar; 4],
    threshold: Scalar,
    corner: int,
)
    requires
        0 <= corner < 4,
        !before[corner].spec_gt(threshold),
        after[corner].spec_gt(threshold),
        forall|j: int|
            0 <= j < 4 && j != corner ==> corner_bit(after[j], threshold) == corner_bit(
                before[j],
                threshold,
            ),
    ensures
        case_index(after, threshold) == case_index(before, threshold) + corner_weight(corner),
        case_bit(case_index(before, threshold), corner) == 0,
        case_bit(case_index(after, threshold), corner) == 1,
        forall|j: int|
            0 <= j < 4 && j != corner ==> case_bit(case_index(after, threshold), j) == case_bit(
                case_index(before, threshold),
                j,
            ),
{
    lemma_case_bits(before, threshold, 0);
    lemma_case_bits(before, threshold, 1);
    lemma_case_bits(before, threshold, 2);
    lemma_case_bits(before, threshold, 3);
    lemma_case_bits(after, threshold, 0);
    lemma_case_bits(after, threshold, 1);
    lemma_case_bits(after, threshold, 2);
    lemma_case_bits(after, threshold, 3);
}

} // verus!
