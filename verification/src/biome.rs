//! The biome pass: one sample per cell picks one of seven colour bands.
//!
//! The bands split `[0, 1)` into sevenths. Band `k` (counting from 0) is
//! the half-open interval from `k/7` to `(k+1)/7`; the first band also
//! takes everything below 0, and the last band takes everything from `6/7`
//! upwards, values of 1 and more and NaN included. Samples are not clamped
//! first. The bounds are the single-precision numbers nearest to the
//! sevenths.

use vstd::arithmetic::power2::lemma2_to64;
use vstd::prelude::*;
use crate::scalar::Scalar;

verus! {

/// The display colour of a band, in band order.
#[derive(Clone, Copy, Debug, PartialEq, Eq, Structural)]
pub enum Color {
    Red,
    Green,
    Yellow,
    Blue,
    Magenta,
    Cyan,
    White,
}

/// The number of bands.
pub const BAND_COUNT: usize = 7;

/// The encoding of the single-precision number nearest to `k/7`, for `k`
/// from 1 to 6: the lower bound of band `k`.
pub open spec fn band_bound_bits(k: int) -> u32 {
    if k == 1 {
        0x3e12_4925
    } else if k == 2 {
        0x3e92_4925
    } else if k == 3 {
        0x3edb_6db7
    } else if k == 4 {
        0x3f12_4925
    } else if k == 5 {
        0x3f36_db6e
    } else {
        0x3f5b_6db7
    }
}

/// The lower bound of band `k`, for `k` from 1 to 6.
pub open spec fn band_bound(k: int) -> Scalar {
    Scalar { bits: band_bound_bits(k) }
}

/// `sample` lies in band `band`: below the band's upper bound, if it has
/// one, and below none of the bounds under it.
pub open spec fn in_band(sample: Scalar, band: int) -> bool {
    &&& 0 <= band < 7
    &&& band < 6 ==> sample.spec_lt(band_bound(band + 1))
    &&& forall|k: int| 1 <= k <= band ==> !sample.spec_lt(#[trigger] band_bound(k))
}

/// The colour of a band.
pub open spec fn band_color(band: int) -> Color {
    if band == 0 {
        Color::Red
    } else if band == 1 {
        Color::Green
    } else if band == 2 {
        Color::Yellow
    } else if band == 3 {
        Color::Blue
    } else if band == 4 {
        Color::Magenta
    } else if band == 5 {
        Color::Cyan
    } else {
        Color::White
    }
}

/// The lower bound of band `k`.
pub fn bound(k: usize) -> (b: Scalar)
    requires
        1 <= k < BAND_COUNT,
    ensures
        b == band_bound(k as int),
{
    let bits: u32 = match k {
        1 => 0x3e12_4925,
        2 => 0x3e92_4925,
        3 => 0x3edb_6db7,
        4 => 0x3f12_4925,
        5 => 0x3f36_db6e,
        _ => 0x3f5b_6db7,
    };
    Scalar::from_bits(bits)
}

/// The band of a sample: the first band whose upper bound lies above it,
/// and the last band where none does.
pub open spec fn band_of(sample: Scalar) -> int {
    if sample.spec_lt(band_bound(1)) {
        0
    } else if sample.spec_lt(band_bound(2)) {
        1
    } else if sample.spec_lt(band_bound(3)) {
        2
    } else if sample.spec_lt(band_bound(4)) {
        3
    } else if sample.spec_lt(band_bound(5)) {
        4
    } else if sample.spec_lt(band_bound(6)) {
        5
    } else {
        6
    }
}

/// The band of a sample.
pub fn band(sample: Scalar) -> (b: usize)
    ensures
        b == band_of(sample),
        b < BAND_COUNT,
{
    let mut k: usize = 1;
    while k < BAND_COUNT
        invariant
            1 <= k <= BAND_COUNT,
            forall|j: int| 1 <= j < k ==> !sample.spec_lt(#[trigger] band_bound(j)),
        decreases BAND_COUNT - k,
    {
        if sample.lt(bound(k)) {
            return k - 1;
        }
        k = k + 1;
    }
    BAND_COUNT - 1
}

/// The colour of a sample: the colour of its band.
pub fn color(sample: Scalar) -> (c: Color)
    ensures
        c == band_color(band_of(sample)),
{
    let b: usize = band(sample);
    match b {
        0 => Color::Red,
        1 => Color::Green,
        2 => Color::Yellow,
        3 => Color::Blue,
        4 => Color::Magenta,
        5 => Color::Cyan,
        _ => Color::White,
    }
}

/// The bounds grow with `k`, and all of them lie strictly between 0 and 1.
pub proof fn lemma_bounds_increase(j: int, k: int)
    requires
        1 <= j < k <= 6,
    ensures
        band_bound(j).spec_lt(band_bound(k)),
        (Scalar { bits: 0 }).spec_lt(band_bound(j)),
        band_bound(k).spec_lt((Scalar { bits: 0x3f80_0000 })),
{
}

/// A sample lies in the band that `band_of` gives and in no other: the
/// bands are half-open, disjoint, and cover every sample.
pub proof fn lemma_band_of(sample: Scalar, b: int)
    ensures
        in_band(sample, b) <==> b == band_of(sample),
{
    if in_band(sample, b) {
        assert(forall|k: int| 1 <= k <= b ==> !sample.spec_lt(#[trigger] band_bound(k)));
        if b >= 1 {
            assert(!sample.spec_lt(band_bound(1)));
        }
        if b >= 2 {
            assert(!sample.spec_lt(band_bound(2)));
        }
        if b >= 3 {
            assert(!sample.spec_lt(band_bound(3)));
        }
        if b >= 4 {
            assert(!sample.spec_lt(band_bound(4)));
        }
        if b >= 5 {
            assert(!sample.spec_lt(band_bound(5)));
        }
        if b >= 6 {
            assert(!sample.spec_lt(band_bound(6)));
        }
    }
    if b == band_of(sample) {
        assert forall|k: int| 1 <= k <= b implies !sample.spec_lt(#[trigger] band_bound(k)) by {
            if k < b {
                lemma_bounds_increase(k, b);
            }
        }
    }
}

/// A sample that is a number lies in band `b` exactly when it is at least
/// the band's lower bound and below its upper bound; band 0 has no lower
/// bound and band 6 no upper bound. A NaN lies in band 6.
pub proof fn lemma_band_interval(sample: Scalar, b: int)
    requires
        0 <= b < 7,
    ensures
        !sample.is_nan_spec() ==> (band_of(sample) == b <==> (b > 0 ==> band_bound(b).key()
            <= sample.key()) && (b < 6 ==> sample.key() < band_bound(b + 1).key())),
        sample.is_nan_spec() ==> band_of(sample) == 6,
{
}

/// Each bound is a single-precision number nearest to its seventh.
pub proof fn lemma_bounds_round_sevenths(k: int)
    requires
        1 <= k <= 6,
    ensures
        band_bound(k).rounds(k, 7),
{
    lemma2_to64();
    if k == 1 {
        assert(band_bound(1).exponent_spec() == 124);
    } else if k == 2 {
        assert(band_bound(2).exponent_spec() == 125);
    } else if k == 3 {
        assert(band_bound(3).exponent_spec() == 125);
    } else if k == 4 {
        assert(band_bound(4).exponent_spec() == 126);
    } else if k == 5 {
        assert(band_bound(5).exponent_spec() == 126);
    } else {
        assert(band_bound(6).exponent_spec() == 126);
    }
}

} // verus!
