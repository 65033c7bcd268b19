//! Degree-based trigonometry in 16.16 fixed point.
//!
//! The movement system reads angles as whole degrees, reduced mod 360.
//! Sine and cosine are a quarter-wave table at one-degree resolution,
//! scaled by [`crate::fixed::FX_ONE`], extended to the full circle by
//! symmetry.  The exact cardinal values (0, +-65536) fall out of the
//! table, which is all the flat-floor physics relies on; between whole
//! degrees the table is the crate's documented angle resolution.

use vstd::prelude::*;
use crate::fixed::{sgn, FX_ONE};

verus! {

/// Quarter-wave sine table: `sin(d degrees) * 65536`, rounded to the
/// nearest integer, for `0 <= d <= 90`.
pub open spec fn sin_q(d: int) -> int {
    if d == 0 {
        0
    } else if d == 1 {
        1144
    } else if d == 2 {
        2287
    } else if d == 3 {
        3430
    } else if d == 4 {
        4572
    } else if d == 5 {
        5712
    } else if d == 6 {
        6850
    } else if d == 7 {
        7987
    } else if d == 8 {
        9121
    } else if d == 9 {
        10252
    } else if d == 10 {
        11380
    } else if d == 11 {
        12505
    } else if d == 12 {
        13626
    } else if d == 13 {
        14742
    } else if d == 14 {
        15855
    } else if d == 15 {
        16962
    } else if d == 16 {
        18064
    } else if d == 17 {
        19161
    } else if d == 18 {
        20252
    } else if d == 19 {
        21336
    } else if d == 20 {
        22415
    } else if d == 21 {
        23486
    } else if d == 22 {
        24550
    } else if d == 23 {
        25607
    } else if d == 24 {
        26656
    } else if d == 25 {
        27697
    } else if d == 26 {
        28729
    } else if d == 27 {
        29753
    } else if d == 28 {
        30767
    } else if d == 29 {
        31772
    } else if d == 30 {
        32768
    } else if d == 31 {
        33754
    } else if d == 32 {
        34729
    } else if d == 33 {
        35693
    } else if d == 34 {
        36647
    } else if d == 35 {
        37590
    } else if d == 36 {
        38521
    } else if d == 37 {
        39441
    } else if d == 38 {
        40348
    } else if d == 39 {
        41243
    } else if d == 40 {
        42126
    } else if d == 41 {
        42995
    } else if d == 42 {
        43852
    } else if d == 43 {
        44695
    } else if d == 44 {
        45525
    } else if d == 45 {
        46341
    } else if d == 46 {
        47143
    } else if d == 47 {
        47930
    } else if d == 48 {
        48703
    } else if d == 49 {
        49461
    } else if d == 50 {
        50203
    } else if d == 51 {
        50931
    } else if d == 52 {
        51643
    } else if d == 53 {
        52339
    } else if d == 54 {
        53020
    } else if d == 55 {
        53684
    } else if d == 56 {
        54332
    } else if d == 57 {
        54963
    } else if d == 58 {
        55578
    } else if d == 59 {
        56175
    } else if d == 60 {
        56756
    } else if d == 61 {
        57319
    } else if d == 62 {
        57865
    } else if d == 63 {
        58393
    } else if d == 64 {
        58903
    } else if d == 65 {
        59396
    } else if d == 66 {
        59870
    } else if d == 67 {
        60326
    } else if d == 68 {
        60764
    } else if d == 69 {
        61183
    } else if d == 70 {
        61584
    } else if d == 71 {
        61966
    } else if d == 72 {
        62328
    } else if d == 73 {
        62672
    } else if d == 74 {
        62997
    } else if d == 75 {
        63303
    } else if d == 76 {
        63589
    } else if d == 77 {
        63856
    } else if d == 78 {
        64104
    } else if d == 79 {
        64332
    } else if d == 80 {
        64540
    } else if d == 81 {
        64729
    } else if d == 82 {
        64898
    } else if d == 83 {
        65048
    } else if d == 84 {
        65177
    } else if d == 85 {
        65287
    } else if d == 86 {
        65376
    } else if d == 87 {
        65446
    } else if d == 88 {
        65496
    } else if d == 89 {
        65526
    } else {
        65536
    }
}

/// Full-circle sine of a whole-degree angle, scaled by 65536.
pub open spec fn sin_deg(a: int) -> int
    recommends
        0 <= a < 360,
{
    if a <= 90 {
        sin_q(a)
    } else if a <= 180 {
        sin_q(180 - a)
    } else if a <= 270 {
        -sin_q(a - 180)
    } else {
        -sin_q(360 - a)
    }
}

/// Full-circle cosine of a whole-degree angle, scaled by 65536.
pub open spec fn cos_deg(a: int) -> int
    recommends
        0 <= a < 360,
{
    sin_deg(if a + 90 < 360 { a + 90 } else { a - 270 })
}

/// The table stays within one fixed-point unit and is strictly positive
/// away from zero degrees.
pub proof fn lemma_sin_q_bounds(d: int)
    requires
        0 <= d <= 90,
    ensures
        0 <= sin_q(d) <= FX_ONE,
        d > 0 ==> sin_q(d) > 0,
{
}

/// Sine stays within one fixed-point unit over the whole circle.
pub proof fn lemma_sin_deg_bounds(a: int)
    requires
        0 <= a < 360,
    ensures
        -FX_ONE <= sin_deg(a) <= FX_ONE,
{
    if a <= 90 {
        lemma_sin_q_bounds(a);
    } else if a <= 180 {
        lemma_sin_q_bounds(180 - a);
    } else if a <= 270 {
        lemma_sin_q_bounds(a - 180);
    } else {
        lemma_sin_q_bounds(360 - a);
    }
}

/// Cosine stays within one fixed-point unit over the whole circle.
pub proof fn lemma_cos_deg_bounds(a: int)
    requires
        0 <= a < 360,
    ensures
        -FX_ONE <= cos_deg(a) <= FX_ONE,
{
    lemma_sin_deg_bounds(if a + 90 < 360 { a + 90 } else { a - 270 });
}

/// The sign of the tabulated sine agrees with the geometric one: positive
/// in the lower half-circle, negative in the upper, zero at 0 and 180.
pub proof fn lemma_sin_deg_sign(a: int)
    requires
        0 <= a < 360,
    ensures
        sgn(sin_deg(a)) == (if a == 0 || a == 180 {
            0int
        } else if a < 180 {
            1int
        } else {
            -1int
        }),
{
    if a <= 90 {
        lemma_sin_q_bounds(a);
    } else if a <= 180 {
        lemma_sin_q_bounds(180 - a);
    } else if a <= 270 {
        lemma_sin_q_bounds(a - 180);
    } else {
        lemma_sin_q_bounds(360 - a);
    }
}

/// Table lookup for the first quadrant.
fn sin_lookup(d: u16) -> (r: i64)
    requires
        d <= 90,
    ensures
        r == sin_q(d as int),
{
    if d == 0 {
        0
    } else if d == 1 {
        1144
    } else if d == 2 {
        2287
    } else if d == 3 {
        3430
    } else if d == 4 {
        4572
    } else if d == 5 {
        5712
    } else if d == 6 {
        6850
    } else if d == 7 {
        7987
    } else if d == 8 {
        9121
    } else if d == 9 {
        10252
    } else if d == 10 {
        11380
    } else if d == 11 {
        12505
    } else if d == 12 {
        13626
    } else if d == 13 {
        14742
    } else if d == 14 {
        15855
    } else if d == 15 {
        16962
    } else if d == 16 {
        18064
    } else if d == 17 {
        19161
    } else if d == 18 {
        20252
    } else if d == 19 {
        21336
    } else if d == 20 {
        22415
    } else if d == 21 {
        23486
    } else if d == 22 {
        24550
    } else if d == 23 {
        25607
    } else if d == 24 {
        26656
    } else if d == 25 {
        27697
    } else if d == 26 {
        28729
    } else if d == 27 {
        29753
    } else if d == 28 {
        30767
    } else if d == 29 {
        31772
    } else if d == 30 {
        32768
    } else if d == 31 {
        33754
    } else if d == 32 {
        34729
    } else if d == 33 {
        35693
    } else if d == 34 {
        36647
    } else if d == 35 {
        37590
    } else if d == 36 {
        38521
    } else if d == 37 {
        39441
    } else if d == 38 {
        40348
    } else if d == 39 {
        41243
    } else if d == 40 {
        42126
    } else if d == 41 {
        42995
    } else if d == 42 {
        43852
    } else if d == 43 {
        44695
    } else if d == 44 {
        45525
    } else if d == 45 {
        46341
    } else if d == 46 {
        47143
    } else if d == 47 {
        47930
    } else if d == 48 {
        48703
    } else if d == 49 {
        49461
    } else if d == 50 {
        50203
    } else if d == 51 {
        50931
    } else if d == 52 {
        51643
    } else if d == 53 {
        52339
    } else if d == 54 {
        53020
    } else if d == 55 {
        53684
    } else if d == 56 {
        54332
    } else if d == 57 {
        54963
    } else if d == 58 {
        55578
    } else if d == 59 {
        56175
    } else if d == 60 {
        56756
    } else if d == 61 {
        57319
    } else if d == 62 {
        57865
    } else if d == 63 {
        58393
    } else if d == 64 {
        58903
    } else if d == 65 {
        59396
    } else if d == 66 {
        59870
    } else if d == 67 {
        60326
    } else if d == 68 {
        60764
    } else if d == 69 {
        61183
    } else if d == 70 {
        61584
    } else if d == 71 {
        61966
    } else if d == 72 {
        62328
    } else if d == 73 {
        62672
    } else if d == 74 {
        62997
    } else if d == 75 {
        63303
    } else if d == 76 {
        63589
    } else if d == 77 {
        63856
    } else if d == 78 {
        64104
    } else if d == 79 {
        64332
    } else if d == 80 {
        64540
    } else if d == 81 {
        64729
    } else if d == 82 {
        64898
    } else if d == 83 {
        65048
    } else if d == 84 {
        65177
    } else if d == 85 {
        65287
    } else if d == 86 {
        65376
    } else if d == 87 {
        65446
    } else if d == 88 {
        65496
    } else if d == 89 {
        65526
    } else {
        65536
    }
}

/// Sine of a whole-degree angle, scaled by 65536.
pub fn sin_fx(angle: u16) -> (r: i64)
    requires
        angle < 360,
    ensures
        r == sin_deg(angle as int),
{
    if angle <= 90 {
        sin_lookup(angle)
    } else if angle <= 180 {
        sin_lookup(180 - angle)
    } else if angle <= 270 {
        -sin_lookup(angle - 180)
    } else {
        -sin_lookup(360 - angle)
    }
}

/// Cosine of a whole-degree angle, scaled by 65536.
pub fn cos_fx(angle: u16) -> (r: i64)
    requires
        angle < 360,
    ensures
        r == cos_deg(angle as int),
{
    if angle >= 270 {
        sin_fx(angle - 270)
    } else {
        sin_fx(angle + 90)
    }
}

} // verus!
