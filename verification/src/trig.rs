//! Sine and cosine of an integer number of degrees, in fixed point.
//!
//! A quarter-wave table holds `sin(d)` for `d` in `0..=90`, each entry the
//! nearest fixed-point value; symmetry extends it to all integer degrees.
use vstd::prelude::*;
use crate::fixed::FP_ONE;

verus! {

/// The quarter-wave table: the nearest fixed-point value of `sin(d)`
/// for a degree `d` in `0..=90`.
pub open spec fn sin_table_spec(d: int) -> int {
    if d == 0 {
        0
    } else if d == 1 {
        1144
    } else if d == 2 {
        2287
    } else if d == 3 {
        3430
    } else if d == 4 {
        4572
    } else if d == 5 {
        5712
    } else if d == 6 {
        6850
    } else if d == 7 {
        7987
    } else if d == 8 {
        9121
    } else if d == 9 {
        10252
    } else if d == 10 {
        11380
    } else if d == 11 {
        12505
    } else if d == 12 {
        13626
    } else if d == 13 {
        14742
    } else if d == 14 {
        15855
    } else if d == 15 {
        16962
    } else if d == 16 {
        18064
    } else if d == 17 {
        19161
    } else if d == 18 {
        20252
    } else if d == 19 {
        21336
    } else if d == 20 {
        22415
    } else if d == 21 {
        23486
    } else if d == 22 {
        24550
    } else if d == 23 {
        25607
    } else if d == 24 {
        26656
    } else if d == 25 {
        27697
    } else if d == 26 {
        28729
    } else if d == 27 {
        29753
    } else if d == 28 {
        30767
    } else if d == 29 {
        31772
    } else if d == 30 {
        32768
    } else if d == 31 {
        33754
    } else if d == 32 {
        34729
    } else if d == 33 {
        35693
    } else if d == 34 {
        36647
    } else if d == 35 {
        37590
    } else if d == 36 {
        38521
    } else if d == 37 {
        39441
    } else if d == 38 {
        40348
    } else if d == 39 {
        41243
    } else if d == 40 {
        42126
    } else if d == 41 {
        42995
    } else if d == 42 {
        43852
    } else if d == 43 {
        44695
    } else if d == 44 {
        45525
    } else if d == 45 {
        46341
    } else if d == 46 {
        47143
    } else if d == 47 {
        47930
    } else if d == 48 {
        48703
    } else if d == 49 {
        49461
    } else if d == 50 {
        50203
    } else if d == 51 {
        50931
    } else if d == 52 {
        51643
    } else if d == 53 {
        52339
    } else if d == 54 {
        53020
    } else if d == 55 {
        53684
    } else if d == 56 {
        54332
    } else if d == 57 {
        54963
    } else if d == 58 {
        55578
    } else if d == 59 {
        56175
    } else if d == 60 {
        56756
    } else if d == 61 {
        57319
    } else if d == 62 {
        57865
    } else if d == 63 {
        58393
    } else if d == 64 {
        58903
    } else if d == 65 {
        59396
    } else if d == 66 {
        59870
    } else if d == 67 {
        60326
    } else if d == 68 {
        60764
    } else if d == 69 {
        61183
    } else if d == 70 {
        61584
    } else if d == 71 {
        61966
    } else if d == 72 {
        62328
    } else if d == 73 {
        62672
    } else if d == 74 {
        62997
    } else if d == 75 {
        63303
    } else if d == 76 {
        63589
    } else if d == 77 {
        63856
    } else if d == 78 {
        64104
    } else if d == 79 {
        64332
    } else if d == 80 {
        64540
    } else if d == 81 {
        64729
    } else if d == 82 {
        64898
    } else if d == 83 {
        65048
    } else if d == 84 {
        65177
    } else if d == 85 {
        65287
    } else if d == 86 {
        65376
    } else if d == 87 {
        65446
    } else if d == 88 {
        65496
    } else if d == 89 {
        65526
    } else {
        65536
    }
}

/// A degree reduced into `0..360`.
pub open spec fn norm_deg_spec(d: int) -> int {
    d % 360
}

/// `sin` of an integer number of degrees, by quarter-wave symmetry.
pub open spec fn sin_deg_spec(d: int) -> int {
    let r = norm_deg_spec(d);
    if r <= 90 {
        sin_table_spec(r)
    } else if r <= 180 {
        sin_table_spec(180 - r)
    } else if r <= 270 {
        -sin_table_spec(r - 180)
    } else {
        -sin_table_spec(360 - r)
    }
}

/// `cos` of an integer number of degrees, by quarter-wave symmetry.
pub open spec fn cos_deg_spec(d: int) -> int {
    let r = norm_deg_spec(d);
    if r <= 90 {
        sin_table_spec(90 - r)
    } else if r <= 180 {
        -sin_table_spec(r - 90)
    } else if r <= 270 {
        -sin_table_spec(270 - r)
    } else {
        sin_table_spec(r - 270)
    }
}

/// Table lookup for a degree already reduced to the first quadrant.
fn sin_table(d: i32) -> (r: i64)
    requires
        0 <= d <= 90,
    ensures
        r == sin_table_spec(d as int),
{
    if d == 0 {
        0
    } else if d == 1 {
        1144
    } else if d == 2 {
        2287
    } else if d == 3 {
        3430
    } else if d == 4 {
        4572
    } else if d == 5 {
        5712
    } else if d == 6 {
        6850
    } else if d == 7 {
        7987
    } else if d == 8 {
        9121
    } else if d == 9 {
        10252
    } else if d == 10 {
        11380
    } else if d == 11 {
        12505
    } else if d == 12 {
        13626
    } else if d == 13 {
        14742
    } else if d == 14 {
        15855
    } else if d == 15 {
        16962
    } else if d == 16 {
        18064
    } else if d == 17 {
        19161
    } else if d == 18 {
        20252
    } else if d == 19 {
        21336
    } else if d == 20 {
        22415
    } else if d == 21 {
        23486
    } else if d == 22 {
        24550
    } else if d == 23 {
        25607
    } else if d == 24 {
        26656
    } else if d == 25 {
        27697
    } else if d == 26 {
        28729
    } else if d == 27 {
        29753
    } else if d == 28 {
        30767
    } else if d == 29 {
        31772
    } else if d == 30 {
        32768
    } else if d == 31 {
        33754
    } else if d == 32 {
        34729
    } else if d == 33 {
        35693
    } else if d == 34 {
        36647
    } else if d == 35 {
        37590
    } else if d == 36 {
        38521
    } else if d == 37 {
        39441
    } else if d == 38 {
        40348
    } else if d == 39 {
        41243
    } else if d == 40 {
        42126
    } else if d == 41 {
        42995
    } else if d == 42 {
        43852
    } else if d == 43 {
        44695
    } else if d == 44 {
        45525
    } else if d == 45 {
        46341
    } else if d == 46 {
        47143
    } else if d == 47 {
        47930
    } else if d == 48 {
        48703
    } else if d == 49 {
        49461
    } else if d == 50 {
        50203
    } else if d == 51 {
        50931
    } else if d == 52 {
        51643
    } else if d == 53 {
        52339
    } else if d == 54 {
        53020
    } else if d == 55 {
        53684
    } else if d == 56 {
        54332
    } else if d == 57 {
        54963
    } else if d == 58 {
        55578
    } else if d == 59 {
        56175
    } else if d == 60 {
        56756
    } else if d == 61 {
        57319
    } else if d == 62 {
        57865
    } else if d == 63 {
        58393
    } else if d == 64 {
        58903
    } else if d == 65 {
        59396
    } else if d == 66 {
        59870
    } else if d == 67 {
        60326
    } else if d == 68 {
        60764
    } else if d == 69 {
        61183
    } else if d == 70 {
        61584
    } else if d == 71 {
        61966
    } else if d == 72 {
        62328
    } else if d == 73 {
        62672
    } else if d == 74 {
        62997
    } else if d == 75 {
        63303
    } else if d == 76 {
        63589
    } else if d == 77 {
        63856
    } else if d == 78 {
        64104
    } else if d == 79 {
        64332
    } else if d == 80 {
        64540
    } else if d == 81 {
        64729
    } else if d == 82 {
        64898
    } else if d == 83 {
        65048
    } else if d == 84 {
        65177
    } else if d == 85 {
        65287
    } else if d == 86 {
        65376
    } else if d == 87 {
        65446
    } else if d == 88 {
        65496
    } else if d == 89 {
        65526
    } else {
        65536
    }
}

/// Reduce a degree into `0..360`.
fn norm_deg(degree: i32) -> (r: i32)
    ensures
        r == norm_deg_spec(degree as int),
        0 <= r < 360,
{
    let t: i32 = degree % 360;
    if t < 0 {
        t + 360
    } else {
        t
    }
}

/// `sin` of an integer number of degrees, as a fixed-point value.
pub fn sin_fx(degree: i32) -> (r: i64)
    ensures
        r == sin_deg_spec(degree as int),
        -FP_ONE <= r <= FP_ONE,
{
    let n: i32 = norm_deg(degree);
    let r: i64 = if n <= 90 {
        sin_table(n)
    } else if n <= 180 {
        sin_table(180 - n)
    } else if n <= 270 {
        -sin_table(n - 180)
    } else {
        -sin_table(360 - n)
    };
    proof {
        lemma_sin_table_range(if n <= 90 { n as int } else if n <= 180 { 180 - n } else if n <= 270 { n - 180 } else { 360 - n });
    }
    r
}

/// `cos` of an integer number of degrees, as a fixed-point value.
pub fn cos_fx(degree: i32) -> (r: i64)
    ensures
        r == cos_deg_spec(degree as int),
        -FP_ONE <= r <= FP_ONE,
{
    let n: i32 = norm_deg(degree);
    let r: i64 = if n <= 90 {
        sin_table(90 - n)
    } else if n <= 180 {
        -sin_table(n - 90)
    } else if n <= 270 {
        -sin_table(270 - n)
    } else {
        sin_table(n - 270)
    };
    proof {
        lemma_sin_table_range(if n <= 90 { 90 - n as int } else if n <= 180 { n - 90 } else if n <= 270 { 270 - n } else { n - 270 });
    }
    r
}

/// Every table entry lies between 0 and the fixed-point unit.
pub proof fn lemma_sin_table_range(d: int)
    ensures
        0 <= sin_table_spec(d) <= FP_ONE,
{
}

} // verus!
