//! The PM2.5 breakpoint table and the Air Quality Index computed from it.
//!
//! Concentrations are looked up in tenths of a µg/m³, so that a value on a
//! breakpoint belongs to exactly one row of the table.
use crate::number::Ratio;
use vstd::prelude::*;

verus! {

/// Number of rows in the breakpoint table.
pub const BUCKETS: usize = 7;

/// PM2.5 concentration range of each row, in tenths of a µg/m³, both ends
/// inclusive.
pub const CONCENTRATION_LIMITS: [(i32, i32); 7] = [
    (0, 120),
    (121, 354),
    (355, 554),
    (555, 1504),
    (1505, 2504),
    (2505, 3504),
    (3505, 5004),
];

/// Index range of each row, paired with `CONCENTRATION_LIMITS` row by row.
pub const AQI_LIMITS: [(i32, i32); 7] = [
    (0, 50),
    (51, 100),
    (101, 150),
    (151, 200),
    (201, 300),
    (301, 400),
    (401, 500),
];

/// Whether `tenths` lies in row `i` of the table.
pub open spec fn in_bucket(tenths: int, i: int) -> bool {
    &&& 0 <= i < BUCKETS
    &&& CONCENTRATION_LIMITS[i].0 <= tenths <= CONCENTRATION_LIMITS[i].1
}

/// The first row at or after `from` that holds `tenths`, or the last row
/// when there is none.
pub open spec fn first_bucket_from(tenths: int, from: int) -> int
    decreases BUCKETS - from,
{
    if from < 0 || from >= BUCKETS {
        BUCKETS - 1
    } else if in_bucket(tenths, from) {
        from
    } else {
        first_bucket_from(tenths, from + 1)
    }
}

/// The row in which `tenths` is interpolated: the first row that holds it,
/// and the last row for a value that no row holds.
pub open spec fn bucket_of(tenths: int) -> int {
    first_bucket_from(tenths, 0)
}

/// Denominator of the index for `tenths`: the width of its row.
pub open spec fn aqi_denom(tenths: int) -> int {
    let i = bucket_of(tenths);
    CONCENTRATION_LIMITS[i].1 - CONCENTRATION_LIMITS[i].0
}

/// Numerator of the index for `tenths` over `aqi_denom(tenths)`.
///
/// With `(c_low, c_high)` and `(i_low, i_high)` the row of `tenths`, the
/// index is `(i_high - i_low) * (tenths - c_low) / (c_high - c_low) + i_low`;
/// this is that value with the division left undone.
pub open spec fn aqi_numer(tenths: int) -> int {
    let i = bucket_of(tenths);
    let c_low = CONCENTRATION_LIMITS[i].0;
    let c_high = CONCENTRATION_LIMITS[i].1;
    let i_low = AQI_LIMITS[i].0;
    let i_high = AQI_LIMITS[i].1;
    (i_high - i_low) * (tenths - c_low) + i_low * (c_high - c_low)
}

/// `bucket_of(tenths)` is a row of the table; it is the first row that holds
/// `tenths` when some row does, and the last row otherwise.
pub proof fn lemma_bucket_of_is_first_match(tenths: int)
    ensures
        0 <= bucket_of(tenths) < BUCKETS,
        (exists|j: int| in_bucket(tenths, j)) ==> in_bucket(tenths, bucket_of(tenths)),
        forall|j: int| 0 <= j < bucket_of(tenths) ==> !in_bucket(tenths, j),
        (forall|j: int| !in_bucket(tenths, j)) ==> bucket_of(tenths) == BUCKETS - 1,
{
    reveal_with_fuel(first_bucket_from, 8);
}

/// Every whole number of tenths from 0 to 5004 lies in exactly one row of
/// the table, and that row is the one it is interpolated in.
pub proof fn lemma_buckets_partition(tenths: int)
    requires
        0 <= tenths <= 5004,
    ensures
        in_bucket(tenths, bucket_of(tenths)),
        forall|j: int| in_bucket(tenths, j) ==> j == bucket_of(tenths),
{
    reveal_with_fuel(first_bucket_from, 8);
}

/// Neighbouring rows meet without gap or overlap: a row ends one tenth
/// below the start of the next, and each of the two boundary values is
/// interpolated in its own row.
pub proof fn lemma_rows_adjacent(i: int)
    requires
        0 <= i < BUCKETS - 1,
    ensures
        CONCENTRATION_LIMITS[i].1 + 1 == CONCENTRATION_LIMITS[i + 1].0,
        bucket_of(CONCENTRATION_LIMITS[i].1 as int) == i,
        bucket_of(CONCENTRATION_LIMITS[i + 1].0 as int) == i + 1,
{
    reveal_with_fuel(first_bucket_from, 8);
}

/// At the two ends of a row the index is exactly the row's lower and upper
/// index bound.
pub proof fn lemma_aqi_at_row_ends(i: int)
    requires
        0 <= i < BUCKETS,
    ensures
        aqi_numer(CONCENTRATION_LIMITS[i].0 as int) == AQI_LIMITS[i].0 * aqi_denom(
            CONCENTRATION_LIMITS[i].0 as int,
        ),
        aqi_numer(CONCENTRATION_LIMITS[i].1 as int) == AQI_LIMITS[i].1 * aqi_denom(
            CONCENTRATION_LIMITS[i].1 as int,
        ),
{
    let c_low = CONCENTRATION_LIMITS[i].0 as int;
    let c_high = CONCENTRATION_LIMITS[i].1 as int;
    let i_low = AQI_LIMITS[i].0 as int;
    let i_high = AQI_LIMITS[i].1 as int;
    assert(bucket_of(c_low) == i && bucket_of(c_high) == i) by {
        reveal_with_fuel(first_bucket_from, 8);
    }
    assert((i_high - i_low) * (c_low - c_low) + i_low * (c_high - c_low) == i_low * (c_high
        - c_low)) by (nonlinear_arith);
    assert((i_high - i_low) * (c_high - c_low) + i_low * (c_high - c_low) == i_high * (c_high
        - c_low)) by (nonlinear_arith);
}

/// A value below zero or above the table is interpolated in the last row.
pub proof fn lemma_outside_table_uses_last_row(tenths: int)
    requires
        tenths < 0 || tenths > 5004,
    ensures
        bucket_of(tenths) == BUCKETS - 1,
{
    reveal_with_fuel(first_bucket_from, 8);
}

/// The row of the breakpoint table in which `tenths` is interpolated.
pub fn aqi_bucket(tenths: i32) -> (i: usize)
    ensures
        i == bucket_of(tenths as int),
        i < BUCKETS,
{
    let mut i: usize = 0;
    while i < BUCKETS
        invariant
            i <= BUCKETS,
            bucket_of(tenths as int) == first_bucket_from(tenths as int, i as int),
        decreases BUCKETS - i,
    {
        let (low, high) = CONCENTRATION_LIMITS[i];
        if low <= tenths && tenths <= high {
            return i;
        }
        i += 1;
    }
    BUCKETS - 1
}

/// The Air Quality Index of a concentration given in whole tenths of a
/// µg/m³, by linear interpolation within its row.
pub fn aqi_from_tenths(tenths: i32) -> (r: Ratio)
    ensures
        r.numer() == aqi_numer(tenths as int),
        r.denom() == aqi_denom(tenths as int),
{
    let i = aqi_bucket(tenths);
    let (c_low, c_high) = CONCENTRATION_LIMITS[i];
    let (i_low, i_high) = AQI_LIMITS[i];
    let width: i128 = (c_high - c_low) as i128;
    let rise: i128 = (i_high - i_low) as i128;
    let run: i128 = tenths as i128 - c_low as i128;
    assert(-500_000_000_000 <= rise * run <= 500_000_000_000) by (nonlinear_arith)
        requires
            0 <= rise <= 100,
            -5_000_000_000 <= run <= 5_000_000_000,
    ;
    assert(0 <= i_low * width <= 1_000_000) by (nonlinear_arith)
        requires
            0 <= i_low <= 500,
            0 <= width <= 2000,
    ;
    let num: i128 = rise * run + i_low as i128 * width;
    Ratio::new(num, (c_high - c_low) as u64).unwrap()
}

} // verus!
