use purpleair::aqi::aqi_bucket;
use purpleair::aqi::aqi_from_tenths;
use purpleair::aqi::AQI_LIMITS;
use purpleair::aqi::BUCKETS;
use purpleair::aqi::CONCENTRATION_LIMITS;
use purpleair::lan::LanMeasurement;
use purpleair::measurement::Measurement;
use purpleair::number::Binary64;
use purpleair::number::Fixed;
use purpleair::number::Ratio;

fn decimal(x: f64) -> Fixed {
    Fixed::from_binary64(Binary64 { bits: x.to_bits() })
}

fn value(r: Ratio) -> f64 {
    r.num() as f64 / r.den() as f64
}

fn aqi_of(pm: f64) -> Ratio {
    <LanMeasurement as Measurement>::get_aqi(decimal(pm).to_ratio())
}

/// The index as it is computed in floating point, for comparison.
fn float_aqi(pm: f64) -> f64 {
    let tenths = (10.0 * pm) as i32;
    let mut idx = CONCENTRATION_LIMITS.len() - 1;
    for (i, (low, high)) in CONCENTRATION_LIMITS.iter().enumerate() {
        if tenths >= *low && tenths <= *high {
            idx = i;
            break;
        }
    }
    let c_low = CONCENTRATION_LIMITS[idx].0 as f64 / 10.0;
    let c_high = CONCENTRATION_LIMITS[idx].1 as f64 / 10.0;
    let i_low = AQI_LIMITS[idx].0 as f64;
    let i_high = AQI_LIMITS[idx].1 as f64;
    let pm = tenths as f64 / 10.0;
    (i_high - i_low) * (pm - c_low) / (c_high - c_low) + i_low
}

#[test]
fn table_has_seven_paired_rows() {
    assert_eq!(BUCKETS, 7);
    assert_eq!(CONCENTRATION_LIMITS.len(), AQI_LIMITS.len());
    assert_eq!(CONCENTRATION_LIMITS[0], (0, 120));
    assert_eq!(CONCENTRATION_LIMITS[6], (3505, 5004));
    assert_eq!(AQI_LIMITS[0], (0, 50));
    assert_eq!(AQI_LIMITS[6], (401, 500));
}

#[test]
fn bucket_at_every_boundary() {
    for (i, (low, high)) in CONCENTRATION_LIMITS.iter().enumerate() {
        assert_eq!(aqi_bucket(*low), i);
        assert_eq!(aqi_bucket(*high), i);
        assert_eq!(aqi_bucket((*low + *high) / 2), i);
    }
}

#[test]
fn every_tenth_in_the_table_has_one_bucket() {
    for tenths in 0..=5004 {
        let holding: Vec<usize> = (0..BUCKETS)
            .filter(|i| {
                CONCENTRATION_LIMITS[*i].0 <= tenths && tenths <= CONCENTRATION_LIMITS[*i].1
            })
            .collect();
        assert_eq!(holding, vec![aqi_bucket(tenths)]);
    }
}

#[test]
fn bucket_outside_the_table_is_the_last() {
    assert_eq!(aqi_bucket(5005), 6);
    assert_eq!(aqi_bucket(-1), 6);
    assert_eq!(aqi_bucket(i32::MAX), 6);
    assert_eq!(aqi_bucket(i32::MIN), 6);
}

#[test]
fn aqi_of_zero_is_zero() {
    let index = aqi_of(0.0);
    assert_eq!(index.num(), 0);
    assert_eq!(index.den(), 120);
    assert_eq!(value(index), 0.0);
}

#[test]
fn aqi_at_top_of_table_is_500() {
    let index = aqi_of(500.4);
    assert_eq!(index.den(), 1499);
    assert_eq!(index.num(), 500 * 1499);
    assert_eq!(value(index), 500.0);
}

#[test]
fn aqi_at_breakpoints() {
    assert_eq!(value(aqi_of(12.0)), 50.0);
    assert_eq!(value(aqi_of(12.1)), 51.0);
    assert_eq!(value(aqi_of(35.4)), 100.0);
    assert_eq!(value(aqi_of(35.5)), 101.0);
    assert_eq!(value(aqi_of(55.4)), 150.0);
    assert_eq!(value(aqi_of(55.5)), 151.0);
    assert_eq!(value(aqi_of(150.4)), 200.0);
    assert_eq!(value(aqi_of(150.5)), 201.0);
    assert_eq!(value(aqi_of(250.4)), 300.0);
    assert_eq!(value(aqi_of(250.5)), 301.0);
    assert_eq!(value(aqi_of(350.4)), 400.0);
    assert_eq!(value(aqi_of(350.5)), 401.0);
}

#[test]
fn aqi_inside_a_row_is_interpolated() {
    // 20.0 µg/m³: (100 - 51) * (200 - 121) / (354 - 121) + 51
    let index = aqi_of(20.0);
    assert_eq!(index.den(), 233);
    assert_eq!(index.num(), 49 * 79 + 51 * 233);
    assert!((value(index) - 67.61373390557939).abs() < 1e-12);
}

#[test]
fn aqi_cuts_the_concentration_to_tenths() {
    let cut = aqi_of(12.09);
    let whole = aqi_of(12.0);
    assert_eq!((cut.num(), cut.den()), (whole.num(), whole.den()));
    let cut = aqi_of(35.49999);
    assert_eq!(value(cut), 100.0);
}

#[test]
fn aqi_beyond_the_table_follows_the_last_row() {
    // 600.0 µg/m³: (500 - 401) * (6000 - 3505) / (5004 - 3505) + 401
    let index = aqi_of(600.0);
    assert_eq!(index.den(), 1499);
    assert_eq!(index.num(), 99 * 2495 + 401 * 1499);
    assert!(value(index) > 500.0);
}

#[test]
fn aqi_below_zero_follows_the_last_row() {
    let index = aqi_from_tenths(-10);
    assert_eq!(index.den(), 1499);
    assert_eq!(index.num(), 99 * (-10 - 3505) + 401 * 1499);
}

#[test]
fn aqi_from_tenths_at_row_ends_is_the_index_bound() {
    for i in 0..BUCKETS {
        let low = aqi_from_tenths(CONCENTRATION_LIMITS[i].0);
        assert_eq!(low.num(), AQI_LIMITS[i].0 as i128 * low.den() as i128);
        let high = aqi_from_tenths(CONCENTRATION_LIMITS[i].1);
        assert_eq!(high.num(), AQI_LIMITS[i].1 as i128 * high.den() as i128);
    }
}

#[test]
fn aqi_agrees_with_floating_point() {
    // Concentrations half way between two tenths, where no rounding of a
    // float can move the cut.
    for k in 0..7000 {
        let pm = (k * 10 + 5) as f64 / 100.0;
        let exact = value(aqi_of(pm));
        let float = float_aqi(pm);
        assert!((exact - float).abs() < 1e-9, "{} {} {}", pm, exact, float);
    }
}
