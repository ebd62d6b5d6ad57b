use purpleair::lan::LanMeasurement;
use purpleair::measurement::f_to_c;
use purpleair::measurement::Channel;
use purpleair::measurement::Measurement;
use purpleair::measurement::PmSize;
use purpleair::measurement::PmType;
use purpleair::measurement::SchemaError;
use purpleair::measurement::CHANNELS;
use purpleair::measurement::PM_SIZES;
use purpleair::measurement::PM_TYPES;
use purpleair::number::Binary64;
use purpleair::number::Fixed;
use purpleair::number::Ratio;
use purpleair::timestamp::Timestamp;

fn float(x: f64) -> Binary64 {
    Binary64 { bits: x.to_bits() }
}

fn decimal(x: f64) -> Fixed {
    Fixed::from_binary64(Binary64 { bits: x.to_bits() })
}

fn value(r: Ratio) -> f64 {
    r.num() as f64 / r.den() as f64
}

fn epa(a: f64, b: f64, humidity: i64) -> Ratio {
    <LanMeasurement as Measurement>::get_epa_correction(decimal(a), decimal(b), humidity)
}

/// A source with fixed readings, where a channel may report no mass.
struct Fake {
    mass_a: Result<Option<Binary64>, SchemaError>,
    mass_b: Result<Option<Binary64>, SchemaError>,
    humidity: Result<i64, SchemaError>,
    temp_f: Result<i64, SchemaError>,
}

impl Measurement for Fake {
    fn spec_temp_f(&self) -> Result<i64, SchemaError> {
        self.temp_f
    }

    fn spec_humidity(&self) -> Result<i64, SchemaError> {
        self.humidity
    }

    fn spec_dew_point_f(&self) -> Result<i64, SchemaError> {
        Ok(32)
    }

    fn spec_particulate_mass(
        &self,
        pm_size: PmSize,
        pm_type: PmType,
        channel: Channel,
    ) -> Result<Option<Binary64>, SchemaError> {
        self.particulate_mass(pm_size, pm_type, channel)
    }

    fn sensor_id(&self) -> Result<String, SchemaError> {
        Ok(String::from("fake"))
    }

    fn timestamp(&self) -> Result<Timestamp, SchemaError> {
        Ok(Timestamp { secs: 0, nanos: 0 })
    }

    fn latitude(&self) -> Result<Binary64, SchemaError> {
        Ok(float(0.0))
    }

    fn longitude(&self) -> Result<Binary64, SchemaError> {
        Ok(float(0.0))
    }

    fn place(&self) -> Result<String, SchemaError> {
        Ok(String::from("inside"))
    }

    fn rssi(&self) -> Result<i64, SchemaError> {
        Ok(-60)
    }

    fn uptime(&self) -> Result<u64, SchemaError> {
        Ok(1)
    }

    fn temp_f(&self) -> Result<i64, SchemaError> {
        self.temp_f
    }

    fn humidity(&self) -> Result<i64, SchemaError> {
        self.humidity
    }

    fn dew_point_f(&self) -> Result<i64, SchemaError> {
        Ok(32)
    }

    fn pressure(&self) -> Result<Binary64, SchemaError> {
        Ok(float(0.0))
    }

    fn pm_2v5_aqi(&self, _channel: Channel) -> Result<Option<Ratio>, SchemaError> {
        Ok(None)
    }

    fn particulate_mass(
        &self,
        pm_size: PmSize,
        pm_type: PmType,
        channel: Channel,
    ) -> Result<Option<Binary64>, SchemaError> {
        match (pm_size, pm_type, channel) {
            (PmSize::Pm2v5, PmType::Cf1, Channel::A) => self.mass_a,
            (PmSize::Pm2v5, PmType::Cf1, Channel::B) => self.mass_b,
            _ => Ok(None),
        }
    }

    fn particle_count(
        &self,
        _pm_size: PmSize,
        _channel: Channel,
    ) -> Result<Option<Binary64>, SchemaError> {
        Ok(None)
    }
}

fn fake(a: Option<f64>, b: Option<f64>) -> Fake {
    Fake {
        mass_a: Ok(a.map(float)),
        mass_b: Ok(b.map(float)),
        humidity: Ok(50),
        temp_f: Ok(212),
    }
}

#[test]
fn lists_hold_every_value_once() {
    assert_eq!(
        PM_SIZES,
        [
            PmSize::Pm0v3,
            PmSize::Pm0v5,
            PmSize::Pm1v0,
            PmSize::Pm2v5,
            PmSize::Pm5v0,
            PmSize::Pm10v0
        ]
    );
    assert_eq!(PM_TYPES, [PmType::Atm, PmType::Cf1]);
    assert_eq!(CHANNELS, [Channel::A, Channel::B]);
}

#[test]
fn size_strings() {
    assert_eq!(PmSize::Pm0v3.string(), "0_3");
    assert_eq!(PmSize::Pm0v5.string(), "0_5");
    assert_eq!(PmSize::Pm1v0.string(), "1_0");
    assert_eq!(PmSize::Pm2v5.string(), "2_5");
    assert_eq!(PmSize::Pm5v0.string(), "5_0");
    assert_eq!(PmSize::Pm10v0.string(), "10_0");
}

#[test]
fn type_strings() {
    assert_eq!(PmType::Atm.string(), "atm");
    assert_eq!(PmType::Cf1.string(), "cf_1");
}

#[test]
fn channel_strings() {
    assert_eq!(Channel::A.string(), "");
    assert_eq!(Channel::B.string(), "_b");
}

#[test]
fn celsius_of_freezing_and_boiling() {
    let freezing = f_to_c(32);
    assert_eq!((freezing.num(), freezing.den()), (0, 9));
    assert_eq!(value(freezing), 0.0);
    let boiling = f_to_c(212);
    assert_eq!((boiling.num(), boiling.den()), (900, 9));
    assert_eq!(value(boiling), 100.0);
}

#[test]
fn celsius_below_freezing_and_at_the_limits() {
    let c = f_to_c(-40);
    assert_eq!(value(c), -40.0);
    let c = f_to_c(0);
    assert_eq!((c.num(), c.den()), (-160, 9));
    let c = f_to_c(i64::MAX);
    assert_eq!(c.num(), (i64::MAX as i128 - 32) * 5);
    let c = f_to_c(i64::MIN);
    assert_eq!(c.num(), (i64::MIN as i128 - 32) * 5);
}

#[test]
fn epa_correction_formula() {
    // 0.52 * (10 + 20) / 2 - 0.085 * 50 + 5.71 = 9.26
    let corrected = epa(10.0, 20.0, 50);
    assert_eq!(corrected.den(), 1_000_000_000);
    assert_eq!(corrected.num(), 9_260_000_000);
    // 0.52 * 12.345 - 0.085 * 33 + 5.71 = 9.3244
    let corrected = epa(12.34, 12.35, 33);
    assert_eq!(corrected.num(), 9_324_400_000);
    let float = 0.52 * ((12.34 + 12.35) / 2.0) - 0.085 * 33.0 + 5.71;
    assert!((value(corrected) - float).abs() < 1e-9);
}

#[test]
fn epa_correction_is_symmetric() {
    let ab = epa(3.21, 48.5, 61);
    let ba = epa(48.5, 3.21, 61);
    assert_eq!((ab.num(), ab.den()), (ba.num(), ba.den()));
}

#[test]
fn epa_correction_is_floored_at_zero() {
    // 0.52 * 0 - 0.085 * 100 + 5.71 = -2.79
    let corrected = epa(0.0, 0.0, 100);
    assert_eq!((corrected.num(), corrected.den()), (0, 1_000_000_000));
    // Just above and just below zero: 0.085 * h = 5.71 + 0.26 * (a + b).
    let corrected = epa(0.0, 0.0, 67);
    assert_eq!(corrected.num(), 15_000_000);
    let corrected = epa(0.0, 0.0, 68);
    assert_eq!(corrected.num(), 0);
    let corrected = epa(-1000.0, -1000.0, 0);
    assert_eq!(corrected.num(), 0);
}

#[test]
fn epa_correction_at_the_limits() {
    let max = Fixed { micros: i64::MAX };
    let min = Fixed { micros: i64::MIN };
    let big = <Fake as Measurement>::get_epa_correction(max, max, i64::MIN);
    assert_eq!(
        big.num(),
        260 * (2 * i64::MAX as i128) - 85_000_000 * (i64::MIN as i128) + 5_710_000_000
    );
    let small = <Fake as Measurement>::get_epa_correction(min, min, i64::MAX);
    assert_eq!(small.num(), 0);
}

#[test]
fn correction_of_a_reading_with_both_channels() {
    let m = fake(Some(10.0), Some(20.0));
    let corrected = m.pm_2v5_epa_correction().unwrap().unwrap();
    assert_eq!(corrected.num(), 9_260_000_000);
    // 9.26 µg/m³ is cut to 92 tenths: (50 - 0) * 92 / 120
    let index = m.pm_2v5_aqi_epa().unwrap().unwrap();
    assert_eq!((index.num(), index.den()), (50 * 92, 120));
}

#[test]
fn correction_is_absent_without_channel_b() {
    let m = fake(Some(10.0), None);
    assert!(m.pm_2v5_epa_correction().unwrap().is_none());
    assert!(m.pm_2v5_aqi_epa().unwrap().is_none());
}

#[test]
fn correction_is_absent_without_channel_a() {
    let m = fake(None, Some(10.0));
    assert!(m.pm_2v5_epa_correction().unwrap().is_none());
    assert!(m.pm_2v5_aqi_epa().unwrap().is_none());
}

#[test]
fn correction_is_absent_without_both_channels() {
    let m = fake(None, None);
    assert!(m.pm_2v5_epa_correction().unwrap().is_none());
}

#[test]
fn absent_correction_does_not_read_the_humidity() {
    let mut m = fake(Some(10.0), None);
    m.humidity = Err(SchemaError::MissingKey);
    assert!(m.pm_2v5_epa_correction().unwrap().is_none());
}

#[test]
fn correction_reports_the_first_failed_read() {
    let mut m = fake(Some(10.0), Some(20.0));
    m.humidity = Err(SchemaError::WrongType);
    assert_eq!(m.pm_2v5_epa_correction().unwrap_err(), SchemaError::WrongType);
    assert_eq!(m.pm_2v5_aqi_epa().unwrap_err(), SchemaError::WrongType);
    m.mass_b = Err(SchemaError::MissingKey);
    assert_eq!(m.pm_2v5_epa_correction().unwrap_err(), SchemaError::MissingKey);
    m.mass_a = Err(SchemaError::InvalidTimestamp);
    assert_eq!(m.pm_2v5_epa_correction().unwrap_err(), SchemaError::InvalidTimestamp);
    let mut m = fake(None, Some(20.0));
    m.mass_b = Err(SchemaError::MissingKey);
    assert_eq!(m.pm_2v5_epa_correction().unwrap_err(), SchemaError::MissingKey);
}

#[test]
fn celsius_of_a_reading() {
    let mut m = fake(None, None);
    assert_eq!(value(m.temp_c().unwrap()), 100.0);
    assert_eq!(value(m.dew_point_c().unwrap()), 0.0);
    m.temp_f = Err(SchemaError::MissingKey);
    assert_eq!(m.temp_c().unwrap_err(), SchemaError::MissingKey);
}
