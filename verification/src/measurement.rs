//! What a sensor reading offers: the raw readings that a source has to
//! provide, and the quantities derived from them.
use crate::aqi::aqi_denom;
use crate::aqi::aqi_from_tenths;
use crate::aqi::aqi_numer;
use crate::number::Binary64;
use crate::number::Fixed;
use crate::number::Quotient;
use crate::number::Ratio;
use crate::number::MICROS_PER_UNIT;
use crate::timestamp::Timestamp;
use vstd::prelude::*;

verus! {

/// Particle size class, named by its diameter in micrometres.
#[derive(Clone, Copy, Debug, PartialEq, Eq, Structural)]
pub enum PmSize {
    Pm0v3,
    Pm0v5,
    Pm1v0,
    Pm2v5,
    Pm5v0,
    Pm10v0,
}

impl PmSize {
    /// The size as it is written in field keys.
    pub open spec fn spec_string(self) -> Seq<char> {
        match self {
            PmSize::Pm0v3 => "0_3"@,
            PmSize::Pm0v5 => "0_5"@,
            PmSize::Pm1v0 => "1_0"@,
            PmSize::Pm2v5 => "2_5"@,
            PmSize::Pm5v0 => "5_0"@,
            PmSize::Pm10v0 => "10_0"@,
        }
    }

    /// Whether the device reports a particulate mass for this size. For the
    /// other sizes it reports particle counts only.
    pub open spec fn has_mass(self) -> bool {
        self == PmSize::Pm1v0 || self == PmSize::Pm2v5 || self == PmSize::Pm10v0
    }

    /// The size as it is written in field keys.
    pub fn string(&self) -> (s: String)
        ensures
            s@ == self.spec_string(),
    {
        match self {
            PmSize::Pm0v3 => "0_3".to_owned(),
            PmSize::Pm0v5 => "0_5".to_owned(),
            PmSize::Pm1v0 => "1_0".to_owned(),
            PmSize::Pm2v5 => "2_5".to_owned(),
            PmSize::Pm5v0 => "5_0".to_owned(),
            PmSize::Pm10v0 => "10_0".to_owned(),
        }
    }
}

/// Correction factor that the sensor applied to a particulate mass.
#[derive(Clone, Copy, Debug, PartialEq, Eq, Structural)]
pub enum PmType {
    Atm,
    Cf1,
}

impl PmType {
    /// The correction factor as it is written in field keys.
    pub open spec fn spec_string(self) -> Seq<char> {
        match self {
            PmType::Atm => "atm"@,
            PmType::Cf1 => "cf_1"@,
        }
    }

    /// The correction factor as it is written in field keys.
    pub fn string(&self) -> (s: String)
        ensures
            s@ == self.spec_string(),
    {
        match self {
            PmType::Atm => "atm".to_owned(),
            PmType::Cf1 => "cf_1".to_owned(),
        }
    }
}

/// Sensor channel: `A` is the primary sensing element, `B` the co-located
/// secondary one.
#[derive(Clone, Copy, Debug, PartialEq, Eq, Structural)]
pub enum Channel {
    A,
    B,
}

impl Channel {
    /// The suffix that marks the channel in field keys; channel A has none.
    pub open spec fn spec_string(self) -> Seq<char> {
        match self {
            Channel::A => Seq::empty(),
            Channel::B => "_b"@,
        }
    }

    /// The suffix that marks the channel in field keys.
    pub fn string(&self) -> (s: String)
        ensures
            s@ == self.spec_string(),
    {
        match self {
            Channel::A => String::new(),
            Channel::B => "_b".to_owned(),
        }
    }
}

/// Every particle size, from the smallest up.
pub const PM_SIZES: [PmSize; 6] = [
    PmSize::Pm0v3,
    PmSize::Pm0v5,
    PmSize::Pm1v0,
    PmSize::Pm2v5,
    PmSize::Pm5v0,
    PmSize::Pm10v0,
];

/// Every correction factor.
pub const PM_TYPES: [PmType; 2] = [PmType::Atm, PmType::Cf1];

/// Every channel.
pub const CHANNELS: [Channel; 2] = [Channel::A, Channel::B];

/// Each of the three lists holds every value of its type, and holds it
/// once.
pub proof fn lemma_lists_are_complete(pm_size: PmSize, pm_type: PmType, channel: Channel)
    ensures
        exists|i: int| 0 <= i < 6 && PM_SIZES[i] == pm_size,
        exists|i: int| 0 <= i < 2 && PM_TYPES[i] == pm_type,
        exists|i: int| 0 <= i < 2 && CHANNELS[i] == channel,
        forall|i: int, j: int| 0 <= i < j < 6 ==> PM_SIZES[i] != PM_SIZES[j],
        PM_TYPES[0] != PM_TYPES[1],
        CHANNELS[0] != CHANNELS[1],
{
    match pm_size {
        PmSize::Pm0v3 => assert(PM_SIZES[0] == pm_size),
        PmSize::Pm0v5 => assert(PM_SIZES[1] == pm_size),
        PmSize::Pm1v0 => assert(PM_SIZES[2] == pm_size),
        PmSize::Pm2v5 => assert(PM_SIZES[3] == pm_size),
        PmSize::Pm5v0 => assert(PM_SIZES[4] == pm_size),
        PmSize::Pm10v0 => assert(PM_SIZES[5] == pm_size),
    }
    match pm_type {
        PmType::Atm => assert(PM_TYPES[0] == pm_type),
        PmType::Cf1 => assert(PM_TYPES[1] == pm_type),
    }
    match channel {
        Channel::A => assert(CHANNELS[0] == channel),
        Channel::B => assert(CHANNELS[1] == channel),
    }
}

/// Why a reading could not be taken from its source.
#[derive(Clone, Copy, Debug, PartialEq, Eq, Structural)]
pub enum SchemaError {
    /// The source has no field of that name.
    MissingKey,
    /// The field holds a value of another kind than the one asked for.
    WrongType,
    /// The field holds text that is no RFC 3339 date and time.
    InvalidTimestamp,
}

/// A temperature of `fahrenheit` degrees Fahrenheit in degrees Celsius:
/// `(fahrenheit - 32) * 5 / 9`.
pub open spec fn celsius(fahrenheit: int) -> Quotient {
    Quotient { numer: (fahrenheit - 32) * 5, denom: 9 }
}

/// The Air Quality Index for a PM2.5 concentration of `tenths` tenths of a
/// µg/m³.
pub open spec fn aqi(tenths: int) -> Quotient {
    Quotient { numer: aqi_numer(tenths), denom: aqi_denom(tenths) }
}

/// A thousand times the slope that the correction applies to the mean of
/// the two channels (0.52).
pub const EPA_MEAN_MILLIS: i64 = 520;

/// A thousand times the amount that the correction takes off per percent
/// of relative humidity (0.085).
pub const EPA_HUMIDITY_MILLIS: i64 = 85;

/// A thousand times the constant term of the correction (5.71).
pub const EPA_OFFSET_MILLIS: i64 = 5710;

/// Denominator of a corrected concentration: thousandths of millionths.
pub const EPA_DENOM: u64 = 1_000_000_000;

/// The linear part of the correction, before it is floored at zero, in
/// units of `1 / EPA_DENOM` µg/m³:
/// `0.52 * (a + b) / 2 - 0.085 * humidity + 5.71`
/// for channel readings of `a` and `b` millionths of a µg/m³.
pub open spec fn epa_linear(a: int, b: int, humidity: int) -> int {
    EPA_MEAN_MILLIS * (a + b) / 2 - EPA_HUMIDITY_MILLIS * humidity * MICROS_PER_UNIT
        + EPA_OFFSET_MILLIS * MICROS_PER_UNIT
}

/// The corrected PM2.5 concentration in µg/m³ for channel readings of `a`
/// and `b` millionths of a µg/m³ at `humidity` percent relative humidity:
/// the linear part, or zero where the linear part is negative.
pub open spec fn epa_correction(a: int, b: int, humidity: int) -> Quotient {
    Quotient {
        numer: if epa_linear(a, b, humidity) < 0 {
            0
        } else {
            epa_linear(a, b, humidity)
        },
        denom: EPA_DENOM as int,
    }
}

/// The correction does not depend on the order of the two channels.
pub proof fn lemma_epa_correction_symmetric(a: int, b: int, humidity: int)
    ensures
        epa_correction(a, b, humidity) == epa_correction(b, a, humidity),
{
}

/// The corrected concentration is never negative, and it is the larger of
/// zero and the linear part.
pub proof fn lemma_epa_correction_floor(a: int, b: int, humidity: int)
    ensures
        epa_correction(a, b, humidity).denom > 0,
        epa_correction(a, b, humidity).numer >= 0,
        epa_correction(a, b, humidity).numer >= epa_linear(a, b, humidity),
        epa_correction(a, b, humidity).numer == 0 || epa_correction(a, b, humidity).numer
            == epa_linear(a, b, humidity),
{
}

/// Degrees Fahrenheit to degrees Celsius.
pub fn f_to_c(f: i64) -> (c: Ratio)
    ensures
        c@ == celsius(f as int),
{
    Ratio::new((f as i128 - 32) * 5, 9).unwrap()
}

/// The outcome of a derived quantity with each number taken by its value.
pub open spec fn outcome_view(r: Result<Option<Ratio>, SchemaError>) -> Result<
    Option<Quotient>,
    SchemaError,
> {
    match r {
        Ok(Some(q)) => Ok(Some(q@)),
        Ok(None) => Ok(None),
        Err(e) => Err(e),
    }
}

/// The corrected PM2.5 concentration of a reading whose CF=1 PM2.5 mass is
/// `mass_a` on channel A and `mass_b` on channel B, at `humidity`.
///
/// A failed read of channel A, else of channel B, is the outcome. Where
/// both were read and either channel reports no value, there is no
/// corrected value, and the humidity is not looked at. Otherwise a failed
/// read of the humidity is the outcome, else the corrected concentration
/// of the two masses, each taken to the nearest millionth of a µg/m³.
pub open spec fn epa_correction_outcome(
    mass_a: Result<Option<Binary64>, SchemaError>,
    mass_b: Result<Option<Binary64>, SchemaError>,
    humidity: Result<i64, SchemaError>,
) -> Result<Option<Quotient>, SchemaError> {
    match (mass_a, mass_b) {
        (Err(e), _) => Err(e),
        (Ok(_), Err(e)) => Err(e),
        (Ok(Some(a)), Ok(Some(b))) => match humidity {
            Ok(h) => Ok(Some(epa_correction(a.spec_micros(), b.spec_micros(), h as int))),
            Err(e) => Err(e),
        },
        (Ok(_), Ok(_)) => Ok(None),
    }
}

/// The Air Quality Index of a corrected concentration, where there is one.
pub open spec fn aqi_outcome(corrected: Result<Option<Quotient>, SchemaError>) -> Result<
    Option<Quotient>,
    SchemaError,
> {
    match corrected {
        Ok(Some(q)) => Ok(Some(aqi(q.tenths()))),
        Ok(None) => Ok(None),
        Err(e) => Err(e),
    }
}

/// There is a corrected concentration exactly where all three reads succeed
/// and both channels report a mass. Where both channels were read and
/// either reports none, the corrected concentration is absent, and that is
/// the only way for it to be absent.
pub proof fn lemma_epa_correction_needs_both_channels(
    mass_a: Result<Option<Binary64>, SchemaError>,
    mass_b: Result<Option<Binary64>, SchemaError>,
    humidity: Result<i64, SchemaError>,
)
    ensures
        epa_correction_outcome(mass_a, mass_b, humidity) matches Ok(Some(_)) <==> (mass_a matches Ok(
            Some(_),
        ) && mass_b matches Ok(Some(_)) && humidity is Ok),
        epa_correction_outcome(mass_a, mass_b, humidity) == Ok::<Option<Quotient>, SchemaError>(
            None,
        ) <==> (mass_a is Ok && mass_b is Ok && (mass_a == Ok::<Option<Binary64>, SchemaError>(
            None,
        ) || mass_b == Ok::<Option<Binary64>, SchemaError>(None))),
        aqi_outcome(epa_correction_outcome(mass_a, mass_b, humidity)) matches Ok(Some(_))
            <==> epa_correction_outcome(mass_a, mass_b, humidity) matches Ok(Some(_)),
        aqi_outcome(epa_correction_outcome(mass_a, mass_b, humidity)) == Ok::<
            Option<Quotient>,
            SchemaError,
        >(None) <==> epa_correction_outcome(mass_a, mass_b, humidity) == Ok::<
            Option<Quotient>,
            SchemaError,
        >(None),
{
}

/// A temperature read in degrees Fahrenheit, in degrees Celsius.
pub open spec fn celsius_outcome(fahrenheit: Result<i64, SchemaError>) -> Result<
    Quotient,
    SchemaError,
> {
    match fahrenheit {
        Ok(f) => Ok(celsius(f as int)),
        Err(e) => Err(e),
    }
}

/// One reading of a sensor: the raw values that a source provides, and the
/// quantities derived from them.
///
/// A source implements the raw readings. A raw reading fails with a
/// [`SchemaError`] where the source does not hold it in the expected form;
/// it is `Ok(None)` where the source has no such value by its nature.
pub trait Measurement {
    /// The temperature that the source holds, in degrees Fahrenheit.
    spec fn spec_temp_f(&self) -> Result<i64, SchemaError>;

    /// The relative humidity that the source holds, in percent.
    spec fn spec_humidity(&self) -> Result<i64, SchemaError>;

    /// The dew point that the source holds, in degrees Fahrenheit.
    spec fn spec_dew_point_f(&self) -> Result<i64, SchemaError>;

    /// The particulate mass that the source holds for a size, correction
    /// factor and channel, in µg/m³.
    spec fn spec_particulate_mass(
        &self,
        pm_size: PmSize,
        pm_type: PmType,
        channel: Channel,
    ) -> Result<Option<Binary64>, SchemaError>;

    /// The Air Quality Index for a PM2.5 concentration in µg/m³.
    ///
    /// The concentration is cut to whole tenths before its row of the
    /// breakpoint table is looked up; a concentration beyond the table is
    /// extrapolated along the last row.
    fn get_aqi(pm_2v5: Ratio) -> (index: Ratio)
        ensures
            index@ == aqi(pm_2v5.spec_tenths()),
    {
        aqi_from_tenths(pm_2v5.tenths())
    }

    /// The EPA correction of the PM2.5 concentration of a sensor, from the
    /// CF=1 readings of its two channels and the relative humidity in
    /// percent.
    ///
    /// This corrects one reading; it takes no average over time.
    fn get_epa_correction(pm2v5_cf_1_a: Fixed, pm2v5_cf_1_b: Fixed, humidity: i64) -> (corrected:
        Ratio)
        ensures
            corrected@ == epa_correction(
                pm2v5_cf_1_a.micros as int,
                pm2v5_cf_1_b.micros as int,
                humidity as int,
            ),
    {
        let sum: i128 = pm2v5_cf_1_a.micros as i128 + pm2v5_cf_1_b.micros as i128;
        let linear: i128 = 260 * sum - 85_000_000 * (humidity as i128) + 5_710_000_000;
        if linear < 0 {
            Ratio::new(0, EPA_DENOM).unwrap()
        } else {
            Ratio::new(linear, EPA_DENOM).unwrap()
        }
    }

    /// The EPA-corrected PM2.5 concentration of this reading, where both
    /// channels report a CF=1 PM2.5 mass. Each mass is taken to the nearest
    /// millionth of a µg/m³, and the correction is exact from there.
    fn pm_2v5_epa_correction(&self) -> (corrected: Result<Option<Ratio>, SchemaError>)
        ensures
            outcome_view(corrected) == epa_correction_outcome(
                self.spec_particulate_mass(PmSize::Pm2v5, PmType::Cf1, Channel::A),
                self.spec_particulate_mass(PmSize::Pm2v5, PmType::Cf1, Channel::B),
                self.spec_humidity(),
            ),
    {
        let mass_a = match self.particulate_mass(PmSize::Pm2v5, PmType::Cf1, Channel::A) {
            Ok(mass) => mass,
            Err(e) => return Err(e),
        };
        let mass_b = match self.particulate_mass(PmSize::Pm2v5, PmType::Cf1, Channel::B) {
            Ok(mass) => mass,
            Err(e) => return Err(e),
        };
        match (mass_a, mass_b) {
            (Some(a), Some(b)) => match self.humidity() {
                Ok(humidity) => Ok(
                    Some(
                        Self::get_epa_correction(
                            Fixed::from_binary64(a),
                            Fixed::from_binary64(b),
                            humidity,
                        ),
                    ),
                ),
                Err(e) => Err(e),
            },
            _ => Ok(None),
        }
    }

    /// The Air Quality Index of the EPA-corrected PM2.5 concentration of
    /// this reading, where there is one.
    fn pm_2v5_aqi_epa(&self) -> (index: Result<Option<Ratio>, SchemaError>)
        ensures
            outcome_view(index) == aqi_outcome(
                epa_correction_outcome(
                    self.spec_particulate_mass(PmSize::Pm2v5, PmType::Cf1, Channel::A),
                    self.spec_particulate_mass(PmSize::Pm2v5, PmType::Cf1, Channel::B),
                    self.spec_humidity(),
                ),
            ),
    {
        match self.pm_2v5_epa_correction() {
            Ok(Some(value)) => Ok(Some(Self::get_aqi(value))),
            Ok(None) => Ok(None),
            Err(e) => Err(e),
        }
    }

    /// The identifier of the sensor.
    fn sensor_id(&self) -> Result<String, SchemaError>;

    /// The instant at which the reading was taken.
    fn timestamp(&self) -> Result<Timestamp, SchemaError>;

    /// The latitude of the sensor, in degrees.
    fn latitude(&self) -> Result<Binary64, SchemaError>;

    /// The longitude of the sensor, in degrees.
    fn longitude(&self) -> Result<Binary64, SchemaError>;

    /// Whether the sensor stands inside or outside.
    fn place(&self) -> Result<String, SchemaError>;

    /// Wi-Fi signal strength, in dBm.
    fn rssi(&self) -> Result<i64, SchemaError>;

    /// Time since the sensor started, in seconds.
    fn uptime(&self) -> Result<u64, SchemaError>;

    /// Temperature in degrees Fahrenheit.
    fn temp_f(&self) -> (f: Result<i64, SchemaError>)
        ensures
            f == self.spec_temp_f(),
    ;

    /// Temperature in degrees Celsius.
    fn temp_c(&self) -> (c: Result<Ratio, SchemaError>)
        ensures
            match c {
                Ok(q) => Ok::<Quotient, SchemaError>(q@),
                Err(e) => Err(e),
            } == celsius_outcome(self.spec_temp_f()),
    {
        match self.temp_f() {
            Ok(f) => Ok(f_to_c(f)),
            Err(e) => Err(e),
        }
    }

    /// Relative humidity in percent.
    fn humidity(&self) -> (h: Result<i64, SchemaError>)
        ensures
            h == self.spec_humidity(),
    ;

    /// Dew point in degrees Fahrenheit.
    fn dew_point_f(&self) -> (f: Result<i64, SchemaError>)
        ensures
            f == self.spec_dew_point_f(),
    ;

    /// Dew point in degrees Celsius.
    fn dew_point_c(&self) -> (c: Result<Ratio, SchemaError>)
        ensures
            match c {
                Ok(q) => Ok::<Quotient, SchemaError>(q@),
                Err(e) => Err(e),
            } == celsius_outcome(self.spec_dew_point_f()),
    {
        match self.dew_point_f() {
            Ok(f) => Ok(f_to_c(f)),
            Err(e) => Err(e),
        }
    }

    /// Barometric pressure in millibars.
    fn pressure(&self) -> Result<Binary64, SchemaError>;

    /// The Air Quality Index that the sensor itself reports for the PM2.5
    /// reading of a channel.
    fn pm_2v5_aqi(&self, channel: Channel) -> Result<Option<Ratio>, SchemaError>;

    /// The particulate mass in µg/m³ for a particle size, correction factor
    /// and channel, as the source holds it. There is no value for a size
    /// without a mass, nor where the source has no reading of the channel.
    fn particulate_mass(&self, pm_size: PmSize, pm_type: PmType, channel: Channel) -> (mass:
        Result<Option<Binary64>, SchemaError>)
        ensures
            mass == self.spec_particulate_mass(pm_size, pm_type, channel),
            !pm_size.has_mass() ==> mass == Ok::<Option<Binary64>, SchemaError>(None),
    ;

    /// The particle count for a particle size and channel.
    fn particle_count(&self, pm_size: PmSize, channel: Channel) -> Result<
        Option<Binary64>,
        SchemaError,
    >;
}

} // verus!
