//! A reading as a sensor serves it on the local network: a flat JSON object
//! with one field per raw reading.
use crate::json::document_fields;
use crate::json::document_get;
use crate::json::value_as_binary64;
use crate::json::value_scalar;
use crate::json::JsonMap;
use crate::json::Scalar;
use crate::measurement::epa_correction_outcome;
use crate::measurement::outcome_view;
use crate::measurement::Channel;
use crate::measurement::Measurement;
use crate::measurement::PmSize;
use crate::measurement::PmType;
use crate::measurement::SchemaError;
use crate::number::Binary64;
use crate::number::Quotient;
use crate::number::Ratio;
use crate::timestamp::parse_timestamp;
use crate::timestamp::timestamp_of;
use crate::timestamp::Timestamp;
use serde_json::Value;
use vstd::prelude::*;
use vstd::string::StringExecFns;

verus! {

/// The kind of value that a caller expects under a key.
#[derive(Clone, Copy, Debug, PartialEq, Eq, Structural)]
pub enum JsonType {
    F64,
    I64,
    String,
    U64,
}

/// Whether `value` is of the kind `expected`.
///
/// An integer that is zero or more and at most `i64::MAX` is of both
/// integer kinds. No integer is of the float kind.
pub open spec fn has_type(value: Scalar, expected: JsonType) -> bool {
    match expected {
        JsonType::F64 => value is Float,
        JsonType::I64 => match value {
            Scalar::NegInt(_) => true,
            Scalar::PosInt(n) => n <= i64::MAX,
            _ => false,
        },
        JsonType::String => value is Text,
        JsonType::U64 => value is PosInt,
    }
}

/// The field `key` of a document, taken as a value of the kind `expected`.
pub open spec fn typed_field(fields: Map<Seq<char>, Scalar>, key: Seq<char>, expected: JsonType)
    -> Result<Scalar, SchemaError> {
    if !fields.dom().contains(key) {
        Err(SchemaError::MissingKey)
    } else if !has_type(fields[key], expected) {
        Err(SchemaError::WrongType)
    } else {
        Ok(fields[key])
    }
}

/// A field is handed out exactly where the document has the key with a
/// value of the expected kind, and then it is the stored value. A key that
/// the document lacks is a `MissingKey`, and a value of another kind a
/// `WrongType`.
pub proof fn lemma_typed_field(
    fields: Map<Seq<char>, Scalar>,
    key: Seq<char>,
    expected: JsonType,
    value: Scalar,
)
    ensures
        typed_field(fields, key, expected) == Ok::<Scalar, SchemaError>(value) <==> (
        fields.dom().contains(key) && fields[key] == value && has_type(value, expected)),
        typed_field(fields, key, expected) == Err::<Scalar, SchemaError>(SchemaError::MissingKey)
            <==> !fields.dom().contains(key),
        typed_field(fields, key, expected) == Err::<Scalar, SchemaError>(SchemaError::WrongType)
            <==> (fields.dom().contains(key) && !has_type(fields[key], expected)),
        typed_field(fields, key, expected) != Err::<Scalar, SchemaError>(
            SchemaError::InvalidTimestamp,
        ),
{
}

/// The field `key` of a document, taken as a string.
pub open spec fn text_field(fields: Map<Seq<char>, Scalar>, key: Seq<char>) -> Result<
    Seq<char>,
    SchemaError,
> {
    match typed_field(fields, key, JsonType::String) {
        Ok(Scalar::Text(s)) => Ok(s),
        Ok(_) => Err(SchemaError::WrongType),
        Err(e) => Err(e),
    }
}

/// The field `key` of a document, taken as a float.
pub open spec fn float_field(fields: Map<Seq<char>, Scalar>, key: Seq<char>) -> Result<
    Binary64,
    SchemaError,
> {
    match typed_field(fields, key, JsonType::F64) {
        Ok(Scalar::Float(b)) => Ok(b),
        Ok(_) => Err(SchemaError::WrongType),
        Err(e) => Err(e),
    }
}

/// The field `key` of a document, taken as a signed integer.
pub open spec fn signed_field(fields: Map<Seq<char>, Scalar>, key: Seq<char>) -> Result<
    i64,
    SchemaError,
> {
    match typed_field(fields, key, JsonType::I64) {
        Ok(Scalar::NegInt(n)) => Ok(n),
        Ok(Scalar::PosInt(n)) => Ok(n as i64),
        Ok(_) => Err(SchemaError::WrongType),
        Err(e) => Err(e),
    }
}

/// The field `key` of a document, taken as an unsigned integer.
pub open spec fn unsigned_field(fields: Map<Seq<char>, Scalar>, key: Seq<char>) -> Result<
    u64,
    SchemaError,
> {
    match typed_field(fields, key, JsonType::U64) {
        Ok(Scalar::PosInt(n)) => Ok(n),
        Ok(_) => Err(SchemaError::WrongType),
        Err(e) => Err(e),
    }
}

/// The field `key` of a document, taken as a float that the document may
/// lack: no value where the document has no such key, the float where the
/// key holds one, and `WrongType` where it holds a value of another kind.
pub open spec fn optional_float_field(fields: Map<Seq<char>, Scalar>, key: Seq<char>) -> Result<
    Option<Binary64>,
    SchemaError,
> {
    if !fields.dom().contains(key) {
        Ok(None)
    } else {
        match fields[key] {
            Scalar::Float(b) => Ok(Some(b)),
            _ => Err(SchemaError::WrongType),
        }
    }
}

/// The key of the Air Quality Index that the sensor reports for a channel.
pub open spec fn spec_aqi_key(channel: Channel) -> Seq<char> {
    "pm2.5_aqi"@ + channel.spec_string()
}

/// The key of the particulate mass for a size, correction factor and
/// channel.
pub open spec fn spec_mass_key(pm_size: PmSize, pm_type: PmType, channel: Channel) -> Seq<char> {
    "pm"@ + pm_size.spec_string() + "_"@ + pm_type.spec_string() + channel.spec_string()
}

/// The key of the particle count for a size and channel.
pub open spec fn spec_count_key(pm_size: PmSize, channel: Channel) -> Seq<char> {
    "p_"@ + pm_size.spec_string() + "_um"@ + channel.spec_string()
}

/// The key of the Air Quality Index that the sensor reports for a channel.
pub fn aqi_key(channel: Channel) -> (key: String)
    ensures
        key@ == spec_aqi_key(channel),
{
    let mut key = "pm2.5_aqi".to_owned();
    key.append(channel.string().as_str());
    key
}

/// The key of the particulate mass for a size, correction factor and
/// channel.
pub fn mass_key(pm_size: PmSize, pm_type: PmType, channel: Channel) -> (key: String)
    ensures
        key@ == spec_mass_key(pm_size, pm_type, channel),
{
    let mut key = "pm".to_owned();
    key.append(pm_size.string().as_str());
    key.append("_");
    key.append(pm_type.string().as_str());
    key.append(channel.string().as_str());
    key
}

/// The key of the particle count for a size and channel.
pub fn count_key(pm_size: PmSize, channel: Channel) -> (key: String)
    ensures
        key@ == spec_count_key(pm_size, channel),
{
    let mut key = "p_".to_owned();
    key.append(pm_size.string().as_str());
    key.append("_um");
    key.append(channel.string().as_str());
    key
}

/// One reading, backed by the JSON document that the sensor served.
#[derive(Debug)]
pub struct LanMeasurement {
    json: JsonMap,
}

impl LanMeasurement {
    /// The fields of the backing document.
    pub closed spec fn fields(&self) -> Map<Seq<char>, Scalar> {
        document_fields(self.json)
    }

    /// A reading over `json`. No field is looked at until it is asked for.
    pub fn new(json: JsonMap) -> (measurement: LanMeasurement)
        ensures
            measurement.fields() == document_fields(json),
    {
        LanMeasurement { json }
    }

    /// The value under `key`, which has to be of the kind `expected_type`.
    ///
    /// Fails with `MissingKey` where the document has no such key, and with
    /// `WrongType` where the value is of another kind. A value of the right
    /// kind is handed out as it is stored.
    pub fn get(&self, key: &str, expected_type: JsonType) -> (found: Result<&Value, SchemaError>)
        ensures
            match found {
                Ok(value) => typed_field(self.fields(), key@, expected_type) == Ok::<
                    Scalar,
                    SchemaError,
                >(value_scalar(*value)),
                Err(e) => typed_field(self.fields(), key@, expected_type) == Err::<
                    Scalar,
                    SchemaError,
                >(e),
            },
    {
        let value = match document_get(&self.json, key) {
            Some(value) => value,
            None => return Err(SchemaError::MissingKey),
        };
        let matches = match expected_type {
            JsonType::F64 => value.is_f64(),
            JsonType::I64 => value.is_i64(),
            JsonType::String => value.is_string(),
            JsonType::U64 => value.is_u64(),
        };
        if matches {
            Ok(value)
        } else {
            Err(SchemaError::WrongType)
        }
    }

    /// The string under `key`.
    pub fn get_string(&self, key: &str) -> (found: Result<String, SchemaError>)
        ensures
            match found {
                Ok(s) => text_field(self.fields(), key@) == Ok::<Seq<char>, SchemaError>(s@),
                Err(e) => text_field(self.fields(), key@) == Err::<Seq<char>, SchemaError>(e),
            },
    {
        match self.get(key, JsonType::String) {
            Ok(value) => Ok(value.as_str().unwrap().to_owned()),
            Err(e) => Err(e),
        }
    }

    /// The float under `key`, bit for bit as the document holds it.
    pub fn get_f64(&self, key: &str) -> (found: Result<Binary64, SchemaError>)
        ensures
            found == float_field(self.fields(), key@),
    {
        match self.get(key, JsonType::F64) {
            Ok(value) => Ok(value_as_binary64(value).unwrap()),
            Err(e) => Err(e),
        }
    }

    /// The signed integer under `key`.
    pub fn get_i64(&self, key: &str) -> (found: Result<i64, SchemaError>)
        ensures
            found == signed_field(self.fields(), key@),
    {
        match self.get(key, JsonType::I64) {
            Ok(value) => Ok(value.as_i64().unwrap()),
            Err(e) => Err(e),
        }
    }

    /// The unsigned integer under `key`.
    pub fn get_u64(&self, key: &str) -> (found: Result<u64, SchemaError>)
        ensures
            found == unsigned_field(self.fields(), key@),
    {
        match self.get(key, JsonType::U64) {
            Ok(value) => Ok(value.as_u64().unwrap()),
            Err(e) => Err(e),
        }
    }
}

impl Measurement for LanMeasurement {
    open spec fn spec_temp_f(&self) -> Result<i64, SchemaError> {
        signed_field(self.fields(), "current_temp_f"@)
    }

    open spec fn spec_humidity(&self) -> Result<i64, SchemaError> {
        signed_field(self.fields(), "current_humidity"@)
    }

    open spec fn spec_dew_point_f(&self) -> Result<i64, SchemaError> {
        signed_field(self.fields(), "current_dewpoint_f"@)
    }

    open spec fn spec_particulate_mass(
        &self,
        pm_size: PmSize,
        pm_type: PmType,
        channel: Channel,
    ) -> Result<Option<Binary64>, SchemaError> {
        if !pm_size.has_mass() {
            Ok(None)
        } else {
            optional_float_field(self.fields(), spec_mass_key(pm_size, pm_type, channel))
        }
    }

    fn sensor_id(&self) -> (id: Result<String, SchemaError>)
        ensures
            match id {
                Ok(s) => text_field(self.fields(), "SensorId"@) == Ok::<Seq<char>, SchemaError>(s@),
                Err(e) => text_field(self.fields(), "SensorId"@) == Err::<Seq<char>, SchemaError>(
                    e,
                ),
            },
    {
        self.get_string("SensorId")
    }

    fn timestamp(&self) -> (instant: Result<Timestamp, SchemaError>)
        ensures
            instant == match text_field(self.fields(), "DateTime"@) {
                Ok(text) => timestamp_of(text),
                Err(e) => Err(e),
            },
    {
        match self.get_string("DateTime") {
            Ok(text) => parse_timestamp(text.as_str()),
            Err(e) => Err(e),
        }
    }

    fn latitude(&self) -> (degrees: Result<Binary64, SchemaError>)
        ensures
            degrees == float_field(self.fields(), "lat"@),
    {
        self.get_f64("lat")
    }

    fn longitude(&self) -> (degrees: Result<Binary64, SchemaError>)
        ensures
            degrees == float_field(self.fields(), "lon"@),
    {
        self.get_f64("lon")
    }

    fn place(&self) -> (tag: Result<String, SchemaError>)
        ensures
            match tag {
                Ok(s) => text_field(self.fields(), "place"@) == Ok::<Seq<char>, SchemaError>(s@),
                Err(e) => text_field(self.fields(), "place"@) == Err::<Seq<char>, SchemaError>(e),
            },
    {
        self.get_string("place")
    }

    fn rssi(&self) -> (dbm: Result<i64, SchemaError>)
        ensures
            dbm == signed_field(self.fields(), "rssi"@),
    {
        self.get_i64("rssi")
    }

    fn uptime(&self) -> (seconds: Result<u64, SchemaError>)
        ensures
            seconds == unsigned_field(self.fields(), "uptime"@),
    {
        self.get_u64("uptime")
    }

    fn temp_f(&self) -> (f: Result<i64, SchemaError>) {
        self.get_i64("current_temp_f")
    }

    fn humidity(&self) -> (h: Result<i64, SchemaError>) {
        self.get_i64("current_humidity")
    }

    fn dew_point_f(&self) -> (f: Result<i64, SchemaError>) {
        self.get_i64("current_dewpoint_f")
    }

    fn pressure(&self) -> (millibars: Result<Binary64, SchemaError>)
        ensures
            millibars == float_field(self.fields(), "pressure"@),
    {
        self.get_f64("pressure")
    }

    fn pm_2v5_aqi(&self, channel: Channel) -> (index: Result<Option<Ratio>, SchemaError>)
        ensures
            outcome_view(index) == match signed_field(self.fields(), spec_aqi_key(channel)) {
                Ok(n) => Ok(Some(Quotient { numer: n as int, denom: 1 })),
                Err(e) => Err(e),
            },
    {
        let key = aqi_key(channel);
        match self.get_i64(key.as_str()) {
            Ok(n) => Ok(Some(Ratio::from_integer(n))),
            Err(e) => Err(e),
        }
    }

    fn particulate_mass(&self, pm_size: PmSize, pm_type: PmType, channel: Channel) -> (mass:
        Result<Option<Binary64>, SchemaError>) {
        match pm_size {
            PmSize::Pm0v3 | PmSize::Pm0v5 | PmSize::Pm5v0 => return Ok(None),
            _ => (),
        }
        let key = mass_key(pm_size, pm_type, channel);
        match self.get_f64(key.as_str()) {
            Ok(mass) => Ok(Some(mass)),
            Err(SchemaError::MissingKey) => Ok(None),
            Err(e) => Err(e),
        }
    }

    fn particle_count(&self, pm_size: PmSize, channel: Channel) -> (count: Result<
        Option<Binary64>,
        SchemaError,
    >)
        ensures
            count == match float_field(self.fields(), spec_count_key(pm_size, channel)) {
                Ok(n) => Ok(Some(n)),
                Err(e) => Err(e),
            },
    {
        let key = count_key(pm_size, channel);
        match self.get_f64(key.as_str()) {
            Ok(n) => Ok(Some(n)),
            Err(e) => Err(e),
        }
    }
}

/// A size for which the device reports no mass has no particulate mass,
/// whatever the document holds. For a size for which it reports one, the
/// key of the size, correction factor and channel decides: there is no
/// mass where the document lacks the key, the mass is the stored float
/// where the key holds one, and any other value under the key is a
/// `WrongType`. A missing key is never an error.
pub proof fn lemma_particulate_mass_presence(
    measurement: LanMeasurement,
    pm_size: PmSize,
    pm_type: PmType,
    channel: Channel,
)
    ensures
        !pm_size.has_mass() ==> measurement.spec_particulate_mass(pm_size, pm_type, channel) == Ok::<
            Option<Binary64>,
            SchemaError,
        >(None),
        pm_size.has_mass() && !measurement.fields().dom().contains(
            spec_mass_key(pm_size, pm_type, channel),
        ) ==> measurement.spec_particulate_mass(pm_size, pm_type, channel) == Ok::<
            Option<Binary64>,
            SchemaError,
        >(None),
        forall|b: Binary64|
            pm_size.has_mass() && measurement.fields().dom().contains(
                spec_mass_key(pm_size, pm_type, channel),
            ) && measurement.fields()[spec_mass_key(pm_size, pm_type, channel)] == Scalar::Float(b)
                ==> measurement.spec_particulate_mass(pm_size, pm_type, channel) == Ok::<
                Option<Binary64>,
                SchemaError,
            >(Some(b)),
        pm_size.has_mass() && measurement.fields().dom().contains(
            spec_mass_key(pm_size, pm_type, channel),
        ) && !(measurement.fields()[spec_mass_key(pm_size, pm_type, channel)] is Float)
            ==> measurement.spec_particulate_mass(pm_size, pm_type, channel) == Err::<
            Option<Binary64>,
            SchemaError,
        >(SchemaError::WrongType),
        measurement.spec_particulate_mass(pm_size, pm_type, channel) != Err::<
            Option<Binary64>,
            SchemaError,
        >(SchemaError::MissingKey),
{
}

/// The corrected PM2.5 concentration of a reading over a document.
pub open spec fn document_correction(measurement: LanMeasurement) -> Result<
    Option<Quotient>,
    SchemaError,
> {
    epa_correction_outcome(
        measurement.spec_particulate_mass(PmSize::Pm2v5, PmType::Cf1, Channel::A),
        measurement.spec_particulate_mass(PmSize::Pm2v5, PmType::Cf1, Channel::B),
        measurement.spec_humidity(),
    )
}

/// Whether the document of a reading holds something other than a float
/// under the CF=1 PM2.5 key of `channel`.
pub open spec fn mass_field_is_broken(measurement: LanMeasurement, channel: Channel) -> bool {
    float_field(measurement.fields(), spec_mass_key(PmSize::Pm2v5, PmType::Cf1, channel)) == Err::<
        Binary64,
        SchemaError,
    >(SchemaError::WrongType)
}

/// A reading over a document has a corrected PM2.5 concentration exactly
/// where the document holds a float under the CF=1 PM2.5 key of each
/// channel and a signed integer as the humidity. Where neither key holds a
/// value of another kind, the corrected concentration is absent exactly
/// where the document lacks the key of either channel.
pub proof fn lemma_correction_needs_both_channel_fields(measurement: LanMeasurement)
    ensures
        (document_correction(measurement) matches Ok(Some(_))) <==> (float_field(
            measurement.fields(),
            spec_mass_key(PmSize::Pm2v5, PmType::Cf1, Channel::A),
        ) is Ok && float_field(
            measurement.fields(),
            spec_mass_key(PmSize::Pm2v5, PmType::Cf1, Channel::B),
        ) is Ok && measurement.spec_humidity() is Ok),
        !mass_field_is_broken(measurement, Channel::A) && !mass_field_is_broken(
            measurement,
            Channel::B,
        ) ==> (document_correction(measurement) == Ok::<Option<Quotient>, SchemaError>(None) <==> (
        !measurement.fields().dom().contains(
            spec_mass_key(PmSize::Pm2v5, PmType::Cf1, Channel::A),
        ) || !measurement.fields().dom().contains(
            spec_mass_key(PmSize::Pm2v5, PmType::Cf1, Channel::B),
        ))),
{
}

} // verus!
