use purpleair::json::JsonMap;
use purpleair::lan::LanMeasurement;
use purpleair::measurement::Measurement;
use purpleair::measurement::SchemaError;
use purpleair::timestamp::normalize;
use purpleair::timestamp::parse_timestamp;
use purpleair::timestamp::replace_slashes;
use purpleair::timestamp::Timestamp;

fn reading(date_time: &str) -> LanMeasurement {
    let mut json = JsonMap::new();
    json.insert(String::from("DateTime"), serde_json::Value::from(date_time));
    LanMeasurement::new(json)
}

#[test]
fn slashes_become_dashes() {
    assert_eq!(replace_slashes("2021/01/02"), "2021-01-02");
    assert_eq!(replace_slashes(""), "");
    assert_eq!(replace_slashes("///"), "---");
    assert_eq!(replace_slashes("no slash - here"), "no slash - here");
    assert_eq!(replace_slashes("é/ß/日本"), "é-ß-日本");
}

#[test]
fn normalize_gives_upper_case_and_dashes() {
    assert_eq!(normalize("2021/01/02t03:04:05z"), "2021-01-02T03:04:05Z");
    assert_eq!(normalize("2021/01/02 03:04:05z"), "2021-01-02 03:04:05Z");
    assert_eq!(normalize("2021-01-02T03:04:05Z"), "2021-01-02T03:04:05Z");
    assert_eq!(normalize("straße/x"), "STRASSE-X");
}

#[test]
fn sensor_form_parses_to_the_same_instant_as_rfc3339() {
    let sensor = parse_timestamp("2021/01/02 03:04:05z").unwrap();
    let strict = parse_timestamp("2021-01-02T03:04:05Z").unwrap();
    assert_eq!(sensor, strict);
    assert_eq!(sensor, Timestamp { secs: 1_609_556_645, nanos: 0 });
    assert_eq!(parse_timestamp("2021/01/02T03:04:05z").unwrap(), strict);
}

#[test]
fn parsed_instant_agrees_with_chrono() {
    let expected = chrono::DateTime::parse_from_rfc3339("2021-01-02T03:04:05Z")
        .unwrap()
        .with_timezone(&chrono::Utc);
    let parsed = parse_timestamp("2021/01/02 03:04:05z").unwrap();
    assert_eq!(parsed.secs, expected.timestamp());
    assert_eq!(parsed.nanos, expected.timestamp_subsec_nanos());
}

#[test]
fn offset_and_fraction_are_taken_into_the_instant() {
    let parsed = parse_timestamp("2021/01/02T03:04:05.25+01:00").unwrap();
    assert_eq!(parsed, Timestamp { secs: 1_609_556_645 - 3600, nanos: 250_000_000 });
    let epoch = parse_timestamp("1970/01/01T00:00:00z").unwrap();
    assert_eq!(epoch, Timestamp { secs: 0, nanos: 0 });
    let before = parse_timestamp("1969/12/31T23:59:59z").unwrap();
    assert_eq!(before, Timestamp { secs: -1, nanos: 0 });
}

#[test]
fn text_that_is_no_date_is_rejected() {
    assert_eq!(parse_timestamp("").unwrap_err(), SchemaError::InvalidTimestamp);
    assert_eq!(parse_timestamp("yesterday").unwrap_err(), SchemaError::InvalidTimestamp);
    assert_eq!(parse_timestamp("2021/13/02T03:04:05z").unwrap_err(), SchemaError::InvalidTimestamp);
    assert_eq!(parse_timestamp("2021/01/02T03:04:05").unwrap_err(), SchemaError::InvalidTimestamp);
    assert_eq!(parse_timestamp("2021.01.02T03:04:05z").unwrap_err(), SchemaError::InvalidTimestamp);
}

#[test]
fn timestamp_of_a_reading() {
    assert_eq!(
        reading("2021/01/02T03:04:05z").timestamp().unwrap(),
        Timestamp { secs: 1_609_556_645, nanos: 0 }
    );
    assert_eq!(reading("soon").timestamp().unwrap_err(), SchemaError::InvalidTimestamp);
    let empty = LanMeasurement::new(JsonMap::new());
    assert_eq!(empty.timestamp().unwrap_err(), SchemaError::MissingKey);
    let mut json = JsonMap::new();
    json.insert(String::from("DateTime"), serde_json::Value::from(1_609_556_645u64));
    assert_eq!(LanMeasurement::new(json).timestamp().unwrap_err(), SchemaError::WrongType);
}
