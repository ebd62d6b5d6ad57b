//! A sensor on the local network: the address it is read at, and the
//! reading made from the document it serves.
//!
//! The request itself is not made here. A caller asks the sensor for the
//! URL, fetches the JSON object behind it, and hands that object back.
use crate::json::document_fields;
use crate::json::JsonMap;
use crate::lan::LanMeasurement;
use reqwest::Url;
use vstd::prelude::*;
use vstd::string::StrSliceExecFns;

verus! {

/// `reqwest::Url`, taken as it is: nothing of its inside is known here.
#[verifier::external_type_specification]
#[verifier::external_body]
pub struct ExUrl(Url);

/// The longest URL text, in characters, that a sensor is made for.
pub const URL_TEXT_LIMIT: usize = 0x1000_0000;

/// The text of a URL: its serialization, as `Url::as_str` gives it.
pub uninterp spec fn url_text(url: Url) -> Seq<char>;

/// The text of the URL that `Url::join` makes of the reference `input` on
/// the base URL with the text `base`, or `None` where it makes none.
pub uninterp spec fn joined_url(base: Seq<char>, input: Seq<char>) -> Option<Seq<char>>;

/// The text of the URL with the text `url` after `Url::set_query` has given
/// it the query `query`.
pub uninterp spec fn url_with_query(url: Seq<char>, query: Seq<char>) -> Seq<char>;

/// `Url::as_str`: the serialization of the URL.
pub assume_specification<'a>[ Url::as_str ](url: &'a Url) -> (text: &'a str)
    ensures
        text@ == url_text(*url),
;

/// `Clone::clone` of a URL: a URL with the same text.
pub assume_specification[ <Url as Clone>::clone ](url: &Url) -> (copy: Url)
    ensures
        url_text(copy) == url_text(*url),
;

/// `Url::join`: `input` parsed as a URL with `base` as the base URL, and
/// `None` where that fails.
#[verifier::external_body]
fn url_join(base: &Url, input: &str) -> (joined: Option<Url>)
    ensures
        match joined {
            Some(url) => joined_url(url_text(*base), input@) == Some(url_text(url)),
            None => joined_url(url_text(*base), input@) is None,
        },
{
    match base.join(input) {
        Ok(url) => Some(url),
        Err(_) => None,
    }
}

/// `Url::set_query` with a query: the query of the URL is replaced.
///
/// The URL keeps every offset into its text in 32 bits and stops the
/// program where one does not fit. The bound keeps the new text below that
/// size, with each character counted as four bytes and each byte of the
/// query as three once it is encoded.
#[verifier::external_body]
fn url_set_query(url: &mut Url, query: &str)
    requires
        4 * url_text(*old(url)).len() + 12 * query@.len() + 2 <= u32::MAX,
    ensures
        url_text(*final(url)) == url_with_query(url_text(*old(url)), query@),
{
    url.set_query(Some(query))
}

/// The text of the address at which a sensor whose base URL has the text
/// `base` serves its readings: the reference `json` on that base. There is
/// none where the reference cannot be joined to the base, or where the
/// result is longer than `URL_TEXT_LIMIT`.
pub open spec fn sensor_endpoint(base: Seq<char>) -> Option<Seq<char>> {
    match joined_url(base, "json"@) {
        Some(text) => if text.len() <= URL_TEXT_LIMIT {
            Some(text)
        } else {
            None
        },
        None => None,
    }
}

/// A source of readings that is read with one HTTP request.
pub trait ReqwestSensor {
    /// The reading that the source gives.
    type Measurement;

    /// The reading made from the JSON object that the source served.
    fn construct_measurement(&self, json: JsonMap) -> Self::Measurement;

    /// The URL to request.
    fn construct_url(&self) -> Url;
}

/// A sensor that is read over the local network.
///
/// A live sensor is asked for its current reading, any other for the
/// average that it keeps.
#[derive(Debug)]
pub struct LanSensor {
    url: Url,
    live: bool,
}

impl LanSensor {
    #[verifier::type_invariant]
    spec fn inv(self) -> bool {
        url_text(self.url).len() <= URL_TEXT_LIMIT
    }

    /// The text of the address at which the sensor serves its readings.
    pub closed spec fn endpoint(&self) -> Seq<char> {
        url_text(self.url)
    }

    /// Whether the sensor is asked for its current reading.
    pub closed spec fn is_live(&self) -> bool {
        self.live
    }

    /// A sensor that serves its readings at `endpoint`, or `None` where the
    /// text of `endpoint` is longer than `URL_TEXT_LIMIT`.
    pub fn from_endpoint(endpoint: Url, live: bool) -> (sensor: Option<LanSensor>)
        ensures
            sensor is Some <==> url_text(endpoint).len() <= URL_TEXT_LIMIT,
            sensor matches Some(s) ==> s.endpoint() == url_text(endpoint) && s.is_live() == live,
    {
        if endpoint.as_str().unicode_len() <= URL_TEXT_LIMIT {
            Some(LanSensor { url: endpoint, live })
        } else {
            None
        }
    }

    /// The sensor with the base URL `url`, or `None` where `url` has no
    /// address for readings.
    pub fn new(url: Url, live: bool) -> (sensor: Option<LanSensor>)
        ensures
            match sensor {
                Some(s) => sensor_endpoint(url_text(url)) == Some(s.endpoint()) && s.is_live()
                    == live,
                None => sensor_endpoint(url_text(url)) is None,
            },
    {
        match url_join(&url, "json") {
            Some(endpoint) => LanSensor::from_endpoint(endpoint, live),
            None => None,
        }
    }

    /// The sensor with the base URL `addr`, asked for its current reading.
    pub fn new_live_sensor(addr: Url) -> (sensor: Option<LanSensor>)
        ensures
            match sensor {
                Some(s) => sensor_endpoint(url_text(addr)) == Some(s.endpoint()) && s.is_live(),
                None => sensor_endpoint(url_text(addr)) is None,
            },
    {
        LanSensor::new(addr, true)
    }

    /// The sensor with the base URL `addr`, asked for its average reading.
    pub fn new_average_sensor(addr: Url) -> (sensor: Option<LanSensor>)
        ensures
            match sensor {
                Some(s) => sensor_endpoint(url_text(addr)) == Some(s.endpoint()) && !s.is_live(),
                None => sensor_endpoint(url_text(addr)) is None,
            },
    {
        LanSensor::new(addr, false)
    }

    /// The live sensor whose base URL is the address of this one.
    pub fn as_live(self) -> (sensor: Option<LanSensor>)
        ensures
            match sensor {
                Some(s) => sensor_endpoint(self.endpoint()) == Some(s.endpoint()) && s.is_live(),
                None => sensor_endpoint(self.endpoint()) is None,
            },
    {
        LanSensor::new_live_sensor(self.url)
    }

    /// The average sensor whose base URL is the address of this one.
    pub fn as_average(self) -> (sensor: Option<LanSensor>)
        ensures
            match sensor {
                Some(s) => sensor_endpoint(self.endpoint()) == Some(s.endpoint()) && !s.is_live(),
                None => sensor_endpoint(self.endpoint()) is None,
            },
    {
        LanSensor::new_average_sensor(self.url)
    }
}

impl ReqwestSensor for LanSensor {
    type Measurement = LanMeasurement;

    fn construct_measurement(&self, json: JsonMap) -> (measurement: LanMeasurement)
        ensures
            measurement.fields() == document_fields(json),
    {
        LanMeasurement::new(json)
    }

    fn construct_url(&self) -> (url: Url)
        ensures
            url_text(url) == if self.is_live() {
                url_with_query(self.endpoint(), "live=true"@)
            } else {
                self.endpoint()
            },
    {
        proof {
            use_type_invariant(self);
        }
        if self.live {
            let mut url = self.url.clone();
            proof {
                reveal_strlit("live=true");
            }
            url_set_query(&mut url, "live=true");
            url
        } else {
            self.url.clone()
        }
    }
}

} // verus!
