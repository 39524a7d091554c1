//! The report-request protocol: one payload per report kind, sent
//! base64-encoded in a `request` header, answered by a JSON envelope
//! naming the generated file, which a second request then downloads.
//!
//! Each exchange has exactly two phases, resolve then fetch, with no
//! retries at this layer: retrying belongs to the pipeline.

use vstd::prelude::*;

use crate::date::Date;
use crate::encode::{base64_encode, base64_of};
use crate::id::Id;
use crate::text::dec_digits;

verus! {

/// What a report exchange can fail with.
#[derive(Clone, Copy, Debug, PartialEq, Eq, Structural)]
pub enum Error {
    /// A request URL could not be built; raised by the caller that
    /// performs the requests.
    InvalidUrl,
    /// The header value was rejected by the transport; raised by the
    /// caller that performs the requests.
    InvalidHeaderValue,
    /// The transport failed; raised by the caller that performs the
    /// requests.
    Request,
    /// A response body was not UTF-8; raised by the caller that
    /// performs the requests.
    Utf8,
    /// The resolve response was not valid JSON.
    Json,
    /// The resolve response was valid JSON but not an object.
    NotAnObject,
    /// The resolve response object had no `fileName` key.
    KeyNotFound,
    /// The `fileName` value was not a string.
    ValueNotAString,
    /// The downloaded bytes could not be written out; raised by the
    /// caller that owns the sink.
    Io,
    /// A response came back with a status other than 200.
    NotOk(u16),
}

/// The available report kinds. Catalog reports carry no parameters;
/// the hourly-usage report names a meter and a date range.
#[derive(Clone, Debug)]
pub enum Report {
    /// Energie aansluitingenlijst
    Aansluitinglijst,
    /// Energie belastingcluster per meter
    Belastingcluster,
    /// CO2 verbruiks rapportage
    Co2,
    /// Datakwaliteits rapportage
    Datakwaliteit,
    /// Energie verbruik per uur, for one meter over a date range
    EnergieVerbruikPerUur(Id, Date, Date),
    /// Gebouwen
    Gebouwen,
    /// Meet- en infradiensten
    MeetEnInfra,
    /// Aansluiting metadata
    Metadata,
    /// Meterstanden
    Meterstanden,
    /// MJ verbruiks rapportage
    Mj,
    /// Tussenmeters
    Tussenmeter,
    /// Verbruiksrapportage per product
    Verbruik,
}

impl Report {
    /// The resolve endpoint for each kind.
    pub open spec fn url_spec(self) -> Seq<char> {
        match self {
            Report::Aansluitinglijst => "https://www.dbenergie.nl/Connections/List/ExportList"@,
            Report::Belastingcluster
                => "https://www.dbenergie.nl/Connections/List/ExportTaxationCluster"@,
            Report::Co2 => "https://www.dbenergie.nl/Report/Co2/GetDownload"@,
            Report::Datakwaliteit
                => "https://www.dbenergie.nl/Report/DataEntiretyCheck/GetDataToDownload"@,
            Report::EnergieVerbruikPerUur(_, _, _)
                => "https://www.dbenergie.nl/Report/Analyze/GetDownload"@,
            Report::Gebouwen => "https://www.dbenergie.nl/Buildings/List/ExportList"@,
            Report::MeetEnInfra => "https://www.dbenergie.nl/Report/MeteringServices/ExportList"@,
            Report::Metadata => "https://www.dbenergie.nl/Connections/List/ExportMetaData"@,
            Report::Meterstanden
                => "https://www.dbenergie.nl/Connections/List/ExportMeterReading"@,
            Report::Mj => "https://www.dbenergie.nl/Report/Co2/GetDownload"@,
            Report::Tussenmeter
                => "https://www.dbenergie.nl/Connections/IntermediateMeter/ExportList"@,
            Report::Verbruik => "https://www.dbenergie.nl/Report/Consumption/GetDownload"@,
        }
    }

    /// The corresponding URL for a report.
    pub fn url(&self) -> (r: &'static str)
        ensures
            r@ == self.url_spec(),
    {
        match self {
            Report::Aansluitinglijst => "https://www.dbenergie.nl/Connections/List/ExportList",
            Report::Belastingcluster => {
                "https://www.dbenergie.nl/Connections/List/ExportTaxationCluster"
            },
            Report::Co2 => "https://www.dbenergie.nl/Report/Co2/GetDownload",
            Report::Datakwaliteit => {
                "https://www.dbenergie.nl/Report/DataEntiretyCheck/GetDataToDownload"
            },
            Report::EnergieVerbruikPerUur(_, _, _) => {
                "https://www.dbenergie.nl/Report/Analyze/GetDownload"
            },
            Report::Gebouwen => "https://www.dbenergie.nl/Buildings/List/ExportList",
            Report::MeetEnInfra => "https://www.dbenergie.nl/Report/MeteringServices/ExportList",
            Report::Metadata => "https://www.dbenergie.nl/Connections/List/ExportMetaData",
            Report::Meterstanden => "https://www.dbenergie.nl/Connections/List/ExportMeterReading",
            Report::Mj => "https://www.dbenergie.nl/Report/Co2/GetDownload",
            Report::Tussenmeter => {
                "https://www.dbenergie.nl/Connections/IntermediateMeter/ExportList"
            },
            Report::Verbruik => "https://www.dbenergie.nl/Report/Consumption/GetDownload",
        }
    }

    /// The catalog payload: the current year in a flat object.
    pub open spec fn catalog_payload(year: nat) -> Seq<char> {
        "{\"year\":"@ + dec_digits(year) + "}"@
    }

    /// The CO2/MJ payload; the two kinds differ only in the unit.
    pub open spec fn co2_mj_payload(unit: nat, year: nat) -> Seq<char> {
        "{\"customerIds\":\"50\",\"portalId\":\"6\",\"reportType\":\"total\",\"unitId\":"@
            + dec_digits(unit) + ",\"yearFrom\":"@ + dec_digits((year - 1) as nat)
            + ",\"yearTill\":"@ + dec_digits(year) + "}"@
    }

    /// The data-quality payload: fixed filters plus the current year
    /// and month.
    pub open spec fn datakwaliteit_payload(year: nat, month: nat) -> Seq<char> {
        "{\"consumptionCategoryIds\":\"\",\"consumptionTypeIds\":\"\",\"costsplaceId\":\"0\",\"customerId\":\"50\",\"departmentIds\":\"\",\"eanCode\":\"\",\"month\":"@
            + dec_digits(month) + ",\"portalId\":0,\"productId\":1,\"taxationClusterId\":\"0\",\"year\":"@
            + dec_digits(year) + "}"@
    }

    /// The consumption payload: fixed filters plus the year range.
    pub open spec fn verbruik_payload(year: nat) -> Seq<char> {
        "{\"classificationId\":0,\"consumptioncategoryIds\":\"\",\"consumptiontypeIds\":\"\",\"costsplaceIds\":\"\",\"customerIds\":\"50\",\"datacheckreport\":false,\"departmentIds\":\"\",\"eancode\":\"\",\"energytaxIds\":\"\",\"getODA\":true,\"isCollective\":false,\"monthFrom\":1,\"monthTill\":12,\"months\":false,\"portalCollectiveIds\":\"\",\"portalId\":\"0\",\"productId\":1,\"reportType\":\"total\",\"yearFrom\":"@
            + dec_digits((year - 1) as nat) + ",\"yearTill\":"@ + dec_digits(year) + "}"@
    }

    /// The hourly-usage payload: one meter, a day range widened to
    /// whole days in five-minute resolution, fixed chart settings.
    pub open spec fn hourly_payload(id: Id, start: Date, end: Date) -> Seq<char> {
        "{\"IntermediateMeterId\":0,\"WeatherDataType\":0,\"chartType\":\"column\",\"endDate\":\""@
            + end.ymd_seq() + " 23:55\",\"excel\":true,\"interval\":\"uur\",\"meterId\":["@
            + dec_digits(id.0 as nat) + "],\"productId\":0,\"startDate\":\""@ + start.ymd_seq()
            + " 00:00\"}"@
    }

    /// The request payload of this report kind, as compact JSON with
    /// keys in byte order, given today's date.
    pub open spec fn payload_spec(self, now: Date) -> Seq<char> {
        match self {
            Report::Co2 => Self::co2_mj_payload(1, now.year as nat),
            Report::Mj => Self::co2_mj_payload(2, now.year as nat),
            Report::Datakwaliteit => Self::datakwaliteit_payload(
                now.year as nat,
                now.month as nat,
            ),
            Report::Verbruik => Self::verbruik_payload(now.year as nat),
            Report::EnergieVerbruikPerUur(id, start, end) => Self::hourly_payload(id, start, end),
            _ => Self::catalog_payload(now.year as nat),
        }
    }

    /// Build the request payload for this kind.
    pub fn payload(&self, now: &Date) -> (r: String)
        requires
            now.valid(),
        ensures
            r@ == self.payload_spec(*now),
    {
        match self {
            Report::Co2 => Self::build_co2_mj(1, now.year),
            Report::Mj => Self::build_co2_mj(2, now.year),
            Report::Datakwaliteit => {
                let mut s = String::from_str(
                    "{\"consumptionCategoryIds\":\"\",\"consumptionTypeIds\":\"\",\"costsplaceId\":\"0\",\"customerId\":\"50\",\"departmentIds\":\"\",\"eanCode\":\"\",\"month\":",
                );
                crate::text::append_decimal(&mut s, now.month as u64);
                s.append(",\"portalId\":0,\"productId\":1,\"taxationClusterId\":\"0\",\"year\":");
                crate::text::append_decimal(&mut s, now.year as u64);
                s.append("}");
                s
            },
            Report::Verbruik => {
                let mut s = String::from_str(
                    "{\"classificationId\":0,\"consumptioncategoryIds\":\"\",\"consumptiontypeIds\":\"\",\"costsplaceIds\":\"\",\"customerIds\":\"50\",\"datacheckreport\":false,\"departmentIds\":\"\",\"eancode\":\"\",\"energytaxIds\":\"\",\"getODA\":true,\"isCollective\":false,\"monthFrom\":1,\"monthTill\":12,\"months\":false,\"portalCollectiveIds\":\"\",\"portalId\":\"0\",\"productId\":1,\"reportType\":\"total\",\"yearFrom\":",
                );
                crate::text::append_decimal(&mut s, (now.year - 1) as u64);
                s.append(",\"yearTill\":");
                crate::text::append_decimal(&mut s, now.year as u64);
                s.append("}");
                s
            },
            Report::EnergieVerbruikPerUur(id, start, end) => {
                let mut s = String::from_str(
                    "{\"IntermediateMeterId\":0,\"WeatherDataType\":0,\"chartType\":\"column\",\"endDate\":\"",
                );
                s.append(end.format_ymd().as_str());
                s.append(" 23:55\",\"excel\":true,\"interval\":\"uur\",\"meterId\":[");
                crate::text::append_decimal(&mut s, id.0 as u64);
                s.append("],\"productId\":0,\"startDate\":\"");
                s.append(start.format_ymd().as_str());
                s.append(" 00:00\"}");
                s
            },
            _ => {
                let mut s = String::from_str("{\"year\":");
                crate::text::append_decimal(&mut s, now.year as u64);
                s.append("}");
                s
            },
        }
    }

    /// Build the shared CO2/MJ payload for one unit.
    fn build_co2_mj(unit: u64, year: u16) -> (r: String)
        requires
            unit < 10,
            year >= 1,
        ensures
            r@ == Self::co2_mj_payload(unit as nat, year as nat),
    {
        let mut s = String::from_str(
            "{\"customerIds\":\"50\",\"portalId\":\"6\",\"reportType\":\"total\",\"unitId\":",
        );
        crate::text::append_decimal(&mut s, unit);
        s.append(",\"yearFrom\":");
        crate::text::append_decimal(&mut s, (year - 1) as u64);
        s.append(",\"yearTill\":");
        crate::text::append_decimal(&mut s, year as u64);
        s.append("}");
        s
    }

    /// The `request` header value of this kind: its payload,
    /// base64-encoded.
    pub fn request_header_value(&self, now: &Date) -> (r: String)
        requires
            now.valid(),
        ensures
            r@ == base64_of(self.payload_spec(*now)),
    {
        let payload = self.payload(now);
        base64_encode(payload.as_str())
    }
}

/// One key of the resolve response's JSON object, with its value when
/// that value is a string.
pub struct EnvelopeField {
    pub key: String,
    pub text: Option<String>,
}

/// The mathematical shadow of an `EnvelopeField`.
pub struct EnvelopeFieldModel {
    pub key: Seq<char>,
    pub text: Option<Seq<char>>,
}

impl DeepView for EnvelopeField {
    type V = EnvelopeFieldModel;

    open spec fn deep_view(&self) -> EnvelopeFieldModel {
        EnvelopeFieldModel { key: self.key.deep_view(), text: self.text.deep_view() }
    }
}

/// What the resolve response's body holds, as far as this protocol
/// reads it: whether it is a JSON object, and each key with its
/// string value.
pub struct Envelope {
    pub is_object: bool,
    pub fields: Vec<EnvelopeField>,
}

/// The mathematical shadow of an `Envelope`.
pub struct EnvelopeModel {
    pub is_object: bool,
    pub fields: Seq<EnvelopeFieldModel>,
}

impl DeepView for Envelope {
    type V = EnvelopeModel;

    open spec fn deep_view(&self) -> EnvelopeModel {
        EnvelopeModel { is_object: self.is_object, fields: self.fields.deep_view() }
    }
}

/// What parsing a body as a JSON envelope yields: `None` when the body
/// is not valid JSON; otherwise whether it is an object and, for object
/// bodies, each key with its value where that value is a string. A
/// function of the body alone.
pub uninterp spec fn json_envelope(body: Seq<char>) -> Option<EnvelopeModel>;

/// Relies on serde_json's `from_str`, `Value::as_object` and
/// `Value::as_str`: whether the body parses as JSON, whether the result
/// is an object, and the object's keys (unique, in serde_json's map
/// order) each with its value when that value is a string.
/// Deterministic in the body.
#[verifier::external_body]
pub fn parse_envelope(body: &str) -> (r: Option<Envelope>)
    ensures
        r.deep_view() == json_envelope(body@),
{
    let Ok(value) = serde_json::from_str::<serde_json::Value>(body) else { return None };
    let Some(map) = value.as_object() else {
        return Some(Envelope { is_object: false, fields: Vec::new() });
    };
    let fields = map.iter().map(
        |(k, v)| EnvelopeField { key: k.clone(), text: v.as_str().map(|s| s.to_owned()) },
    ).collect();
    Some(Envelope { is_object: true, fields })
}

/// The first field with the given key, if any.
pub open spec fn find_text(fields: Seq<EnvelopeFieldModel>, key: Seq<char>) -> Option<
    Option<Seq<char>>,
>
    decreases fields.len(),
{
    if fields.len() == 0 {
        None
    } else if fields[0].key == key {
        Some(fields[0].text)
    } else {
        find_text(fields.drop_first(), key)
    }
}

/// A scan that saw no hit up to `i` pins `find_text` down.
proof fn lemma_find_text_scan(fields: Seq<EnvelopeFieldModel>, key: Seq<char>, i: int)
    requires
        0 <= i <= fields.len(),
        forall|j: int| 0 <= j < i ==> (#[trigger] fields[j]).key != key,
        i == fields.len() || fields[i].key == key,
    ensures
        find_text(fields, key) == (if i < fields.len() {
            Some(fields[i].text)
        } else {
            None::<Option<Seq<char>>>
        }),
    decreases i,
{
    if i == 0 {
    } else {
        lemma_find_text_scan(fields.drop_first(), key, i - 1);
    }
}

/// What the resolve phase returns for a given envelope: the `fileName`
/// string, or the precise decode error.
pub open spec fn filename_outcome(envelope: Option<EnvelopeModel>) -> Result<Seq<char>, Error> {
    match envelope {
        None => Err(Error::Json),
        Some(env) => if !env.is_object {
            Err(Error::NotAnObject)
        } else {
            match find_text(env.fields, "fileName"@) {
                None => Err(Error::KeyNotFound),
                Some(None) => Err(Error::ValueNotAString),
                Some(Some(name)) => Ok(name),
            }
        },
    }
}

/// Take the `fileName` value out of a decoded envelope.
pub fn filename_from_envelope(envelope: &Envelope) -> (r: Result<String, Error>)
    ensures
        match r {
            Ok(name) => filename_outcome(Some(envelope.deep_view())) == Ok::<_, Error>(name@),
            Err(e) => filename_outcome(Some(envelope.deep_view())) == Err::<Seq<char>, _>(e),
        },
{
    if !envelope.is_object {
        return Err(Error::NotAnObject);
    }
    let needle = String::from_str("fileName");
    let ghost fields = envelope.fields.deep_view();
    let n = envelope.fields.len();
    let mut i: usize = 0;
    while i < n && envelope.fields[i].key != needle
        invariant
            0 <= i <= n,
            n == envelope.fields.len(),
            fields == envelope.fields.deep_view(),
            needle@ == "fileName"@,
            forall|j: int| 0 <= j < i ==> (#[trigger] fields[j]).key != "fileName"@,
        decreases n - i,
    {
        i = i + 1;
    }
    proof {
        lemma_find_text_scan(fields, "fileName"@, i as int);
    }
    if i == n {
        return Err(Error::KeyNotFound);
    }
    match &envelope.fields[i].text {
        None => Err(Error::ValueNotAString),
        Some(name) => Ok(name.clone()),
    }
}

/// What the resolve phase returns for a given response: `NotOk` for any
/// status but 200, else the envelope's `fileName` or its decode error.
pub open spec fn latest_version_outcome(status: u16, body: Seq<char>) -> Result<Seq<char>, Error> {
    if status != 200 {
        Err(Error::NotOk(status))
    } else {
        filename_outcome(json_envelope(body))
    }
}

/// Interpret the resolve response: require status 200, decode the JSON
/// envelope, and take its `fileName`.
pub fn latest_version_from_response(status: u16, body: &str) -> (r: Result<String, Error>)
    ensures
        match r {
            Ok(name) => latest_version_outcome(status, body@) == Ok::<_, Error>(name@),
            Err(e) => latest_version_outcome(status, body@) == Err::<Seq<char>, _>(e),
        },
{
    if status != 200 {
        return Err(Error::NotOk(status));
    }
    match parse_envelope(body) {
        None => Err(Error::Json),
        Some(envelope) => filename_from_envelope(&envelope),
    }
}

/// The URL the fetch phase downloads a resolved filename from.
pub fn download_url(filename: &str) -> (r: String)
    ensures
        r@ == "https://www.dbenergie.nl/Global/Download?fileName="@ + filename@,
{
    let mut s = String::from_str("https://www.dbenergie.nl/Global/Download?fileName=");
    s.append(filename);
    s
}

/// Interpret the fetch response: status 200 hands the body through
/// unchanged; anything else is `NotOk`.
pub fn accept_download(status: u16, body: Vec<u8>) -> (r: Result<Vec<u8>, Error>)
    ensures
        match r {
            Ok(data) => status == 200 && data@ == body@,
            Err(e) => status != 200 && e == Error::NotOk(status),
        },
{
    if status == 200 {
        Ok(body)
    } else {
        Err(Error::NotOk(status))
    }
}

/// What the whole two-phase exchange returns, given both responses:
/// the resolve phase's filename paired with the fetch phase's exact
/// bytes, or the first phase's error.
pub open spec fn exchange_outcome(
    status1: u16,
    body1: Seq<char>,
    status2: u16,
    body2: Seq<u8>,
) -> Result<(Seq<char>, Seq<u8>), Error> {
    match latest_version_outcome(status1, body1) {
        Err(e) => Err(e),
        Ok(name) => if status2 == 200 {
            Ok((name, body2))
        } else {
            Err(Error::NotOk(status2))
        },
    }
}

/// Law: when the resolve phase yields a filename and the fetch phase
/// answers 200, the exchange returns that filename together with
/// exactly the byte sequence the fetch response carried.
pub proof fn lemma_exchange_round_trip(body1: Seq<char>, body2: Seq<u8>, name: Seq<char>)
    requires
        latest_version_outcome(200, body1) == Ok::<_, Error>(name),
    ensures
        exchange_outcome(200, body1, 200, body2) == Ok::<_, Error>((name, body2)),
{
}

} // verus!
