use base64::Engine;
use rapportage_downloader::date::Date;
use rapportage_downloader::id::Id;
use rapportage_downloader::report::{
    accept_download, download_url, latest_version_from_response, Error, Report,
};

fn april_2026() -> Date {
    Date::new(2026, 4, 17).unwrap()
}

#[test]
fn catalog_payload_is_a_flat_year_object() {
    let now = april_2026();
    for kind in [
        Report::Aansluitinglijst,
        Report::Belastingcluster,
        Report::Gebouwen,
        Report::MeetEnInfra,
        Report::Metadata,
        Report::Meterstanden,
        Report::Tussenmeter,
    ] {
        assert_eq!(kind.payload(&now), "{\"year\":2026}");
    }
}

#[test]
fn co2_and_mj_payloads_differ_only_in_unit() {
    let now = april_2026();
    assert_eq!(
        Report::Co2.payload(&now),
        "{\"customerIds\":\"50\",\"portalId\":\"6\",\"reportType\":\"total\",\"unitId\":1,\"yearFrom\":2025,\"yearTill\":2026}"
    );
    assert_eq!(
        Report::Mj.payload(&now),
        "{\"customerIds\":\"50\",\"portalId\":\"6\",\"reportType\":\"total\",\"unitId\":2,\"yearFrom\":2025,\"yearTill\":2026}"
    );
}

#[test]
fn datakwaliteit_payload_carries_year_and_month() {
    let now = april_2026();
    assert_eq!(
        Report::Datakwaliteit.payload(&now),
        "{\"consumptionCategoryIds\":\"\",\"consumptionTypeIds\":\"\",\"costsplaceId\":\"0\",\"customerId\":\"50\",\"departmentIds\":\"\",\"eanCode\":\"\",\"month\":4,\"portalId\":0,\"productId\":1,\"taxationClusterId\":\"0\",\"year\":2026}"
    );
}

#[test]
fn verbruik_payload_matches_the_fixed_filter_set() {
    let now = april_2026();
    assert_eq!(
        Report::Verbruik.payload(&now),
        "{\"classificationId\":0,\"consumptioncategoryIds\":\"\",\"consumptiontypeIds\":\"\",\"costsplaceIds\":\"\",\"customerIds\":\"50\",\"datacheckreport\":false,\"departmentIds\":\"\",\"eancode\":\"\",\"energytaxIds\":\"\",\"getODA\":true,\"isCollective\":false,\"monthFrom\":1,\"monthTill\":12,\"months\":false,\"portalCollectiveIds\":\"\",\"portalId\":\"0\",\"productId\":1,\"reportType\":\"total\",\"yearFrom\":2025,\"yearTill\":2026}"
    );
}

#[test]
fn hourly_payload_for_a_fixed_range() {
    let now = april_2026();
    let start = Date::new(2023, 1, 1).unwrap();
    let end = Date::new(2024, 1, 1).unwrap();
    let payload = Report::EnergieVerbruikPerUur(Id(84104), start, end).payload(&now);
    assert_eq!(
        payload,
        "{\"IntermediateMeterId\":0,\"WeatherDataType\":0,\"chartType\":\"column\",\"endDate\":\"2024-01-01 23:55\",\"excel\":true,\"interval\":\"uur\",\"meterId\":[84104],\"productId\":0,\"startDate\":\"2023-01-01 00:00\"}"
    );
    assert!(payload.contains("\"meterId\":[84104]"));
    assert!(payload.contains("\"startDate\":\"2023-01-01 00:00\""));
    assert!(payload.contains("\"endDate\":\"2024-01-01 23:55\""));
}

#[test]
fn payloads_are_valid_json_of_the_expected_shape() {
    let now = april_2026();
    let value: serde_json::Value =
        serde_json::from_str(&Report::Co2.payload(&now)).expect("payload must parse as JSON");
    let object = value.as_object().expect("payload must be an object");
    assert_eq!(object.get("unitId"), Some(&serde_json::Value::from(1)));
    assert_eq!(
        object.get("yearFrom"),
        Some(&serde_json::Value::from(2025))
    );
    assert_eq!(
        object.get("customerIds"),
        Some(&serde_json::Value::from("50"))
    );
}

#[test]
fn request_header_is_the_base64_of_the_payload() {
    let now = april_2026();
    let kind = Report::Aansluitinglijst;
    let expected = base64::engine::general_purpose::STANDARD.encode(kind.payload(&now));
    assert_eq!(kind.request_header_value(&now), expected);
    assert_ne!(kind.request_header_value(&now), kind.payload(&now));
}

#[test]
fn report_urls_match_the_portal_endpoints() {
    assert_eq!(
        Report::Aansluitinglijst.url(),
        "https://www.dbenergie.nl/Connections/List/ExportList"
    );
    assert_eq!(
        Report::Co2.url(),
        "https://www.dbenergie.nl/Report/Co2/GetDownload"
    );
    assert_eq!(
        Report::Mj.url(),
        "https://www.dbenergie.nl/Report/Co2/GetDownload"
    );
    assert_eq!(
        Report::EnergieVerbruikPerUur(
            Id(1),
            Date::new(2023, 1, 1).unwrap(),
            Date::new(2024, 1, 1).unwrap()
        )
        .url(),
        "https://www.dbenergie.nl/Report/Analyze/GetDownload"
    );
    assert_eq!(
        Report::Verbruik.url(),
        "https://www.dbenergie.nl/Report/Consumption/GetDownload"
    );
}

#[test]
fn non_object_json_is_a_decode_error_not_a_panic() {
    assert_eq!(
        latest_version_from_response(200, "[1,2,3]"),
        Err(Error::NotAnObject)
    );
    assert_eq!(
        latest_version_from_response(200, "\"just a string\""),
        Err(Error::NotAnObject)
    );
    assert_eq!(latest_version_from_response(200, "42"), Err(Error::NotAnObject));
}

#[test]
fn object_without_filename_is_a_decode_error() {
    assert_eq!(
        latest_version_from_response(200, "{\"other\":1}"),
        Err(Error::KeyNotFound)
    );
    assert_eq!(latest_version_from_response(200, "{}"), Err(Error::KeyNotFound));
}

#[test]
fn wrongly_typed_filename_is_a_decode_error() {
    assert_eq!(
        latest_version_from_response(200, "{\"fileName\":5}"),
        Err(Error::ValueNotAString)
    );
}

#[test]
fn invalid_json_is_a_decode_error() {
    assert_eq!(
        latest_version_from_response(200, "not json at all"),
        Err(Error::Json)
    );
}

#[test]
fn non_200_status_is_reported_with_its_code() {
    assert_eq!(
        latest_version_from_response(404, "{\"fileName\":\"x\"}"),
        Err(Error::NotOk(404))
    );
}

#[test]
fn filename_is_taken_from_the_envelope() {
    assert_eq!(
        latest_version_from_response(200, "{\"fileName\":\"Export_1.xlsx\",\"size\":12}"),
        Ok("Export_1.xlsx".to_string())
    );
}

#[test]
fn download_round_trip_hands_back_the_exact_bytes() {
    // resolve phase against a mocked response body
    let resolve_body = "{\"fileName\":\"Export_42.xlsx\"}";
    let filename = latest_version_from_response(200, resolve_body).unwrap();
    assert_eq!(filename, "Export_42.xlsx");

    // fetch phase keyed by that filename
    assert_eq!(
        download_url(&filename),
        "https://www.dbenergie.nl/Global/Download?fileName=Export_42.xlsx"
    );
    let served: Vec<u8> = vec![0x50, 0x4b, 3, 4, 9, 9, 9];
    let fetched = accept_download(200, served.clone()).unwrap();
    assert_eq!(fetched, served);

    let pair = (filename, fetched);
    assert_eq!(pair.0, "Export_42.xlsx");
    assert_eq!(pair.1, served);
}

#[test]
fn failed_download_is_not_ok() {
    assert_eq!(accept_download(503, vec![1, 2]), Err(Error::NotOk(503)));
}
