//! Tests of response interpretation: envelopes, default-fill, and the
//! status-code classification.

use hetzner::error::ApiError;
use hetzner::json::parse_json;
use hetzner::records::create_record::create_record_response;
use hetzner::records::delete_record::delete_record_response;
use hetzner::records::get_all_records::get_all_records_response;
use hetzner::records::get_record::get_record_response;
use hetzner::records::update_record::update_record_response;
use hetzner::zones::get_all_zones::{get_all_zones_response, ApiResponse};
use hetzner::json::Json;

fn zone_body() -> Json {
    parse_json(&[
        "{\"zones\":[{",
        "\"created\":\"2023-01-01T00:00:00Z\",",
        "\"id\":\"z1\",",
        "\"is_secondary_dns\":false,",
        "\"legacy_dns_host\":\"legacy.example.com\",",
        "\"legacy_ns\":[\"l1.example.com\"],",
        "\"modified\":\"2023-01-02T00:00:00Z\",",
        "\"name\":\"example.com\",",
        "\"ns\":[\"ns1.example.com\",\"ns2.example.com\"],",
        "\"owner\":\"owner1\",",
        "\"paused\":false,",
        "\"permission\":\"read\",",
        "\"project\":\"proj1\",",
        "\"records_count\":10,",
        "\"registrar\":\"reg\",",
        "\"status\":\"verified\",",
        "\"ttl\":3600,",
        "\"txt_verification\":{\"name\":\"tvn\",\"token\":\"tvt\"},",
        "\"verified\":\"2023-01-03T00:00:00Z\",",
        "\"zone_type\":{\"description\":\"master\",\"id\":\"zt1\",\"name\":\"primary\",\"prices\":null}",
        "}],\"meta\":{\"pagination\":{\"page\":1,\"per_page\":100,\"last_page\":1,\"total_entries\":1}}}"
    ].concat())
    .unwrap()
}

#[test]
fn zones_success_decodes_every_field() {
    let zones = get_all_zones_response(200, zone_body()).unwrap();
    assert_eq!(zones.len(), 1);
    let z = &zones[0];
    assert_eq!(z.created, "2023-01-01T00:00:00Z");
    assert_eq!(z.id, "z1");
    assert!(!z.is_secondary_dns);
    assert_eq!(z.legacy_dns_host, "legacy.example.com");
    assert_eq!(z.legacy_ns, vec!["l1.example.com"]);
    assert_eq!(z.modified, "2023-01-02T00:00:00Z");
    assert_eq!(z.name, "example.com");
    assert_eq!(z.ns, vec!["ns1.example.com", "ns2.example.com"]);
    assert_eq!(z.owner, "owner1");
    assert!(!z.paused);
    assert_eq!(z.permission, "read");
    assert_eq!(z.project, "proj1");
    assert_eq!(z.records_count, 10);
    assert_eq!(z.registrar, "reg");
    assert_eq!(z.status, "verified");
    assert_eq!(z.ttl, 3600);
    assert_eq!(z.txt_verification.name, "tvn");
    assert_eq!(z.txt_verification.token, "tvt");
    assert_eq!(z.verified, "2023-01-03T00:00:00Z");
    assert_eq!(z.zone_type.description, "master");
    assert_eq!(z.zone_type.id, "zt1");
    assert_eq!(z.zone_type.name, "primary");
    assert!(matches!(z.zone_type.prices, Some(Json::Null)));
}

#[test]
fn zones_fill_the_envelope_type() {
    let envelope = ApiResponse {
        zones: get_all_zones_response(200, zone_body()).unwrap(),
    };
    assert_eq!(envelope.zones.len(), 1);
    assert_eq!(envelope.zones[0].name, "example.com");
}

#[test]
fn zones_returned_have_nonempty_id_and_count() {
    // Every zone a successful listing yields has a non-empty id and a
    // non-negative record count.
    let zones = get_all_zones_response(200, zone_body()).unwrap();
    for z in &zones {
        assert!(!z.id.is_empty());
        // The count is unsigned, so a decoded zone can never carry a
        // negative one; a response that tries fails to decode instead.
        let count: u64 = z.records_count;
        assert_eq!(count, 10);
    }
}

#[test]
fn zones_missing_envelope_is_missing_field() {
    let body = parse_json("{\"meta\":{}}").unwrap();
    match get_all_zones_response(200, body) {
        Err(ApiError::MissingField(k)) => assert_eq!(k, "zones"),
        other => panic!("expected MissingField, got {:?}", other),
    }
}

#[test]
fn zones_with_empty_id_fail_to_decode() {
    let body = parse_json(&[
        "{\"zones\":[{",
        "\"created\":\"c\",\"id\":\"\",\"is_secondary_dns\":false,",
        "\"legacy_dns_host\":\"h\",\"legacy_ns\":[],\"modified\":\"m\",",
        "\"name\":\"n\",\"ns\":[],\"owner\":\"o\",\"paused\":false,",
        "\"permission\":\"p\",\"project\":\"pr\",\"records_count\":0,",
        "\"registrar\":\"r\",\"status\":\"s\",\"ttl\":1,",
        "\"txt_verification\":{\"name\":\"a\",\"token\":\"b\"},",
        "\"verified\":\"v\",",
        "\"zone_type\":{\"description\":\"d\",\"id\":\"i\",\"name\":\"zn\"}",
        "}]}"
    ].concat())
    .unwrap();
    assert!(matches!(
        get_all_zones_response(200, body),
        Err(ApiError::Deserialize(_))
    ));
}

#[test]
fn zones_negative_count_fails_to_decode() {
    let body = parse_json(&[
        "{\"zones\":[{",
        "\"created\":\"c\",\"id\":\"z\",\"is_secondary_dns\":false,",
        "\"legacy_dns_host\":\"h\",\"legacy_ns\":[],\"modified\":\"m\",",
        "\"name\":\"n\",\"ns\":[],\"owner\":\"o\",\"paused\":false,",
        "\"permission\":\"p\",\"project\":\"pr\",\"records_count\":-3,",
        "\"registrar\":\"r\",\"status\":\"s\",\"ttl\":1,",
        "\"txt_verification\":{\"name\":\"a\",\"token\":\"b\"},",
        "\"verified\":\"v\",",
        "\"zone_type\":{\"description\":\"d\",\"id\":\"i\",\"name\":\"zn\"}",
        "}]}"
    ].concat())
    .unwrap();
    assert!(matches!(
        get_all_zones_response(200, body),
        Err(ApiError::Deserialize(_))
    ));
}

#[test]
fn zones_non_200_is_status_error() {
    let body = parse_json("{\"error\":{\"message\":\"nope\"}}").unwrap();
    match get_all_zones_response(500, body) {
        Err(ApiError::Status(code, msg)) => {
            assert_eq!(code, 500);
            assert_eq!(msg, "nope");
        }
        other => panic!("expected Status, got {:?}", other),
    }
    match get_all_zones_response(503, Json::Null) {
        Err(ApiError::Status(code, msg)) => {
            assert_eq!(code, 503);
            assert_eq!(msg, "Unknown error");
        }
        other => panic!("expected Status, got {:?}", other),
    }
}

fn records_body() -> Json {
    parse_json(&[
        "{\"records\":[",
        "{\"id\":\"r1\",\"name\":\"www\",\"ttl\":300,\"type\":\"A\",",
        "\"value\":\"127.0.0.1\",\"zone_id\":\"z1\"},",
        "{\"id\":\"r2\",\"name\":\"mail\",\"type\":\"MX\",",
        "\"value\":\"10 mail.example.com\",\"zone_id\":\"z1\"}",
        "]}"
    ].concat())
    .unwrap()
}

#[test]
fn records_success_decodes_in_order() {
    let records = get_all_records_response(200, records_body()).unwrap();
    assert_eq!(records.len(), 2);
    assert_eq!(records[0].id, "r1");
    assert_eq!(records[0].name, "www");
    assert_eq!(records[0].ttl, 300);
    assert_eq!(records[0].type_, "A");
    assert_eq!(records[0].value, "127.0.0.1");
    assert_eq!(records[0].zone_id, "z1");
    assert_eq!(records[1].id, "r2");
    assert_eq!(records[1].type_, "MX");
}

#[test]
fn records_missing_ttl_defaults_to_zero() {
    // One element lacks the ttl key; the list still decodes fully, and that
    // element's ttl is 0.
    let records = get_all_records_response(200, records_body()).unwrap();
    assert_eq!(records[1].ttl, 0);
}

#[test]
fn records_all_carry_requested_zone() {
    // Every record of a listing filtered by a zone names that zone.
    let records = get_all_records_response(200, records_body()).unwrap();
    for r in &records {
        assert_eq!(r.zone_id, "z1");
    }
}

#[test]
fn records_missing_envelope_is_missing_field() {
    let body = parse_json("{\"record\":[]}").unwrap();
    match get_all_records_response(200, body) {
        Err(ApiError::MissingField(k)) => assert_eq!(k, "records"),
        other => panic!("expected MissingField, got {:?}", other),
    }
    // An envelope whose records key is not an array is missing the array too.
    let body2 = parse_json("{\"records\":7}").unwrap();
    assert!(matches!(
        get_all_records_response(200, body2),
        Err(ApiError::MissingField(_))
    ));
}

#[test]
fn records_bad_element_is_deserialize_error() {
    let body = parse_json(
        "{\"records\":[{\"id\":\"r1\",\"name\":\"www\",\"ttl\":\"soon\",\"type\":\"A\",\"value\":\"v\",\"zone_id\":\"z\"}]}",
    )
    .unwrap();
    assert!(matches!(
        get_all_records_response(200, body),
        Err(ApiError::Deserialize(_))
    ));
}

fn created_body() -> Json {
    parse_json(&[
        "{\"record\":{",
        "\"type\":\"A\",\"id\":\"new-id\",\"created\":\"2023-01-01T00:00:00Z\",",
        "\"modified\":\"2023-01-01T00:00:00Z\",\"zone_id\":\"z1\",",
        "\"name\":\"test-record\",\"value\":\"127.0.0.2\",\"ttl\":3600",
        "}}"
    ].concat())
    .unwrap()
}

#[test]
fn create_success_returns_the_created_record() {
    let d = create_record_response(200, created_body()).unwrap();
    assert_eq!(d.type_, "A");
    assert_eq!(d.id, "new-id");
    assert_eq!(d.created, "2023-01-01T00:00:00Z");
    assert_eq!(d.modified, "2023-01-01T00:00:00Z");
    assert_eq!(d.zone_id, "z1");
    assert_eq!(d.name, "test-record");
    assert_eq!(d.value, "127.0.0.2");
    assert_eq!(d.ttl, 3600);
}

#[test]
fn create_unauthorized_on_401() {
    let body = parse_json("{\"error\":{\"message\":\"bad token\"}}").unwrap();
    assert_eq!(
        create_record_response(401, body).unwrap_err(),
        ApiError::Unauthorized
    );
}

#[test]
fn create_conflict_includes_taken_detail() {
    let body = parse_json(
        "{\"error\":{\"message\":\"record exists\",\"code\":409,\"details\":{\"taken\":\"name\"}}}",
    )
    .unwrap();
    match create_record_response(409, body) {
        Err(ApiError::Conflict(msg)) => assert_eq!(msg, "record exists: taken: name"),
        other => panic!("expected Conflict, got {:?}", other),
    }
}

#[test]
fn create_unprocessable_includes_taken_detail() {
    let body = parse_json(
        "{\"error\":{\"message\":\"invalid\",\"details\":{\"taken\":\"www\"}}}",
    )
    .unwrap();
    match create_record_response(422, body) {
        Err(ApiError::Unprocessable(msg)) => assert_eq!(msg, "invalid: taken: www"),
        other => panic!("expected Unprocessable, got {:?}", other),
    }
}

#[test]
fn create_conflict_without_detail_keeps_plain_message() {
    let body = parse_json("{\"error\":{\"message\":\"record exists\"}}").unwrap();
    match create_record_response(409, body) {
        Err(ApiError::Conflict(msg)) => assert_eq!(msg, "record exists"),
        other => panic!("expected Conflict, got {:?}", other),
    }
}

#[test]
fn create_other_statuses_classify() {
    let body = || parse_json("{\"error\":{\"message\":\"m\"}}").unwrap();
    assert_eq!(
        create_record_response(403, body()).unwrap_err(),
        ApiError::Forbidden
    );
    assert_eq!(
        create_record_response(404, body()).unwrap_err(),
        ApiError::NotFound
    );
    assert_eq!(
        create_record_response(406, body()).unwrap_err(),
        ApiError::NotAcceptable
    );
    assert_eq!(
        create_record_response(500, body()).unwrap_err(),
        ApiError::Unknown(500, "m".to_string())
    );
}

#[test]
fn create_malformed_success_body_is_deserialize_error() {
    let body = parse_json("{\"record\":{\"id\":\"x\"}}").unwrap();
    assert!(matches!(
        create_record_response(200, body),
        Err(ApiError::Deserialize(_))
    ));
    assert!(matches!(
        create_record_response(201, Json::Null),
        Err(ApiError::Deserialize(_))
    ));
}

#[test]
fn get_record_accepts_wrapped_and_bare_payloads() {
    let wrapped = parse_json(
        "{\"record\":{\"id\":\"r1\",\"name\":\"www\",\"ttl\":60,\"type\":\"A\",\"value\":\"v\",\"zone_id\":\"z\"}}",
    )
    .unwrap();
    let rec = get_record_response(200, wrapped).unwrap();
    assert_eq!(rec.id, "r1");
    assert_eq!(rec.ttl, 60);

    let bare = parse_json(
        "{\"id\":\"r1\",\"name\":\"www\",\"type\":\"A\",\"value\":\"v\",\"zone_id\":\"z\"}",
    )
    .unwrap();
    let rec2 = get_record_response(200, bare).unwrap();
    assert_eq!(rec2.id, "r1");
    assert_eq!(rec2.ttl, 0);
}

#[test]
fn get_record_not_found_on_404() {
    assert_eq!(
        get_record_response(404, Json::Null).unwrap_err(),
        ApiError::NotFound
    );
}

#[test]
fn get_record_unauthorized_on_401() {
    assert_eq!(
        get_record_response(401, Json::Null).unwrap_err(),
        ApiError::Unauthorized
    );
}

#[test]
fn update_success_returns_the_updated_record() {
    let d = update_record_response(200, created_body()).unwrap();
    assert_eq!(d.id, "new-id");
    assert_eq!(d.name, "test-record");
}

#[test]
fn update_errors_classify() {
    let body = || parse_json("{\"error\":{\"message\":\"m\"}}").unwrap();
    assert_eq!(
        update_record_response(401, body()).unwrap_err(),
        ApiError::Unauthorized
    );
    assert_eq!(
        update_record_response(404, body()).unwrap_err(),
        ApiError::NotFound
    );
    assert_eq!(
        update_record_response(409, body()).unwrap_err(),
        ApiError::Conflict("m".to_string())
    );
}

#[test]
fn delete_success_on_200() {
    assert!(delete_record_response(200, Json::Null).is_ok());
}

#[test]
fn delete_already_deleted_is_not_found_not_success() {
    // Deleting an id that no longer exists answers 404: the second delete
    // reports NotFound rather than appearing to succeed.
    let first = delete_record_response(200, Json::Null);
    assert!(first.is_ok());
    let second = delete_record_response(404, Json::Null);
    assert_eq!(second.unwrap_err(), ApiError::NotFound);
}

#[test]
fn delete_unauthorized_on_401() {
    assert_eq!(
        delete_record_response(401, Json::Null).unwrap_err(),
        ApiError::Unauthorized
    );
}

#[test]
fn create_get_delete_scenario() {
    // The whole life of one record, with the server's answers simulated:
    // create it, read it back, delete it, and see the next read fail.
    let client = hetzner::HetznerClient::new("tok".to_string());
    let req = client.create_record_request("127.0.0.2", 3600, "A", "test-record", "zone-1");
    assert_eq!(
        req.body.as_deref(),
        Some("{\"value\":\"127.0.0.2\",\"ttl\":3600,\"type\":\"A\",\"name\":\"test-record\",\"zone_id\":\"zone-1\"}")
    );

    let created = create_record_response(200, created_body()).unwrap();
    assert_eq!(created.name, "test-record");
    assert_eq!(created.ttl, 3600);
    assert_eq!(created.type_, "A");

    // Reading the record back returns one with the same fields.
    let get_body = parse_json(&[
        "{\"record\":{\"id\":\"new-id\",\"name\":\"test-record\",\"ttl\":3600,",
        "\"type\":\"A\",\"value\":\"127.0.0.2\",\"zone_id\":\"z1\"}}"
    ].concat())
    .unwrap();
    let fetched = get_record_response(200, get_body).unwrap();
    assert_eq!(fetched.id, created.id);
    assert_eq!(fetched.name, created.name);
    assert_eq!(fetched.value, created.value);
    assert_eq!(fetched.type_, created.type_);
    assert_eq!(fetched.zone_id, created.zone_id);

    // Deleting it succeeds once; afterwards the record is gone.
    assert!(delete_record_response(200, Json::Null).is_ok());
    assert_eq!(
        get_record_response(404, Json::Null).unwrap_err(),
        ApiError::NotFound
    );
}
