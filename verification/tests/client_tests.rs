//! Tests of client construction and of the requests each operation builds.

use hetzner::client::HttpMethod;
use hetzner::json::Json;
use hetzner::{HetznerClient, RecordType, TxtVerification, Zone, ZoneType};

fn client() -> HetznerClient {
    HetznerClient::new("token-123".to_string())
}

#[test]
fn new_sets_token_and_fixed_base_url() {
    let c = client();
    assert_eq!(c.auth_api_token, "token-123");
    assert_eq!(c.base_url, "https://dns.hetzner.com/api/v1");
    assert!(c.name.is_none());
    assert!(c.page.is_none());
    assert!(c.per_page.is_none());
    assert!(c.search_name.is_none());
    assert!(c.zone_id.is_none());
    assert!(c.ttl.is_none());
    assert!(c.value.is_none());
    assert!(c.type_.is_none());
    assert!(c.record_id.is_none());
}

#[test]
fn get_all_zones_request_shape() {
    let r = client().get_all_zones_request();
    assert_eq!(r.method, HttpMethod::Get);
    assert_eq!(r.url, "https://dns.hetzner.com/api/v1/zones");
    assert_eq!(r.auth_api_token, "token-123");
    assert!(r.body.is_none());
}

#[test]
fn get_all_records_request_shape() {
    let r = client().get_all_records_request("zone-9");
    assert_eq!(r.method, HttpMethod::Get);
    assert_eq!(r.url, "https://dns.hetzner.com/api/v1/records?zone_id=zone-9");
    assert_eq!(r.auth_api_token, "token-123");
    assert!(r.body.is_none());
}

#[test]
fn get_record_request_shape() {
    let r = client().get_record_request("rec-7");
    assert_eq!(r.method, HttpMethod::Get);
    assert_eq!(r.url, "https://dns.hetzner.com/api/v1/records/rec-7");
    assert!(r.body.is_none());
}

#[test]
fn delete_record_request_shape() {
    let r = client().delete_record_request("rec-7");
    assert_eq!(r.method, HttpMethod::Delete);
    assert_eq!(r.url, "https://dns.hetzner.com/api/v1/records/rec-7");
    assert!(r.body.is_none());
}

#[test]
fn create_record_request_body_is_exact() {
    let r = client().create_record_request("127.0.0.1", 3600, "A", "www", "zone-9");
    assert_eq!(r.method, HttpMethod::Post);
    assert_eq!(r.url, "https://dns.hetzner.com/api/v1/records");
    assert_eq!(
        r.body.as_deref(),
        Some("{\"value\":\"127.0.0.1\",\"ttl\":3600,\"type\":\"A\",\"name\":\"www\",\"zone_id\":\"zone-9\"}")
    );
}

#[test]
fn create_record_request_escapes_body_strings() {
    let r = client().create_record_request("a\"b", 0, "TXT", "x\\y", "z");
    assert_eq!(
        r.body.as_deref(),
        Some("{\"value\":\"a\\\"b\",\"ttl\":0,\"type\":\"TXT\",\"name\":\"x\\\\y\",\"zone_id\":\"z\"}")
    );
}

#[test]
fn update_record_request_body_is_exact() {
    let r = client().update_record_request("rec-7", "zone-9", "A", "www", "127.0.0.2", 60);
    assert_eq!(r.method, HttpMethod::Put);
    assert_eq!(r.url, "https://dns.hetzner.com/api/v1/records/rec-7");
    assert_eq!(
        r.body.as_deref(),
        Some("{\"zone_id\":\"zone-9\",\"type\":\"A\",\"name\":\"www\",\"value\":\"127.0.0.2\",\"ttl\":60}")
    );
}

#[test]
fn record_type_names() {
    assert_eq!(RecordType::A.as_str(), "A");
    assert_eq!(RecordType::AAAA.as_str(), "AAAA");
    assert_eq!(RecordType::CNAME.as_str(), "CNAME");
    assert_eq!(RecordType::TXT.as_str(), "TXT");
    assert_eq!(RecordType::CAA.as_str(), "CAA");
}

#[test]
fn zone_new_keeps_every_field() {
    let zone = Zone::new(
        "2023-01-01T00:00:00Z".to_string(),
        vec!["ns1.example.com".to_string(), "ns2.example.com".to_string()],
        "example.com".to_string(),
        "zone_id_123".to_string(),
        false,
        "legacy_dns_host".to_string(),
        vec!["legacy_ns1".to_string(), "legacy_ns2".to_string()],
        "2023-01-02T00:00:00Z".to_string(),
        "owner_id".to_string(),
        false,
        "read".to_string(),
        "project_id".to_string(),
        10,
        "registrar_name".to_string(),
        "active".to_string(),
        3600,
        TxtVerification {
            name: "txt_name".to_string(),
            token: "txt_token".to_string(),
        },
        "unverified".to_string(),
        ZoneType::new(
            "master".to_string(),
            "zone_type_id".to_string(),
            "zone_type_name".to_string(),
            None,
        ),
    );
    assert_eq!(zone.created, "2023-01-01T00:00:00Z");
    assert_eq!(zone.ns, vec!["ns1.example.com", "ns2.example.com"]);
    assert_eq!(zone.name, "example.com");
    assert_eq!(zone.id, "zone_id_123");
    assert!(!zone.is_secondary_dns);
    assert_eq!(zone.legacy_dns_host, "legacy_dns_host");
    assert_eq!(zone.legacy_ns, vec!["legacy_ns1", "legacy_ns2"]);
    assert_eq!(zone.modified, "2023-01-02T00:00:00Z");
    assert_eq!(zone.owner, "owner_id");
    assert!(!zone.paused);
    assert_eq!(zone.permission, "read");
    assert_eq!(zone.project, "project_id");
    assert_eq!(zone.records_count, 10);
    assert_eq!(zone.registrar, "registrar_name");
    assert_eq!(zone.status, "active");
    assert_eq!(zone.ttl, 3600);
    assert_eq!(zone.txt_verification.name, "txt_name");
    assert_eq!(zone.txt_verification.token, "txt_token");
    assert_eq!(zone.verified, "unverified");
    assert_eq!(zone.zone_type.description, "master");
    assert_eq!(zone.zone_type.id, "zone_type_id");
    assert_eq!(zone.zone_type.name, "zone_type_name");
    assert!(zone.zone_type.prices.is_none());
}

#[test]
fn zone_type_new_keeps_prices() {
    let zt = ZoneType::new(
        "d".to_string(),
        "i".to_string(),
        "n".to_string(),
        Some(Json::UInt(5)),
    );
    assert_eq!(zt.description, "d");
    assert_eq!(zt.id, "i");
    assert_eq!(zt.name, "n");
    assert!(matches!(zt.prices, Some(Json::UInt(5))));
}
