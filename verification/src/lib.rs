//! Client library for a DNS-hosting provider's HTTP API.
//!
//! The library is the pure half of the client: it builds the request each
//! operation sends, and it interprets the status code and JSON body that come
//! back, mapping them to typed results and a small error taxonomy. The actual
//! HTTP transport is the caller's: it sends what the builders describe and
//! hands every response back as a status code and body text.

use vstd::prelude::*;

pub mod client;
pub mod error;
pub mod json;
pub mod records;
pub mod zones;

verus! {

/// A client for the DNS API: holds the authentication token, the base URL,
/// and optional query parameters for the various requests.
#[derive(Debug, Clone)]
pub struct HetznerClient {
    /// The authentication API token sent with every request.
    pub auth_api_token: String,
    /// The base URL of the API.
    pub base_url: String,
    pub name: Option<String>,
    pub page: Option<u32>,
    pub per_page: Option<u32>,
    pub search_name: Option<String>,
    pub zone_id: Option<String>,
    pub ttl: Option<u32>,
    pub value: Option<String>,
    pub type_: Option<String>,
    pub record_id: Option<String>,
}

/// A DNS record.
#[derive(Debug, Clone)]
pub struct Record {
    /// The unique identifier of the record, assigned by the server.
    pub id: String,
    /// The name of the record.
    pub name: String,
    /// The time-to-live of the record, in seconds.
    pub ttl: u64,
    /// The type of the record (e.g. A, AAAA, CNAME).
    pub type_: String,
    /// The value of the record.
    pub value: String,
    /// The zone the record belongs to.
    pub zone_id: String,
}

/// The closed enumeration of DNS record types the API knows.
#[derive(Debug, Clone, PartialEq, Eq)]
pub enum RecordType {
    A,
    AAAA,
    NS,
    MX,
    CNAME,
    RP,
    TXT,
    SOA,
    HINFO,
    SRV,
    DANE,
    TLSA,
    DS,
    CAA,
}

/// A primary server for a DNS zone.
pub struct PrimaryServer {
    /// The address of the primary server.
    pub address: String,
    /// The port number of the primary server.
    pub port: u16,
    /// The zone the primary server belongs to.
    pub zone_id: String,
}

/// A DNS zone.
#[derive(Debug)]
pub struct Zone {
    /// The creation timestamp of the zone.
    pub created: String,
    /// The identifier of the zone, assigned by the server; never empty.
    pub id: String,
    /// Whether the zone is a secondary DNS.
    pub is_secondary_dns: bool,
    /// The legacy DNS host of the zone.
    pub legacy_dns_host: String,
    /// The legacy name servers of the zone.
    pub legacy_ns: Vec<String>,
    /// The last-modified timestamp of the zone.
    pub modified: String,
    /// The domain name of the zone.
    pub name: String,
    /// The name servers of the zone.
    pub ns: Vec<String>,
    /// The owner of the zone.
    pub owner: String,
    /// Whether the zone is paused.
    pub paused: bool,
    /// The permission level of the zone.
    pub permission: String,
    /// The project the zone belongs to.
    pub project: String,
    /// How many records the zone holds; a count, never negative.
    pub records_count: u64,
    /// The registrar of the zone.
    pub registrar: String,
    /// The status of the zone (e.g. "verified", "pending").
    pub status: String,
    /// The default time-to-live of the zone, in seconds.
    pub ttl: u64,
    /// The TXT-verification details of the zone.
    pub txt_verification: TxtVerification,
    /// The verification timestamp of the zone.
    pub verified: String,
    /// The type details of the zone.
    pub zone_type: ZoneType,
}

/// TXT-verification details of a DNS zone.
#[derive(Debug, Clone)]
pub struct TxtVerification {
    pub name: String,
    pub token: String,
}

/// The type details of a DNS zone.
#[derive(Debug)]
pub struct ZoneType {
    pub description: String,
    pub id: String,
    pub name: String,
    /// Price information, kept as the JSON the server sent, if any.
    pub prices: Option<json::Json>,
}

impl RecordType {
    /// The name of the record type on the wire.
    pub fn as_str(&self) -> (r: &'static str)
        ensures
            r@ == match *self {
                RecordType::A => "A"@,
                RecordType::AAAA => "AAAA"@,
                RecordType::NS => "NS"@,
                RecordType::MX => "MX"@,
                RecordType::CNAME => "CNAME"@,
                RecordType::RP => "RP"@,
                RecordType::TXT => "TXT"@,
                RecordType::SOA => "SOA"@,
                RecordType::HINFO => "HINFO"@,
                RecordType::SRV => "SRV"@,
                RecordType::DANE => "DANE"@,
                RecordType::TLSA => "TLSA"@,
                RecordType::DS => "DS"@,
                RecordType::CAA => "CAA"@,
            },
    {
        match self {
            RecordType::A => "A",
            RecordType::AAAA => "AAAA",
            RecordType::NS => "NS",
            RecordType::MX => "MX",
            RecordType::CNAME => "CNAME",
            RecordType::RP => "RP",
            RecordType::TXT => "TXT",
            RecordType::SOA => "SOA",
            RecordType::HINFO => "HINFO",
            RecordType::SRV => "SRV",
            RecordType::DANE => "DANE",
            RecordType::TLSA => "TLSA",
            RecordType::DS => "DS",
            RecordType::CAA => "CAA",
        }
    }
}

} // verus!
