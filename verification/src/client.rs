//! Construction of the client, and the description of one HTTP request.

use crate::HetznerClient;
use vstd::prelude::*;

verus! {

/// The HTTP method of a request.
#[derive(Debug, Clone, Copy, PartialEq, Eq)]
pub enum HttpMethod {
    Get,
    Post,
    Put,
    Delete,
}

/// Everything the transport needs to send one request: the method, the full
/// URL, the token for the `Auth-API-Token` header, and the JSON body text,
/// if the operation has one.
#[derive(Debug, Clone)]
pub struct ApiRequest {
    pub method: HttpMethod,
    pub url: String,
    pub auth_api_token: String,
    pub body: Option<String>,
}

impl HetznerClient {
    /// A new client for the given token, pointed at the API's fixed base
    /// URL, with no query parameters set.
    pub fn new(auth_api_token: String) -> (c: HetznerClient)
        ensures
            c.auth_api_token == auth_api_token,
            c.base_url@ == "https://dns.hetzner.com/api/v1"@,
            c.name is None,
            c.page is None,
            c.per_page is None,
            c.search_name is None,
            c.zone_id is None,
            c.ttl is None,
            c.value is None,
            c.type_ is None,
            c.record_id is None,
    {
        HetznerClient {
            auth_api_token,
            base_url: String::from_str("https://dns.hetzner.com/api/v1"),
            name: None,
            page: None,
            per_page: None,
            search_name: None,
            zone_id: None,
            ttl: None,
            value: None,
            type_: None,
            record_id: None,
        }
    }
}

} // verus!
