//! Fetching one record: the request sent, and the interpretation of the
//! response.

use crate::client::{ApiRequest, HttpMethod};
use crate::error::{classifies, classify_status, ApiError};
use crate::json::{get_field, json_get, string_concat, take_field, Json};
use crate::records::{decode_record, record_decodable, record_value};
use crate::{HetznerClient, Record};
use vstd::pervasive::unreached;
use vstd::prelude::*;

verus! {

/// The object a successful single-record response carries: the value of
/// its `record` member when it has one, the body itself otherwise — the
/// server wraps this endpoint's payload inconsistently, and either shape is
/// accepted.
pub open spec fn record_payload(body: Json) -> Json {
    match json_get(body, "record"@) {
        Some(rj) => rj,
        None => body,
    }
}

impl HetznerClient {
    /// The request that fetches `record_id`: an authenticated GET of the
    /// single-record endpoint.
    pub fn get_record_request(&self, record_id: &str) -> (r: ApiRequest)
        ensures
            r.method == HttpMethod::Get,
            r.url@ == self.base_url@ + "/records/"@ + record_id@,
            r.auth_api_token == self.auth_api_token,
            r.body is None,
    {
        let prefix: String = string_concat(self.base_url.as_str(), "/records/");
        ApiRequest {
            method: HttpMethod::Get,
            url: string_concat(prefix.as_str(), record_id),
            auth_api_token: self.auth_api_token.clone(),
            body: None,
        }
    }
}

/// Interprets the response to the single-record request. On a success
/// status the record is decoded from the payload, wrapped in a `record`
/// envelope or bare, a missing `ttl` taken as 0; on any other status the
/// error is classified by the uniform table — in particular 401 is
/// `Unauthorized` and 404 is `NotFound`.
pub fn get_record_response(status: u16, body: Json) -> (r: Result<Record, ApiError>)
    ensures
        !(200 <= status < 300) ==> (r matches Err(e) && classifies(status, body, e)),
        status == 401 ==> r == Err::<Record, ApiError>(ApiError::Unauthorized),
        status == 404 ==> r == Err::<Record, ApiError>(ApiError::NotFound),
        200 <= status < 300 ==> match r {
            Ok(rec) => record_decodable(record_payload(body)) && rec == record_value(
                record_payload(body),
            ),
            Err(e) => !record_decodable(record_payload(body)) && (e matches ApiError::Deserialize(m)
                && m@ == "malformed record object"@),
        },
{
    if !(200 <= status && status < 300) {
        return Err(classify_status(status, &body));
    }
    let wrapped: bool = match get_field(&body, "record") {
        Some(_) => true,
        None => false,
    };
    if wrapped {
        match take_field(body, "record") {
            Some(rj) => decode_record(rj),
            None => unreached(),
        }
    } else {
        decode_record(body)
    }
}

} // verus!
