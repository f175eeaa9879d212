//! Updating a record: the request sent, and the interpretation of the
//! response.

use crate::client::{ApiRequest, HttpMethod};
use crate::error::{classifies, classify_status, ApiError};
use crate::json::{dec_str, escape_str, escape_string, string_concat, u64_to_string, Json};
use crate::records::create_record::{
    created_decodable, created_value, decode_created, RecordDetails,
};
use crate::HetznerClient;
use vstd::prelude::*;

verus! {

/// The JSON text of the body that the update request sends: exactly the
/// five mutable fields, in this order. An update replaces the record's
/// fields as a whole; it is not a partial patch.
pub open spec fn update_record_body_text(
    zone_id: Seq<char>,
    type_: Seq<char>,
    name: Seq<char>,
    value: Seq<char>,
    ttl: u64,
) -> Seq<char> {
    "{\"zone_id\":\""@ + escape_str(zone_id) + "\",\"type\":\""@ + escape_str(type_)
        + "\",\"name\":\""@ + escape_str(name) + "\",\"value\":\""@ + escape_str(value)
        + "\",\"ttl\":"@ + dec_str(ttl as nat) + "}"@
}

impl HetznerClient {
    /// The request that updates `record_id`: an authenticated PUT of the
    /// single-record endpoint, with the five mutable fields as its JSON
    /// body.
    pub fn update_record_request(
        &self,
        record_id: &str,
        zone_id: &str,
        type_: &str,
        name: &str,
        value: &str,
        ttl: u64,
    ) -> (r: ApiRequest)
        ensures
            r.method == HttpMethod::Put,
            r.url@ == self.base_url@ + "/records/"@ + record_id@,
            r.auth_api_token == self.auth_api_token,
            r.body matches Some(b) && b@ == update_record_body_text(
                zone_id@,
                type_@,
                name@,
                value@,
                ttl,
            ),
    {
        let mut b: String = String::from_str("{\"zone_id\":\"");
        b.append(escape_string(zone_id).as_str());
        b.append("\",\"type\":\"");
        b.append(escape_string(type_).as_str());
        b.append("\",\"name\":\"");
        b.append(escape_string(name).as_str());
        b.append("\",\"value\":\"");
        b.append(escape_string(value).as_str());
        b.append("\",\"ttl\":");
        b.append(u64_to_string(ttl).as_str());
        b.append("}");
        proof {
            assert(b@ =~= update_record_body_text(zone_id@, type_@, name@, value@, ttl));
        }
        let prefix: String = string_concat(self.base_url.as_str(), "/records/");
        ApiRequest {
            method: HttpMethod::Put,
            url: string_concat(prefix.as_str(), record_id),
            auth_api_token: self.auth_api_token.clone(),
            body: Some(b),
        }
    }
}

/// Interprets the response to the update request. On a success status the
/// `{"record": ...}` envelope is decoded; on any other status the error is
/// classified by the uniform table — in particular 401 is `Unauthorized`
/// and 404 is `NotFound`.
pub fn update_record_response(status: u16, body: Json) -> (r: Result<RecordDetails, ApiError>)
    ensures
        !(200 <= status < 300) ==> (r matches Err(e) && classifies(status, body, e)),
        status == 401 ==> r == Err::<RecordDetails, ApiError>(ApiError::Unauthorized),
        status == 404 ==> r == Err::<RecordDetails, ApiError>(ApiError::NotFound),
        200 <= status < 300 ==> match r {
            Ok(d) => created_decodable(body) && d == created_value(body).record,
            Err(e) => !created_decodable(body) && (e matches ApiError::Deserialize(m) && m@
                == "malformed record object"@),
        },
{
    if !(200 <= status && status < 300) {
        return Err(classify_status(status, &body));
    }
    match decode_created(body) {
        Some(c) => Ok(c.record),
        None => Err(ApiError::Deserialize(String::from_str("malformed record object"))),
    }
}

} // verus!
