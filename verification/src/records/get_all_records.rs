//! Listing the records of a zone: the request sent, and the interpretation
//! of the response.

use crate::client::{ApiRequest, HttpMethod};
use crate::error::{error_message, error_message_of, ApiError};
use crate::json::{json_get, string_concat, take_field, Json};
use crate::records::{decode_record, record_decodable, record_value};
use crate::{HetznerClient, Record};
use vstd::prelude::*;

verus! {

/// Whether some element of the array cannot be decoded as a record.
pub open spec fn some_record_undecodable(arr: Seq<Json>) -> bool {
    exists|i: int| 0 <= i < arr.len() && !record_decodable(#[trigger] arr[i])
}

/// The `records` array of the response body, if the body is an object that
/// has one.
pub open spec fn records_array(body: Json) -> Option<Seq<Json>> {
    match json_get(body, "records"@) {
        Some(Json::Arr(vs)) => Some(vs@),
        _ => None,
    }
}

impl HetznerClient {
    /// The request that fetches all records of `zone_id`: an authenticated
    /// GET of the records collection, filtered by the zone.
    pub fn get_all_records_request(&self, zone_id: &str) -> (r: ApiRequest)
        ensures
            r.method == HttpMethod::Get,
            r.url@ == self.base_url@ + "/records?zone_id="@ + zone_id@,
            r.auth_api_token == self.auth_api_token,
            r.body is None,
    {
        let prefix: String = string_concat(self.base_url.as_str(), "/records?zone_id=");
        ApiRequest {
            method: HttpMethod::Get,
            url: string_concat(prefix.as_str(), zone_id),
            auth_api_token: self.auth_api_token.clone(),
            body: None,
        }
    }
}

/// Interprets the response to the record-list request. On status 200 the
/// body's `records` array is decoded in order, each missing `ttl` taken as
/// 0; a body without such an array is a `MissingField`, a record of the
/// wrong shape a `Deserialize`. Any other status fails with that status and
/// the server's message.
#[verifier::rlimit(60)]
pub fn get_all_records_response(status: u16, body: Json) -> (r: Result<Vec<Record>, ApiError>)
    ensures
        status != 200 ==> (r matches Err(e) && e matches ApiError::Status(c, m) && c == status && m@
            == error_message_of(body)),
        status == 200 && records_array(body) is None ==> (r matches Err(e) && e matches ApiError::MissingField(m)
            && m@ == "records"@),
        status == 200 ==> (records_array(body) matches Some(arr) ==> match r {
            Ok(rs) => rs@.len() == arr.len() && (forall|i: int|
                0 <= i < arr.len() ==> record_decodable(#[trigger] arr[i]) && rs@[i]
                    == record_value(arr[i])),
            Err(e) => (e matches ApiError::Deserialize(m) && m@ == "malformed record object"@)
                && some_record_undecodable(arr),
        }),
{
    if status != 200 {
        let m: String = error_message(&body);
        return Err(ApiError::Status(status, m));
    }
    let vs: Vec<Json> = match take_field(body, "records") {
        Some(Json::Arr(vs)) => vs,
        _ => {
            return Err(ApiError::MissingField(String::from_str("records")));
        },
    };
    let ghost vs0: Seq<Json> = vs@;
    let mut rest: Vec<Json> = vs;
    let mut out: Vec<Record> = Vec::new();
    proof {
        assert(vs0.skip(0) =~= vs0);
    }
    while rest.len() > 0
        invariant
            status == 200,
            records_array(body) == Some(vs0),
            out@.len() + rest@.len() == vs0.len(),
            rest@ == vs0.skip(out@.len() as int),
            forall|i: int|
                0 <= i < out@.len() ==> record_decodable(#[trigger] vs0[i]) && out@[i]
                    == record_value(vs0[i]),
        decreases rest.len(),
    {
        let ghost k: int = out@.len() as int;
        proof {
            assert(rest@[0] == vs0[k]);
            assert(vs0.skip(k).drop_first() =~= vs0.skip(k + 1));
        }
        let v0: Json = rest.remove(0);
        match decode_record(v0) {
            Ok(rec) => out.push(rec),
            Err(e) => {
                proof {
                    assert(0 <= k < vs0.len());
                    assert(!record_decodable(vs0[k]));
                    assert(some_record_undecodable(vs0));
                }
                return Err(e);
            },
        }
    }
    Ok(out)
}

/// Every record that a successful record-list interpretation yields names
/// the zone the list was filtered by, provided each record object in the
/// response names that zone — the filter itself is the server's work.
pub proof fn lemma_records_carry_zone_id(arr: Seq<Json>, rs: Seq<Record>, zone_id: Seq<char>)
    requires
        rs.len() == arr.len(),
        forall|i: int|
            0 <= i < arr.len() ==> record_decodable(#[trigger] arr[i]) && rs[i] == record_value(
                arr[i],
            ),
        forall|i: int|
            0 <= i < arr.len() ==> (json_get(#[trigger] arr[i], "zone_id"@) matches Some(v)
                && v is Str && v->Str_0@ == zone_id),
    ensures
        forall|i: int| 0 <= i < rs.len() ==> (#[trigger] rs[i]).zone_id@ == zone_id,
{
    assert forall|i: int| 0 <= i < rs.len() implies (#[trigger] rs[i]).zone_id@ == zone_id by {
        assert(record_decodable(arr[i]));
        assert(rs[i] == record_value(arr[i]));
    }
}

/// A record object that lacks the `ttl` member still decodes, and the
/// decoded record's time-to-live is the default 0.
pub proof fn lemma_missing_ttl_defaults_to_zero(j: Json)
    requires
        record_decodable(j),
        json_get(j, "ttl"@) is None,
    ensures
        record_value(j).ttl == 0,
{
}

} // verus!
