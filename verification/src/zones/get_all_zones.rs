//! Listing all zones: the request sent, and the interpretation of the
//! response.

use crate::client::{ApiRequest, HttpMethod};
use crate::error::{error_message, error_message_of, ApiError};
use crate::json::{json_get, string_concat, take_field, Json};
use crate::zones::{decode_zone, zone_decodable, zone_matches};
use crate::{HetznerClient, Zone};
use vstd::prelude::*;

verus! {

/// The envelope of the zone-list response: its `zones` array. The response
/// also carries pagination metadata, which this library does not traverse;
/// only the page the server sent is returned.
pub struct ApiResponse {
    pub zones: Vec<Zone>,
}

/// Whether some element of the array cannot be decoded as a zone.
pub open spec fn some_zone_undecodable(arr: Seq<Json>) -> bool {
    exists|i: int| 0 <= i < arr.len() && !zone_decodable(#[trigger] arr[i])
}

/// The `zones` array of the response body, if the body is an object that
/// has one.
pub open spec fn zones_array(body: Json) -> Option<Seq<Json>> {
    match json_get(body, "zones"@) {
        Some(Json::Arr(vs)) => Some(vs@),
        _ => None,
    }
}

impl HetznerClient {
    /// The request that fetches all zones: an authenticated GET of the
    /// zones collection.
    pub fn get_all_zones_request(&self) -> (r: ApiRequest)
        ensures
            r.method == HttpMethod::Get,
            r.url@ == self.base_url@ + "/zones"@,
            r.auth_api_token == self.auth_api_token,
            r.body is None,
    {
        ApiRequest {
            method: HttpMethod::Get,
            url: string_concat(self.base_url.as_str(), "/zones"),
            auth_api_token: self.auth_api_token.clone(),
            body: None,
        }
    }
}

/// Interprets the response to the zone-list request. On status 200 the
/// body's `zones` array is decoded in order; a body without such an array
/// is a `MissingField`, a zone of the wrong shape a `Deserialize`. Any
/// other status fails with that status and the server's message.
#[verifier::rlimit(60)]
pub fn get_all_zones_response(status: u16, body: Json) -> (r: Result<Vec<Zone>, ApiError>)
    ensures
        status != 200 ==> (r matches Err(e) && e matches ApiError::Status(c, m) && c == status && m@
            == error_message_of(body)),
        status == 200 && zones_array(body) is None ==> (r matches Err(e) && e matches ApiError::MissingField(m)
            && m@ == "zones"@),
        status == 200 ==> (zones_array(body) matches Some(arr) ==> match r {
            Ok(zs) => zs@.len() == arr.len() && (forall|i: int|
                0 <= i < arr.len() ==> zone_decodable(#[trigger] arr[i]) && zone_matches(
                    arr[i],
                    zs@[i],
                )),
            Err(e) => (e matches ApiError::Deserialize(m) && m@ == "malformed zone object"@)
                && some_zone_undecodable(arr),
        }),
{
    if status != 200 {
        let m: String = error_message(&body);
        return Err(ApiError::Status(status, m));
    }
    let vs: Vec<Json> = match take_field(body, "zones") {
        Some(Json::Arr(vs)) => vs,
        _ => {
            return Err(ApiError::MissingField(String::from_str("zones")));
        },
    };
    let ghost vs0: Seq<Json> = vs@;
    let mut rest: Vec<Json> = vs;
    let mut out: Vec<Zone> = Vec::new();
    proof {
        assert(vs0.skip(0) =~= vs0);
    }
    while rest.len() > 0
        invariant
            status == 200,
            zones_array(body) == Some(vs0),
            out@.len() + rest@.len() == vs0.len(),
            rest@ == vs0.skip(out@.len() as int),
            forall|i: int|
                0 <= i < out@.len() ==> zone_decodable(#[trigger] vs0[i]) && zone_matches(
                    vs0[i],
                    out@[i],
                ),
        decreases rest.len(),
    {
        let ghost k: int = out@.len() as int;
        proof {
            assert(rest@[0] == vs0[k]);
            assert(vs0.skip(k).drop_first() =~= vs0.skip(k + 1));
        }
        let v0: Json = rest.remove(0);
        match decode_zone(v0) {
            Ok(z) => out.push(z),
            Err(e) => {
                proof {
                    assert(0 <= k < vs0.len());
                    assert(!zone_decodable(vs0[k]));
                    assert(e matches ApiError::Deserialize(m) && m@ == "malformed zone object"@);
                    assert(some_zone_undecodable(vs0));
                }
                return Err(e);
            },
        }
    }
    Ok(out)
}

/// Every zone that a successful zone-list interpretation yields has a
/// non-empty identifier and a non-negative record count: this holds of the
/// decoded zones whenever each decodes from its object in the array.
pub proof fn lemma_zones_well_formed(arr: Seq<Json>, zs: Seq<Zone>)
    requires
        zs.len() == arr.len(),
        forall|i: int|
            0 <= i < arr.len() ==> zone_decodable(#[trigger] arr[i]) && zone_matches(
                arr[i],
                zs[i],
            ),
    ensures
        forall|i: int| 0 <= i < zs.len() ==> (#[trigger] zs[i]).id@.len() > 0,
        forall|i: int| 0 <= i < zs.len() ==> (#[trigger] zs[i]).records_count >= 0,
{
    assert forall|i: int| 0 <= i < zs.len() implies (#[trigger] zs[i]).id@.len() > 0 by {
        assert(zone_decodable(arr[i]));
        assert(zone_matches(arr[i], zs[i]));
    }
}

} // verus!
