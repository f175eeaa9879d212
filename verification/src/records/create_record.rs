//! Creating a record: the request sent, and the interpretation of the
//! response.

use crate::client::{ApiRequest, HttpMethod};
use crate::error::{classifies, classify_status, detailed_message_of, ApiError};
use crate::json::{
    dec_str, escape_str, escape_string, json_get, json_lookup, str_eq, string_concat,
    take_field, u64_to_string, Json,
};
use crate::HetznerClient;
use vstd::prelude::*;

verus! {

/// The envelope of a successful create or update response: the record,
/// under the `record` key.
#[derive(Debug, Clone)]
pub struct CreatedRecord {
    /// Details of the created record.
    pub record: RecordDetails,
}

/// The full description of a record as the server returns it after a
/// write: the record's fields together with its timestamps.
#[derive(Debug, Clone)]
pub struct RecordDetails {
    /// The type of the record.
    pub type_: String,
    /// The unique identifier of the record, assigned by the server.
    pub id: String,
    /// The creation timestamp of the record.
    pub created: String,
    /// The last-modified timestamp of the record.
    pub modified: String,
    /// The zone the record belongs to.
    pub zone_id: String,
    /// The name of the record.
    pub name: String,
    /// The value of the record.
    pub value: String,
    /// The time-to-live of the record, in seconds.
    pub ttl: u64,
}

/// Whether record details can be decoded from the object `j`: here every
/// field, `ttl` included, must be present with its shape.
pub open spec fn details_decodable(j: Json) -> bool {
    &&& json_get(j, "type"@) matches Some(v) && v is Str
    &&& json_get(j, "id"@) matches Some(v) && v is Str
    &&& json_get(j, "created"@) matches Some(v) && v is Str
    &&& json_get(j, "modified"@) matches Some(v) && v is Str
    &&& json_get(j, "zone_id"@) matches Some(v) && v is Str
    &&& json_get(j, "name"@) matches Some(v) && v is Str
    &&& json_get(j, "value"@) matches Some(v) && v is Str
    &&& json_get(j, "ttl"@) matches Some(v) && v is UInt
}

/// The record details the object `j` decodes to.
pub open spec fn details_value(j: Json) -> RecordDetails {
    RecordDetails {
        type_: json_get(j, "type"@)->Some_0->Str_0,
        id: json_get(j, "id"@)->Some_0->Str_0,
        created: json_get(j, "created"@)->Some_0->Str_0,
        modified: json_get(j, "modified"@)->Some_0->Str_0,
        zone_id: json_get(j, "zone_id"@)->Some_0->Str_0,
        name: json_get(j, "name"@)->Some_0->Str_0,
        value: json_get(j, "value"@)->Some_0->Str_0,
        ttl: json_get(j, "ttl"@)->Some_0->UInt_0,
    }
}

/// Decodes the details of one record from the object `j`.
pub fn decode_record_details(j: Json) -> (r: Option<RecordDetails>)
    ensures
        match r {
            Some(d) => details_decodable(j) && d == details_value(j),
            None => !details_decodable(j),
        },
{
    let ms: Vec<(String, Json)> = match j {
        Json::Obj(ms) => ms,
        _ => {
            return None;
        },
    };
    let ghost ms0: Seq<(String, Json)> = ms@;
    let mut rest: Vec<(String, Json)> = ms;
    let mut f_type: Option<Json> = None;
    let mut f_id: Option<Json> = None;
    let mut f_created: Option<Json> = None;
    let mut f_modified: Option<Json> = None;
    let mut f_zone: Option<Json> = None;
    let mut f_name: Option<Json> = None;
    let mut f_value: Option<Json> = None;
    let mut f_ttl: Option<Json> = None;
    proof {
        assert(ms0.skip(ms0.len() as int) =~= Seq::<(String, Json)>::empty());
        assert(rest@ =~= ms0.take(ms0.len() as int));
    }
    while rest.len() > 0
        invariant
            rest@.len() <= ms0.len(),
            rest@ == ms0.take(rest@.len() as int),
            f_type == json_lookup(ms0.skip(rest@.len() as int), "type"@),
            f_id == json_lookup(ms0.skip(rest@.len() as int), "id"@),
            f_created == json_lookup(ms0.skip(rest@.len() as int), "created"@),
            f_modified == json_lookup(ms0.skip(rest@.len() as int), "modified"@),
            f_zone == json_lookup(ms0.skip(rest@.len() as int), "zone_id"@),
            f_name == json_lookup(ms0.skip(rest@.len() as int), "name"@),
            f_value == json_lookup(ms0.skip(rest@.len() as int), "value"@),
            f_ttl == json_lookup(ms0.skip(rest@.len() as int), "ttl"@),
        decreases rest.len(),
    {
        let ghost i: int = rest@.len() as int;
        proof {
            reveal_strlit("type");
            reveal_strlit("id");
            reveal_strlit("created");
            reveal_strlit("modified");
            reveal_strlit("zone_id");
            reveal_strlit("name");
            reveal_strlit("value");
            reveal_strlit("ttl");
            assert(rest@[i - 1] == ms0[i - 1]);
            assert("type"@.len() == 4);
            assert("id"@.len() == 2);
            assert("created"@.len() == 7);
            assert("modified"@.len() == 8);
            assert("zone_id"@.len() == 7);
            assert("name"@.len() == 4);
            assert("value"@.len() == 5);
            assert("ttl"@.len() == 3);
            assert("type"@[0] == 't');
            assert("name"@[0] == 'n');
            assert("created"@[0] == 'c');
            assert("zone_id"@[0] == 'z');
        }
        let (k, v) = rest.pop().unwrap();
        proof {
            assert(rest@ =~= ms0.take(i - 1));
            assert(ms0.skip(i - 1)[0] == ms0[i - 1]);
            assert(ms0.skip(i - 1).drop_first() =~= ms0.skip(i));
        }
        if str_eq(k.as_str(), "type") {
            f_type = Some(v);
        } else if str_eq(k.as_str(), "id") {
            f_id = Some(v);
        } else if str_eq(k.as_str(), "created") {
            f_created = Some(v);
        } else if str_eq(k.as_str(), "modified") {
            f_modified = Some(v);
        } else if str_eq(k.as_str(), "zone_id") {
            f_zone = Some(v);
        } else if str_eq(k.as_str(), "name") {
            f_name = Some(v);
        } else if str_eq(k.as_str(), "value") {
            f_value = Some(v);
        } else if str_eq(k.as_str(), "ttl") {
            f_ttl = Some(v);
        }
    }
    proof {
        assert(ms0.skip(0) =~= ms0);
    }
    let type_: String = match f_type {
        Some(Json::Str(s)) => s,
        _ => {
            return None;
        },
    };
    let id: String = match f_id {
        Some(Json::Str(s)) => s,
        _ => {
            return None;
        },
    };
    let created: String = match f_created {
        Some(Json::Str(s)) => s,
        _ => {
            return None;
        },
    };
    let modified: String = match f_modified {
        Some(Json::Str(s)) => s,
        _ => {
            return None;
        },
    };
    let zone_id: String = match f_zone {
        Some(Json::Str(s)) => s,
        _ => {
            return None;
        },
    };
    let name: String = match f_name {
        Some(Json::Str(s)) => s,
        _ => {
            return None;
        },
    };
    let value: String = match f_value {
        Some(Json::Str(s)) => s,
        _ => {
            return None;
        },
    };
    let ttl: u64 = match f_ttl {
        Some(Json::UInt(n)) => n,
        _ => {
            return None;
        },
    };
    Some(RecordDetails { type_, id, created, modified, zone_id, name, value, ttl })
}

/// Whether the body of a successful write response can be decoded: an
/// object whose `record` member holds the record details.
pub open spec fn created_decodable(body: Json) -> bool {
    json_get(body, "record"@) matches Some(rj) && details_decodable(rj)
}

/// The decoded envelope of a successful write response.
pub open spec fn created_value(body: Json) -> CreatedRecord {
    CreatedRecord { record: details_value(json_get(body, "record"@)->Some_0) }
}

/// Decodes the `{"record": ...}` envelope of a successful write response.
pub fn decode_created(body: Json) -> (r: Option<CreatedRecord>)
    ensures
        match r {
            Some(c) => created_decodable(body) && c == created_value(body),
            None => !created_decodable(body),
        },
{
    match take_field(body, "record") {
        Some(rj) => match decode_record_details(rj) {
            Some(d) => Some(CreatedRecord { record: d }),
            None => None,
        },
        None => None,
    }
}

/// The JSON text of the body that the create request sends: exactly the
/// five fields, in this order.
pub open spec fn create_record_body_text(
    value: Seq<char>,
    ttl: u64,
    type_: Seq<char>,
    name: Seq<char>,
    zone_id: Seq<char>,
) -> Seq<char> {
    "{\"value\":\""@ + escape_str(value) + "\",\"ttl\":"@ + dec_str(ttl as nat) + ",\"type\":\""@
        + escape_str(type_) + "\",\"name\":\""@ + escape_str(name) + "\",\"zone_id\":\""@
        + escape_str(zone_id) + "\"}"@
}

impl HetznerClient {
    /// The request that creates a record: an authenticated POST to the
    /// records collection, with the five fields as its JSON body.
    pub fn create_record_request(
        &self,
        value: &str,
        ttl: u64,
        type_: &str,
        name: &str,
        zone_id: &str,
    ) -> (r: ApiRequest)
        ensures
            r.method == HttpMethod::Post,
            r.url@ == self.base_url@ + "/records"@,
            r.auth_api_token == self.auth_api_token,
            r.body matches Some(b) && b@ == create_record_body_text(
                value@,
                ttl,
                type_@,
                name@,
                zone_id@,
            ),
    {
        let mut b: String = String::from_str("{\"value\":\"");
        b.append(escape_string(value).as_str());
        b.append("\",\"ttl\":");
        b.append(u64_to_string(ttl).as_str());
        b.append(",\"type\":\"");
        b.append(escape_string(type_).as_str());
        b.append("\",\"name\":\"");
        b.append(escape_string(name).as_str());
        b.append("\",\"zone_id\":\"");
        b.append(escape_string(zone_id).as_str());
        b.append("\"}");
        proof {
            assert(b@ =~= create_record_body_text(value@, ttl, type_@, name@, zone_id@));
        }
        ApiRequest {
            method: HttpMethod::Post,
            url: string_concat(self.base_url.as_str(), "/records"),
            auth_api_token: self.auth_api_token.clone(),
            body: Some(b),
        }
    }
}

/// Interprets the response to the create request. On a success status the
/// `{"record": ...}` envelope is decoded; on any other status the error is
/// classified by the uniform table — in particular 401 is `Unauthorized`,
/// and 409 is `Conflict` carrying the server's message with any "taken"
/// detail appended.
pub fn create_record_response(status: u16, body: Json) -> (r: Result<RecordDetails, ApiError>)
    ensures
        !(200 <= status < 300) ==> (r matches Err(e) && classifies(status, body, e)),
        status == 401 ==> r == Err::<RecordDetails, ApiError>(ApiError::Unauthorized),
        status == 409 ==> (r matches Err(e) && e matches ApiError::Conflict(m) && m@
            == detailed_message_of(body)),
        200 <= status < 300 ==> match r {
            Ok(d) => created_decodable(body) && d == created_value(body).record,
            Err(e) => !created_decodable(body) && (e matches ApiError::Deserialize(m) && m@
                == "malformed record object"@),
        },
{
    if !(200 <= status && status < 300) {
        return Err(classify_status(status, &body));
    }
    match decode_created(body) {
        Some(c) => Ok(c.record),
        None => Err(ApiError::Deserialize(String::from_str("malformed record object"))),
    }
}

} // verus!
