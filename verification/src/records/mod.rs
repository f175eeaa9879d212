//! The record operations, and the decoding of one record object.

use crate::error::ApiError;
use crate::json::{json_get, json_lookup, str_eq, Json};
use crate::Record;
use vstd::prelude::*;

pub mod create_record;
pub mod delete_record;
pub mod get_all_records;
pub mod get_record;
pub mod update_record;

verus! {

/// Whether a record can be decoded from the object `j`: the five string
/// fields present as strings, and `ttl`, when it is present at all, a
/// non-negative integer.
pub open spec fn record_decodable(j: Json) -> bool {
    &&& json_get(j, "id"@) matches Some(v) && v is Str
    &&& json_get(j, "name"@) matches Some(v) && v is Str
    &&& json_get(j, "type"@) matches Some(v) && v is Str
    &&& json_get(j, "value"@) matches Some(v) && v is Str
    &&& json_get(j, "zone_id"@) matches Some(v) && v is Str
    &&& match json_get(j, "ttl"@) {
        Some(v) => v is UInt,
        None => true,
    }
}

/// The time-to-live of the record object `j`: the value of its `ttl` field,
/// or 0 when the server omitted the field.
pub open spec fn record_ttl(j: Json) -> u64 {
    match json_get(j, "ttl"@) {
        Some(Json::UInt(n)) => n,
        _ => 0,
    }
}

/// The record the object `j` decodes to.
pub open spec fn record_value(j: Json) -> Record {
    Record {
        id: json_get(j, "id"@)->Some_0->Str_0,
        name: json_get(j, "name"@)->Some_0->Str_0,
        ttl: record_ttl(j),
        type_: json_get(j, "type"@)->Some_0->Str_0,
        value: json_get(j, "value"@)->Some_0->Str_0,
        zone_id: json_get(j, "zone_id"@)->Some_0->Str_0,
    }
}

/// Decodes one record from the object `j`. A missing `ttl` is taken as 0;
/// anything else missing or of the wrong shape is a `Deserialize` error.
pub fn decode_record(j: Json) -> (r: Result<Record, ApiError>)
    ensures
        record_decodable(j) ==> r == Ok::<Record, ApiError>(record_value(j)),
        !record_decodable(j) ==> (r matches Err(e) && e matches ApiError::Deserialize(m)
            && m@ == "malformed record object"@),
{
    let ms: Vec<(String, Json)> = match j {
        Json::Obj(ms) => ms,
        _ => {
            return Err(ApiError::Deserialize(String::from_str("malformed record object")));
        },
    };
    let ghost ms0: Seq<(String, Json)> = ms@;
    let mut rest: Vec<(String, Json)> = ms;
    let mut f_id: Option<Json> = None;
    let mut f_name: Option<Json> = None;
    let mut f_ttl: Option<Json> = None;
    let mut f_type: Option<Json> = None;
    let mut f_value: Option<Json> = None;
    let mut f_zone: Option<Json> = None;
    proof {
        assert(ms0.skip(ms0.len() as int) =~= Seq::<(String, Json)>::empty());
        assert(rest@ =~= ms0.take(ms0.len() as int));
    }
    while rest.len() > 0
        invariant
            rest@.len() <= ms0.len(),
            rest@ == ms0.take(rest@.len() as int),
            f_id == json_lookup(ms0.skip(rest@.len() as int), "id"@),
            f_name == json_lookup(ms0.skip(rest@.len() as int), "name"@),
            f_ttl == json_lookup(ms0.skip(rest@.len() as int), "ttl"@),
            f_type == json_lookup(ms0.skip(rest@.len() as int), "type"@),
            f_value == json_lookup(ms0.skip(rest@.len() as int), "value"@),
            f_zone == json_lookup(ms0.skip(rest@.len() as int), "zone_id"@),
        decreases rest.len(),
    {
        let ghost i: int = rest@.len() as int;
        proof {
            reveal_strlit("id");
            reveal_strlit("name");
            reveal_strlit("ttl");
            reveal_strlit("type");
            reveal_strlit("value");
            reveal_strlit("zone_id");
            assert(rest@[i - 1] == ms0[i - 1]);
            assert("id"@.len() == 2);
            assert("name"@.len() == 4);
            assert("ttl"@.len() == 3);
            assert("type"@.len() == 4);
            assert("value"@.len() == 5);
            assert("zone_id"@.len() == 7);
            assert("name"@[0] == 'n');
            assert("type"@[0] == 't');
        }
        let (k, v) = rest.pop().unwrap();
        proof {
            assert(rest@ =~= ms0.take(i - 1));
            assert(ms0.skip(i - 1)[0] == ms0[i - 1]);
            assert(ms0.skip(i - 1).drop_first() =~= ms0.skip(i));
        }
        if str_eq(k.as_str(), "id") {
            f_id = Some(v);
        } else if str_eq(k.as_str(), "name") {
            f_name = Some(v);
        } else if str_eq(k.as_str(), "ttl") {
            f_ttl = Some(v);
        } else if str_eq(k.as_str(), "type") {
            f_type = Some(v);
        } else if str_eq(k.as_str(), "value") {
            f_value = Some(v);
        } else if str_eq(k.as_str(), "zone_id") {
            f_zone = Some(v);
        }
    }
    proof {
        assert(ms0.skip(0) =~= ms0);
    }
    let id: String = match f_id {
        Some(Json::Str(s)) => s,
        _ => {
            return Err(ApiError::Deserialize(String::from_str("malformed record object")));
        },
    };
    let name: String = match f_name {
        Some(Json::Str(s)) => s,
        _ => {
            return Err(ApiError::Deserialize(String::from_str("malformed record object")));
        },
    };
    let type_: String = match f_type {
        Some(Json::Str(s)) => s,
        _ => {
            return Err(ApiError::Deserialize(String::from_str("malformed record object")));
        },
    };
    let value: String = match f_value {
        Some(Json::Str(s)) => s,
        _ => {
            return Err(ApiError::Deserialize(String::from_str("malformed record object")));
        },
    };
    let zone_id: String = match f_zone {
        Some(Json::Str(s)) => s,
        _ => {
            return Err(ApiError::Deserialize(String::from_str("malformed record object")));
        },
    };
    let ttl: u64 = match f_ttl {
        Some(Json::UInt(n)) => n,
        None => 0,
        Some(_) => {
            return Err(ApiError::Deserialize(String::from_str("malformed record object")));
        },
    };
    Ok(Record { id, name, ttl, type_, value, zone_id })
}

} // verus!
