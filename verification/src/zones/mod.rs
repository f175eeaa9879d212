//! The zone operations, and the decoding of one zone object.

use crate::error::ApiError;
use crate::json::{json_get, json_lookup, str_eq, Json};
use crate::{TxtVerification, Zone, ZoneType};
use vstd::prelude::*;

pub mod get_all_zones;
pub mod zone_types;

verus! {

/// Whether `j` is an object whose member `key` is a string.
pub open spec fn has_str(j: Json, key: Seq<char>) -> bool {
    json_get(j, key) matches Some(v) && v is Str
}

/// Whether `j` is an object whose member `key` is a boolean.
pub open spec fn has_bool(j: Json, key: Seq<char>) -> bool {
    json_get(j, key) matches Some(v) && v is Bool
}

/// Whether `j` is an object whose member `key` is a non-negative integer.
pub open spec fn has_uint(j: Json, key: Seq<char>) -> bool {
    json_get(j, key) matches Some(v) && v is UInt
}

/// Whether `j` is an array of strings.
pub open spec fn string_array_decodable(j: Json) -> bool {
    &&& j is Arr
    &&& forall|i: int| 0 <= i < j->Arr_0@.len() ==> (#[trigger] j->Arr_0@[i]) is Str
}

/// Whether `v` holds exactly the strings of the array `j`, in order.
pub open spec fn string_array_matches(j: Json, v: Vec<String>) -> bool {
    &&& j is Arr
    &&& v@.len() == j->Arr_0@.len()
    &&& forall|i: int|
        0 <= i < v@.len() ==> (#[trigger] j->Arr_0@[i]) is Str && v@[i] == j->Arr_0@[i]->Str_0
}

/// Decodes an array of strings, in order.
pub fn decode_string_array(j: Json) -> (r: Option<Vec<String>>)
    ensures
        match r {
            Some(v) => string_array_decodable(j) && string_array_matches(j, v),
            None => !string_array_decodable(j),
        },
{
    let vs: Vec<Json> = match j {
        Json::Arr(vs) => vs,
        _ => {
            return None;
        },
    };
    let ghost vs0: Seq<Json> = vs@;
    let mut rest: Vec<Json> = vs;
    let mut out: Vec<String> = Vec::new();
    proof {
        assert(vs0.skip(0) =~= vs0);
    }
    while rest.len() > 0
        invariant
            j is Arr,
            j->Arr_0@ == vs0,
            out@.len() + rest@.len() == vs0.len(),
            rest@ == vs0.skip(out@.len() as int),
            forall|i: int|
                0 <= i < out@.len() ==> (#[trigger] vs0[i]) is Str && out@[i] == vs0[i]->Str_0,
        decreases rest.len(),
    {
        let ghost k: int = out@.len() as int;
        proof {
            assert(rest@[0] == vs0[k]);
            assert(vs0.skip(k).drop_first() =~= vs0.skip(k + 1));
        }
        let v0: Json = rest.remove(0);
        match v0 {
            Json::Str(s) => out.push(s),
            _ => {
                proof {
                    assert(!((j->Arr_0@[k]) is Str));
                }
                return None;
            },
        }
    }
    Some(out)
}

/// Whether TXT-verification details can be decoded from the object `j`.
pub open spec fn txt_decodable(j: Json) -> bool {
    &&& has_str(j, "name"@)
    &&& has_str(j, "token"@)
}

/// The TXT-verification details the object `j` decodes to.
pub open spec fn txt_value(j: Json) -> TxtVerification {
    TxtVerification {
        name: json_get(j, "name"@)->Some_0->Str_0,
        token: json_get(j, "token"@)->Some_0->Str_0,
    }
}

/// Decodes the TXT-verification details of a zone.
pub fn decode_txt(j: Json) -> (r: Option<TxtVerification>)
    ensures
        match r {
            Some(t) => txt_decodable(j) && t == txt_value(j),
            None => !txt_decodable(j),
        },
{
    let ms: Vec<(String, Json)> = match j {
        Json::Obj(ms) => ms,
        _ => {
            return None;
        },
    };
    let ghost ms0: Seq<(String, Json)> = ms@;
    let mut rest: Vec<(String, Json)> = ms;
    let mut f_name: Option<Json> = None;
    let mut f_token: Option<Json> = None;
    proof {
        assert(ms0.skip(ms0.len() as int) =~= Seq::<(String, Json)>::empty());
        assert(rest@ =~= ms0.take(ms0.len() as int));
    }
    while rest.len() > 0
        invariant
            rest@.len() <= ms0.len(),
            rest@ == ms0.take(rest@.len() as int),
            f_name == json_lookup(ms0.skip(rest@.len() as int), "name"@),
            f_token == json_lookup(ms0.skip(rest@.len() as int), "token"@),
        decreases rest.len(),
    {
        let ghost i: int = rest@.len() as int;
        proof {
            reveal_strlit("name");
            reveal_strlit("token");
            assert(rest@[i - 1] == ms0[i - 1]);
            assert("name"@.len() == 4);
            assert("token"@.len() == 5);
        }
        let (k, v) = rest.pop().unwrap();
        proof {
            assert(rest@ =~= ms0.take(i - 1));
            assert(ms0.skip(i - 1)[0] == ms0[i - 1]);
            assert(ms0.skip(i - 1).drop_first() =~= ms0.skip(i));
        }
        if str_eq(k.as_str(), "name") {
            f_name = Some(v);
        } else if str_eq(k.as_str(), "token") {
            f_token = Some(v);
        }
    }
    proof {
        assert(ms0.skip(0) =~= ms0);
    }
    let name: String = match f_name {
        Some(Json::Str(s)) => s,
        _ => {
            return None;
        },
    };
    let token: String = match f_token {
        Some(Json::Str(s)) => s,
        _ => {
            return None;
        },
    };
    Some(TxtVerification { name, token })
}

/// Whether zone-type details can be decoded from the object `j`. The
/// `prices` member is free-form and may be absent.
pub open spec fn zone_type_decodable(j: Json) -> bool {
    &&& has_str(j, "description"@)
    &&& has_str(j, "id"@)
    &&& has_str(j, "name"@)
}

/// How the decoded zone-type details relate to the object `j`: the three
/// string fields are its strings, and `prices` is kept exactly as sent,
/// `None` when absent.
pub open spec fn zone_type_matches(j: Json, zt: ZoneType) -> bool {
    &&& zt.description == json_get(j, "description"@)->Some_0->Str_0
    &&& zt.id == json_get(j, "id"@)->Some_0->Str_0
    &&& zt.name == json_get(j, "name"@)->Some_0->Str_0
    &&& zt.prices == json_get(j, "prices"@)
}

/// Decodes the zone-type details of a zone.
pub fn decode_zone_type(j: Json) -> (r: Option<ZoneType>)
    ensures
        match r {
            Some(zt) => zone_type_decodable(j) && zone_type_matches(j, zt),
            None => !zone_type_decodable(j),
        },
{
    let ms: Vec<(String, Json)> = match j {
        Json::Obj(ms) => ms,
        _ => {
            return None;
        },
    };
    let ghost ms0: Seq<(String, Json)> = ms@;
    let mut rest: Vec<(String, Json)> = ms;
    let mut f_description: Option<Json> = None;
    let mut f_id: Option<Json> = None;
    let mut f_name: Option<Json> = None;
    let mut f_prices: Option<Json> = None;
    proof {
        assert(ms0.skip(ms0.len() as int) =~= Seq::<(String, Json)>::empty());
        assert(rest@ =~= ms0.take(ms0.len() as int));
    }
    while rest.len() > 0
        invariant
            rest@.len() <= ms0.len(),
            rest@ == ms0.take(rest@.len() as int),
            f_description == json_lookup(ms0.skip(rest@.len() as int), "description"@),
            f_id == json_lookup(ms0.skip(rest@.len() as int), "id"@),
            f_name == json_lookup(ms0.skip(rest@.len() as int), "name"@),
            f_prices == json_lookup(ms0.skip(rest@.len() as int), "prices"@),
        decreases rest.len(),
    {
        let ghost i: int = rest@.len() as int;
        proof {
            reveal_strlit("description");
            reveal_strlit("id");
            reveal_strlit("name");
            reveal_strlit("prices");
            assert(rest@[i - 1] == ms0[i - 1]);
            assert("description"@.len() == 11);
            assert("id"@.len() == 2);
            assert("name"@.len() == 4);
            assert("prices"@.len() == 6);
        }
        let (k, v) = rest.pop().unwrap();
        proof {
            assert(rest@ =~= ms0.take(i - 1));
            assert(ms0.skip(i - 1)[0] == ms0[i - 1]);
            assert(ms0.skip(i - 1).drop_first() =~= ms0.skip(i));
        }
        if str_eq(k.as_str(), "description") {
            f_description = Some(v);
        } else if str_eq(k.as_str(), "id") {
            f_id = Some(v);
        } else if str_eq(k.as_str(), "name") {
            f_name = Some(v);
        } else if str_eq(k.as_str(), "prices") {
            f_prices = Some(v);
        }
    }
    proof {
        assert(ms0.skip(0) =~= ms0);
    }
    let description: String = match f_description {
        Some(Json::Str(s)) => s,
        _ => {
            return None;
        },
    };
    let id: String = match f_id {
        Some(Json::Str(s)) => s,
        _ => {
            return None;
        },
    };
    let name: String = match f_name {
        Some(Json::Str(s)) => s,
        _ => {
            return None;
        },
    };
    Some(ZoneType { description, id, name, prices: f_prices })
}

/// Whether a zone can be decoded from the object `j`: every field present
/// with its shape, the `id` a non-empty string.
pub open spec fn zone_decodable(j: Json) -> bool {
    &&& has_str(j, "created"@)
    &&& json_get(j, "id"@) matches Some(v) && v is Str && v->Str_0@.len() > 0
    &&& has_bool(j, "is_secondary_dns"@)
    &&& has_str(j, "legacy_dns_host"@)
    &&& json_get(j, "legacy_ns"@) matches Some(v) && string_array_decodable(v)
    &&& has_str(j, "modified"@)
    &&& has_str(j, "name"@)
    &&& json_get(j, "ns"@) matches Some(v) && string_array_decodable(v)
    &&& has_str(j, "owner"@)
    &&& has_bool(j, "paused"@)
    &&& has_str(j, "permission"@)
    &&& has_str(j, "project"@)
    &&& has_uint(j, "records_count"@)
    &&& has_str(j, "registrar"@)
    &&& has_str(j, "status"@)
    &&& has_uint(j, "ttl"@)
    &&& json_get(j, "txt_verification"@) matches Some(v) && txt_decodable(v)
    &&& has_str(j, "verified"@)
    &&& json_get(j, "zone_type"@) matches Some(v) && zone_type_decodable(v)
}

/// How a decoded zone relates to the object `j`, field by field.
pub open spec fn zone_matches(j: Json, z: Zone) -> bool {
    &&& z.created == json_get(j, "created"@)->Some_0->Str_0
    &&& z.id == json_get(j, "id"@)->Some_0->Str_0
    &&& z.is_secondary_dns == json_get(j, "is_secondary_dns"@)->Some_0->Bool_0
    &&& z.legacy_dns_host == json_get(j, "legacy_dns_host"@)->Some_0->Str_0
    &&& string_array_matches(json_get(j, "legacy_ns"@)->Some_0, z.legacy_ns)
    &&& z.modified == json_get(j, "modified"@)->Some_0->Str_0
    &&& z.name == json_get(j, "name"@)->Some_0->Str_0
    &&& string_array_matches(json_get(j, "ns"@)->Some_0, z.ns)
    &&& z.owner == json_get(j, "owner"@)->Some_0->Str_0
    &&& z.paused == json_get(j, "paused"@)->Some_0->Bool_0
    &&& z.permission == json_get(j, "permission"@)->Some_0->Str_0
    &&& z.project == json_get(j, "project"@)->Some_0->Str_0
    &&& z.records_count == json_get(j, "records_count"@)->Some_0->UInt_0
    &&& z.registrar == json_get(j, "registrar"@)->Some_0->Str_0
    &&& z.status == json_get(j, "status"@)->Some_0->Str_0
    &&& z.ttl == json_get(j, "ttl"@)->Some_0->UInt_0
    &&& z.txt_verification == txt_value(json_get(j, "txt_verification"@)->Some_0)
    &&& z.verified == json_get(j, "verified"@)->Some_0->Str_0
    &&& zone_type_matches(json_get(j, "zone_type"@)->Some_0, z.zone_type)
}

/// Decodes one zone from the object `j`. Anything missing or of the wrong
/// shape, or an empty `id`, is a `Deserialize` error.
pub fn decode_zone(j: Json) -> (r: Result<Zone, ApiError>)
    ensures
        zone_decodable(j) ==> (r matches Ok(z) && zone_matches(j, z)),
        !zone_decodable(j) ==> (r matches Err(e) && e matches ApiError::Deserialize(m) && m@
            == "malformed zone object"@),
{
    let ms: Vec<(String, Json)> = match j {
        Json::Obj(ms) => ms,
        _ => {
            return Err(ApiError::Deserialize(String::from_str("malformed zone object")));
        },
    };
    let ghost ms0: Seq<(String, Json)> = ms@;
    let mut rest: Vec<(String, Json)> = ms;
    let mut f_created: Option<Json> = None;
    let mut f_id: Option<Json> = None;
    let mut f_is_secondary_dns: Option<Json> = None;
    let mut f_legacy_dns_host: Option<Json> = None;
    let mut f_legacy_ns: Option<Json> = None;
    let mut f_modified: Option<Json> = None;
    let mut f_name: Option<Json> = None;
    let mut f_ns: Option<Json> = None;
    let mut f_owner: Option<Json> = None;
    let mut f_paused: Option<Json> = None;
    let mut f_permission: Option<Json> = None;
    let mut f_project: Option<Json> = None;
    let mut f_records_count: Option<Json> = None;
    let mut f_registrar: Option<Json> = None;
    let mut f_status: Option<Json> = None;
    let mut f_ttl: Option<Json> = None;
    let mut f_txt_verification: Option<Json> = None;
    let mut f_verified: Option<Json> = None;
    let mut f_zone_type: Option<Json> = None;
    proof {
        assert(ms0.skip(ms0.len() as int) =~= Seq::<(String, Json)>::empty());
        assert(rest@ =~= ms0.take(ms0.len() as int));
    }
    while rest.len() > 0
        invariant
            rest@.len() <= ms0.len(),
            rest@ == ms0.take(rest@.len() as int),
            f_created == json_lookup(ms0.skip(rest@.len() as int), "created"@),
            f_id == json_lookup(ms0.skip(rest@.len() as int), "id"@),
            f_is_secondary_dns == json_lookup(ms0.skip(rest@.len() as int), "is_secondary_dns"@),
            f_legacy_dns_host == json_lookup(ms0.skip(rest@.len() as int), "legacy_dns_host"@),
            f_legacy_ns == json_lookup(ms0.skip(rest@.len() as int), "legacy_ns"@),
            f_modified == json_lookup(ms0.skip(rest@.len() as int), "modified"@),
            f_name == json_lookup(ms0.skip(rest@.len() as int), "name"@),
            f_ns == json_lookup(ms0.skip(rest@.len() as int), "ns"@),
            f_owner == json_lookup(ms0.skip(rest@.len() as int), "owner"@),
            f_paused == json_lookup(ms0.skip(rest@.len() as int), "paused"@),
            f_permission == json_lookup(ms0.skip(rest@.len() as int), "permission"@),
            f_project == json_lookup(ms0.skip(rest@.len() as int), "project"@),
            f_records_count == json_lookup(ms0.skip(rest@.len() as int), "records_count"@),
            f_registrar == json_lookup(ms0.skip(rest@.len() as int), "registrar"@),
            f_status == json_lookup(ms0.skip(rest@.len() as int), "status"@),
            f_ttl == json_lookup(ms0.skip(rest@.len() as int), "ttl"@),
            f_txt_verification == json_lookup(ms0.skip(rest@.len() as int), "txt_verification"@),
            f_verified == json_lookup(ms0.skip(rest@.len() as int), "verified"@),
            f_zone_type == json_lookup(ms0.skip(rest@.len() as int), "zone_type"@),
        decreases rest.len(),
    {
        let ghost i: int = rest@.len() as int;
        proof {
            reveal_strlit("created");
            reveal_strlit("id");
            reveal_strlit("is_secondary_dns");
            reveal_strlit("legacy_dns_host");
            reveal_strlit("legacy_ns");
            reveal_strlit("modified");
            reveal_strlit("name");
            reveal_strlit("ns");
            reveal_strlit("owner");
            reveal_strlit("paused");
            reveal_strlit("permission");
            reveal_strlit("project");
            reveal_strlit("records_count");
            reveal_strlit("registrar");
            reveal_strlit("status");
            reveal_strlit("ttl");
            reveal_strlit("txt_verification");
            reveal_strlit("verified");
            reveal_strlit("zone_type");
            assert(rest@[i - 1] == ms0[i - 1]);
            assert("created"@.len() == 7);
            assert("id"@.len() == 2);
            assert("is_secondary_dns"@.len() == 16);
            assert("legacy_dns_host"@.len() == 15);
            assert("legacy_ns"@.len() == 9);
            assert("modified"@.len() == 8);
            assert("name"@.len() == 4);
            assert("ns"@.len() == 2);
            assert("owner"@.len() == 5);
            assert("paused"@.len() == 6);
            assert("permission"@.len() == 10);
            assert("project"@.len() == 7);
            assert("records_count"@.len() == 13);
            assert("registrar"@.len() == 9);
            assert("status"@.len() == 6);
            assert("ttl"@.len() == 3);
            assert("txt_verification"@.len() == 16);
            assert("verified"@.len() == 8);
            assert("zone_type"@.len() == 9);
            assert("created"@[0] == 'c');
            assert("project"@[0] == 'p');
            assert("id"@[0] == 'i');
            assert("ns"@[0] == 'n');
            assert("is_secondary_dns"@[0] == 'i');
            assert("txt_verification"@[0] == 't');
            assert("legacy_ns"@[0] == 'l');
            assert("registrar"@[0] == 'r');
            assert("zone_type"@[0] == 'z');
            assert("modified"@[0] == 'm');
            assert("verified"@[0] == 'v');
            assert("paused"@[0] == 'p');
            assert("status"@[0] == 's');
        }
        let (k, v) = rest.pop().unwrap();
        proof {
            assert(rest@ =~= ms0.take(i - 1));
            assert(ms0.skip(i - 1)[0] == ms0[i - 1]);
            assert(ms0.skip(i - 1).drop_first() =~= ms0.skip(i));
        }
        if str_eq(k.as_str(), "created") {
            f_created = Some(v);
        } else if str_eq(k.as_str(), "id") {
            f_id = Some(v);
        } else if str_eq(k.as_str(), "is_secondary_dns") {
            f_is_secondary_dns = Some(v);
        } else if str_eq(k.as_str(), "legacy_dns_host") {
            f_legacy_dns_host = Some(v);
        } else if str_eq(k.as_str(), "legacy_ns") {
            f_legacy_ns = Some(v);
        } else if str_eq(k.as_str(), "modified") {
            f_modified = Some(v);
        } else if str_eq(k.as_str(), "name") {
            f_name = Some(v);
        } else if str_eq(k.as_str(), "ns") {
            f_ns = Some(v);
        } else if str_eq(k.as_str(), "owner") {
            f_owner = Some(v);
        } else if str_eq(k.as_str(), "paused") {
            f_paused = Some(v);
        } else if str_eq(k.as_str(), "permission") {
            f_permission = Some(v);
        } else if str_eq(k.as_str(), "project") {
            f_project = Some(v);
        } else if str_eq(k.as_str(), "records_count") {
            f_records_count = Some(v);
        } else if str_eq(k.as_str(), "registrar") {
            f_registrar = Some(v);
        } else if str_eq(k.as_str(), "status") {
            f_status = Some(v);
        } else if str_eq(k.as_str(), "ttl") {
            f_ttl = Some(v);
        } else if str_eq(k.as_str(), "txt_verification") {
            f_txt_verification = Some(v);
        } else if str_eq(k.as_str(), "verified") {
            f_verified = Some(v);
        } else if str_eq(k.as_str(), "zone_type") {
            f_zone_type = Some(v);
        }
    }
    proof {
        assert(ms0.skip(0) =~= ms0);
    }
    let created: String = match f_created {
        Some(Json::Str(s)) => s,
        _ => {
            return Err(ApiError::Deserialize(String::from_str("malformed zone object")));
        },
    };
    let id: String = match f_id {
        Some(Json::Str(s)) => s,
        _ => {
            return Err(ApiError::Deserialize(String::from_str("malformed zone object")));
        },
    };
    if id.as_str().is_empty() {
        return Err(ApiError::Deserialize(String::from_str("malformed zone object")));
    }
    let is_secondary_dns: bool = match f_is_secondary_dns {
        Some(Json::Bool(b)) => b,
        _ => {
            return Err(ApiError::Deserialize(String::from_str("malformed zone object")));
        },
    };
    let legacy_dns_host: String = match f_legacy_dns_host {
        Some(Json::Str(s)) => s,
        _ => {
            return Err(ApiError::Deserialize(String::from_str("malformed zone object")));
        },
    };
    let legacy_ns: Vec<String> = match f_legacy_ns {
        Some(a) => match decode_string_array(a) {
            Some(v) => v,
            None => {
                return Err(ApiError::Deserialize(String::from_str("malformed zone object")));
            },
        },
        None => {
            return Err(ApiError::Deserialize(String::from_str("malformed zone object")));
        },
    };
    let modified: String = match f_modified {
        Some(Json::Str(s)) => s,
        _ => {
            return Err(ApiError::Deserialize(String::from_str("malformed zone object")));
        },
    };
    let name: String = match f_name {
        Some(Json::Str(s)) => s,
        _ => {
            return Err(ApiError::Deserialize(String::from_str("malformed zone object")));
        },
    };
    let ns: Vec<String> = match f_ns {
        Some(a) => match decode_string_array(a) {
            Some(v) => v,
            None => {
                return Err(ApiError::Deserialize(String::from_str("malformed zone object")));
            },
        },
        None => {
            return Err(ApiError::Deserialize(String::from_str("malformed zone object")));
        },
    };
    let owner: String = match f_owner {
        Some(Json::Str(s)) => s,
        _ => {
            return Err(ApiError::Deserialize(String::from_str("malformed zone object")));
        },
    };
    let paused: bool = match f_paused {
        Some(Json::Bool(b)) => b,
        _ => {
            return Err(ApiError::Deserialize(String::from_str("malformed zone object")));
        },
    };
    let permission: String = match f_permission {
        Some(Json::Str(s)) => s,
        _ => {
            return Err(ApiError::Deserialize(String::from_str("malformed zone object")));
        },
    };
    let project: String = match f_project {
        Some(Json::Str(s)) => s,
        _ => {
            return Err(ApiError::Deserialize(String::from_str("malformed zone object")));
        },
    };
    let records_count: u64 = match f_records_count {
        Some(Json::UInt(n)) => n,
        _ => {
            return Err(ApiError::Deserialize(String::from_str("malformed zone object")));
        },
    };
    let registrar: String = match f_registrar {
        Some(Json::Str(s)) => s,
        _ => {
            return Err(ApiError::Deserialize(String::from_str("malformed zone object")));
        },
    };
    let status: String = match f_status {
        Some(Json::Str(s)) => s,
        _ => {
            return Err(ApiError::Deserialize(String::from_str("malformed zone object")));
        },
    };
    let ttl: u64 = match f_ttl {
        Some(Json::UInt(n)) => n,
        _ => {
            return Err(ApiError::Deserialize(String::from_str("malformed zone object")));
        },
    };
    let txt_verification: TxtVerification = match f_txt_verification {
        Some(t) => match decode_txt(t) {
            Some(t2) => t2,
            None => {
                return Err(ApiError::Deserialize(String::from_str("malformed zone object")));
            },
        },
        None => {
            return Err(ApiError::Deserialize(String::from_str("malformed zone object")));
        },
    };
    let verified: String = match f_verified {
        Some(Json::Str(s)) => s,
        _ => {
            return Err(ApiError::Deserialize(String::from_str("malformed zone object")));
        },
    };
    let zone_type: ZoneType = match f_zone_type {
        Some(zt) => match decode_zone_type(zt) {
            Some(zt2) => zt2,
            None => {
                return Err(ApiError::Deserialize(String::from_str("malformed zone object")));
            },
        },
        None => {
            return Err(ApiError::Deserialize(String::from_str("malformed zone object")));
        },
    };
    Ok(
        Zone {
            created,
            id,
            is_secondary_dns,
            legacy_dns_host,
            legacy_ns,
            modified,
            name,
            ns,
            owner,
            paused,
            permission,
            project,
            records_count,
            registrar,
            status,
            ttl,
            txt_verification,
            verified,
            zone_type,
        },
    )
}

impl Zone {
    /// A new zone value with exactly the given fields. A plain local
    /// constructor: nothing is sent anywhere.
    pub fn new(
        created: String,
        ns: Vec<String>,
        name: String,
        id: String,
        is_secondary_dns: bool,
        legacy_dns_host: String,
        legacy_ns: Vec<String>,
        modified: String,
        owner: String,
        paused: bool,
        permission: String,
        project: String,
        records_count: u64,
        registrar: String,
        status: String,
        ttl: u64,
        txt_verification: TxtVerification,
        verified: String,
        zone_type: ZoneType,
    ) -> (z: Zone)
        ensures
            z == (Zone {
                created,
                id,
                is_secondary_dns,
                legacy_dns_host,
                legacy_ns,
                modified,
                name,
                ns,
                owner,
                paused,
                permission,
                project,
                records_count,
                registrar,
                status,
                ttl,
                txt_verification,
                verified,
                zone_type,
            }),
    {
        Zone {
            created,
            ns,
            name,
            id,
            is_secondary_dns,
            legacy_dns_host,
            legacy_ns,
            modified,
            owner,
            paused,
            permission,
            project,
            records_count,
            registrar,
            status,
            ttl,
            txt_verification,
            verified,
            zone_type,
        }
    }
}

} // verus!
