//! Construction of zone-type details.

use crate::json::Json;
use crate::ZoneType;
use vstd::prelude::*;

verus! {

impl ZoneType {
    /// A new zone-type value with exactly the given fields. A plain local
    /// constructor: nothing is sent anywhere.
    pub fn new(description: String, id: String, name: String, prices: Option<Json>) -> (zt:
        ZoneType)
        ensures
            zt == (ZoneType { description, id, name, prices }),
    {
        ZoneType { description, id, name, prices }
    }
}

} // verus!
