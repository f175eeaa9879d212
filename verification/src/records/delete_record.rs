//! Deleting a record: the request sent, and the interpretation of the
//! response.

use crate::client::{ApiRequest, HttpMethod};
use crate::error::{classifies, classify_status, ApiError};
use crate::json::{string_concat, Json};
use crate::HetznerClient;
use vstd::prelude::*;

verus! {

impl HetznerClient {
    /// The request that deletes `record_id`: an authenticated DELETE of the
    /// single-record endpoint, with no body.
    pub fn delete_record_request(&self, record_id: &str) -> (r: ApiRequest)
        ensures
            r.method == HttpMethod::Delete,
            r.url@ == self.base_url@ + "/records/"@ + record_id@,
            r.auth_api_token == self.auth_api_token,
            r.body is None,
    {
        let prefix: String = string_concat(self.base_url.as_str(), "/records/");
        ApiRequest {
            method: HttpMethod::Delete,
            url: string_concat(prefix.as_str(), record_id),
            auth_api_token: self.auth_api_token.clone(),
            body: None,
        }
    }
}

/// Interprets the response to the delete request: a success status is
/// success with no body to decode; any other status is classified by the
/// uniform table. In particular deleting an id that no longer exists is
/// status 404, and so `NotFound`, never success: deleting twice cannot
/// appear to succeed twice.
pub fn delete_record_response(status: u16, body: Json) -> (r: Result<(), ApiError>)
    ensures
        200 <= status < 300 ==> r == Ok::<(), ApiError>(()),
        !(200 <= status < 300) ==> (r matches Err(e) && classifies(status, body, e)),
        status == 401 ==> r == Err::<(), ApiError>(ApiError::Unauthorized),
        status == 404 ==> r == Err::<(), ApiError>(ApiError::NotFound),
{
    if 200 <= status && status < 300 {
        Ok(())
    } else {
        Err(classify_status(status, &body))
    }
}

} // verus!
