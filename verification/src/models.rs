//! Plain data models shared by the API layer and the response envelope.

use vstd::prelude::*;

verus! {

/// Version string written into every response envelope.
pub const PKG_VERSION: &'static str = "0.1.0";

/// Message of every successful answer.
pub const SUCCESS_MESSAGE: &'static str = "success";

/// A dynasty as it appears in a cross-dynasty comparison.
#[derive(Clone, Debug)]
pub struct DynastyInfo {
    pub id: i64,
    pub name: String,
    pub year: i32,
}

/// Query of the match endpoints.
#[derive(Clone, Debug)]
pub struct MatchRequest {
    pub guest_id: Option<i64>,
    pub include_snr: Option<bool>,
    pub top_k: Option<i32>,
}

/// Envelope of every API answer.
pub struct ApiResponse<T> {
    pub code: i32,
    pub message: String,
    pub data: Option<T>,
    pub total: Option<i64>,
    pub version: String,
}

impl<T> ApiResponse<T> {
    /// `self` is a successful answer carrying `data` and the optional count `total`.
    pub open spec fn is_success(self, data: T, total: Option<i64>) -> bool {
        &&& self.code == 0
        &&& self.message@ == SUCCESS_MESSAGE@
        &&& self.data == Some(data)
        &&& self.total == total
        &&& self.version@ == PKG_VERSION@
    }

    /// `self` is a failed answer with the message `msg`.
    pub open spec fn is_failure(self, msg: Seq<char>) -> bool {
        &&& self.code == -1
        &&& self.message@ == msg
        &&& self.data is None
        &&& self.total is None
        &&& self.version@ == PKG_VERSION@
    }

    /// A successful answer carrying `data`.
    pub fn ok(data: T) -> (r: Self)
        ensures
            r.is_success(data, None),
    {
        ApiResponse {
            code: 0,
            message: String::from_str(SUCCESS_MESSAGE),
            data: Some(data),
            total: None,
            version: String::from_str(PKG_VERSION),
        }
    }

    /// A successful answer carrying `data` and the number `total` of matching records.
    pub fn ok_with_count(data: T, total: i64) -> (r: Self)
        ensures
            r.is_success(data, Some(total)),
    {
        ApiResponse {
            code: 0,
            message: String::from_str(SUCCESS_MESSAGE),
            data: Some(data),
            total: Some(total),
            version: String::from_str(PKG_VERSION),
        }
    }

    /// A failed answer carrying the message `msg`.
    pub fn err(msg: &str) -> (r: Self)
        ensures
            r.is_failure(msg@),
    {
        ApiResponse {
            code: -1,
            message: String::from_str(msg),
            data: None,
            total: None,
            version: String::from_str(PKG_VERSION),
        }
    }
}

} // verus!
