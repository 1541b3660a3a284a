//! What the HTTP handlers answer: the status and envelope chosen from the
//! outcome of a lookup, and the validation of the coordinate conversion request.

use vstd::prelude::*;
use crate::models::ApiResponse;
use crate::astronomy::is_mansion_order;

verus! {

/// Answer to a lookup of a star that does not exist.
pub const STAR_NOT_FOUND: &'static str = "Star not found";

/// Answer to a lookup of a guest star that does not exist.
pub const GUEST_NOT_FOUND: &'static str = "Guest star not found";

/// Answer to a conversion request naming no lunar mansion.
pub const MANSION_ORDER_RANGE: &'static str = "mansion_order must be 1..=28";

/// The HTTP statuses the API answers with.
#[derive(Clone, Copy, Debug, PartialEq, Eq, Structural)]
pub enum HttpStatus {
    Success,
    BadRequest,
    NotFound,
    InternalServerError,
}

/// An HTTP answer: its status and its JSON envelope.
pub struct Reply<T> {
    pub status: HttpStatus,
    pub body: ApiResponse<T>,
}

/// Answer to a listing: the list on success, the storage error otherwise.
pub fn reply_listing<T>(outcome: Result<T, String>) -> (r: Reply<T>)
    ensures
        match outcome {
            Ok(v) => r.status == HttpStatus::Success && r.body.is_success(v, None),
            Err(e) => r.status == HttpStatus::InternalServerError && r.body.is_failure(e@),
        },
{
    match outcome {
        Ok(v) => Reply { status: HttpStatus::Success, body: ApiResponse::ok(v) },
        Err(e) => Reply { status: HttpStatus::InternalServerError, body: ApiResponse::err(e.as_str()) },
    }
}

/// Answer to a counted listing: the list with its record count on success,
/// the storage error otherwise.
pub fn reply_counted<T>(outcome: Result<(T, i64), String>) -> (r: Reply<T>)
    ensures
        match outcome {
            Ok((v, n)) => r.status == HttpStatus::Success && r.body.is_success(v, Some(n)),
            Err(e) => r.status == HttpStatus::InternalServerError && r.body.is_failure(e@),
        },
{
    match outcome {
        Ok((v, n)) => Reply { status: HttpStatus::Success, body: ApiResponse::ok_with_count(v, n) },
        Err(e) => Reply { status: HttpStatus::InternalServerError, body: ApiResponse::err(e.as_str()) },
    }
}

/// Answer to a lookup by id: the record when found, "not found" with the
/// message `missing` when absent, the storage error otherwise.
pub fn reply_lookup<T>(outcome: Result<Option<T>, String>, missing: &str) -> (r: Reply<T>)
    ensures
        match outcome {
            Ok(Some(v)) => r.status == HttpStatus::Success && r.body.is_success(v, None),
            Ok(None) => r.status == HttpStatus::NotFound && r.body.is_failure(missing@),
            Err(e) => r.status == HttpStatus::InternalServerError && r.body.is_failure(e@),
        },
{
    match outcome {
        Ok(Some(v)) => Reply { status: HttpStatus::Success, body: ApiResponse::ok(v) },
        Ok(None) => Reply { status: HttpStatus::NotFound, body: ApiResponse::err(missing) },
        Err(e) => Reply { status: HttpStatus::InternalServerError, body: ApiResponse::err(e.as_str()) },
    }
}

/// Checks the mansion number of a coordinate conversion request: a number in
/// `1..=28` is accepted as is, any other is answered "bad request".
pub fn validate_mansion_order<T>(order: i32) -> (r: Result<usize, Reply<T>>)
    ensures
        match r {
            Ok(n) => is_mansion_order(order as int) && n == order,
            Err(rep) => !is_mansion_order(order as int) && rep.status == HttpStatus::BadRequest
                && rep.body.is_failure(MANSION_ORDER_RANGE@),
        },
{
    if 1 <= order && order <= 28 {
        Ok(order as usize)
    } else {
        Err(Reply { status: HttpStatus::BadRequest, body: ApiResponse::err(MANSION_ORDER_RANGE) })
    }
}

} // verus!
