//! What a store answered, and what a handler answers.

use vstd::prelude::*;

verus! {

/// The outcome of a request to the store.
#[derive(Debug)]
pub enum StoreReply<T> {
    /// No store is configured.
    NoStore,
    /// The store failed.
    Failed,
    /// The store's answer.
    Done(T),
}

/// An HTTP status.
#[derive(Clone, Copy, Debug, PartialEq, Eq, Structural)]
pub enum StatusCode {
    NoContent,
    Forbidden,
    NotFound,
    Gone,
    InternalServerError,
    ServiceUnavailable,
}

/// The number of a status.
pub open spec fn status_number(s: StatusCode) -> u16 {
    match s {
        StatusCode::NoContent => 204,
        StatusCode::Forbidden => 403,
        StatusCode::NotFound => 404,
        StatusCode::Gone => 410,
        StatusCode::InternalServerError => 500,
        StatusCode::ServiceUnavailable => 503,
    }
}

impl StatusCode {
    /// The status as a number.
    pub fn number(&self) -> (r: u16)
        ensures
            r == status_number(*self),
    {
        match self {
            StatusCode::NoContent => 204,
            StatusCode::Forbidden => 403,
            StatusCode::NotFound => 404,
            StatusCode::Gone => 410,
            StatusCode::InternalServerError => 500,
            StatusCode::ServiceUnavailable => 503,
        }
    }
}

/// What is left of a reply once a missing or failing store has been answered
/// with its status.
pub open spec fn store_answer<T>(reply: StoreReply<T>) -> Result<T, StatusCode> {
    match reply {
        StoreReply::NoStore => Err(StatusCode::ServiceUnavailable),
        StoreReply::Failed => Err(StatusCode::InternalServerError),
        StoreReply::Done(value) => Ok(value),
    }
}

/// Answers a missing store with 503 and a failing one with 500.
pub fn answer<T>(reply: StoreReply<T>) -> (r: Result<T, StatusCode>)
    ensures
        r == store_answer(reply),
{
    match reply {
        StoreReply::NoStore => Err(StatusCode::ServiceUnavailable),
        StoreReply::Failed => Err(StatusCode::InternalServerError),
        StoreReply::Done(value) => Ok(value),
    }
}

/// Every status has its own number, and the numbers are those of HTTP: 204 for
/// no content, 403 for what is forbidden, 404 for what is not found, 410 for
/// what is gone, 500 for a failure and 503 for a missing service.
pub proof fn law_status_numbers(s: StatusCode, t: StatusCode, r: u16, q: u16)
    requires
        call_ensures(StatusCode::number, (&s,), r),
        call_ensures(StatusCode::number, (&t,), q),
    ensures
        r == q ==> s == t,
        r == 204 <==> s is NoContent,
        r == 403 <==> s is Forbidden,
        r == 404 <==> s is NotFound,
        r == 410 <==> s is Gone,
        r == 500 <==> s is InternalServerError,
        r == 503 <==> s is ServiceUnavailable,
{
}

/// A missing store is answered with 503 and a failing one with 500; what a
/// store gave is handed on as it is.
pub proof fn law_stores_are_answered_for<T>(reply: StoreReply<T>, r: Result<T, StatusCode>)
    requires
        call_ensures(answer::<T>, (reply,), r),
    ensures
        reply is NoStore <==> (r matches Err(status) && status is ServiceUnavailable),
        reply is Failed <==> (r matches Err(status) && status is InternalServerError),
        reply matches StoreReply::Done(value) ==> r == Ok::<T, StatusCode>(value),
        r is Ok <==> reply is Done,
{
}

} // verus!
