use vstd::prelude::*;

verus! {

/// What a handler answers, one variant per response shape: a record,
/// an array of records, or a confirmation message, each served with
/// status 200; or one of the three error classes.
#[derive(Debug, PartialEq)]
pub enum Reply<T> {
    /// 200 with one record as the body.
    Success(T),
    /// 200 with an array of records as the body.
    SuccessList(Vec<T>),
    /// 200 with a confirmation message as the body.
    SuccessMessage(String),
    /// 400: the supplied identifier is empty or malformed.
    BadRequest(String),
    /// 404: no record matches the supplied identifier.
    NotFound(String),
    /// 500: the underlying store failed.
    ServerError(String),
}

/// The HTTP status code each reply shape is served with.
pub open spec fn status_of<T>(r: Reply<T>) -> u16 {
    match r {
        Reply::Success(_) => 200,
        Reply::SuccessList(_) => 200,
        Reply::SuccessMessage(_) => 200,
        Reply::BadRequest(_) => 400,
        Reply::NotFound(_) => 404,
        Reply::ServerError(_) => 500,
    }
}

impl<T> Reply<T> {
    /// The HTTP status code of this reply.
    pub fn status_code(&self) -> (s: u16)
        ensures
            s == status_of(*self),
    {
        match self {
            Reply::Success(_) => 200,
            Reply::SuccessList(_) => 200,
            Reply::SuccessMessage(_) => 200,
            Reply::BadRequest(_) => 400,
            Reply::NotFound(_) => 404,
            Reply::ServerError(_) => 500,
        }
    }
}

} // verus!
