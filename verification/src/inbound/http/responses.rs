//! What the HTTP side answers: a success with its data, or an error with its
//! message, each under a status.

use vstd::prelude::*;

verus! {

/// The statuses that this service answers with.
#[derive(Debug, Clone, Copy, PartialEq, Eq, Structural)]
pub enum StatusCode {
    Created,
    UnprocessableEntity,
    InternalServerError,
}

impl StatusCode {
    /// The status as its number.
    pub open spec fn code(self) -> u16 {
        match self {
            StatusCode::Created => 201,
            StatusCode::UnprocessableEntity => 422,
            StatusCode::InternalServerError => 500,
        }
    }

    #[verifier::when_used_as_spec(code)]
    pub fn as_u16(self) -> (code: u16)
        ensures
            code == self.code(),
    {
        match self {
            StatusCode::Created => 201,
            StatusCode::UnprocessableEntity => 422,
            StatusCode::InternalServerError => 500,
        }
    }
}

/// A successful answer: the status, and the data that the body wraps.
#[derive(Debug, Clone, PartialEq, Eq)]
pub struct ApiSuccess<T> {
    pub status: StatusCode,
    pub data: T,
}

impl<T> ApiSuccess<T> {
    pub fn new(status: StatusCode, data: T) -> (success: Self)
        ensures
            success.status == status,
            success.data == data,
    {
        ApiSuccess { status, data }
    }
}

/// An [`ApiError`] as plain data.
pub enum ApiErrorView {
    InternalServerError(Seq<char>),
    UnprocessableEntity(Seq<char>),
}

impl ApiErrorView {
    pub open spec fn status(self) -> StatusCode {
        match self {
            ApiErrorView::InternalServerError(_) => StatusCode::InternalServerError,
            ApiErrorView::UnprocessableEntity(_) => StatusCode::UnprocessableEntity,
        }
    }

    pub open spec fn message(self) -> Seq<char> {
        match self {
            ApiErrorView::InternalServerError(message) => message,
            ApiErrorView::UnprocessableEntity(message) => message,
        }
    }
}

/// A failed answer, with the message that the body carries.
#[derive(Debug, Clone, PartialEq, Eq)]
pub enum ApiError {
    /// The service failed. The message says no more than that.
    InternalServerError(String),
    /// The request cannot be carried out as it stands. The message says why.
    UnprocessableEntity(String),
}

impl View for ApiError {
    type V = ApiErrorView;

    open spec fn view(&self) -> ApiErrorView {
        match *self {
            ApiError::InternalServerError(message) => ApiErrorView::InternalServerError(message@),
            ApiError::UnprocessableEntity(message) => ApiErrorView::UnprocessableEntity(message@),
        }
    }
}

impl ApiError {
    /// The status that the error is answered under.
    pub fn status(&self) -> (status: StatusCode)
        ensures
            status == self@.status(),
    {
        match self {
            ApiError::InternalServerError(_) => StatusCode::InternalServerError,
            ApiError::UnprocessableEntity(_) => StatusCode::UnprocessableEntity,
        }
    }

    /// The message that the body carries.
    pub fn message(&self) -> (message: &String)
        ensures
            message@ == self@.message(),
    {
        match self {
            ApiError::InternalServerError(message) => message,
            ApiError::UnprocessableEntity(message) => message,
        }
    }
}

} // verus!
