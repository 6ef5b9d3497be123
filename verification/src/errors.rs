//! The closed error taxonomy of the scheduling core.
//!
//! Validation failures carry a human-readable, slot-specific reason;
//! persistence-layer failures are opaque; `Conflict` guards match lifecycle
//! transitions attempted from a state other than `Pending`.

use vstd::prelude::*;

verus! {

/// An error returned by the library's operations.
#[derive(Debug)]
pub enum AppError {
    /// A persistence-layer failure; no detail is exposed to the caller.
    InternalError,
    /// A request the store rejects, with the specific reason.
    BadRequest(String),
    /// A referenced match, league or player is absent.
    NotFound,
    /// A lifecycle transition attempted from a state that does not allow it.
    Conflict,
}

/// The mathematical value of an [`AppError`]: the same tags over `Seq<char>`.
pub enum AppErrorView {
    InternalError,
    BadRequest(Seq<char>),
    NotFound,
    Conflict,
}

impl View for AppError {
    type V = AppErrorView;

    open spec fn view(&self) -> AppErrorView {
        match self {
            AppError::InternalError => AppErrorView::InternalError,
            AppError::BadRequest(reason) => AppErrorView::BadRequest(reason@),
            AppError::NotFound => AppErrorView::NotFound,
            AppError::Conflict => AppErrorView::Conflict,
        }
    }
}

/// The user-visible message of an error value.
pub open spec fn spec_message(e: AppErrorView) -> Seq<char> {
    match e {
        AppErrorView::InternalError => "Internal Server Error"@,
        AppErrorView::BadRequest(reason) => reason,
        AppErrorView::NotFound => "Resource Not Found"@,
        AppErrorView::Conflict => "Conflict"@,
    }
}

/// The HTTP status code under which a transport layer reports the error.
pub open spec fn spec_status_code(e: AppErrorView) -> u16 {
    match e {
        AppErrorView::InternalError => 500,
        AppErrorView::BadRequest(_) => 400,
        AppErrorView::NotFound => 404,
        AppErrorView::Conflict => 409,
    }
}

impl AppError {
    /// The user-visible message: the specific reason for a `BadRequest`,
    /// a generic message for everything else.
    pub fn message(&self) -> (m: String)
        ensures
            m@ == spec_message(self@),
    {
        match self {
            AppError::InternalError => "Internal Server Error".to_owned(),
            AppError::BadRequest(reason) => reason.clone(),
            AppError::NotFound => "Resource Not Found".to_owned(),
            AppError::Conflict => "Conflict".to_owned(),
        }
    }

    /// The HTTP status code matching the error class.
    pub fn status_code(&self) -> (c: u16)
        ensures
            c == spec_status_code(self@),
    {
        match self {
            AppError::InternalError => 500,
            AppError::BadRequest(_) => 400,
            AppError::NotFound => 404,
            AppError::Conflict => 409,
        }
    }
}

} // verus!
