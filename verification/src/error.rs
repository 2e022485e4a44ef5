//! Errors that a request can end in, and the HTTP answer each one gets.

use vstd::prelude::*;

verus! {

/// The JSON body of an error answer: `{"detail": ...}`.
#[derive(Debug)]
pub struct ErrorResponse {
    detail: String,
}

impl ErrorResponse {
    /// The text of the `detail` field.
    pub closed spec fn detail_text(&self) -> Seq<char> {
        self.detail@
    }

    /// The `detail` field.
    pub fn detail(&self) -> (d: &str)
        ensures
            d@ == self.detail_text(),
    {
        self.detail.as_str()
    }
}

/// Why a request failed.
#[derive(Debug)]
pub enum AppError {
    Unauthorized(&'static str),
    BadRequest(&'static str),
    Upstream(String),
}

/// An `AppError` with its text taken as a character sequence.
pub enum AppErrorView {
    Unauthorized(Seq<char>),
    BadRequest(Seq<char>),
    Upstream(Seq<char>),
}

impl View for AppError {
    type V = AppErrorView;

    open spec fn view(&self) -> AppErrorView {
        match self {
            AppError::Unauthorized(d) => AppErrorView::Unauthorized(d@),
            AppError::BadRequest(d) => AppErrorView::BadRequest(d@),
            AppError::Upstream(d) => AppErrorView::Upstream(d@),
        }
    }
}

/// The HTTP status code that answers an error: 401, 400 or 502.
pub open spec fn error_status(e: AppErrorView) -> u16 {
    match e {
        AppErrorView::Unauthorized(_) => 401,
        AppErrorView::BadRequest(_) => 400,
        AppErrorView::Upstream(_) => 502,
    }
}

/// The text that an error carries.
pub open spec fn error_detail(e: AppErrorView) -> Seq<char> {
    match e {
        AppErrorView::Unauthorized(d) => d,
        AppErrorView::BadRequest(d) => d,
        AppErrorView::Upstream(d) => d,
    }
}

impl AppError {
    /// The status code and JSON body that answer this error: an unauthorized
    /// request gets 401, a bad one 400, an upstream failure 502, and the body's
    /// `detail` is the error's text.
    pub fn into_response_parts(self) -> (parts: (u16, ErrorResponse))
        ensures
            parts.0 == error_status(self@),
            parts.1.detail_text() == error_detail(self@),
    {
        match self {
            AppError::Unauthorized(detail) => (401, ErrorResponse { detail: detail.to_owned() }),
            AppError::BadRequest(detail) => (400, ErrorResponse { detail: detail.to_owned() }),
            AppError::Upstream(detail) => (502, ErrorResponse { detail }),
        }
    }
}

} // verus!
