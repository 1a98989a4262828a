//! The error type that every fallible operation of the service reports.

use vstd::prelude::*;
use vstd::string::*;

verus! {

/// An error of the item service, with a human-readable detail message.
#[derive(Debug)]
pub enum AppError {
    NotFound(String),
    BadRequest(String),
    ValidationError(String),
    InternalError(String),
}

/// The abstract content of an [`AppError`]: its kind and its detail message.
pub enum AppErrorView {
    NotFound(Seq<char>),
    BadRequest(Seq<char>),
    ValidationError(Seq<char>),
    InternalError(Seq<char>),
}

impl View for AppError {
    type V = AppErrorView;

    open spec fn view(&self) -> AppErrorView {
        match self {
            AppError::NotFound(m) => AppErrorView::NotFound(m@),
            AppError::BadRequest(m) => AppErrorView::BadRequest(m@),
            AppError::ValidationError(m) => AppErrorView::ValidationError(m@),
            AppError::InternalError(m) => AppErrorView::InternalError(m@),
        }
    }
}

impl AppErrorView {
    /// The HTTP status an error is answered with.
    pub open spec fn status(self) -> u16 {
        match self {
            AppErrorView::NotFound(_) => 404,
            AppErrorView::BadRequest(_) => 400,
            AppErrorView::ValidationError(_) => 400,
            AppErrorView::InternalError(_) => 500,
        }
    }

    /// The detail message carried by an error.
    pub open spec fn detail(self) -> Seq<char> {
        match self {
            AppErrorView::NotFound(m) => m,
            AppErrorView::BadRequest(m) => m,
            AppErrorView::ValidationError(m) => m,
            AppErrorView::InternalError(m) => m,
        }
    }

    /// The text an error is displayed as: a label for its kind, a colon, and the detail.
    pub open spec fn display(self) -> Seq<char> {
        match self {
            AppErrorView::NotFound(m) => "Not Found: "@ + m,
            AppErrorView::BadRequest(m) => "Bad Request: "@ + m,
            AppErrorView::ValidationError(m) => "Validation Error: "@ + m,
            AppErrorView::InternalError(m) => "Internal Error: "@ + m,
        }
    }
}

impl AppError {
    /// The HTTP status code of the response that reports this error.
    pub fn status_code(&self) -> (res: u16)
        ensures
            res == self@.status(),
    {
        match self {
            AppError::NotFound(_) => 404,
            AppError::BadRequest(_) => 400,
            AppError::ValidationError(_) => 400,
            AppError::InternalError(_) => 500,
        }
    }

    /// The detail message, which is what the JSON body of an error response carries.
    pub fn message(&self) -> (res: String)
        ensures
            res@ == self@.detail(),
    {
        match self {
            AppError::NotFound(m) => m.clone(),
            AppError::BadRequest(m) => m.clone(),
            AppError::ValidationError(m) => m.clone(),
            AppError::InternalError(m) => m.clone(),
        }
    }

    /// The displayed form of the error, such as `Not Found: Item with id 3 not found`.
    pub fn to_string(&self) -> (res: String)
        ensures
            res@ == self@.display(),
    {
        let (label, m) = match self {
            AppError::NotFound(m) => (String::from_str("Not Found: "), m),
            AppError::BadRequest(m) => (String::from_str("Bad Request: "), m),
            AppError::ValidationError(m) => (String::from_str("Validation Error: "), m),
            AppError::InternalError(m) => (String::from_str("Internal Error: "), m),
        };
        label.concat(m.as_str())
    }

}

} // verus!
