//! The failures of the application and what a client is told of each.

use crate::text::{decimal, push_decimal};
use vstd::prelude::*;
use vstd::string::StringExecFns;

verus! {

/// What went wrong in the application.
#[derive(Debug)]
pub enum AppError {
    /// A page could not be rendered; the renderer's account of it.
    Template(String),
    /// The file system refused.
    Storage(std::io::Error),
    /// A value could not be written as JSON or read as JSON.
    Serialization(serde_json::Error),
    /// The address to listen on could not be bound.
    Bind(std::io::Error),
    /// The server stopped with an error.
    Server(std::io::Error),
}

/// The status of every answer to a failure.
pub const FAILURE_STATUS: u16 = 500;

pub const TEMPLATE_MESSAGE: &'static str = "Failed to render page";

pub const STORAGE_MESSAGE: &'static str = "Failed to save data";

pub const SERIALIZATION_MESSAGE: &'static str = "Data processing error";

pub const BIND_MESSAGE: &'static str = "Server configuration error";

pub const SERVER_MESSAGE: &'static str = "Server error";

/// The answer to a request that failed: a status and a page.
#[derive(Debug)]
pub struct ErrorResponse {
    pub status: u16,
    pub body: String,
}

/// The page that tells a client of a failure.
pub open spec fn error_page(status: u16, message: Seq<char>) -> Seq<char> {
    "<h1>Error "@ + decimal(status as nat) + "</h1><p>"@ + message + "</p>"@
}

impl AppError {
    /// What a client is told: a sentence that gives nothing of the cause away.
    pub open spec fn message(self) -> Seq<char> {
        match self {
            AppError::Template(_) => TEMPLATE_MESSAGE@,
            AppError::Storage(_) => STORAGE_MESSAGE@,
            AppError::Serialization(_) => SERIALIZATION_MESSAGE@,
            AppError::Bind(_) => BIND_MESSAGE@,
            AppError::Server(_) => SERVER_MESSAGE@,
        }
    }

    /// What a client is told of this failure.
    pub fn public_message(&self) -> (text: &'static str)
        ensures
            text@ == self.message(),
    {
        match self {
            AppError::Template(_) => TEMPLATE_MESSAGE,
            AppError::Storage(_) => STORAGE_MESSAGE,
            AppError::Serialization(_) => SERIALIZATION_MESSAGE,
            AppError::Bind(_) => BIND_MESSAGE,
            AppError::Server(_) => SERVER_MESSAGE,
        }
    }

    /// The answer to the request that failed.
    pub fn into_response(self) -> (response: ErrorResponse)
        ensures
            response.status == FAILURE_STATUS,
            response.body@ == error_page(FAILURE_STATUS, self.message()),
    {
        let mut body = String::from_str("<h1>Error ");
        push_decimal(&mut body, FAILURE_STATUS as u64);
        body.append("</h1><p>");
        body.append(self.public_message());
        body.append("</p>");
        ErrorResponse { status: FAILURE_STATUS, body }
    }
}

impl From<std::io::Error> for AppError {
    fn from(error: std::io::Error) -> (made: AppError) {
        AppError::Storage(error)
    }
}

impl vstd::std_specs::convert::FromSpecImpl<std::io::Error> for AppError {
    open spec fn obeys_from_spec() -> bool {
        true
    }

    open spec fn from_spec(error: std::io::Error) -> AppError {
        AppError::Storage(error)
    }
}

impl From<serde_json::Error> for AppError {
    fn from(error: serde_json::Error) -> (made: AppError) {
        AppError::Serialization(error)
    }
}

impl vstd::std_specs::convert::FromSpecImpl<serde_json::Error> for AppError {
    open spec fn obeys_from_spec() -> bool {
        true
    }

    open spec fn from_spec(error: serde_json::Error) -> AppError {
        AppError::Serialization(error)
    }
}

} // verus!
