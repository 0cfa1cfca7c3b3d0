//! Errors of a single upload attempt. Every kind is a transport failure to
//! the retry controller, which treats them all alike.

use vstd::prelude::*;
use crate::text::{decimal, join, push_decimal};
use vstd::string::*;

verus! {

pub enum UploadError {
    /// Local read failure after the file was opened.
    Io(String),
    /// Network or HTTP client failure.
    Http(String),
    /// The response body could not be decoded.
    Json(String),
    /// A well-formed envelope whose status code does not mean success.
    ServerError { code: u64, message: String },
    /// A decoded envelope that lacks what a success needs.
    InvalidResponse(String),
    /// The file could not be opened.
    FileNotFound(String),
    /// Anything else, with its text.
    Other(String),
}

/// The human-readable text of an error.
pub open spec fn error_text(e: UploadError) -> Seq<char> {
    match e {
        UploadError::Io(s) => "IO error: "@ + s@,
        UploadError::Http(s) => "HTTP error: "@ + s@,
        UploadError::Json(s) => "JSON parsing error: "@ + s@,
        UploadError::ServerError { code, message } =>
            "Server error (code "@ + decimal(code as nat) + "): "@ + message@,
        UploadError::InvalidResponse(s) => "Invalid response: "@ + s@,
        UploadError::FileNotFound(s) => "File not found: "@ + s@,
        UploadError::Other(s) => s@,
    }
}

impl UploadError {
    /// The human-readable text of this error.
    pub fn message(&self) -> (r: String)
        ensures
            r@ == error_text(*self),
    {
        match self {
            UploadError::Io(s) => join("IO error: ", s.as_str()),
            UploadError::Http(s) => join("HTTP error: ", s.as_str()),
            UploadError::Json(s) => join("JSON parsing error: ", s.as_str()),
            UploadError::ServerError { code, message } => {
                let mut r = String::from_str("Server error (code ");
                push_decimal(&mut r, *code);
                r.append("): ");
                r.append(message.as_str());
                r
            },
            UploadError::InvalidResponse(s) => join("Invalid response: ", s.as_str()),
            UploadError::FileNotFound(s) => join("File not found: ", s.as_str()),
            UploadError::Other(s) => s.clone(),
        }
    }
}

} // verus!
