//! The kinds of failure a gallery call can end in.

use vstd::prelude::*;
use vstd::string::StringExecFns;

use crate::text::{dec_digits, decimal_u64};

verus! {

/// Why a call failed. The kinds exclude one another.
#[derive(Debug, Clone)]
pub enum Error {
    /// The transport failed; holds its description.
    Request(String),
    /// Reading a source or writing a destination failed; holds its description.
    Io(String),
    /// The server answered 401.
    Unauthorized,
    /// The server answered 404; holds what was sought.
    NotFound(String),
    /// The server answered with another failing status, and this body.
    Api { status: u16, message: String },
    /// A successful answer whose body did not have the expected shape.
    InvalidResponse,
}

/// The outcome of a call.
pub type Result<T> = core::result::Result<T, Error>;

/// The text that describes an error to a person.
pub open spec fn error_text(e: Error) -> Seq<char> {
    match e {
        Error::Request(d) => "HTTP request failed: "@ + d@,
        Error::Io(d) => "IO error: "@ + d@,
        Error::Unauthorized => "Unauthorized access"@,
        Error::NotFound(d) => "Resource not found: "@ + d@,
        Error::Api { status, message } => "API error: status="@ + dec_digits(status as nat)
            + ", message="@ + message@,
        Error::InvalidResponse => "Invalid response format"@,
    }
}

impl Error {
    /// Describes the error to a person.
    pub fn message(&self) -> (r: String)
        ensures
            r@ == error_text(*self),
    {
        match self {
            Error::Request(d) => String::from_str("HTTP request failed: ").concat(d.as_str()),
            Error::Io(d) => String::from_str("IO error: ").concat(d.as_str()),
            Error::Unauthorized => String::from_str("Unauthorized access"),
            Error::NotFound(d) => String::from_str("Resource not found: ").concat(d.as_str()),
            Error::Api { status, message } => {
                let mut s = String::from_str("API error: status=");
                s.append(decimal_u64(*status as u64).as_str());
                s.append(", message=");
                s.append(message.as_str());
                s
            },
            Error::InvalidResponse => String::from_str("Invalid response format"),
        }
    }
}

} // verus!
