//! Errors of the library.
use vstd::prelude::*;

use crate::utils::{decimal, push_decimal_u64};

verus! {

/// What can go wrong while reading a log or obtaining its keychains.
#[derive(Debug)]
pub enum Error {
    /// The keychain service refused the API key.
    ApiKeyError,
    /// The keychain service reported an error.
    ApiError(String),
    /// Records of format 13 and later cannot be read without keychains.
    KeychainRequired,
    /// An auxiliary block of format 13 and later is missing.
    MissingAuxilliaryData(String),
    /// The log cannot be parsed.
    Parse,
    /// A request or response body could not be (de)serialized.
    Serialization(String),
    /// Reading or writing failed.
    Io(String),
    /// A base64 text could not be decoded.
    Base64Decode,
    /// The keychain service answered with an HTTP error status.
    NetworkRequestStatus(u16),
    /// The keychain service could not be reached.
    NetworkConnection,
}

/// Results of the library.
pub type Result<T> = core::result::Result<T, Error>;


impl Error {
    /// The text that describes an error.
    pub open spec fn spec_message(&self) -> Seq<char> {
        match self {
            Error::ApiKeyError => "Invalid Api Key"@,
            Error::ApiError(m) => "DJI Api error: "@ + m@,
            Error::KeychainRequired => "Keychain is required"@,
            Error::MissingAuxilliaryData(m) => "Missing Auxilliary data: "@ + m@,
            Error::Parse => "Parse error"@,
            Error::Serialization(_) => "Serialization error"@,
            Error::Io(_) => "Io error"@,
            Error::Base64Decode => "Base64 decode error"@,
            Error::NetworkRequestStatus(s) => "Request request status error: "@ + decimal(*s as nat),
            Error::NetworkConnection => "Network connection error"@,
        }
    }

    /// The text that describes an error (see `spec_message`).
    pub fn message(&self) -> (r: String)
        ensures
            r@ == self.spec_message(),
    {
        match self {
            Error::ApiKeyError => "Invalid Api Key".to_string(),
            Error::ApiError(m) => {
                let mut r = "DJI Api error: ".to_string();
                r.append(m.as_str());
                r
            },
            Error::KeychainRequired => "Keychain is required".to_string(),
            Error::MissingAuxilliaryData(m) => {
                let mut r = "Missing Auxilliary data: ".to_string();
                r.append(m.as_str());
                r
            },
            Error::Parse => "Parse error".to_string(),
            Error::Serialization(_) => "Serialization error".to_string(),
            Error::Io(_) => "Io error".to_string(),
            Error::Base64Decode => "Base64 decode error".to_string(),
            Error::NetworkRequestStatus(s) => {
                let mut r = "Request request status error: ".to_string();
                push_decimal_u64(&mut r, *s as u64);
                r
            },
            Error::NetworkConnection => "Network connection error".to_string(),
        }
    }
}

} // verus!
