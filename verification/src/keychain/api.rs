//! The request and response bodies of the DJI keychain service.
use vstd::prelude::*;

use super::{EncodedKeychainFeaturePoint, KeychainFeaturePoint};
use crate::error::{Error, Result};

verus! {

/// The URL of the DJI keychain service.
pub const DEFAULT_ENDPOINT: &'static str = "https://dev.dji.com/openapi/v1/flight-records/keychains";

/// Request body for the keychain service.
#[derive(Debug, Clone)]
pub struct KeychainsRequest {
    pub version: u16,
    pub department: u8,
    pub keychains: Vec<Vec<EncodedKeychainFeaturePoint>>,
}

impl Default for KeychainsRequest {
    fn default() -> (r: Self)
        ensures
            r.version == 0,
            r.department == 0,
            r.keychains@.len() == 0,
    {
        KeychainsRequest { version: 0, department: 0, keychains: Vec::new() }
    }
}

/// Response body of the keychain service.
#[derive(Debug)]
pub struct KeychainsResponse {
    pub data: Option<Vec<Vec<KeychainFeaturePoint>>>,
    pub result: KeychainResponseResult,
}

/// Status part of a keychain service response.
#[derive(Debug)]
pub struct KeychainResponseResult {
    pub code: u8,
    pub msg: String,
}


/// The error for a request that the keychain service refused with HTTP
/// status `status`: a refused API key for 403, the status otherwise.
pub fn status_error(status: u16) -> (r: Error)
    ensures
        status == 403 ==> r matches Error::ApiKeyError,
        status != 403 ==> (r matches Error::NetworkRequestStatus(s) && s == status),
{
    if status == 403 {
        Error::ApiKeyError
    } else {
        Error::NetworkRequestStatus(status)
    }
}

impl KeychainsResponse {
    /// The keychains of a service answer: an API error carrying the
    /// service's message where its result code is not 0, an API error where
    /// it holds no data, the data otherwise.
    pub fn into_keychains(self) -> (r: Result<Vec<Vec<KeychainFeaturePoint>>>)
        ensures
            self.result.code != 0 ==> (r matches Err(Error::ApiError(m)) && m@ == self.result.msg@),
            self.result.code == 0 && self.data is None ==> (r matches Err(Error::ApiError(m))
                && m@ == "Missing keychain data"@),
            self.result.code == 0 && self.data is Some ==> (r matches Ok(v) && v@ == self.data->0@),
    {
        if self.result.code != 0 {
            Err(Error::ApiError(self.result.msg))
        } else {
            match self.data {
                Some(data) => Ok(data),
                None => Err(Error::ApiError("Missing keychain data".to_string())),
            }
        }
    }
}

} // verus!
