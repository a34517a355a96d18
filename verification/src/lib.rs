//! Parsing of DJI flight record logs.
//!
//! The library decodes the binary record stream of a DJI `.txt` flight log into
//! typed records, decodes the XOR and AES layers that protect record payloads
//! since format version 7 and 13, and builds the keychain request that the DJI
//! keychain service answers.
pub mod c_api;
pub mod decoder;
pub mod djilog;
pub mod error;
pub mod export;
pub mod frame;
pub mod layout;
pub mod utils;
pub mod wire;
pub mod keychain;
pub mod record;
pub mod stream;

pub use djilog::{DJILog, Prefix};
pub use error::{Error, Result};
