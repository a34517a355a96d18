//! The mobile device location record (type 14).
use vstd::prelude::*;
use crate::wire::{le_bytes, lemma_le_64};

use crate::utils::{le_u64, read_u64_le};

verus! {

/// Position of the device that runs the app.
#[derive(Debug, Clone, Copy, PartialEq, Eq, Structural)]
pub struct AppGPS {
    /// Degrees, as the bits of an IEEE-754 binary64 value.
    pub longitude: u64,
    /// Degrees, as the bits of an IEEE-754 binary64 value.
    pub latitude: u64,
}

impl AppGPS {
    /// Number of payload bytes the record reads.
    pub open spec fn spec_size() -> nat {
        16
    }

    /// The record that the payload bytes `b` hold.
    pub open spec fn spec_parse(b: Seq<u8>) -> AppGPS {
        AppGPS {
            longitude: le_u64(b, 0),
            latitude: le_u64(b, 8),
        }
    }

    /// Number of payload bytes the record reads.
    pub fn size() -> (r: usize)
        ensures
            r == AppGPS::spec_size(),
    {
        16
    }

    /// Reads the record from its decoded payload bytes.
    pub fn parse(b: &[u8]) -> (r: AppGPS)
        requires
            b@.len() >= AppGPS::spec_size(),
        ensures
            r == AppGPS::spec_parse(b@),
    {
        let longitude_value = read_u64_le(b, 0);
        let latitude_value = read_u64_le(b, 8);
        AppGPS {
            longitude: longitude_value,
            latitude: latitude_value,
        }
    }
}

/// Where each field of an app GPS record sits in its payload: longitude
/// and latitude are the 8-byte little-endian values at 0 and 8.
pub proof fn lemma_app_gps_layout(b: Seq<u8>)
    requires
        b.len() >= 16,
    ensures
        AppGPS::spec_size() == 16,
        ({
            let o = AppGPS::spec_parse(b);
            &&& o.longitude as int == le_bytes(b, 0, 8)
            &&& o.latitude as int == le_bytes(b, 8, 8)
        }),
{
    lemma_le_64(b, 0);
    lemma_le_64(b, 8);
}

} // verus!
