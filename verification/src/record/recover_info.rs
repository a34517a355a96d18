//! The recovery record (type 13).
use vstd::prelude::*;
use crate::wire::{le_signed64, lemma_le_64};

use crate::decoder::{payload_prefix, payload_read, payload_wf, Payload, PayloadView};
use crate::layout::details::{Platform, ProductType};
use crate::utils::{as_i64, dotted_version, fixed_string, format_dotted_version, le_u64, read_u64_le, slice_range, spec_fixed_string, to_i64};

verus! {

/// Identity of the aircraft, app and components, repeated in the record
/// stream so that it survives a truncated log.
#[derive(Debug, Clone)]
pub struct RecoverInfo {
    pub product_type: ProductType,
    pub app_platform: Platform,
    /// `a.b.c`.
    pub app_version: String,
    pub aircraft_sn: String,
    pub aircraft_name: String,
    /// Seconds since the Unix epoch.
    pub timestamp: i64,
    pub camera_sn: String,
    pub rc_sn: String,
    pub battery_sn: String,
}

/// A recovery record, as values.
pub struct RecoverInfoView {
    pub product_type: ProductType,
    pub app_platform: Platform,
    pub app_version: Seq<char>,
    pub aircraft_sn: Seq<char>,
    pub aircraft_name: Seq<char>,
    pub timestamp: i64,
    pub camera_sn: Seq<char>,
    pub rc_sn: Seq<char>,
    pub battery_sn: Seq<char>,
}

impl View for RecoverInfo {
    type V = RecoverInfoView;

    open spec fn view(&self) -> RecoverInfoView {
        RecoverInfoView {
            product_type: self.product_type,
            app_platform: self.app_platform,
            app_version: self.app_version@,
            aircraft_sn: self.aircraft_sn@,
            aircraft_name: self.aircraft_name@,
            timestamp: self.timestamp,
            camera_sn: self.camera_sn@,
            rc_sn: self.rc_sn@,
            battery_sn: self.battery_sn@,
        }
    }
}

/// Width of each serial number field: 10 bytes up to format 7, then 16.
pub open spec fn serial_width(version: u8) -> int {
    if version <= 7 { 10 } else { 16 }
}

impl RecoverInfo {
    /// Number of payload bytes the record reads in a log of format `version`.
    pub open spec fn spec_size(version: u8) -> nat {
        (45 + 4 * serial_width(version)) as nat
    }

    /// The record that the payload bytes `b` hold.
    pub open spec fn spec_parse(b: Seq<u8>, version: u8) -> RecoverInfoView {
        let n = serial_width(version);
        RecoverInfoView {
            product_type: ProductType::spec_from_code(b[0]),
            app_platform: Platform::spec_from_code(b[1]),
            app_version: dotted_version(b[2], b[3], b[4]),
            aircraft_sn: spec_fixed_string(b.subrange(5, 5 + n)),
            aircraft_name: spec_fixed_string(b.subrange(5 + n, 37 + n)),
            timestamp: as_i64(le_u64(b, 37 + n)),
            camera_sn: spec_fixed_string(b.subrange(45 + n, 45 + 2 * n)),
            rc_sn: spec_fixed_string(b.subrange(45 + 2 * n, 45 + 3 * n)),
            battery_sn: spec_fixed_string(b.subrange(45 + 3 * n, 45 + 4 * n)),
        }
    }

    /// The record of a payload and the number of bytes read.
    pub open spec fn spec_parse_payload(file: Seq<u8>, p: PayloadView, version: u8) -> Option<(RecoverInfoView, nat)> {
        match payload_prefix(file, p, RecoverInfo::spec_size(version)) {
            Some(b) => Some((RecoverInfo::spec_parse(b, version), RecoverInfo::spec_size(version))),
            None => None,
        }
    }

    /// Reads a recovery record from its decoded payload bytes.
    pub fn parse(b: &[u8], version: u8) -> (r: RecoverInfo)
        requires
            b@.len() >= RecoverInfo::spec_size(version),
        ensures
            r@ == RecoverInfo::spec_parse(b@, version),
    {
        let n: usize = if version <= 7 { 10 } else { 16 };
        let aircraft_sn = fixed_string(slice_range(b, 5, 5 + n).as_slice());
        let aircraft_name = fixed_string(slice_range(b, 5 + n, 37 + n).as_slice());
        let camera_sn = fixed_string(slice_range(b, 45 + n, 45 + 2 * n).as_slice());
        let rc_sn = fixed_string(slice_range(b, 45 + 2 * n, 45 + 3 * n).as_slice());
        let battery_sn = fixed_string(slice_range(b, 45 + 3 * n, 45 + 4 * n).as_slice());
        RecoverInfo {
            product_type: ProductType::from_code(b[0]),
            app_platform: Platform::from_code(b[1]),
            app_version: format_dotted_version(b[2], b[3], b[4]),
            aircraft_sn,
            aircraft_name,
            timestamp: to_i64(read_u64_le(b, 37 + n)),
            camera_sn,
            rc_sn,
            battery_sn,
        }
    }

    /// Reads a recovery record from a record payload.
    pub fn parse_payload(file: &[u8], p: &Payload, version: u8) -> (r: Option<(RecoverInfo, usize)>)
        requires
            payload_wf(file@, p@),
        ensures
            match RecoverInfo::spec_parse_payload(file@, p@, version) {
                Some((v, n)) => r matches Some((t, m)) && t@ == v && m == n,
                None => r is None,
            },
    {
        let size: usize = if version <= 7 { 85 } else { 109 };
        match payload_read(file, p, size) {
            Some(b) => Some((RecoverInfo::parse(b.as_slice(), version), size)),
            None => None,
        }
    }
}

/// Where each field of a recovery record sits in its payload: the product
/// type at 0, the app platform at 1, the app version at 2-4, then the
/// aircraft serial, the aircraft name (32 bytes), the signed 8-byte
/// timestamp, and the camera, remote controller and battery serials; the
/// serials take 10 bytes up to format 7 and 16 bytes after it.
pub proof fn lemma_recover_info_layout(b: Seq<u8>, version: u8)
    requires
        version <= 7 ==> b.len() >= 85,
        version > 7 ==> b.len() >= 109,
    ensures
        version <= 7 ==> RecoverInfo::spec_size(version) == 85,
        version > 7 ==> RecoverInfo::spec_size(version) == 109,
        ({
            let o = RecoverInfo::spec_parse(b, version);
            &&& o.product_type == ProductType::spec_from_code(b[0])
            &&& o.app_platform == Platform::spec_from_code(b[1])
            &&& o.app_version == dotted_version(b[2], b[3], b[4])
            &&& version <= 7 ==> {
                &&& o.aircraft_sn == spec_fixed_string(b.subrange(5, 15))
                &&& o.aircraft_name == spec_fixed_string(b.subrange(15, 47))
                &&& o.timestamp as int == le_signed64(b, 47)
                &&& o.camera_sn == spec_fixed_string(b.subrange(55, 65))
                &&& o.rc_sn == spec_fixed_string(b.subrange(65, 75))
                &&& o.battery_sn == spec_fixed_string(b.subrange(75, 85))
            }
            &&& version > 7 ==> {
                &&& o.aircraft_sn == spec_fixed_string(b.subrange(5, 21))
                &&& o.aircraft_name == spec_fixed_string(b.subrange(21, 53))
                &&& o.timestamp as int == le_signed64(b, 53)
                &&& o.camera_sn == spec_fixed_string(b.subrange(61, 77))
                &&& o.rc_sn == spec_fixed_string(b.subrange(77, 93))
                &&& o.battery_sn == spec_fixed_string(b.subrange(93, 109))
            }
        }),
{
    if version <= 7 {
        lemma_le_64(b, 47);
    } else {
        lemma_le_64(b, 53);
    }
}

} // verus!
