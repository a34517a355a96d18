//! The key storage record (type 56): the encrypted key material of one
//! feature point.
use vstd::prelude::*;
use crate::wire::{le_bytes, lemma_le_16};
use crate::decoder::lemma_payload_prefix_prefixes;
use crate::keychain::feature_point::lemma_feature_point_from_code;

use crate::decoder::{payload_prefix, payload_read, payload_wf, Payload, PayloadView};
use crate::keychain::FeaturePoint;
use crate::utils::{le_u16, read_u16_le, slice_range};

verus! {

/// Encrypted key material of a feature point, as stored in the log.
#[derive(Debug, Clone)]
pub struct KeyStorage {
    pub feature_point: FeaturePoint,
    pub data: Vec<u8>,
}

impl View for KeyStorage {
    type V = (FeaturePoint, Seq<u8>);

    open spec fn view(&self) -> (FeaturePoint, Seq<u8>) {
        (self.feature_point, self.data@)
    }
}

impl KeyStorage {
    /// A 16-bit feature point code, a 16-bit data length, then the data; a
    /// code outside 1..=15 is not a record. Gives the record and the number of
    /// bytes read.
    pub open spec fn spec_parse_payload(file: Seq<u8>, p: PayloadView) -> Option<
        ((FeaturePoint, Seq<u8>), nat),
    > {
        match payload_prefix(file, p, 4) {
            None => None,
            Some(h) => match FeaturePoint::spec_from_code(le_u16(h, 0)) {
                None => None,
                Some(fp) => {
                    let n = 4 + le_u16(h, 2);
                    match payload_prefix(file, p, n as nat) {
                        Some(b) => Some(((fp, b.subrange(4, n)), n as nat)),
                        None => None,
                    }
                },
            },
        }
    }

    /// Reads a key storage record from a record payload.
    pub fn parse_payload(file: &[u8], p: &Payload) -> (r: Option<(KeyStorage, usize)>)
        requires
            payload_wf(file@, p@),
        ensures
            match KeyStorage::spec_parse_payload(file@, p@) {
                Some((v, n)) => r matches Some((t, m)) && t@ == v && m == n,
                None => r is None,
            },
    {
        let header = match payload_read(file, p, 4) {
            Some(h) => h,
            None => {
                return None;
            },
        };
        let feature_point = match FeaturePoint::from_code(read_u16_le(header.as_slice(), 0)) {
            Some(fp) => fp,
            None => {
                return None;
            },
        };
        let n = 4 + read_u16_le(header.as_slice(), 2) as usize;
        match payload_read(file, p, n) {
            Some(b) => Some((KeyStorage { feature_point, data: slice_range(b.as_slice(), 4, n) }, n)),
            None => None,
        }
    }
}

/// The layout of a key storage record: the feature point's number as a
/// 16-bit little-endian value, the data length as another, then the data.
/// A number that names no feature point makes the record unreadable.
pub proof fn lemma_key_storage_layout(file: Seq<u8>, p: PayloadView)
    requires
        payload_wf(file, p),
    ensures
        KeyStorage::spec_parse_payload(file, p) matches Some(((fp, data), n)) ==> {
            &&& payload_prefix(file, p, n) matches Some(b) && {
                &&& fp.spec_code() as int == le_bytes(b, 0, 2)
                &&& n as int == 4 + le_bytes(b, 2, 2)
                &&& data == b.subrange(4, n as int)
            }
        },
        payload_prefix(file, p, 4) matches Some(h) ==> (!(1 <= le_bytes(h, 0, 2) <= 15)
            ==> KeyStorage::spec_parse_payload(file, p) is None),
{
    if let Some(h) = payload_prefix(file, p, 4) {
        lemma_payload_prefix_prefixes(file, p, 4, 4);
        lemma_le_16(h, 0);
        lemma_le_16(h, 2);
        lemma_feature_point_from_code(le_u16(h, 0));
        let n = 4 + le_u16(h, 2);
        lemma_payload_prefix_prefixes(file, p, n as nat, 4);
        if let Some(b) = payload_prefix(file, p, n as nat) {
            lemma_le_16(b, 0);
            lemma_le_16(b, 2);
            assert(b[0] == h[0] && b[1] == h[1] && b[2] == h[2] && b[3] == h[3]);
            reveal_with_fuel(le_bytes, 3);
        }
    }
}

} // verus!
