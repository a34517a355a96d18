//! The app custom record (type 5): speed, distance and wall-clock time.
use vstd::prelude::*;
use crate::wire::{le_bytes, le_signed64, lemma_le_32, lemma_le_64};
use crate::decoder::lemma_payload_prefix_prefixes;

use crate::decoder::{payload_prefix, payload_read, payload_wf, Payload, PayloadView};
use crate::utils::{as_i64, le_u32, le_u64, read_u32_le, read_u64_le, to_i64};

verus! {

/// The day (days since 1970-01-01) of the instant `secs` seconds after the
/// Unix epoch.
pub open spec fn unix_day(secs: i64) -> int {
    secs as int / 86400
}

/// The year, in the proleptic Gregorian calendar (year 0 is 1 BCE), of the
/// day `z` days after 1970-01-01: days are counted from 0000-03-01 in
/// 400-year eras, and January and February belong to the next year.
pub open spec fn civil_year(z: int) -> int {
    let z2 = z + 719468;
    let era = z2 / 146097;
    let doe = z2 - era * 146097;
    let yoe = (doe - doe / 1460 + doe / 36524 - doe / 146096) / 365;
    let doy = doe - (365 * yoe + yoe / 4 - yoe / 100);
    let mp = (5 * doy + 2) / 153;
    if mp >= 10 {
        yoe + era * 400 + 1
    } else {
        yoe + era * 400
    }
}

/// The calendar year (UTC) of the instant `secs` seconds and `nsecs`
/// nanoseconds after the Unix epoch, as `chrono::DateTime::from_timestamp`
/// and `Datelike::year` give it: `None` where the year lies outside
/// chrono's range (-262143 to 262142) or the nanoseconds are invalid (2
/// seconds or more, or a leap second anywhere but the last second of a
/// minute).
pub open spec fn utc_year(secs: i64, nsecs: u32) -> Option<i32> {
    let y = civil_year(unix_day(secs));
    let second_of_day = secs as int % 86400;
    if -262143 <= y <= 262142 && nsecs < 2_000_000_000 && (nsecs < 1_000_000_000 || second_of_day
        % 60 == 59) {
        Some(y as i32)
    } else {
        None
    }
}

/// `chrono::DateTime::<Utc>::from_timestamp(secs, nsecs)` followed by
/// `Datelike::year` (see `utc_year`).
#[verifier::external_body]
fn timestamp_year(secs: i64, nsecs: u32) -> (r: Option<i32>)
    ensures
        r == utc_year(secs, nsecs),
{
    chrono::DateTime::from_timestamp(secs, nsecs).map(|t| chrono::Datelike::year(&t))
}

/// `x / d` rounded toward zero, as Rust divides.
pub open spec fn trunc_div(x: int, d: int) -> int {
    if x >= 0 { x / d } else { -((-x) / d) }
}

/// `x % d` with the sign of `x`, as Rust computes the remainder.
pub open spec fn trunc_rem(x: int, d: int) -> int {
    if x >= 0 { x % d } else { -((-x) % d) }
}

/// The seconds part of a millisecond timestamp, as `ms / 1000`.
pub open spec fn timestamp_secs(ms: i64) -> i64 {
    trunc_div(ms as int, 1000) as i64
}

/// The nanoseconds part of a millisecond timestamp, as
/// `(ms % 1000 * 1_000_000) as u32` (wrapping for negative timestamps).
pub open spec fn timestamp_nanos(ms: i64) -> u32 {
    let r = trunc_rem(ms as int, 1000) * 1_000_000;
    (if r >= 0 { r } else { r + 0x1_0000_0000 }) as u32
}

/// The year of a millisecond timestamp; an instant that `chrono` rejects
/// counts as the Unix epoch, year 1970 (the default `DateTime`).
pub open spec fn timestamp_year_or_epoch(ms: i64) -> int {
    match utc_year(timestamp_secs(ms), timestamp_nanos(ms)) {
        Some(y) => y as int,
        None => 1970,
    }
}

/// Splits a millisecond timestamp into seconds and nanoseconds as the log
/// format does (see `timestamp_secs`, `timestamp_nanos`).
pub fn split_timestamp(ms: i64) -> (r: (i64, u32))
    ensures
        r.0 == timestamp_secs(ms),
        r.1 == timestamp_nanos(ms),
{
    if ms >= 0 {
        let a = ms as u64;
        let q = (a / 1000) as i64;
        let rem = (a % 1000) as u32;
        (q, rem * 1_000_000)
    } else {
        let a = ((-(ms + 1)) as u64) + 1;
        let q = -((a / 1000) as i64);
        let rem = (a % 1000) as u32;
        let nanos: u32 = if rem == 0 {
            0
        } else {
            (0x1_0000_0000u64 - rem as u64 * 1_000_000) as u32
        };
        (q, nanos)
    }
}

/// Year of a millisecond timestamp (see `timestamp_year_or_epoch`).
pub fn year_of_timestamp(ms: i64) -> (r: i32)
    ensures
        r as int == timestamp_year_or_epoch(ms),
{
    let (secs, nanos) = split_timestamp(ms);
    match timestamp_year(secs, nanos) {
        Some(y) => y,
        None => 1970,
    }
}

/// Speed, distance and the wall-clock time of the record.
#[derive(Debug, Clone, Copy, PartialEq, Eq, Structural)]
pub struct Custom {
    /// Horizontal speed, as the bits of an IEEE-754 binary32 value.
    pub h_speed: u32,
    /// Distance from home, as the bits of an IEEE-754 binary32 value.
    pub distance: u32,
    /// Milliseconds since the Unix epoch.
    pub update_timestamp: i64,
}

impl Custom {
    /// Two skipped bytes, speed, distance, then a millisecond timestamp; 18
    /// bytes read. A timestamp whose year is not after 2010 and before 2100
    /// is not a record.
    pub open spec fn spec_parse_payload(file: Seq<u8>, p: PayloadView) -> Option<(Custom, nat)> {
        match payload_prefix(file, p, 18) {
            Some(b) => {
                let ts = as_i64(le_u64(b, 10));
                let year = timestamp_year_or_epoch(ts);
                if 2010 < year < 2100 {
                    Some((Custom { h_speed: le_u32(b, 2), distance: le_u32(b, 6), update_timestamp: ts }, 18))
                } else {
                    None
                }
            },
            None => None,
        }
    }

    /// Reads a custom record from a record payload.
    pub fn parse_payload(file: &[u8], p: &Payload) -> (r: Option<(Custom, usize)>)
        requires
            payload_wf(file@, p@),
        ensures
            match Custom::spec_parse_payload(file@, p@) {
                Some((v, n)) => r matches Some((t, m)) && t == v && m == n,
                None => r is None,
            },
    {
        let b = match payload_read(file, p, 18) {
            Some(b) => b,
            None => {
                return None;
            },
        };
        let ts = to_i64(read_u64_le(b.as_slice(), 10));
        let year = year_of_timestamp(ts);
        if 2010 < year && year < 2100 {
            Some(
                (
                    Custom {
                        h_speed: read_u32_le(b.as_slice(), 2),
                        distance: read_u32_le(b.as_slice(), 6),
                        update_timestamp: ts,
                    },
                    18,
                ),
            )
        } else {
            None
        }
    }
}

/// Where each field of a custom record sits in its 18 bytes: two skipped
/// bytes, the speed bits at 2, the distance bits at 6 and the signed
/// millisecond timestamp at 10, all little-endian; a record is read only
/// when its timestamp's year lies after 2010 and before 2100.
pub proof fn lemma_custom_layout(file: Seq<u8>, p: PayloadView)
    requires
        payload_wf(file, p),
    ensures
        Custom::spec_parse_payload(file, p) matches Some((c, n)) ==> {
            &&& n == 18
            &&& payload_prefix(file, p, 18) matches Some(b) && {
                &&& c.h_speed as int == le_bytes(b, 2, 4)
                &&& c.distance as int == le_bytes(b, 6, 4)
                &&& c.update_timestamp as int == le_signed64(b, 10)
            }
            &&& 2010 < timestamp_year_or_epoch(c.update_timestamp) < 2100
        },
        payload_prefix(file, p, 18) is None ==> Custom::spec_parse_payload(file, p) is None,
{
    if let Some(b) = payload_prefix(file, p, 18) {
        lemma_payload_prefix_prefixes(file, p, 18, 18);
        lemma_le_32(b, 2);
        lemma_le_32(b, 6);
        lemma_le_64(b, 10);
    }
}

} // verus!
