//! The remote controller GPS record (type 11).
use vstd::prelude::*;
use crate::wire::{le_bytes, le_signed32, lemma_le_16, lemma_le_32};

use crate::utils::{le_u16, le_u32, as_i32, read_u16_le, read_u32_le, to_i32};

verus! {

/// Position reported by the GPS of the remote controller.
#[derive(Debug, Clone, Copy, PartialEq, Eq, Structural)]
pub struct RCGPS {
    pub hour: u8,
    pub minute: u8,
    pub second: u8,
    pub year: u16,
    pub month: u8,
    pub day: u8,
    pub latitude: i32,
    pub longitude: i32,
    pub speed_x: i32,
    pub speed_y: i32,
    pub gps_num: u8,
    /// The bits of an IEEE-754 binary32 value.
    pub accuracy: u32,
    pub valid_data: u16,
}

impl RCGPS {
    /// Number of payload bytes the record reads.
    pub open spec fn spec_size() -> nat {
        30
    }

    /// The record that the payload bytes `b` hold.
    pub open spec fn spec_parse(b: Seq<u8>) -> RCGPS {
        RCGPS {
            hour: b[0],
            minute: b[1],
            second: b[2],
            year: le_u16(b, 3),
            month: b[5],
            day: b[6],
            latitude: as_i32(le_u32(b, 7)),
            longitude: as_i32(le_u32(b, 11)),
            speed_x: as_i32(le_u32(b, 15)),
            speed_y: as_i32(le_u32(b, 19)),
            gps_num: b[23],
            accuracy: le_u32(b, 24),
            valid_data: le_u16(b, 28),
        }
    }

    /// Number of payload bytes the record reads.
    pub fn size() -> (r: usize)
        ensures
            r == RCGPS::spec_size(),
    {
        30
    }

    /// Reads the record from its decoded payload bytes.
    pub fn parse(b: &[u8]) -> (r: RCGPS)
        requires
            b@.len() >= RCGPS::spec_size(),
        ensures
            r == RCGPS::spec_parse(b@),
    {
        let hour_value = b[0];
        let minute_value = b[1];
        let second_value = b[2];
        let year_value = read_u16_le(b, 3);
        let month_value = b[5];
        let day_value = b[6];
        let latitude_value = to_i32(read_u32_le(b, 7));
        let longitude_value = to_i32(read_u32_le(b, 11));
        let speed_x_value = to_i32(read_u32_le(b, 15));
        let speed_y_value = to_i32(read_u32_le(b, 19));
        let gps_num_value = b[23];
        let accuracy_value = read_u32_le(b, 24);
        let valid_data_value = read_u16_le(b, 28);
        RCGPS {
            hour: hour_value,
            minute: minute_value,
            second: second_value,
            year: year_value,
            month: month_value,
            day: day_value,
            latitude: latitude_value,
            longitude: longitude_value,
            speed_x: speed_x_value,
            speed_y: speed_y_value,
            gps_num: gps_num_value,
            accuracy: accuracy_value,
            valid_data: valid_data_value,
        }
    }
}

/// Where each field of a remote controller GPS record sits in its payload:
/// time of day in bytes 0-2, the year at 3-4, month and day at 5 and 6,
/// signed 32-bit latitude, longitude and speeds from 7 on, satellites at
/// 23, accuracy at 24 and the validity flag at 28.
pub proof fn lemma_rc_gps_layout(b: Seq<u8>)
    requires
        b.len() >= 30,
    ensures
        RCGPS::spec_size() == 30,
        ({
            let o = RCGPS::spec_parse(b);
            &&& o.hour == b[0]
            &&& o.minute == b[1]
            &&& o.second == b[2]
            &&& o.year as int == le_bytes(b, 3, 2)
            &&& o.month == b[5]
            &&& o.day == b[6]
            &&& o.latitude as int == le_signed32(b, 7)
            &&& o.longitude as int == le_signed32(b, 11)
            &&& o.speed_x as int == le_signed32(b, 15)
            &&& o.speed_y as int == le_signed32(b, 19)
            &&& o.gps_num == b[23]
            &&& o.accuracy as int == le_bytes(b, 24, 4)
            &&& o.valid_data as int == le_bytes(b, 28, 2)
        }),
{
    lemma_le_16(b, 28);
    lemma_le_16(b, 3);
    lemma_le_32(b, 11);
    lemma_le_32(b, 15);
    lemma_le_32(b, 19);
    lemma_le_32(b, 24);
    lemma_le_32(b, 7);
}

} // verus!
