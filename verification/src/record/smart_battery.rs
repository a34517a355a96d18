//! The smart battery record (type 8).
use vstd::prelude::*;
use crate::wire::{le_bytes, lemma_le_16, lemma_le_32, lemma_sub_byte_fields};

use crate::utils::{le_u16, le_u32, spec_sub_byte_field, read_u16_le, read_u32_le, sub_byte_field};

verus! {

#[derive(Debug, Clone, Copy, PartialEq, Eq, Structural)]
pub enum BatteryGoHomeStatus {
    NonGoHome,
    GoHome,
    GoHomeAlready,
    Unknown(u8),
}

impl BatteryGoHomeStatus {
    /// The variant that the wire value `value` stands for.
    pub open spec fn spec_from_code(value: u8) -> BatteryGoHomeStatus {
        match value {
            0 => BatteryGoHomeStatus::NonGoHome,
            1 => BatteryGoHomeStatus::GoHome,
            2 => BatteryGoHomeStatus::GoHomeAlready,
            _ => BatteryGoHomeStatus::Unknown(value),
        }
    }

    /// Maps a wire value to its variant.
    pub fn from_code(value: u8) -> (r: BatteryGoHomeStatus)
        ensures
            r == BatteryGoHomeStatus::spec_from_code(value),
    {
        match value {
            0 => BatteryGoHomeStatus::NonGoHome,
            1 => BatteryGoHomeStatus::GoHome,
            2 => BatteryGoHomeStatus::GoHomeAlready,
            _ => BatteryGoHomeStatus::Unknown(value),
        }
    }
}

impl From<u8> for BatteryGoHomeStatus {
    fn from(value: u8) -> (r: BatteryGoHomeStatus)
        ensures
            r == BatteryGoHomeStatus::spec_from_code(value),
    {
        BatteryGoHomeStatus::from_code(value)
    }
}

impl vstd::std_specs::convert::FromSpecImpl<u8> for BatteryGoHomeStatus {
    open spec fn obeys_from_spec() -> bool {
        true
    }

    open spec fn from_spec(value: u8) -> BatteryGoHomeStatus {
        BatteryGoHomeStatus::spec_from_code(value)
    }
}

/// Smart battery estimates and warnings.
#[derive(Debug, Clone, Copy, PartialEq, Eq, Structural)]
pub struct SmartBattery {
    pub useful_time: u16,
    pub go_home_time: u16,
    pub land_time: u16,
    pub go_home_battery: u16,
    pub land_battery: u16,
    /// The bits of an IEEE-754 binary32 value.
    pub safe_fly_radius: u32,
    /// The bits of an IEEE-754 binary32 value.
    pub volume_consume: u32,
    pub status: u32,
    pub go_home_status: BatteryGoHomeStatus,
    pub go_home_countdown: u8,
    /// Millivolts.
    pub voltage: u16,
    pub percent: u8,
    pub low_warning: u8,
    pub low_warning_go_home: u8,
    pub serious_low_warning: u8,
    pub serious_low_warning_landing: u8,
    pub reserve: u8,
}

impl SmartBattery {
    /// Number of payload bytes the record reads.
    pub open spec fn spec_size() -> nat {
        30
    }

    /// The record that the payload bytes `b` hold.
    pub open spec fn spec_parse(b: Seq<u8>) -> SmartBattery {
        SmartBattery {
            useful_time: le_u16(b, 0),
            go_home_time: le_u16(b, 2),
            land_time: le_u16(b, 4),
            go_home_battery: le_u16(b, 6),
            land_battery: le_u16(b, 8),
            safe_fly_radius: le_u32(b, 10),
            volume_consume: le_u32(b, 14),
            status: le_u32(b, 18),
            go_home_status: BatteryGoHomeStatus::spec_from_code(b[22]),
            go_home_countdown: b[23],
            voltage: le_u16(b, 24),
            percent: b[26],
            low_warning: spec_sub_byte_field(b[27], 0x7F),
            low_warning_go_home: spec_sub_byte_field(b[27], 0x80),
            serious_low_warning: spec_sub_byte_field(b[28], 0x7F),
            serious_low_warning_landing: spec_sub_byte_field(b[28], 0x80),
            reserve: b[29],
        }
    }

    /// Number of payload bytes the record reads.
    pub fn size() -> (r: usize)
        ensures
            r == SmartBattery::spec_size(),
    {
        30
    }

    /// Reads the record from its decoded payload bytes.
    pub fn parse(b: &[u8]) -> (r: SmartBattery)
        requires
            b@.len() >= SmartBattery::spec_size(),
        ensures
            r == SmartBattery::spec_parse(b@),
    {
        let useful_time_value = read_u16_le(b, 0);
        let go_home_time_value = read_u16_le(b, 2);
        let land_time_value = read_u16_le(b, 4);
        let go_home_battery_value = read_u16_le(b, 6);
        let land_battery_value = read_u16_le(b, 8);
        let safe_fly_radius_value = read_u32_le(b, 10);
        let volume_consume_value = read_u32_le(b, 14);
        let status_value = read_u32_le(b, 18);
        let go_home_status_value = BatteryGoHomeStatus::from_code(b[22]);
        let go_home_countdown_value = b[23];
        let voltage_value = read_u16_le(b, 24);
        let percent_value = b[26];
        let low_warning_value = sub_byte_field(b[27], 0x7F);
        let low_warning_go_home_value = sub_byte_field(b[27], 0x80);
        let serious_low_warning_value = sub_byte_field(b[28], 0x7F);
        let serious_low_warning_landing_value = sub_byte_field(b[28], 0x80);
        let reserve_value = b[29];
        SmartBattery {
            useful_time: useful_time_value,
            go_home_time: go_home_time_value,
            land_time: land_time_value,
            go_home_battery: go_home_battery_value,
            land_battery: land_battery_value,
            safe_fly_radius: safe_fly_radius_value,
            volume_consume: volume_consume_value,
            status: status_value,
            go_home_status: go_home_status_value,
            go_home_countdown: go_home_countdown_value,
            voltage: voltage_value,
            percent: percent_value,
            low_warning: low_warning_value,
            low_warning_go_home: low_warning_go_home_value,
            serious_low_warning: serious_low_warning_value,
            serious_low_warning_landing: serious_low_warning_landing_value,
            reserve: reserve_value,
        }
    }
}

/// Where each field of a smart battery record sits in its payload: times
/// and thresholds as 16-bit little-endian values from 0, radius, consumption
/// and status as 32-bit values from 10, the go-home status at 22, the
/// voltage at 24-25, the charge percent at 26, and warning bits at 27-28.
pub proof fn lemma_smart_battery_layout(b: Seq<u8>)
    requires
        b.len() >= 30,
    ensures
        SmartBattery::spec_size() == 30,
        ({
            let o = SmartBattery::spec_parse(b);
            &&& o.useful_time as int == le_bytes(b, 0, 2)
            &&& o.go_home_time as int == le_bytes(b, 2, 2)
            &&& o.land_time as int == le_bytes(b, 4, 2)
            &&& o.go_home_battery as int == le_bytes(b, 6, 2)
            &&& o.land_battery as int == le_bytes(b, 8, 2)
            &&& o.safe_fly_radius as int == le_bytes(b, 10, 4)
            &&& o.volume_consume as int == le_bytes(b, 14, 4)
            &&& o.status as int == le_bytes(b, 18, 4)
            &&& o.go_home_status == BatteryGoHomeStatus::spec_from_code(b[22])
            &&& o.go_home_countdown == b[23]
            &&& o.voltage as int == le_bytes(b, 24, 2)
            &&& o.percent == b[26]
            &&& o.low_warning == (b[27] % 128)
            &&& o.low_warning_go_home == (b[27] / 128)
            &&& o.serious_low_warning == (b[28] % 128)
            &&& o.serious_low_warning_landing == (b[28] / 128)
            &&& o.reserve == b[29]
        }),
{
    lemma_sub_byte_fields(b[27]);
    lemma_sub_byte_fields(b[28]);
    lemma_le_16(b, 0);
    lemma_le_16(b, 2);
    lemma_le_16(b, 24);
    lemma_le_16(b, 4);
    lemma_le_16(b, 6);
    lemma_le_16(b, 8);
    lemma_le_32(b, 10);
    lemma_le_32(b, 14);
    lemma_le_32(b, 18);
}

/// The battery go home status of each wire code, as the log format numbers them.
pub proof fn lemma_battery_go_home_status_codes(value: u8)
    ensures
        BatteryGoHomeStatus::spec_from_code(0) == BatteryGoHomeStatus::NonGoHome,
        BatteryGoHomeStatus::spec_from_code(1) == BatteryGoHomeStatus::GoHome,
        BatteryGoHomeStatus::spec_from_code(2) == BatteryGoHomeStatus::GoHomeAlready,
        !(value == 0 || value == 1 || value == 2) ==> BatteryGoHomeStatus::spec_from_code(value) == BatteryGoHomeStatus::Unknown(value),
{
}

} // verus!
