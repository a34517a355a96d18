//! The home point record (type 2).
use vstd::prelude::*;
use crate::wire::{le_bytes, le_signed16, lemma_le_16, lemma_le_32, lemma_le_64, lemma_sub_byte_fields};

use crate::utils::{le_u16, le_u32, le_u64, as_i16, spec_sub_byte_field, read_u16_le, read_u32_le, read_u64_le, to_i16, sub_byte_field};

verus! {

#[derive(Debug, Clone, Copy, PartialEq, Eq, Structural)]
pub enum IOCMode {
    CourseLock,
    HomeLock,
    HotspotSurround,
    Unknown(u8),
}

impl IOCMode {
    /// The variant that the wire value `value` stands for.
    pub open spec fn spec_from_code(value: u8) -> IOCMode {
        match value {
            1 => IOCMode::CourseLock,
            2 => IOCMode::HomeLock,
            3 => IOCMode::HotspotSurround,
            _ => IOCMode::Unknown(value),
        }
    }

    /// Maps a wire value to its variant.
    pub fn from_code(value: u8) -> (r: IOCMode)
        ensures
            r == IOCMode::spec_from_code(value),
    {
        match value {
            1 => IOCMode::CourseLock,
            2 => IOCMode::HomeLock,
            3 => IOCMode::HotspotSurround,
            _ => IOCMode::Unknown(value),
        }
    }
}

impl From<u8> for IOCMode {
    fn from(value: u8) -> (r: IOCMode)
        ensures
            r == IOCMode::spec_from_code(value),
    {
        IOCMode::from_code(value)
    }
}

impl vstd::std_specs::convert::FromSpecImpl<u8> for IOCMode {
    open spec fn obeys_from_spec() -> bool {
        true
    }

    open spec fn from_spec(value: u8) -> IOCMode {
        IOCMode::spec_from_code(value)
    }
}

#[derive(Debug, Clone, Copy, PartialEq, Eq, Structural)]
pub enum GoHomeMode {
    Normal,
    FixedHeight,
}

impl GoHomeMode {
    /// The variant that the wire value `value` stands for.
    pub open spec fn spec_from_code(value: bool) -> GoHomeMode {
        match value {
            false => GoHomeMode::Normal,
            true => GoHomeMode::FixedHeight,
        }
    }

    /// Maps a wire value to its variant.
    pub fn from_code(value: bool) -> (r: GoHomeMode)
        ensures
            r == GoHomeMode::spec_from_code(value),
    {
        match value {
            false => GoHomeMode::Normal,
            true => GoHomeMode::FixedHeight,
        }
    }
}

impl From<bool> for GoHomeMode {
    fn from(value: bool) -> (r: GoHomeMode)
        ensures
            r == GoHomeMode::spec_from_code(value),
    {
        GoHomeMode::from_code(value)
    }
}

impl vstd::std_specs::convert::FromSpecImpl<bool> for GoHomeMode {
    open spec fn obeys_from_spec() -> bool {
        true
    }

    open spec fn from_spec(value: bool) -> GoHomeMode {
        GoHomeMode::spec_from_code(value)
    }
}

#[derive(Debug, Clone, Copy, PartialEq, Eq, Structural)]
pub enum CompassCalibrationState {
    NotCalibrating,
    Horizontal,
    Vertical,
    Successful,
    Failed,
    Unnown(u8),
}

impl CompassCalibrationState {
    /// The variant that the wire value `value` stands for.
    pub open spec fn spec_from_code(value: u8) -> CompassCalibrationState {
        match value {
            0 => CompassCalibrationState::NotCalibrating,
            1 => CompassCalibrationState::Horizontal,
            2 => CompassCalibrationState::Vertical,
            3 => CompassCalibrationState::Successful,
            4 => CompassCalibrationState::Failed,
            _ => CompassCalibrationState::Unnown(value),
        }
    }

    /// Maps a wire value to its variant.
    pub fn from_code(value: u8) -> (r: CompassCalibrationState)
        ensures
            r == CompassCalibrationState::spec_from_code(value),
    {
        match value {
            0 => CompassCalibrationState::NotCalibrating,
            1 => CompassCalibrationState::Horizontal,
            2 => CompassCalibrationState::Vertical,
            3 => CompassCalibrationState::Successful,
            4 => CompassCalibrationState::Failed,
            _ => CompassCalibrationState::Unnown(value),
        }
    }
}

impl From<u8> for CompassCalibrationState {
    fn from(value: u8) -> (r: CompassCalibrationState)
        ensures
            r == CompassCalibrationState::spec_from_code(value),
    {
        CompassCalibrationState::from_code(value)
    }
}

impl vstd::std_specs::convert::FromSpecImpl<u8> for CompassCalibrationState {
    open spec fn obeys_from_spec() -> bool {
        true
    }

    open spec fn from_spec(value: u8) -> CompassCalibrationState {
        CompassCalibrationState::spec_from_code(value)
    }
}

/// Home point and return-to-home settings.
#[derive(Debug, Clone, Copy, PartialEq, Eq, Structural)]
pub struct Home {
    /// Home point longitude in radians, as the bits of an IEEE-754 binary64 value.
    pub longitude: u64,
    /// Home point latitude in radians, as the bits of an IEEE-754 binary64 value.
    pub latitude: u64,
    /// Home point altitude in decimetres, as the bits of an IEEE-754 binary32 value.
    pub altitude: u32,
    pub is_home_record: bool,
    pub go_home_mode: GoHomeMode,
    pub aircraft_head_direction: u8,
    pub is_dynamic_home_point_enabled: bool,
    pub is_near_distance_limit: bool,
    pub is_near_height_limit: bool,
    pub is_multiple_mode_open: bool,
    pub has_go_home: bool,
    pub compass_state: CompassCalibrationState,
    pub is_compass_adjust: bool,
    pub is_beginner_mode: bool,
    pub is_ioc_open: bool,
    pub ioc_mode: IOCMode,
    pub go_home_height: u16,
    pub ioc_course_lock_angle: i16,
    pub flight_record_sd_state: u8,
    pub record_sd_capacity_percent: u8,
    pub record_sd_left_time: u16,
    pub current_flight_record_index: u16,
    /// Metres, as the bits of an IEEE-754 binary32 value; 0 (the bits of 0.0) before format 8.
    pub max_allowed_height: u32,
}

impl Home {
    /// Number of payload bytes the record reads in a log of format `version`.
    pub open spec fn spec_size(version: u8) -> nat {
        if version >= 8 { 41 } else { 32 }
    }

    /// The record that the payload bytes `b` hold.
    pub open spec fn spec_parse(b: Seq<u8>, version: u8) -> Home {
        Home {
            longitude: le_u64(b, 0),
            latitude: le_u64(b, 8),
            altitude: le_u32(b, 16),
            is_home_record: spec_sub_byte_field(b[20], 0x01) == 1,
            go_home_mode: GoHomeMode::spec_from_code(spec_sub_byte_field(b[20], 0x02) == 1),
            aircraft_head_direction: spec_sub_byte_field(b[20], 0x04),
            is_dynamic_home_point_enabled: spec_sub_byte_field(b[20], 0x08) == 1,
            is_near_distance_limit: spec_sub_byte_field(b[20], 0x10) == 1,
            is_near_height_limit: spec_sub_byte_field(b[20], 0x20) == 1,
            is_multiple_mode_open: spec_sub_byte_field(b[20], 0x40) == 1,
            has_go_home: spec_sub_byte_field(b[20], 0x80) == 1,
            compass_state: CompassCalibrationState::spec_from_code(spec_sub_byte_field(b[21], 0x03)),
            is_compass_adjust: spec_sub_byte_field(b[21], 0x04) == 1,
            is_beginner_mode: spec_sub_byte_field(b[21], 0x08) == 1,
            is_ioc_open: spec_sub_byte_field(b[21], 0x10) == 1,
            ioc_mode: IOCMode::spec_from_code(spec_sub_byte_field(b[21], 0xE0)),
            go_home_height: le_u16(b, 22),
            ioc_course_lock_angle: as_i16(le_u16(b, 24)),
            flight_record_sd_state: b[26],
            record_sd_capacity_percent: b[27],
            record_sd_left_time: le_u16(b, 28),
            current_flight_record_index: le_u16(b, 30),
            max_allowed_height: if version >= 8 { le_u32(b, 37) } else { 0 },
        }
    }

    /// Number of payload bytes the record reads.
    pub fn size(version: u8) -> (r: usize)
        ensures
            r == Home::spec_size(version),
    {
        if version >= 8 { 41 } else { 32 }
    }

    fn parse_part0(b: &[u8], version: u8) -> (r: (u64, u64, u32, bool, GoHomeMode, u8, bool, bool, bool, bool, bool, CompassCalibrationState,))
        requires
            b@.len() >= Home::spec_size(version),
        ensures
            r.0 == (le_u64(b@, 0)),
            r.1 == (le_u64(b@, 8)),
            r.2 == (le_u32(b@, 16)),
            r.3 == (spec_sub_byte_field(b@[20], 0x01) == 1),
            r.4 == (GoHomeMode::spec_from_code(spec_sub_byte_field(b@[20], 0x02) == 1)),
            r.5 == (spec_sub_byte_field(b@[20], 0x04)),
            r.6 == (spec_sub_byte_field(b@[20], 0x08) == 1),
            r.7 == (spec_sub_byte_field(b@[20], 0x10) == 1),
            r.8 == (spec_sub_byte_field(b@[20], 0x20) == 1),
            r.9 == (spec_sub_byte_field(b@[20], 0x40) == 1),
            r.10 == (spec_sub_byte_field(b@[20], 0x80) == 1),
            r.11 == (CompassCalibrationState::spec_from_code(spec_sub_byte_field(b@[21], 0x03))),
    {
        let longitude_value = read_u64_le(b, 0);
        let latitude_value = read_u64_le(b, 8);
        let altitude_value = read_u32_le(b, 16);
        let is_home_record_value = sub_byte_field(b[20], 0x01) == 1;
        let go_home_mode_value = GoHomeMode::from_code(sub_byte_field(b[20], 0x02) == 1);
        let aircraft_head_direction_value = sub_byte_field(b[20], 0x04);
        let is_dynamic_home_point_enabled_value = sub_byte_field(b[20], 0x08) == 1;
        let is_near_distance_limit_value = sub_byte_field(b[20], 0x10) == 1;
        let is_near_height_limit_value = sub_byte_field(b[20], 0x20) == 1;
        let is_multiple_mode_open_value = sub_byte_field(b[20], 0x40) == 1;
        let has_go_home_value = sub_byte_field(b[20], 0x80) == 1;
        let compass_state_value = CompassCalibrationState::from_code(sub_byte_field(b[21], 0x03));
        (longitude_value, latitude_value, altitude_value, is_home_record_value, go_home_mode_value, aircraft_head_direction_value, is_dynamic_home_point_enabled_value, is_near_distance_limit_value, is_near_height_limit_value, is_multiple_mode_open_value, has_go_home_value, compass_state_value,)
    }

    fn parse_part1(b: &[u8], version: u8) -> (r: (bool, bool, bool, IOCMode, u16, i16, u8, u8, u16, u16, u32,))
        requires
            b@.len() >= Home::spec_size(version),
        ensures
            r.0 == (spec_sub_byte_field(b@[21], 0x04) == 1),
            r.1 == (spec_sub_byte_field(b@[21], 0x08) == 1),
            r.2 == (spec_sub_byte_field(b@[21], 0x10) == 1),
            r.3 == (IOCMode::spec_from_code(spec_sub_byte_field(b@[21], 0xE0))),
            r.4 == (le_u16(b@, 22)),
            r.5 == (as_i16(le_u16(b@, 24))),
            r.6 == (b@[26]),
            r.7 == (b@[27]),
            r.8 == (le_u16(b@, 28)),
            r.9 == (le_u16(b@, 30)),
            r.10 == (if version >= 8 { le_u32(b@, 37) } else { 0 }),
    {
        let is_compass_adjust_value = sub_byte_field(b[21], 0x04) == 1;
        let is_beginner_mode_value = sub_byte_field(b[21], 0x08) == 1;
        let is_ioc_open_value = sub_byte_field(b[21], 0x10) == 1;
        let ioc_mode_value = IOCMode::from_code(sub_byte_field(b[21], 0xE0));
        let go_home_height_value = read_u16_le(b, 22);
        let ioc_course_lock_angle_value = to_i16(read_u16_le(b, 24));
        let flight_record_sd_state_value = b[26];
        let record_sd_capacity_percent_value = b[27];
        let record_sd_left_time_value = read_u16_le(b, 28);
        let current_flight_record_index_value = read_u16_le(b, 30);
        let max_allowed_height_value = if version >= 8 { read_u32_le(b, 37) } else { 0 };
        (is_compass_adjust_value, is_beginner_mode_value, is_ioc_open_value, ioc_mode_value, go_home_height_value, ioc_course_lock_angle_value, flight_record_sd_state_value, record_sd_capacity_percent_value, record_sd_left_time_value, current_flight_record_index_value, max_allowed_height_value,)
    }

    /// Reads the record from its decoded payload bytes.
    pub fn parse(b: &[u8], version: u8) -> (r: Home)
        requires
            b@.len() >= Home::spec_size(version),
        ensures
            r == Home::spec_parse(b@, version),
    {
        let part0 = Home::parse_part0(b, version);
        let part1 = Home::parse_part1(b, version);
        Home {
            longitude: part0.0,
            latitude: part0.1,
            altitude: part0.2,
            is_home_record: part0.3,
            go_home_mode: part0.4,
            aircraft_head_direction: part0.5,
            is_dynamic_home_point_enabled: part0.6,
            is_near_distance_limit: part0.7,
            is_near_height_limit: part0.8,
            is_multiple_mode_open: part0.9,
            has_go_home: part0.10,
            compass_state: part0.11,
            is_compass_adjust: part1.0,
            is_beginner_mode: part1.1,
            is_ioc_open: part1.2,
            ioc_mode: part1.3,
            go_home_height: part1.4,
            ioc_course_lock_angle: part1.5,
            flight_record_sd_state: part1.6,
            record_sd_capacity_percent: part1.7,
            record_sd_left_time: part1.8,
            current_flight_record_index: part1.9,
            max_allowed_height: part1.10,
        }
    }
}

/// Where each field of a home record sits in its payload: longitude and
/// latitude are the 8-byte little-endian values at 0 and 8, the altitude
/// the 4-byte value at 16; bytes 20 and 21 hold bit fields (compass state,
/// calibration, orientation control); 22-23 the go-home height, 24-25 the
/// signed course lock angle, then the record card state and counters, and
/// from format 8 the height limit at 37.
pub proof fn lemma_home_layout(b: Seq<u8>, version: u8)
    requires
        b.len() >= 32,
        version >= 8 ==> b.len() >= 41,
    ensures
        version >= 8 ==> Home::spec_size(version) == 41,
        version < 8 ==> Home::spec_size(version) == 32,
        ({
            let o = Home::spec_parse(b, version);
            &&& o.longitude as int == le_bytes(b, 0, 8)
            &&& o.latitude as int == le_bytes(b, 8, 8)
            &&& o.altitude as int == le_bytes(b, 16, 4)
            &&& o.is_home_record == ((b[20] % 2) == 1)
            &&& o.go_home_mode == (GoHomeMode::spec_from_code(((b[20] / 2) % 2) == 1))
            &&& o.aircraft_head_direction == ((b[20] / 4) % 2)
            &&& o.is_dynamic_home_point_enabled == (((b[20] / 8) % 2) == 1)
            &&& o.is_near_distance_limit == (((b[20] / 16) % 2) == 1)
            &&& o.is_near_height_limit == (((b[20] / 32) % 2) == 1)
            &&& o.is_multiple_mode_open == (((b[20] / 64) % 2) == 1)
            &&& o.has_go_home == ((b[20] / 128) == 1)
            &&& o.compass_state == CompassCalibrationState::spec_from_code((b[21] % 4))
            &&& o.is_compass_adjust == (((b[21] / 4) % 2) == 1)
            &&& o.is_beginner_mode == (((b[21] / 8) % 2) == 1)
            &&& o.is_ioc_open == (((b[21] / 16) % 2) == 1)
            &&& o.ioc_mode == IOCMode::spec_from_code((b[21] / 32))
            &&& o.go_home_height as int == le_bytes(b, 22, 2)
            &&& o.ioc_course_lock_angle as int == le_signed16(b, 24)
            &&& o.flight_record_sd_state == b[26]
            &&& o.record_sd_capacity_percent == b[27]
            &&& o.record_sd_left_time as int == le_bytes(b, 28, 2)
            &&& o.current_flight_record_index as int == le_bytes(b, 30, 2)
            &&& version >= 8 ==> o.max_allowed_height as int == le_bytes(b, 37, 4)
            &&& version < 8 ==> o.max_allowed_height == 0
        }),
{
    lemma_sub_byte_fields(b[20]);
    lemma_sub_byte_fields(b[21]);
    if version >= 8 {
        lemma_le_32(b, 37);
    }
    lemma_le_16(b, 22);
    lemma_le_16(b, 24);
    lemma_le_16(b, 28);
    lemma_le_16(b, 30);
    lemma_le_32(b, 16);
    lemma_le_64(b, 0);
    lemma_le_64(b, 8);
}

/// The ioc mode of each wire code, as the log format numbers them.
pub proof fn lemma_ioc_mode_codes(value: u8)
    ensures
        IOCMode::spec_from_code(1) == IOCMode::CourseLock,
        IOCMode::spec_from_code(2) == IOCMode::HomeLock,
        IOCMode::spec_from_code(3) == IOCMode::HotspotSurround,
        !(value == 1 || value == 2 || value == 3) ==> IOCMode::spec_from_code(value) == IOCMode::Unknown(value),
{
}

/// The compass calibration state of each wire code, as the log format numbers them.
pub proof fn lemma_compass_calibration_state_codes(value: u8)
    ensures
        CompassCalibrationState::spec_from_code(0) == CompassCalibrationState::NotCalibrating,
        CompassCalibrationState::spec_from_code(1) == CompassCalibrationState::Horizontal,
        CompassCalibrationState::spec_from_code(2) == CompassCalibrationState::Vertical,
        CompassCalibrationState::spec_from_code(3) == CompassCalibrationState::Successful,
        CompassCalibrationState::spec_from_code(4) == CompassCalibrationState::Failed,
        !(value == 0 || value == 1 || value == 2 || value == 3 || value == 4) ==> CompassCalibrationState::spec_from_code(value) == CompassCalibrationState::Unnown(value),
{
}

/// The go-home mode of the mode bit: clear is the normal mode, set the fixed
/// height mode.
pub proof fn lemma_go_home_mode_codes()
    ensures
        GoHomeMode::spec_from_code(false) == GoHomeMode::Normal,
        GoHomeMode::spec_from_code(true) == GoHomeMode::FixedHeight,
{
}

} // verus!
