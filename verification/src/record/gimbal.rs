//! The gimbal record (type 3).
use vstd::prelude::*;
use crate::wire::{le_signed16, le_signed8, lemma_le_16, lemma_le_8, lemma_sub_byte_fields};

use crate::utils::{le_u16, as_i8, as_i16, spec_sub_byte_field, read_u16_le, to_i8, to_i16, sub_byte_field};

verus! {

#[derive(Debug, Clone, Copy, PartialEq, Eq, Structural)]
pub enum GimbalMode {
    /// The gimbal can move independently of the aircraft's yaw. In this mode, even if
    /// the aircraft yaw changes, the camera will continue pointing in the same world
    /// direction. This mode is only available for the Ronin-MX when the M600 or M600
    /// Pro landing gear is retracted.
    Free,
    /// The gimbal's work mode is FPV mode. In this mode, the gimbal yaw will follow the
    /// aircraft's heading, and the gimbal roll will follow the RC's roll channel value.
    /// The pitch will be available to move.
    /// This mode is only available for the Ronin-MX when the M600 landing gear is retracted.
    FPV,
    /// The gimbal's work mode is such that it will follow the yaw. In this mode, the
    /// gimbal yaw will be fixed, while pitch and roll will be available to move.
    YawFollow,
    Unknown(u8),
}

impl GimbalMode {
    /// The variant that the wire value `value` stands for.
    pub open spec fn spec_from_code(value: u8) -> GimbalMode {
        match value {
            0 => GimbalMode::Free,
            1 => GimbalMode::FPV,
            2 => GimbalMode::YawFollow,
            _ => GimbalMode::Unknown(value),
        }
    }

    /// Maps a wire value to its variant.
    pub fn from_code(value: u8) -> (r: GimbalMode)
        ensures
            r == GimbalMode::spec_from_code(value),
    {
        match value {
            0 => GimbalMode::Free,
            1 => GimbalMode::FPV,
            2 => GimbalMode::YawFollow,
            _ => GimbalMode::Unknown(value),
        }
    }
}

impl From<u8> for GimbalMode {
    fn from(value: u8) -> (r: GimbalMode)
        ensures
            r == GimbalMode::spec_from_code(value),
    {
        GimbalMode::from_code(value)
    }
}

impl vstd::std_specs::convert::FromSpecImpl<u8> for GimbalMode {
    open spec fn obeys_from_spec() -> bool {
        true
    }

    open spec fn from_spec(value: u8) -> GimbalMode {
        GimbalMode::spec_from_code(value)
    }
}

/// Attitude and status of the gimbal.
#[derive(Debug, Clone, Copy, PartialEq, Eq, Structural)]
pub struct Gimbal {
    /// Tenths of a degree.
    pub pitch: i16,
    /// Tenths of a degree.
    pub roll: i16,
    /// Tenths of a degree.
    pub yaw: i16,
    pub mode: GimbalMode,
    pub reset: u8,
    /// Tenths of a degree.
    pub roll_adjust: i8,
    /// Tenths of a degree.
    pub yaw_angle: i16,
    pub is_pitch_at_limit: bool,
    pub is_roll_at_limit: bool,
    pub is_yaw_at_limit: bool,
    pub is_auto_calibration: bool,
    pub auto_calibration_result: bool,
    pub install_direction: bool,
    pub is_stuck: bool,
    /// 0 before format 2.
    pub version: u8,
    pub is_double_click: bool,
    pub is_triple_click: bool,
    pub is_single_click: bool,
}

impl Gimbal {
    /// Number of payload bytes the record reads in a log of format `version`.
    pub open spec fn spec_size(version: u8) -> nat {
        if version >= 2 { 12 } else { 11 }
    }

    /// The record that the payload bytes `b` hold.
    pub open spec fn spec_parse(b: Seq<u8>, version: u8) -> Gimbal {
        Gimbal {
            pitch: as_i16(le_u16(b, 0)),
            roll: as_i16(le_u16(b, 2)),
            yaw: as_i16(le_u16(b, 4)),
            mode: GimbalMode::spec_from_code(spec_sub_byte_field(b[6], 0xC0)),
            reset: spec_sub_byte_field(b[6], 0x20),
            roll_adjust: as_i8(b[7]),
            yaw_angle: as_i16(le_u16(b, 8)),
            is_pitch_at_limit: spec_sub_byte_field(b[10], 0x01) == 1,
            is_roll_at_limit: spec_sub_byte_field(b[10], 0x02) == 1,
            is_yaw_at_limit: spec_sub_byte_field(b[10], 0x04) == 1,
            is_auto_calibration: spec_sub_byte_field(b[10], 0x08) == 1,
            auto_calibration_result: spec_sub_byte_field(b[10], 0x10) == 1,
            install_direction: spec_sub_byte_field(b[10], 0x20) == 1,
            is_stuck: spec_sub_byte_field(b[10], 0x40) == 1,
            version: if version >= 2 { spec_sub_byte_field(b[11], 0x0F) } else { 0 },
            is_double_click: if version >= 2 { spec_sub_byte_field(b[11], 0x20) == 1 } else { false },
            is_triple_click: if version >= 2 { spec_sub_byte_field(b[11], 0x40) == 1 } else { false },
            is_single_click: if version >= 2 { spec_sub_byte_field(b[11], 0x80) == 1 } else { false },
        }
    }

    /// Number of payload bytes the record reads.
    pub fn size(version: u8) -> (r: usize)
        ensures
            r == Gimbal::spec_size(version),
    {
        if version >= 2 { 12 } else { 11 }
    }

    /// Reads the record from its decoded payload bytes.
    pub fn parse(b: &[u8], version: u8) -> (r: Gimbal)
        requires
            b@.len() >= Gimbal::spec_size(version),
        ensures
            r == Gimbal::spec_parse(b@, version),
    {
        let pitch_value = to_i16(read_u16_le(b, 0));
        let roll_value = to_i16(read_u16_le(b, 2));
        let yaw_value = to_i16(read_u16_le(b, 4));
        let mode_value = GimbalMode::from_code(sub_byte_field(b[6], 0xC0));
        let reset_value = sub_byte_field(b[6], 0x20);
        let roll_adjust_value = to_i8(b[7]);
        let yaw_angle_value = to_i16(read_u16_le(b, 8));
        let is_pitch_at_limit_value = sub_byte_field(b[10], 0x01) == 1;
        let is_roll_at_limit_value = sub_byte_field(b[10], 0x02) == 1;
        let is_yaw_at_limit_value = sub_byte_field(b[10], 0x04) == 1;
        let is_auto_calibration_value = sub_byte_field(b[10], 0x08) == 1;
        let auto_calibration_result_value = sub_byte_field(b[10], 0x10) == 1;
        let install_direction_value = sub_byte_field(b[10], 0x20) == 1;
        let is_stuck_value = sub_byte_field(b[10], 0x40) == 1;
        let version_value = if version >= 2 { sub_byte_field(b[11], 0x0F) } else { 0 };
        let is_double_click_value = if version >= 2 { sub_byte_field(b[11], 0x20) == 1 } else { false };
        let is_triple_click_value = if version >= 2 { sub_byte_field(b[11], 0x40) == 1 } else { false };
        let is_single_click_value = if version >= 2 { sub_byte_field(b[11], 0x80) == 1 } else { false };
        Gimbal {
            pitch: pitch_value,
            roll: roll_value,
            yaw: yaw_value,
            mode: mode_value,
            reset: reset_value,
            roll_adjust: roll_adjust_value,
            yaw_angle: yaw_angle_value,
            is_pitch_at_limit: is_pitch_at_limit_value,
            is_roll_at_limit: is_roll_at_limit_value,
            is_yaw_at_limit: is_yaw_at_limit_value,
            is_auto_calibration: is_auto_calibration_value,
            auto_calibration_result: auto_calibration_result_value,
            install_direction: install_direction_value,
            is_stuck: is_stuck_value,
            version: version_value,
            is_double_click: is_double_click_value,
            is_triple_click: is_triple_click_value,
            is_single_click: is_single_click_value,
        }
    }
}

/// Where each field of a gimbal record sits in its payload: pitch, roll and
/// yaw are the signed 16-bit little-endian values at 0, 2 and 4; byte 6
/// holds the mode and reset bits, 7 the signed roll adjustment, 8-9 the yaw
/// angle, 10 the endpoint and calibration flags and, from format 2, 11 the
/// version and click flags.
pub proof fn lemma_gimbal_layout(b: Seq<u8>, version: u8)
    requires
        b.len() >= 11,
        version >= 2 ==> b.len() >= 12,
    ensures
        version >= 2 ==> Gimbal::spec_size(version) == 12,
        version < 2 ==> Gimbal::spec_size(version) == 11,
        ({
            let o = Gimbal::spec_parse(b, version);
            &&& o.pitch as int == le_signed16(b, 0)
            &&& o.roll as int == le_signed16(b, 2)
            &&& o.yaw as int == le_signed16(b, 4)
            &&& o.mode == GimbalMode::spec_from_code((b[6] / 64))
            &&& o.reset == ((b[6] / 32) % 2)
            &&& o.roll_adjust as int == le_signed8(b, 7)
            &&& o.yaw_angle as int == le_signed16(b, 8)
            &&& o.is_pitch_at_limit == ((b[10] % 2) == 1)
            &&& o.is_roll_at_limit == (((b[10] / 2) % 2) == 1)
            &&& o.is_yaw_at_limit == (((b[10] / 4) % 2) == 1)
            &&& o.is_auto_calibration == (((b[10] / 8) % 2) == 1)
            &&& o.auto_calibration_result == (((b[10] / 16) % 2) == 1)
            &&& o.install_direction == (((b[10] / 32) % 2) == 1)
            &&& o.is_stuck == (((b[10] / 64) % 2) == 1)
            &&& version >= 2 ==> o.version == (b[11] % 16)
            &&& version < 2 ==> o.version == 0
            &&& version >= 2 ==> o.is_double_click == (((b[11] / 32) % 2) == 1)
            &&& version < 2 ==> o.is_double_click == false
            &&& version >= 2 ==> o.is_triple_click == (((b[11] / 64) % 2) == 1)
            &&& version < 2 ==> o.is_triple_click == false
            &&& version >= 2 ==> o.is_single_click == ((b[11] / 128) == 1)
            &&& version < 2 ==> o.is_single_click == false
        }),
{
    lemma_sub_byte_fields(b[10]);
    lemma_sub_byte_fields(b[6]);
    if version >= 2 {
        lemma_sub_byte_fields(b[11]);
    }
    lemma_le_16(b, 0);
    lemma_le_16(b, 2);
    lemma_le_16(b, 4);
    lemma_le_16(b, 8);
    lemma_le_8(b, 7);
}

/// The gimbal mode of each wire code, as the log format numbers them.
pub proof fn lemma_gimbal_mode_codes(value: u8)
    ensures
        GimbalMode::spec_from_code(0) == GimbalMode::Free,
        GimbalMode::spec_from_code(1) == GimbalMode::FPV,
        GimbalMode::spec_from_code(2) == GimbalMode::YawFollow,
        !(value == 0 || value == 1 || value == 2) ==> GimbalMode::spec_from_code(value) == GimbalMode::Unknown(value),
{
}

} // verus!
