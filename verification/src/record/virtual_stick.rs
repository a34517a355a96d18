//! The virtual stick record (type 33).
use vstd::prelude::*;
use crate::wire::{le_bytes, lemma_le_32, lemma_sub_byte_fields};

use crate::utils::{le_u32, spec_sub_byte_field, read_u32_le, sub_byte_field};

verus! {

#[derive(Debug, Clone, Copy, PartialEq, Eq, Structural)]
pub enum VirtualStickVerticalControlMode {
    /// Sets the virtual stick vertical control values to be a vertical velocity.
    /// Positive and negative vertical velocity is for the aircraft ascending and
    /// descending respectively. Maximum vertical velocity is defined as 4 m/s. Minimum
    /// vertical velocity is defined as -4 m/s.
    Velocity,
    /// Sets the virtual stick vertical control values to be an altitude. Maximum
    /// position is defined as 500 m. Minimum position is defined as 0 m.
    Position,
    Unknown(u8),
}

impl VirtualStickVerticalControlMode {
    /// The variant that the wire value `value` stands for.
    pub open spec fn spec_from_code(value: u8) -> VirtualStickVerticalControlMode {
        match value {
            0 => VirtualStickVerticalControlMode::Velocity,
            1 => VirtualStickVerticalControlMode::Position,
            _ => VirtualStickVerticalControlMode::Unknown(value),
        }
    }

    /// Maps a wire value to its variant.
    pub fn from_code(value: u8) -> (r: VirtualStickVerticalControlMode)
        ensures
            r == VirtualStickVerticalControlMode::spec_from_code(value),
    {
        match value {
            0 => VirtualStickVerticalControlMode::Velocity,
            1 => VirtualStickVerticalControlMode::Position,
            _ => VirtualStickVerticalControlMode::Unknown(value),
        }
    }
}

impl From<u8> for VirtualStickVerticalControlMode {
    fn from(value: u8) -> (r: VirtualStickVerticalControlMode)
        ensures
            r == VirtualStickVerticalControlMode::spec_from_code(value),
    {
        VirtualStickVerticalControlMode::from_code(value)
    }
}

impl vstd::std_specs::convert::FromSpecImpl<u8> for VirtualStickVerticalControlMode {
    open spec fn obeys_from_spec() -> bool {
        true
    }

    open spec fn from_spec(value: u8) -> VirtualStickVerticalControlMode {
        VirtualStickVerticalControlMode::spec_from_code(value)
    }
}

#[derive(Debug, Clone, Copy, PartialEq, Eq, Structural)]
pub enum VirtualStickRollPitchControlMode {
    /// Sets the roll and pitch values to be an angle relative to a level aircraft. In
    /// the body coordinate system, positive and negative pitch angle is for the
    /// aircraft rotating about the y-axis in the positive direction or negative
    /// direction, respectively. Positive and negative roll angle is the positive
    /// direction or negative direction rotation angle about the x-axis, respectively.
    /// However in the ground coordinate system, positive and negative pitch angle is
    /// the angle value for the aircraft moving south and north, respectively. Positive
    /// and negative roll angle is the angle when the aircraft is moving east and west,
    /// respectively. Maximum angle is defined as 30 degrees. Minimum angle is defined
    /// as -30 degrees.
    Angle,
    /// Sets the roll and pitch values to be a velocity. In the body coordinate system,
    /// positive and negative pitch velocity is for the aircraft moving towards the
    /// positive direction or negative direction along the pitch axis and y-axis,
    /// respectively. Positive and negative roll velocity is when the aircraft is moving
    /// towards the positive direction or negative direction along the roll axis and
    /// x-axis, respectively. However, in the ground coordinate system, positive and
    /// negative pitch velocity is for the aircraft moving east and west, respectively.
    /// Positive and negative roll velocity is when the aircraft is moving north and
    /// south, respectively. Maximum velocity is defined as 15 meters/s. Minimum
    /// velocity is defined as -15 meters/s.
    Velocity,
    Unknown(u8),
}

impl VirtualStickRollPitchControlMode {
    /// The variant that the wire value `value` stands for.
    pub open spec fn spec_from_code(value: u8) -> VirtualStickRollPitchControlMode {
        match value {
            0 => VirtualStickRollPitchControlMode::Angle,
            1 => VirtualStickRollPitchControlMode::Velocity,
            _ => VirtualStickRollPitchControlMode::Unknown(value),
        }
    }

    /// Maps a wire value to its variant.
    pub fn from_code(value: u8) -> (r: VirtualStickRollPitchControlMode)
        ensures
            r == VirtualStickRollPitchControlMode::spec_from_code(value),
    {
        match value {
            0 => VirtualStickRollPitchControlMode::Angle,
            1 => VirtualStickRollPitchControlMode::Velocity,
            _ => VirtualStickRollPitchControlMode::Unknown(value),
        }
    }
}

impl From<u8> for VirtualStickRollPitchControlMode {
    fn from(value: u8) -> (r: VirtualStickRollPitchControlMode)
        ensures
            r == VirtualStickRollPitchControlMode::spec_from_code(value),
    {
        VirtualStickRollPitchControlMode::from_code(value)
    }
}

impl vstd::std_specs::convert::FromSpecImpl<u8> for VirtualStickRollPitchControlMode {
    open spec fn obeys_from_spec() -> bool {
        true
    }

    open spec fn from_spec(value: u8) -> VirtualStickRollPitchControlMode {
        VirtualStickRollPitchControlMode::spec_from_code(value)
    }
}

#[derive(Debug, Clone, Copy, PartialEq, Eq, Structural)]
pub enum VirtualStickYawControlMode {
    /// Sets the yaw values to be an angle relative to the north. Positive and negative
    /// yaw angle is for the aircraft rotating clockwise and counterclockwise,
    /// respectively. Maximum yaw angle is defined as 180 degrees. Minimum yaw angle is
    /// defined as -180 degrees.
    Angle,
    /// Sets the yaw values to be an angular velocity. Positive and negative angular
    /// velocity is for the aircraft rotating clockwise and counterclockwise,
    /// respectively. Maximum yaw angular velocity is defined as 100 degrees/s. Minimum
    /// yaw angular velocity is defined as -100 degrees/s.
    Velocity,
    Unknown(u8),
}

impl VirtualStickYawControlMode {
    /// The variant that the wire value `value` stands for.
    pub open spec fn spec_from_code(value: u8) -> VirtualStickYawControlMode {
        match value {
            0 => VirtualStickYawControlMode::Angle,
            1 => VirtualStickYawControlMode::Velocity,
            _ => VirtualStickYawControlMode::Unknown(value),
        }
    }

    /// Maps a wire value to its variant.
    pub fn from_code(value: u8) -> (r: VirtualStickYawControlMode)
        ensures
            r == VirtualStickYawControlMode::spec_from_code(value),
    {
        match value {
            0 => VirtualStickYawControlMode::Angle,
            1 => VirtualStickYawControlMode::Velocity,
            _ => VirtualStickYawControlMode::Unknown(value),
        }
    }
}

impl From<u8> for VirtualStickYawControlMode {
    fn from(value: u8) -> (r: VirtualStickYawControlMode)
        ensures
            r == VirtualStickYawControlMode::spec_from_code(value),
    {
        VirtualStickYawControlMode::from_code(value)
    }
}

impl vstd::std_specs::convert::FromSpecImpl<u8> for VirtualStickYawControlMode {
    open spec fn obeys_from_spec() -> bool {
        true
    }

    open spec fn from_spec(value: u8) -> VirtualStickYawControlMode {
        VirtualStickYawControlMode::spec_from_code(value)
    }
}

#[derive(Debug, Clone, Copy, PartialEq, Eq, Structural)]
pub enum VirtualStickFlightCoordinateSystem {
    /// Ground coordinate system.
    Ground,
    /// Body coordinate system.
    Body,
    Unknown(u8),
}

impl VirtualStickFlightCoordinateSystem {
    /// The variant that the wire value `value` stands for.
    pub open spec fn spec_from_code(value: u8) -> VirtualStickFlightCoordinateSystem {
        match value {
            0 => VirtualStickFlightCoordinateSystem::Ground,
            1 => VirtualStickFlightCoordinateSystem::Body,
            _ => VirtualStickFlightCoordinateSystem::Unknown(value),
        }
    }

    /// Maps a wire value to its variant.
    pub fn from_code(value: u8) -> (r: VirtualStickFlightCoordinateSystem)
        ensures
            r == VirtualStickFlightCoordinateSystem::spec_from_code(value),
    {
        match value {
            0 => VirtualStickFlightCoordinateSystem::Ground,
            1 => VirtualStickFlightCoordinateSystem::Body,
            _ => VirtualStickFlightCoordinateSystem::Unknown(value),
        }
    }
}

impl From<u8> for VirtualStickFlightCoordinateSystem {
    fn from(value: u8) -> (r: VirtualStickFlightCoordinateSystem)
        ensures
            r == VirtualStickFlightCoordinateSystem::spec_from_code(value),
    {
        VirtualStickFlightCoordinateSystem::from_code(value)
    }
}

impl vstd::std_specs::convert::FromSpecImpl<u8> for VirtualStickFlightCoordinateSystem {
    open spec fn obeys_from_spec() -> bool {
        true
    }

    open spec fn from_spec(value: u8) -> VirtualStickFlightCoordinateSystem {
        VirtualStickFlightCoordinateSystem::spec_from_code(value)
    }
}

/// Commands sent through the virtual stick interface.
#[derive(Debug, Clone, Copy, PartialEq, Eq, Structural)]
pub struct VirtualStick {
    pub vertical_control_mode: VirtualStickVerticalControlMode,
    pub roll_pitch_control_mode: VirtualStickRollPitchControlMode,
    pub yaw_control_mode: VirtualStickYawControlMode,
    pub coordinate_system: VirtualStickFlightCoordinateSystem,
    /// Aircraft roll, left and right panning in [-30, 30] degrees, as the bits of an IEEE-754 binary32 value.
    pub roll: u32,
    /// Aircraft pitch, forward or reverse in [-30, 30] degrees, as the bits of an IEEE-754 binary32 value.
    pub pitch: u32,
    /// Aircraft yaw, left and right rotation in [-180, 180] degrees, as the bits of an IEEE-754 binary32 value.
    pub yaw: u32,
    /// Aircraft throttle, up or down in [-5, 5] m/s, as the bits of an IEEE-754 binary32 value.
    pub throttle: u32,
}

impl VirtualStick {
    /// Number of payload bytes the record reads.
    pub open spec fn spec_size() -> nat {
        17
    }

    /// The record that the payload bytes `b` hold.
    pub open spec fn spec_parse(b: Seq<u8>) -> VirtualStick {
        VirtualStick {
            vertical_control_mode: VirtualStickVerticalControlMode::spec_from_code(spec_sub_byte_field(b[0], 0x30)),
            roll_pitch_control_mode: VirtualStickRollPitchControlMode::spec_from_code(spec_sub_byte_field(b[0], 0xC0)),
            yaw_control_mode: VirtualStickYawControlMode::spec_from_code(spec_sub_byte_field(b[0], 0x08)),
            coordinate_system: VirtualStickFlightCoordinateSystem::spec_from_code(spec_sub_byte_field(b[0], 0x06)),
            roll: le_u32(b, 1),
            pitch: le_u32(b, 5),
            yaw: le_u32(b, 9),
            throttle: le_u32(b, 13),
        }
    }

    /// Number of payload bytes the record reads.
    pub fn size() -> (r: usize)
        ensures
            r == VirtualStick::spec_size(),
    {
        17
    }

    /// Reads the record from its decoded payload bytes.
    pub fn parse(b: &[u8]) -> (r: VirtualStick)
        requires
            b@.len() >= VirtualStick::spec_size(),
        ensures
            r == VirtualStick::spec_parse(b@),
    {
        let vertical_control_mode_value = VirtualStickVerticalControlMode::from_code(sub_byte_field(b[0], 0x30));
        let roll_pitch_control_mode_value = VirtualStickRollPitchControlMode::from_code(sub_byte_field(b[0], 0xC0));
        let yaw_control_mode_value = VirtualStickYawControlMode::from_code(sub_byte_field(b[0], 0x08));
        let coordinate_system_value = VirtualStickFlightCoordinateSystem::from_code(sub_byte_field(b[0], 0x06));
        let roll_value = read_u32_le(b, 1);
        let pitch_value = read_u32_le(b, 5);
        let yaw_value = read_u32_le(b, 9);
        let throttle_value = read_u32_le(b, 13);
        VirtualStick {
            vertical_control_mode: vertical_control_mode_value,
            roll_pitch_control_mode: roll_pitch_control_mode_value,
            yaw_control_mode: yaw_control_mode_value,
            coordinate_system: coordinate_system_value,
            roll: roll_value,
            pitch: pitch_value,
            yaw: yaw_value,
            throttle: throttle_value,
        }
    }
}

/// Where each field of a virtual stick record sits in its payload: byte 0
/// holds the control modes, then roll, pitch, yaw and throttle as 32-bit
/// little-endian values at 1, 5, 9 and 13.
pub proof fn lemma_virtual_stick_layout(b: Seq<u8>)
    requires
        b.len() >= 17,
    ensures
        VirtualStick::spec_size() == 17,
        ({
            let o = VirtualStick::spec_parse(b);
            &&& o.vertical_control_mode == VirtualStickVerticalControlMode::spec_from_code(((b[0] / 16) % 4))
            &&& o.roll_pitch_control_mode == VirtualStickRollPitchControlMode::spec_from_code((b[0] / 64))
            &&& o.yaw_control_mode == VirtualStickYawControlMode::spec_from_code(((b[0] / 8) % 2))
            &&& o.coordinate_system == VirtualStickFlightCoordinateSystem::spec_from_code(((b[0] / 2) % 4))
            &&& o.roll as int == le_bytes(b, 1, 4)
            &&& o.pitch as int == le_bytes(b, 5, 4)
            &&& o.yaw as int == le_bytes(b, 9, 4)
            &&& o.throttle as int == le_bytes(b, 13, 4)
        }),
{
    lemma_sub_byte_fields(b[0]);
    lemma_le_32(b, 1);
    lemma_le_32(b, 13);
    lemma_le_32(b, 5);
    lemma_le_32(b, 9);
}

/// The virtual stick vertical control mode of each wire code, as the log format numbers them.
pub proof fn lemma_virtual_stick_vertical_control_mode_codes(value: u8)
    ensures
        VirtualStickVerticalControlMode::spec_from_code(0) == VirtualStickVerticalControlMode::Velocity,
        VirtualStickVerticalControlMode::spec_from_code(1) == VirtualStickVerticalControlMode::Position,
        !(value == 0 || value == 1) ==> VirtualStickVerticalControlMode::spec_from_code(value) == VirtualStickVerticalControlMode::Unknown(value),
{
}

/// The virtual stick roll pitch control mode of each wire code, as the log format numbers them.
pub proof fn lemma_virtual_stick_roll_pitch_control_mode_codes(value: u8)
    ensures
        VirtualStickRollPitchControlMode::spec_from_code(0) == VirtualStickRollPitchControlMode::Angle,
        VirtualStickRollPitchControlMode::spec_from_code(1) == VirtualStickRollPitchControlMode::Velocity,
        !(value == 0 || value == 1) ==> VirtualStickRollPitchControlMode::spec_from_code(value) == VirtualStickRollPitchControlMode::Unknown(value),
{
}

/// The virtual stick yaw control mode of each wire code, as the log format numbers them.
pub proof fn lemma_virtual_stick_yaw_control_mode_codes(value: u8)
    ensures
        VirtualStickYawControlMode::spec_from_code(0) == VirtualStickYawControlMode::Angle,
        VirtualStickYawControlMode::spec_from_code(1) == VirtualStickYawControlMode::Velocity,
        !(value == 0 || value == 1) ==> VirtualStickYawControlMode::spec_from_code(value) == VirtualStickYawControlMode::Unknown(value),
{
}

/// The virtual stick flight coordinate system of each wire code, as the log format numbers them.
pub proof fn lemma_virtual_stick_flight_coordinate_system_codes(value: u8)
    ensures
        VirtualStickFlightCoordinateSystem::spec_from_code(0) == VirtualStickFlightCoordinateSystem::Ground,
        VirtualStickFlightCoordinateSystem::spec_from_code(1) == VirtualStickFlightCoordinateSystem::Body,
        !(value == 0 || value == 1) ==> VirtualStickFlightCoordinateSystem::spec_from_code(value) == VirtualStickFlightCoordinateSystem::Unknown(value),
{
}

} // verus!
