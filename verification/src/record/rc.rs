//! The remote controller record (type 4).
use vstd::prelude::*;
use crate::wire::{le_bytes, lemma_le_16, lemma_sub_byte_fields};

use crate::utils::{le_u16, spec_sub_byte_field, read_u16_le, sub_byte_field};

use crate::layout::details::ProductType;

verus! {

/// Position of the flight mode switch of the remote controller.
#[derive(Debug, Clone, Copy, PartialEq, Eq, Structural)]
pub enum FlightModeSwitch {
    /// Position One. For all products except Mavic Pro, this is the left most position
    /// of the flight mode switch on a remote controller from the perspective of the
    /// pilot. For example, on a Phantom 4 remote controller,  Position One is labeled
    /// "A". For Mavic Pro, Spark and Mavic Air, this is  the position that is furthest
    /// away from the pilot and labeled "Sport".
    One,
    /// Position Two. For all products except Mavic Pro, this is the middle position of
    /// the flight mode switch on a remote controller from the perspective of the pilot.
    /// For example, on a Phantom 4 remote controller, Position Two is labeled "S". For
    /// Mavic Pro, Spark and Mavic Air, this is the position that is closest  to the
    /// pilot [the P position].
    Two,
    /// Position Three. For all products except Mavic Pro, this is the right most
    /// position of the flight mode switch on a remote controller from the perspective
    /// of the pilot. For example, on a Phantom 4 remote controller, Position Two is
    /// labeled "P". Mavic Pro, Spark or Mavic Air does not have  a third position for
    /// the flight mode switch.
    Three,
    Unknown(u8),
}

impl FlightModeSwitch {
    /// The switch value after the Mavic Pro remapping (0 to 2, 1 to 3, 2 to 1).
    pub open spec fn spec_mapped_value(value: u8, product_type: ProductType) -> u8 {
        if product_type == ProductType::MavicPro {
            match value {
                0 => 2,
                1 => 3,
                2 => 1,
                _ => value,
            }
        } else {
            value
        }
    }

    /// The position that switch value `value` stands for on `product_type`.
    /// The Mavic Pro switch has no third position: the value that would name
    /// it stays unknown.
    pub open spec fn spec_from(value: u8, product_type: ProductType) -> FlightModeSwitch {
        let mapped_value = FlightModeSwitch::spec_mapped_value(value, product_type);
        match mapped_value {
            0 => FlightModeSwitch::One,
            1 => FlightModeSwitch::Two,
            2 => if product_type == ProductType::MavicPro {
                FlightModeSwitch::Unknown(mapped_value)
            } else {
                FlightModeSwitch::Three
            },
            _ => FlightModeSwitch::Unknown(mapped_value),
        }
    }

    /// Maps a switch value to its position; the Mavic Pro numbers its
    /// positions differently and has no third one.
    pub fn from(value: u8, product_type: ProductType) -> (r: Self)
        ensures
            r == FlightModeSwitch::spec_from(value, product_type),
    {
        let mapped_value = match product_type {
            ProductType::MavicPro => match value {
                0 => 2,
                1 => 3,
                2 => 1,
                _ => value,
            },
            _ => value,
        };
        match mapped_value {
            0 => FlightModeSwitch::One,
            1 => FlightModeSwitch::Two,
            2 => match product_type {
                ProductType::MavicPro => FlightModeSwitch::Unknown(mapped_value),
                _ => FlightModeSwitch::Three,
            },
            _ => FlightModeSwitch::Unknown(mapped_value),
        }
    }
}

/// The Mavic Pro switch has no third position: no value reads as `Three`.
pub proof fn lemma_mavic_pro_has_no_third_position(value: u8)
    ensures
        FlightModeSwitch::spec_from(value, ProductType::MavicPro) != FlightModeSwitch::Three,
{
}

/// Stick positions and buttons of the remote controller.
#[derive(Debug, Clone, Copy, PartialEq, Eq, Structural)]
pub struct RC {
    /// Right stick, horizontal.
    pub aileron: u16,
    /// Right stick, vertical.
    pub elevator: u16,
    /// Left stick, vertical.
    pub throttle: u16,
    /// Left stick, horizontal.
    pub rudder: u16,
    pub gimbal: u16,
    pub wheel_btn_down: bool,
    pub wheel_offset: u8,
    pub wheel_polarity: u8,
    pub wheel_change: u8,
    pub transform_btn_reserve: u8,
    pub return_btn: bool,
    pub flight_mode_switch: FlightModeSwitch,
    pub transform_switch: u8,
    pub custom_function_btn4_down: bool,
    pub custom_function_btn3_down: bool,
    pub custom_function_btn2_down: bool,
    pub custom_function_btn1_down: bool,
    pub playback_btn_down: bool,
    pub shutter_btn_down: bool,
    pub record_btn_down: bool,
    /// 0 before format 6.
    pub bandwidth: u8,
    /// 0 before format 7.
    pub gimbal_control_enable: u8,
}

impl RC {
    /// Number of payload bytes the record reads in a log of format `version`.
    pub open spec fn spec_size(version: u8) -> nat {
        if version >= 7 { 15 } else if version >= 6 { 14 } else { 13 }
    }

    /// The record that the payload bytes `b` hold.
    pub open spec fn spec_parse(b: Seq<u8>, version: u8, product_type: ProductType) -> RC {
        RC {
            aileron: le_u16(b, 0),
            elevator: le_u16(b, 2),
            throttle: le_u16(b, 4),
            rudder: le_u16(b, 6),
            gimbal: le_u16(b, 8),
            wheel_btn_down: spec_sub_byte_field(b[10], 0x01) == 1,
            wheel_offset: spec_sub_byte_field(b[10], 0x3E),
            wheel_polarity: spec_sub_byte_field(b[10], 0x40),
            wheel_change: spec_sub_byte_field(b[10], 0x80),
            transform_btn_reserve: spec_sub_byte_field(b[11], 0x07),
            return_btn: spec_sub_byte_field(b[11], 0x08) == 1,
            flight_mode_switch: FlightModeSwitch::spec_from(spec_sub_byte_field(b[11], 0x30), product_type),
            transform_switch: spec_sub_byte_field(b[11], 0xC0),
            custom_function_btn4_down: spec_sub_byte_field(b[12], 0x02) == 1,
            custom_function_btn3_down: spec_sub_byte_field(b[12], 0x04) == 1,
            custom_function_btn2_down: spec_sub_byte_field(b[12], 0x08) == 1,
            custom_function_btn1_down: spec_sub_byte_field(b[12], 0x10) == 1,
            playback_btn_down: spec_sub_byte_field(b[12], 0x20) == 1,
            shutter_btn_down: spec_sub_byte_field(b[12], 0x40) == 1,
            record_btn_down: spec_sub_byte_field(b[12], 0x80) == 1,
            bandwidth: if version >= 6 { b[13] } else { 0 },
            gimbal_control_enable: if version >= 7 { b[14] } else { 0 },
        }
    }

    /// Number of payload bytes the record reads.
    pub fn size(version: u8) -> (r: usize)
        ensures
            r == RC::spec_size(version),
    {
        if version >= 7 { 15 } else if version >= 6 { 14 } else { 13 }
    }

    fn parse_part0(b: &[u8], version: u8, product_type: ProductType) -> (r: (u16, u16, u16, u16, u16, bool, u8, u8, u8, u8, bool, FlightModeSwitch,))
        requires
            b@.len() >= RC::spec_size(version),
        ensures
            r.0 == (le_u16(b@, 0)),
            r.1 == (le_u16(b@, 2)),
            r.2 == (le_u16(b@, 4)),
            r.3 == (le_u16(b@, 6)),
            r.4 == (le_u16(b@, 8)),
            r.5 == (spec_sub_byte_field(b@[10], 0x01) == 1),
            r.6 == (spec_sub_byte_field(b@[10], 0x3E)),
            r.7 == (spec_sub_byte_field(b@[10], 0x40)),
            r.8 == (spec_sub_byte_field(b@[10], 0x80)),
            r.9 == (spec_sub_byte_field(b@[11], 0x07)),
            r.10 == (spec_sub_byte_field(b@[11], 0x08) == 1),
            r.11 == (FlightModeSwitch::spec_from(spec_sub_byte_field(b@[11], 0x30), product_type)),
    {
        let aileron_value = read_u16_le(b, 0);
        let elevator_value = read_u16_le(b, 2);
        let throttle_value = read_u16_le(b, 4);
        let rudder_value = read_u16_le(b, 6);
        let gimbal_value = read_u16_le(b, 8);
        let wheel_btn_down_value = sub_byte_field(b[10], 0x01) == 1;
        let wheel_offset_value = sub_byte_field(b[10], 0x3E);
        let wheel_polarity_value = sub_byte_field(b[10], 0x40);
        let wheel_change_value = sub_byte_field(b[10], 0x80);
        let transform_btn_reserve_value = sub_byte_field(b[11], 0x07);
        let return_btn_value = sub_byte_field(b[11], 0x08) == 1;
        let flight_mode_switch_value = FlightModeSwitch::from(sub_byte_field(b[11], 0x30), product_type);
        (aileron_value, elevator_value, throttle_value, rudder_value, gimbal_value, wheel_btn_down_value, wheel_offset_value, wheel_polarity_value, wheel_change_value, transform_btn_reserve_value, return_btn_value, flight_mode_switch_value,)
    }

    fn parse_part1(b: &[u8], version: u8, product_type: ProductType) -> (r: (u8, bool, bool, bool, bool, bool, bool, bool, u8, u8,))
        requires
            b@.len() >= RC::spec_size(version),
        ensures
            r.0 == (spec_sub_byte_field(b@[11], 0xC0)),
            r.1 == (spec_sub_byte_field(b@[12], 0x02) == 1),
            r.2 == (spec_sub_byte_field(b@[12], 0x04) == 1),
            r.3 == (spec_sub_byte_field(b@[12], 0x08) == 1),
            r.4 == (spec_sub_byte_field(b@[12], 0x10) == 1),
            r.5 == (spec_sub_byte_field(b@[12], 0x20) == 1),
            r.6 == (spec_sub_byte_field(b@[12], 0x40) == 1),
            r.7 == (spec_sub_byte_field(b@[12], 0x80) == 1),
            r.8 == (if version >= 6 { b@[13] } else { 0 }),
            r.9 == (if version >= 7 { b@[14] } else { 0 }),
    {
        let transform_switch_value = sub_byte_field(b[11], 0xC0);
        let custom_function_btn4_down_value = sub_byte_field(b[12], 0x02) == 1;
        let custom_function_btn3_down_value = sub_byte_field(b[12], 0x04) == 1;
        let custom_function_btn2_down_value = sub_byte_field(b[12], 0x08) == 1;
        let custom_function_btn1_down_value = sub_byte_field(b[12], 0x10) == 1;
        let playback_btn_down_value = sub_byte_field(b[12], 0x20) == 1;
        let shutter_btn_down_value = sub_byte_field(b[12], 0x40) == 1;
        let record_btn_down_value = sub_byte_field(b[12], 0x80) == 1;
        let bandwidth_value = if version >= 6 { b[13] } else { 0 };
        let gimbal_control_enable_value = if version >= 7 { b[14] } else { 0 };
        (transform_switch_value, custom_function_btn4_down_value, custom_function_btn3_down_value, custom_function_btn2_down_value, custom_function_btn1_down_value, playback_btn_down_value, shutter_btn_down_value, record_btn_down_value, bandwidth_value, gimbal_control_enable_value,)
    }

    /// Reads the record from its decoded payload bytes.
    pub fn parse(b: &[u8], version: u8, product_type: ProductType) -> (r: RC)
        requires
            b@.len() >= RC::spec_size(version),
        ensures
            r == RC::spec_parse(b@, version, product_type),
    {
        let part0 = RC::parse_part0(b, version, product_type);
        let part1 = RC::parse_part1(b, version, product_type);
        RC {
            aileron: part0.0,
            elevator: part0.1,
            throttle: part0.2,
            rudder: part0.3,
            gimbal: part0.4,
            wheel_btn_down: part0.5,
            wheel_offset: part0.6,
            wheel_polarity: part0.7,
            wheel_change: part0.8,
            transform_btn_reserve: part0.9,
            return_btn: part0.10,
            flight_mode_switch: part0.11,
            transform_switch: part1.0,
            custom_function_btn4_down: part1.1,
            custom_function_btn3_down: part1.2,
            custom_function_btn2_down: part1.3,
            custom_function_btn1_down: part1.4,
            playback_btn_down: part1.5,
            shutter_btn_down: part1.6,
            record_btn_down: part1.7,
            bandwidth: part1.8,
            gimbal_control_enable: part1.9,
        }
    }
}

/// Where each field of a remote controller record sits in its payload: the
/// aileron, elevator, throttle, rudder and gimbal sticks are the 16-bit
/// little-endian values at 0, 2, 4, 6 and 8; bytes 10 to 12 hold the wheel,
/// switches and buttons; from format 6 byte 13 is the bandwidth and from
/// format 7 byte 14 the gimbal control flag.
pub proof fn lemma_rc_layout(b: Seq<u8>, version: u8, product_type: ProductType)
    requires
        b.len() >= 13,
        version >= 6 ==> b.len() >= 14,
        version >= 7 ==> b.len() >= 15,
    ensures
        version >= 7 ==> RC::spec_size(version) == 15,
        version == 6 ==> RC::spec_size(version) == 14,
        version < 6 ==> RC::spec_size(version) == 13,
        ({
            let o = RC::spec_parse(b, version, product_type);
            &&& o.aileron as int == le_bytes(b, 0, 2)
            &&& o.elevator as int == le_bytes(b, 2, 2)
            &&& o.throttle as int == le_bytes(b, 4, 2)
            &&& o.rudder as int == le_bytes(b, 6, 2)
            &&& o.gimbal as int == le_bytes(b, 8, 2)
            &&& o.wheel_btn_down == ((b[10] % 2) == 1)
            &&& o.wheel_offset == ((b[10] / 2) % 32)
            &&& o.wheel_polarity == ((b[10] / 64) % 2)
            &&& o.wheel_change == (b[10] / 128)
            &&& o.transform_btn_reserve == (b[11] % 8)
            &&& o.return_btn == (((b[11] / 8) % 2) == 1)
            &&& o.flight_mode_switch == FlightModeSwitch::spec_from(((b[11] / 16) % 4), product_type)
            &&& o.transform_switch == (b[11] / 64)
            &&& o.custom_function_btn4_down == (((b[12] / 2) % 2) == 1)
            &&& o.custom_function_btn3_down == (((b[12] / 4) % 2) == 1)
            &&& o.custom_function_btn2_down == (((b[12] / 8) % 2) == 1)
            &&& o.custom_function_btn1_down == (((b[12] / 16) % 2) == 1)
            &&& o.playback_btn_down == (((b[12] / 32) % 2) == 1)
            &&& o.shutter_btn_down == (((b[12] / 64) % 2) == 1)
            &&& o.record_btn_down == ((b[12] / 128) == 1)
            &&& version >= 6 ==> o.bandwidth == b[13]
            &&& version < 6 ==> o.bandwidth == 0
            &&& version >= 7 ==> o.gimbal_control_enable == b[14]
            &&& version < 7 ==> o.gimbal_control_enable == 0
        }),
{
    lemma_sub_byte_fields(b[10]);
    lemma_sub_byte_fields(b[11]);
    lemma_sub_byte_fields(b[12]);
    lemma_le_16(b, 0);
    lemma_le_16(b, 2);
    lemma_le_16(b, 4);
    lemma_le_16(b, 6);
    lemma_le_16(b, 8);
}

/// The flight mode switch position of each switch value: 0, 1 and 2 are
/// positions One, Two and Three, any other value is unknown. The Mavic Pro
/// numbers its switch otherwise: its value 2 is position Two, and its values
/// 0 and 1 are the unknown positions 2 and 3, as it has no third position.
pub proof fn lemma_flight_mode_switch_positions(value: u8, product_type: ProductType)
    ensures
        product_type != ProductType::MavicPro ==> {
            &&& FlightModeSwitch::spec_from(0, product_type) == FlightModeSwitch::One
            &&& FlightModeSwitch::spec_from(1, product_type) == FlightModeSwitch::Two
            &&& FlightModeSwitch::spec_from(2, product_type) == FlightModeSwitch::Three
            &&& value > 2 ==> FlightModeSwitch::spec_from(value, product_type)
                == FlightModeSwitch::Unknown(value)
        },
        FlightModeSwitch::spec_from(2, ProductType::MavicPro) == FlightModeSwitch::Two,
        FlightModeSwitch::spec_from(0, ProductType::MavicPro) == FlightModeSwitch::Unknown(2),
        FlightModeSwitch::spec_from(1, ProductType::MavicPro) == FlightModeSwitch::Unknown(3),
        value > 2 ==> FlightModeSwitch::spec_from(value, ProductType::MavicPro)
            == FlightModeSwitch::Unknown(value),
{
}

} // verus!
