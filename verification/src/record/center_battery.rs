//! The central battery record (type 7).
use vstd::prelude::*;
use crate::wire::{le_bytes, le_signed16, lemma_le_16, lemma_le_32, lemma_sub_byte_fields};

use crate::utils::{le_u16, le_u32, as_i16, spec_sub_byte_field, read_u16_le, read_u32_le, to_i16, sub_byte_field};

verus! {

/// State of the aircraft battery.
#[derive(Debug, Clone, Copy, PartialEq, Eq, Structural)]
pub struct CenterBattery {
    pub relative_capacity: u8,
    /// Millivolts.
    pub voltage: u16,
    pub current_capacity: u16,
    pub full_capacity: u16,
    pub life: u8,
    pub number_of_discharges: u16,
    pub error_type: u32,
    /// Milliamperes.
    pub current: i16,
    /// Millivolts.
    pub voltage_cell1: u16,
    /// Millivolts.
    pub voltage_cell2: u16,
    /// Millivolts.
    pub voltage_cell3: u16,
    /// Millivolts.
    pub voltage_cell4: u16,
    /// Millivolts.
    pub voltage_cell5: u16,
    /// Millivolts.
    pub voltage_cell6: u16,
    pub serial_number: u16,
    pub product_date: u16,
    /// Tenths of a kelvin; none before format 8.
    pub temperature: Option<u16>,
    pub connect_state: u8,
    pub sum_learn_count: u16,
    pub latest_learn_cycle: u16,
    pub battery_on_charge: bool,
    pub reverse: u8,
}

impl CenterBattery {
    /// Number of payload bytes the record reads in a log of format `version`.
    pub open spec fn spec_size(version: u8) -> nat {
        if version >= 8 { 40 } else { 32 }
    }

    /// The record that the payload bytes `b` hold.
    pub open spec fn spec_parse(b: Seq<u8>, version: u8) -> CenterBattery {
        CenterBattery {
            relative_capacity: b[0],
            voltage: le_u16(b, 1),
            current_capacity: le_u16(b, 3),
            full_capacity: le_u16(b, 5),
            life: b[7],
            number_of_discharges: le_u16(b, 8),
            error_type: le_u32(b, 10),
            current: as_i16(le_u16(b, 14)),
            voltage_cell1: le_u16(b, 16),
            voltage_cell2: le_u16(b, 18),
            voltage_cell3: le_u16(b, 20),
            voltage_cell4: le_u16(b, 22),
            voltage_cell5: le_u16(b, 24),
            voltage_cell6: le_u16(b, 26),
            serial_number: le_u16(b, 28),
            product_date: le_u16(b, 30),
            temperature: if version >= 8 { Some(le_u16(b, 32)) } else { None },
            connect_state: if version >= 8 { b[34] } else { 0 },
            sum_learn_count: if version >= 8 { le_u16(b, 35) } else { 0 },
            latest_learn_cycle: if version >= 8 { le_u16(b, 37) } else { 0 },
            battery_on_charge: if version >= 8 { spec_sub_byte_field(b[39], 0x01) == 1 } else { false },
            reverse: if version >= 8 { spec_sub_byte_field(b[39], 0xFE) } else { 0 },
        }
    }

    /// Number of payload bytes the record reads.
    pub fn size(version: u8) -> (r: usize)
        ensures
            r == CenterBattery::spec_size(version),
    {
        if version >= 8 { 40 } else { 32 }
    }

    fn parse_part0(b: &[u8], version: u8) -> (r: (u8, u16, u16, u16, u8, u16, u32, i16, u16, u16, u16, u16,))
        requires
            b@.len() >= CenterBattery::spec_size(version),
        ensures
            r.0 == (b@[0]),
            r.1 == (le_u16(b@, 1)),
            r.2 == (le_u16(b@, 3)),
            r.3 == (le_u16(b@, 5)),
            r.4 == (b@[7]),
            r.5 == (le_u16(b@, 8)),
            r.6 == (le_u32(b@, 10)),
            r.7 == (as_i16(le_u16(b@, 14))),
            r.8 == (le_u16(b@, 16)),
            r.9 == (le_u16(b@, 18)),
            r.10 == (le_u16(b@, 20)),
            r.11 == (le_u16(b@, 22)),
    {
        let relative_capacity_value = b[0];
        let voltage_value = read_u16_le(b, 1);
        let current_capacity_value = read_u16_le(b, 3);
        let full_capacity_value = read_u16_le(b, 5);
        let life_value = b[7];
        let number_of_discharges_value = read_u16_le(b, 8);
        let error_type_value = read_u32_le(b, 10);
        let current_value = to_i16(read_u16_le(b, 14));
        let voltage_cell1_value = read_u16_le(b, 16);
        let voltage_cell2_value = read_u16_le(b, 18);
        let voltage_cell3_value = read_u16_le(b, 20);
        let voltage_cell4_value = read_u16_le(b, 22);
        (relative_capacity_value, voltage_value, current_capacity_value, full_capacity_value, life_value, number_of_discharges_value, error_type_value, current_value, voltage_cell1_value, voltage_cell2_value, voltage_cell3_value, voltage_cell4_value,)
    }

    fn parse_part1(b: &[u8], version: u8) -> (r: (u16, u16, u16, u16, Option<u16>, u8, u16, u16, bool, u8,))
        requires
            b@.len() >= CenterBattery::spec_size(version),
        ensures
            r.0 == (le_u16(b@, 24)),
            r.1 == (le_u16(b@, 26)),
            r.2 == (le_u16(b@, 28)),
            r.3 == (le_u16(b@, 30)),
            r.4 == (if version >= 8 { Some(le_u16(b@, 32)) } else { None }),
            r.5 == (if version >= 8 { b@[34] } else { 0 }),
            r.6 == (if version >= 8 { le_u16(b@, 35) } else { 0 }),
            r.7 == (if version >= 8 { le_u16(b@, 37) } else { 0 }),
            r.8 == (if version >= 8 { spec_sub_byte_field(b@[39], 0x01) == 1 } else { false }),
            r.9 == (if version >= 8 { spec_sub_byte_field(b@[39], 0xFE) } else { 0 }),
    {
        let voltage_cell5_value = read_u16_le(b, 24);
        let voltage_cell6_value = read_u16_le(b, 26);
        let serial_number_value = read_u16_le(b, 28);
        let product_date_value = read_u16_le(b, 30);
        let temperature_value = if version >= 8 { Some(read_u16_le(b, 32)) } else { None };
        let connect_state_value = if version >= 8 { b[34] } else { 0 };
        let sum_learn_count_value = if version >= 8 { read_u16_le(b, 35) } else { 0 };
        let latest_learn_cycle_value = if version >= 8 { read_u16_le(b, 37) } else { 0 };
        let battery_on_charge_value = if version >= 8 { sub_byte_field(b[39], 0x01) == 1 } else { false };
        let reverse_value = if version >= 8 { sub_byte_field(b[39], 0xFE) } else { 0 };
        (voltage_cell5_value, voltage_cell6_value, serial_number_value, product_date_value, temperature_value, connect_state_value, sum_learn_count_value, latest_learn_cycle_value, battery_on_charge_value, reverse_value,)
    }

    /// Reads the record from its decoded payload bytes.
    pub fn parse(b: &[u8], version: u8) -> (r: CenterBattery)
        requires
            b@.len() >= CenterBattery::spec_size(version),
        ensures
            r == CenterBattery::spec_parse(b@, version),
    {
        let part0 = CenterBattery::parse_part0(b, version);
        let part1 = CenterBattery::parse_part1(b, version);
        CenterBattery {
            relative_capacity: part0.0,
            voltage: part0.1,
            current_capacity: part0.2,
            full_capacity: part0.3,
            life: part0.4,
            number_of_discharges: part0.5,
            error_type: part0.6,
            current: part0.7,
            voltage_cell1: part0.8,
            voltage_cell2: part0.9,
            voltage_cell3: part0.10,
            voltage_cell4: part0.11,
            voltage_cell5: part1.0,
            voltage_cell6: part1.1,
            serial_number: part1.2,
            product_date: part1.3,
            temperature: part1.4,
            connect_state: part1.5,
            sum_learn_count: part1.6,
            latest_learn_cycle: part1.7,
            battery_on_charge: part1.8,
            reverse: part1.9,
        }
    }
}

/// Where each field of a center battery record sits in its payload: byte 0
/// the relative capacity, 1-2 the voltage, 3-4 the current capacity, 5-6
/// the full capacity, 7 the life, then counters, the signed current at
/// 14, the six cell voltages from 16 on, and from format 8 the temperature,
/// connection state, learning counters and charge flags.
pub proof fn lemma_center_battery_layout(b: Seq<u8>, version: u8)
    requires
        b.len() >= 32,
        version >= 8 ==> b.len() >= 40,
    ensures
        version >= 8 ==> CenterBattery::spec_size(version) == 40,
        version < 8 ==> CenterBattery::spec_size(version) == 32,
        ({
            let o = CenterBattery::spec_parse(b, version);
            &&& o.relative_capacity == b[0]
            &&& o.voltage as int == le_bytes(b, 1, 2)
            &&& o.current_capacity as int == le_bytes(b, 3, 2)
            &&& o.full_capacity as int == le_bytes(b, 5, 2)
            &&& o.life == b[7]
            &&& o.number_of_discharges as int == le_bytes(b, 8, 2)
            &&& o.error_type as int == le_bytes(b, 10, 4)
            &&& o.current as int == le_signed16(b, 14)
            &&& o.voltage_cell1 as int == le_bytes(b, 16, 2)
            &&& o.voltage_cell2 as int == le_bytes(b, 18, 2)
            &&& o.voltage_cell3 as int == le_bytes(b, 20, 2)
            &&& o.voltage_cell4 as int == le_bytes(b, 22, 2)
            &&& o.voltage_cell5 as int == le_bytes(b, 24, 2)
            &&& o.voltage_cell6 as int == le_bytes(b, 26, 2)
            &&& o.serial_number as int == le_bytes(b, 28, 2)
            &&& o.product_date as int == le_bytes(b, 30, 2)
            &&& version >= 8 ==> o.temperature is Some && o.temperature->0 as int == le_bytes(b, 32, 2)
            &&& version < 8 ==> o.temperature is None
            &&& version >= 8 ==> o.connect_state == b[34]
            &&& version < 8 ==> o.connect_state == 0
            &&& version >= 8 ==> o.sum_learn_count as int == le_bytes(b, 35, 2)
            &&& version < 8 ==> o.sum_learn_count == 0
            &&& version >= 8 ==> o.latest_learn_cycle as int == le_bytes(b, 37, 2)
            &&& version < 8 ==> o.latest_learn_cycle == 0
            &&& version >= 8 ==> o.battery_on_charge == ((b[39] % 2) == 1)
            &&& version < 8 ==> o.battery_on_charge == false
            &&& version >= 8 ==> o.reverse == (b[39] / 2)
            &&& version < 8 ==> o.reverse == 0
        }),
{
    if version >= 8 {
        lemma_sub_byte_fields(b[39]);
    }
    if version >= 8 {
        lemma_le_16(b, 32);
    }
    if version >= 8 {
        lemma_le_16(b, 35);
    }
    if version >= 8 {
        lemma_le_16(b, 37);
    }
    lemma_le_16(b, 1);
    lemma_le_16(b, 14);
    lemma_le_16(b, 16);
    lemma_le_16(b, 18);
    lemma_le_16(b, 20);
    lemma_le_16(b, 22);
    lemma_le_16(b, 24);
    lemma_le_16(b, 26);
    lemma_le_16(b, 28);
    lemma_le_16(b, 3);
    lemma_le_16(b, 30);
    lemma_le_16(b, 5);
    lemma_le_16(b, 8);
    lemma_le_32(b, 10);
}

} // verus!
