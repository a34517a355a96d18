//! The smart battery group record (type 22).
use vstd::prelude::*;
use crate::decoder::lemma_payload_prefix_prefixes;
use crate::wire::{le_bytes, le_signed16, le_signed32, lemma_le_16, lemma_le_32, lemma_le_64};

use crate::utils::{le_u16, le_u32, le_u64, as_i16, as_i32, read_u16_le, read_u32_le, read_u64_le, to_i16, to_i32, slice_range};

use crate::decoder::{payload_prefix, payload_read, payload_wf, Payload, PayloadView};

verus! {

/// Fixed facts of one battery.
#[derive(Debug, Clone, Copy, PartialEq, Eq, Structural)]
pub struct SmartBatteryStatic {
    pub index: u8,
    pub designed_capacity: u32,
    pub loop_times: u16,
    pub full_voltage: u32,
    pub serial_number: u16,
    /// The eight version bytes, packed little-endian (byte 0 lowest).
    pub version_number: u64,
    pub battery_life: u8,
    pub battery_type: u8,
}

impl SmartBatteryStatic {
    /// Number of payload bytes the record reads.
    pub open spec fn spec_size() -> nat {
        40
    }

    /// The record that the payload bytes `b` hold.
    pub open spec fn spec_parse(b: Seq<u8>) -> SmartBatteryStatic {
        SmartBatteryStatic {
            index: b[0],
            designed_capacity: le_u32(b, 1),
            loop_times: le_u16(b, 5),
            full_voltage: le_u32(b, 7),
            serial_number: le_u16(b, 13),
            version_number: le_u64(b, 30),
            battery_life: b[38],
            battery_type: b[39],
        }
    }

    /// Number of payload bytes the record reads.
    pub fn size() -> (r: usize)
        ensures
            r == SmartBatteryStatic::spec_size(),
    {
        40
    }

    /// Reads the record from its decoded payload bytes.
    pub fn parse(b: &[u8]) -> (r: SmartBatteryStatic)
        requires
            b@.len() >= SmartBatteryStatic::spec_size(),
        ensures
            r == SmartBatteryStatic::spec_parse(b@),
    {
        let index_value = b[0];
        let designed_capacity_value = read_u32_le(b, 1);
        let loop_times_value = read_u16_le(b, 5);
        let full_voltage_value = read_u32_le(b, 7);
        let serial_number_value = read_u16_le(b, 13);
        let version_number_value = read_u64_le(b, 30);
        let battery_life_value = b[38];
        let battery_type_value = b[39];
        SmartBatteryStatic {
            index: index_value,
            designed_capacity: designed_capacity_value,
            loop_times: loop_times_value,
            full_voltage: full_voltage_value,
            serial_number: serial_number_value,
            version_number: version_number_value,
            battery_life: battery_life_value,
            battery_type: battery_type_value,
        }
    }
}

/// Measurements of one battery.
#[derive(Debug, Clone, Copy, PartialEq, Eq, Structural)]
pub struct SmartBatteryDynamic {
    pub index: u8,
    /// Millivolts.
    pub current_voltage: i32,
    /// Milliamperes, signed as stored.
    pub current_current: i32,
    /// mAh.
    pub full_capacity: u32,
    /// mAh.
    pub remained_capacity: u32,
    /// Tenths of a degree Celsius.
    pub temperature: i16,
    pub cell_count: u8,
    pub capacity_percent: u8,
    pub battery_state: u64,
}

impl SmartBatteryDynamic {
    /// Number of payload bytes the record reads.
    pub open spec fn spec_size() -> nat {
        29
    }

    /// The record that the payload bytes `b` hold.
    pub open spec fn spec_parse(b: Seq<u8>) -> SmartBatteryDynamic {
        SmartBatteryDynamic {
            index: b[0],
            current_voltage: as_i32(le_u32(b, 1)),
            current_current: as_i32(le_u32(b, 5)),
            full_capacity: le_u32(b, 9),
            remained_capacity: le_u32(b, 13),
            temperature: as_i16(le_u16(b, 17)),
            cell_count: b[19],
            capacity_percent: b[20],
            battery_state: le_u64(b, 21),
        }
    }

    /// Number of payload bytes the record reads.
    pub fn size() -> (r: usize)
        ensures
            r == SmartBatteryDynamic::spec_size(),
    {
        29
    }

    /// Reads the record from its decoded payload bytes.
    pub fn parse(b: &[u8]) -> (r: SmartBatteryDynamic)
        requires
            b@.len() >= SmartBatteryDynamic::spec_size(),
        ensures
            r == SmartBatteryDynamic::spec_parse(b@),
    {
        let index_value = b[0];
        let current_voltage_value = to_i32(read_u32_le(b, 1));
        let current_current_value = to_i32(read_u32_le(b, 5));
        let full_capacity_value = read_u32_le(b, 9);
        let remained_capacity_value = read_u32_le(b, 13);
        let temperature_value = to_i16(read_u16_le(b, 17));
        let cell_count_value = b[19];
        let capacity_percent_value = b[20];
        let battery_state_value = read_u64_le(b, 21);
        SmartBatteryDynamic {
            index: index_value,
            current_voltage: current_voltage_value,
            current_current: current_current_value,
            full_capacity: full_capacity_value,
            remained_capacity: remained_capacity_value,
            temperature: temperature_value,
            cell_count: cell_count_value,
            capacity_percent: capacity_percent_value,
            battery_state: battery_state_value,
        }
    }
}

/// Cell voltages of one battery.
#[derive(Debug, Clone)]
pub struct SmartBatterySingleVoltage {
    pub index: u8,
    pub cell_count: u8,
    /// Millivolts, one per cell.
    pub cell_voltages: Vec<u16>,
}

/// A battery group record, tagged by its first byte.
#[derive(Debug, Clone)]
pub enum SmartBatteryGroup {
    SmartBatteryStatic(SmartBatteryStatic),
    SmartBatteryDynamic(SmartBatteryDynamic),
    SmartBatterySingleVoltage(SmartBatterySingleVoltage),
}

/// A battery group record, as values.
pub enum SmartBatteryGroupView {
    SmartBatteryStatic(SmartBatteryStatic),
    SmartBatteryDynamic(SmartBatteryDynamic),
    SmartBatterySingleVoltage { index: u8, cell_count: u8, cell_voltages: Seq<u16> },
}

impl View for SmartBatteryGroup {
    type V = SmartBatteryGroupView;

    open spec fn view(&self) -> SmartBatteryGroupView {
        match self {
            SmartBatteryGroup::SmartBatteryStatic(s) => SmartBatteryGroupView::SmartBatteryStatic(*s),
            SmartBatteryGroup::SmartBatteryDynamic(d) => SmartBatteryGroupView::SmartBatteryDynamic(*d),
            SmartBatteryGroup::SmartBatterySingleVoltage(v) => SmartBatteryGroupView::SmartBatterySingleVoltage {
                index: v.index,
                cell_count: v.cell_count,
                cell_voltages: v.cell_voltages@,
            },
        }
    }
}

/// The 16-bit cell voltages that follow a 3-byte header.
pub open spec fn cell_voltages_of(b: Seq<u8>, count: nat) -> Seq<u16> {
    Seq::new(count, |i: int| le_u16(b, 3 + 2 * i))
}

impl SmartBatteryGroup {
    /// Tag 1: static facts (40 more bytes); tag 2: measurements (29 more
    /// bytes); tag 3: index, cell count and that many 16-bit voltages; any
    /// other tag is not a record. Gives the record and the number of bytes
    /// read.
    pub open spec fn spec_parse_payload(file: Seq<u8>, p: PayloadView) -> Option<(SmartBatteryGroupView, nat)> {
        match payload_prefix(file, p, 1) {
            None => None,
            Some(t) => if t[0] == 1 {
                match payload_prefix(file, p, 41) {
                    Some(b) => Some((SmartBatteryGroupView::SmartBatteryStatic(SmartBatteryStatic::spec_parse(b.subrange(1, 41))), 41)),
                    None => None,
                }
            } else if t[0] == 2 {
                match payload_prefix(file, p, 30) {
                    Some(b) => Some((SmartBatteryGroupView::SmartBatteryDynamic(SmartBatteryDynamic::spec_parse(b.subrange(1, 30))), 30)),
                    None => None,
                }
            } else if t[0] == 3 {
                match payload_prefix(file, p, 3) {
                    None => None,
                    Some(h) => {
                        let n = 3 + 2 * h[2];
                        match payload_prefix(file, p, n as nat) {
                            Some(b) => Some(
                                (
                                    SmartBatteryGroupView::SmartBatterySingleVoltage {
                                        index: h[1],
                                        cell_count: h[2],
                                        cell_voltages: cell_voltages_of(b, h[2] as nat),
                                    },
                                    n as nat,
                                ),
                            ),
                            None => None,
                        }
                    },
                }
            } else {
                None
            },
        }
    }

    /// Reads a battery group record from a record payload.
    pub fn parse_payload(file: &[u8], p: &Payload) -> (r: Option<(SmartBatteryGroup, usize)>)
        requires
            payload_wf(file@, p@),
        ensures
            match SmartBatteryGroup::spec_parse_payload(file@, p@) {
                Some((v, n)) => r matches Some((t, m)) && t@ == v && m == n,
                None => r is None,
            },
    {
        let tag = match payload_read(file, p, 1) {
            Some(t) => t[0],
            None => {
                return None;
            },
        };
        if tag == 1 {
            match payload_read(file, p, 41) {
                Some(b) => {
                    let body = slice_range(b.as_slice(), 1, 41);
                    Some((SmartBatteryGroup::SmartBatteryStatic(SmartBatteryStatic::parse(body.as_slice())), 41))
                },
                None => None,
            }
        } else if tag == 2 {
            match payload_read(file, p, 30) {
                Some(b) => {
                    let body = slice_range(b.as_slice(), 1, 30);
                    Some((SmartBatteryGroup::SmartBatteryDynamic(SmartBatteryDynamic::parse(body.as_slice())), 30))
                },
                None => None,
            }
        } else if tag == 3 {
            let h = match payload_read(file, p, 3) {
                Some(h) => h,
                None => {
                    return None;
                },
            };
            let count = h[2];
            let n = 3 + 2 * count as usize;
            let b = match payload_read(file, p, n) {
                Some(b) => b,
                None => {
                    return None;
                },
            };
            let mut cells: Vec<u16> = Vec::new();
            let mut i: usize = 0;
            while i < count as usize
                invariant
                    i <= count,
                    b@.len() == 3 + 2 * count,
                    cells@ == cell_voltages_of(b@, i as nat),
                decreases count - i,
            {
                cells.push(read_u16_le(b.as_slice(), 3 + 2 * i));
                proof {
                    assert(cells@ =~= cell_voltages_of(b@, (i + 1) as nat));
                }
                i = i + 1;
            }
            Some(
                (
                    SmartBatteryGroup::SmartBatterySingleVoltage(
                        SmartBatterySingleVoltage { index: h[1], cell_count: count, cell_voltages: cells },
                    ),
                    n,
                ),
            )
        } else {
            None
        }
    }
}

/// Where each field of a static battery group record sits in its payload.
pub proof fn lemma_smart_battery_static_layout(b: Seq<u8>)
    requires
        b.len() >= 40,
    ensures
        SmartBatteryStatic::spec_size() == 40,
        ({
            let o = SmartBatteryStatic::spec_parse(b);
            &&& o.index == b[0]
            &&& o.designed_capacity as int == le_bytes(b, 1, 4)
            &&& o.loop_times as int == le_bytes(b, 5, 2)
            &&& o.full_voltage as int == le_bytes(b, 7, 4)
            &&& o.serial_number as int == le_bytes(b, 13, 2)
            &&& o.version_number as int == le_bytes(b, 30, 8)
            &&& o.battery_life == b[38]
            &&& o.battery_type == b[39]
        }),
{
    lemma_le_16(b, 13);
    lemma_le_16(b, 5);
    lemma_le_32(b, 1);
    lemma_le_32(b, 7);
    lemma_le_64(b, 30);
}

/// Where each field of a dynamic battery group record sits in its payload:
/// the index at 0, the signed 32-bit voltage and current at 1 and 5, the
/// full and remaining capacity at 9 and 13, the signed temperature at 17,
/// the cell count at 19 and the charge percent at 20.
pub proof fn lemma_smart_battery_dynamic_layout(b: Seq<u8>)
    requires
        b.len() >= 29,
    ensures
        SmartBatteryDynamic::spec_size() == 29,
        ({
            let o = SmartBatteryDynamic::spec_parse(b);
            &&& o.index == b[0]
            &&& o.current_voltage as int == le_signed32(b, 1)
            &&& o.current_current as int == le_signed32(b, 5)
            &&& o.full_capacity as int == le_bytes(b, 9, 4)
            &&& o.remained_capacity as int == le_bytes(b, 13, 4)
            &&& o.temperature as int == le_signed16(b, 17)
            &&& o.cell_count == b[19]
            &&& o.capacity_percent == b[20]
            &&& o.battery_state as int == le_bytes(b, 21, 8)
        }),
{
    lemma_le_16(b, 17);
    lemma_le_32(b, 1);
    lemma_le_32(b, 13);
    lemma_le_32(b, 5);
    lemma_le_32(b, 9);
    lemma_le_64(b, 21);
}

/// A battery group record is told by its first byte: 1 for the static facts
/// (41 bytes read, the facts from byte 1 on), 2 for the measurements (30
/// bytes read, from byte 1 on), 3 for the cell voltages (the battery index
/// at byte 1, the cell count at byte 2, and that many 16-bit little-endian
/// voltages from byte 3 on); any other first byte is no battery group
/// record.
pub proof fn lemma_battery_group_tags(file: Seq<u8>, p: PayloadView)
    requires
        payload_wf(file, p),
    ensures
        payload_prefix(file, p, 41) matches Some(b) ==> b[0] == 1 ==> SmartBatteryGroup::spec_parse_payload(
            file,
            p,
        ) == Some(
            (SmartBatteryGroupView::SmartBatteryStatic(SmartBatteryStatic::spec_parse(b.subrange(1, 41))), 41nat),
        ),
        payload_prefix(file, p, 30) matches Some(b) ==> b[0] == 2 ==> SmartBatteryGroup::spec_parse_payload(
            file,
            p,
        ) == Some(
            (
                SmartBatteryGroupView::SmartBatteryDynamic(SmartBatteryDynamic::spec_parse(b.subrange(1, 30))),
                30nat,
            ),
        ),
        payload_prefix(file, p, 1) matches Some(t) ==> (t[0] != 1 && t[0] != 2 && t[0] != 3)
            ==> SmartBatteryGroup::spec_parse_payload(file, p) is None,
        SmartBatteryGroup::spec_parse_payload(file, p) matches Some(
            (SmartBatteryGroupView::SmartBatterySingleVoltage { index, cell_count, cell_voltages }, n),
        ) ==> payload_prefix(file, p, n) matches Some(b) && {
            &&& b[0] == 3 && index == b[1] && cell_count == b[2]
            &&& n == 3 + 2 * b[2] as int
            &&& cell_voltages.len() == cell_count
            &&& forall|i: int| 0 <= i < cell_count ==> #[trigger] cell_voltages[i] as int == le_bytes(
                b,
                3 + 2 * i,
                2,
            )
        },
{
    lemma_payload_prefix_prefixes(file, p, 41, 1);
    lemma_payload_prefix_prefixes(file, p, 30, 1);
    if let Some((SmartBatteryGroupView::SmartBatterySingleVoltage { index, cell_count, cell_voltages }, n)) = SmartBatteryGroup::spec_parse_payload(file, p) {
        let b = payload_prefix(file, p, n)->0;
        lemma_payload_prefix_prefixes(file, p, n, n);
        lemma_payload_prefix_prefixes(file, p, n, 3);
        lemma_payload_prefix_prefixes(file, p, n, 1);
        assert forall|i: int| 0 <= i < cell_count implies #[trigger] cell_voltages[i] as int == le_bytes(
            b,
            3 + 2 * i,
            2,
        ) by {
            lemma_le_16(b, 3 + 2 * i);
        }
    }
}

} // verus!
