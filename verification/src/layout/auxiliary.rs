//! The auxiliary blocks that follow the prefix of version 13 and later logs.
use vstd::prelude::*;

use crate::decoder::{payload_prefix, xor_key, PayloadView, XorDecoder};
use crate::utils::{le_u16, read_u16_le, slice_range};

verus! {

/// The DJI department (application family) that wrote the log.
#[derive(Debug, Clone, Copy, PartialEq, Eq, Structural)]
pub enum Department {
    SDK,
    DJIGO,
    DJIFly,
    AgriculturalMachinery,
    Terra,
    DJIGlasses,
    DJIPilot,
    GSPro,
    Unknown(u8),
}

impl Department {
    /// The variant that the wire value `value` stands for.
    pub open spec fn spec_from_code(value: u8) -> Department {
        match value {
            1 => Department::SDK,
            2 => Department::DJIGO,
            3 => Department::DJIFly,
            4 => Department::AgriculturalMachinery,
            5 => Department::Terra,
            6 => Department::DJIGlasses,
            7 => Department::DJIPilot,
            8 => Department::GSPro,
            _ => Department::Unknown(value),
        }
    }

    /// Maps a wire value to its variant.
    pub fn from_code(value: u8) -> (r: Department)
        ensures
            r == Department::spec_from_code(value),
    {
        match value {
            1 => Department::SDK,
            2 => Department::DJIGO,
            3 => Department::DJIFly,
            4 => Department::AgriculturalMachinery,
            5 => Department::Terra,
            6 => Department::DJIGlasses,
            7 => Department::DJIPilot,
            8 => Department::GSPro,
            _ => Department::Unknown(value),
        }
    }
}

impl From<u8> for Department {
    fn from(value: u8) -> (r: Department)
        ensures
            r == Department::spec_from_code(value),
    {
        Department::from_code(value)
    }
}

impl vstd::std_specs::convert::FromSpecImpl<u8> for Department {
    open spec fn obeys_from_spec() -> bool {
        true
    }

    open spec fn from_spec(value: u8) -> Department {
        Department::spec_from_code(value)
    }
}

impl Department {
    /// The wire value of a department.
    pub open spec fn spec_code(self) -> u8 {
        match self {
            Department::SDK => 1,
            Department::DJIGO => 2,
            Department::DJIFly => 3,
            Department::AgriculturalMachinery => 4,
            Department::Terra => 5,
            Department::DJIGlasses => 6,
            Department::DJIPilot => 7,
            Department::GSPro => 8,
            Department::Unknown(num) => num,
        }
    }

    /// A department whose `Unknown` payload is not the code of a named
    /// department; `Department::from` only makes such values.
    pub open spec fn is_canonical(self) -> bool {
        match self {
            Department::Unknown(num) => !(1 <= num <= 8),
            _ => true,
        }
    }
}

impl From<Department> for u8 {
    fn from(department: Department) -> (r: u8)
        ensures
            r == department.spec_code(),
    {
        match department {
            Department::SDK => 1,
            Department::DJIGO => 2,
            Department::DJIFly => 3,
            Department::AgriculturalMachinery => 4,
            Department::Terra => 5,
            Department::DJIGlasses => 6,
            Department::DJIPilot => 7,
            Department::GSPro => 8,
            Department::Unknown(num) => num,
        }
    }
}

impl vstd::std_specs::convert::FromSpecImpl<Department> for u8 {
    open spec fn obeys_from_spec() -> bool {
        true
    }

    open spec fn from_spec(department: Department) -> u8 {
        department.spec_code()
    }
}

/// Reading a code as a department and writing it back gives the code.
pub proof fn lemma_department_code_round_trip(num: u8)
    ensures
        Department::spec_from_code(num).spec_code() == num,
        Department::spec_from_code(num).is_canonical(),
{
}

/// Writing a canonical department as a code and reading it back gives the
/// department.
pub proof fn lemma_department_value_round_trip(department: Department)
    requires
        department.is_canonical(),
    ensures
        Department::spec_from_code(department.spec_code()) == department,
{
}


/// The wire code of each department: SDK 1, DJI GO 2, DJI Fly 3,
/// agricultural machinery 4, Terra 5, DJI Glasses 6, DJI Pilot 7, GS Pro 8;
/// any other code is an unknown department that keeps its code.
pub proof fn lemma_department_codes(num: u8)
    ensures
        Department::SDK.spec_code() == 1,
        Department::spec_from_code(1) == Department::SDK,
        Department::DJIGO.spec_code() == 2,
        Department::spec_from_code(2) == Department::DJIGO,
        Department::DJIFly.spec_code() == 3,
        Department::spec_from_code(3) == Department::DJIFly,
        Department::AgriculturalMachinery.spec_code() == 4,
        Department::spec_from_code(4) == Department::AgriculturalMachinery,
        Department::Terra.spec_code() == 5,
        Department::spec_from_code(5) == Department::Terra,
        Department::DJIGlasses.spec_code() == 6,
        Department::spec_from_code(6) == Department::DJIGlasses,
        Department::DJIPilot.spec_code() == 7,
        Department::spec_from_code(7) == Department::DJIPilot,
        Department::GSPro.spec_code() == 8,
        Department::spec_from_code(8) == Department::GSPro,
        !(1 <= num <= 8) ==> Department::spec_from_code(num) == Department::Unknown(num),
        Department::Unknown(num).spec_code() == num,
{
}


/// The first auxiliary block: the details block (encrypted) and a
/// signature.
#[derive(Debug)]
pub struct AuxiliaryInfo {
    pub version_data: u8,
    pub info_data: Vec<u8>,
    pub signature_data: Vec<u8>,
}

/// The second auxiliary block: the version and department that the
/// keychain service expects.
#[derive(Debug, Clone, Copy)]
pub struct AuxiliaryVersion {
    pub version: u16,
    pub department: Department,
}

/// An auxiliary block: a magic byte (0 or 1), a 16-bit little-endian size,
/// and the block body, padded to that size.
#[derive(Debug)]
pub enum Auxiliary {
    Info(AuxiliaryInfo),
    Version(AuxiliaryVersion),
}

/// An auxiliary block, as values.
pub enum AuxiliaryView {
    Info { version_data: u8, info_data: Seq<u8>, signature_data: Seq<u8> },
    Version { version: u16, department: Department },
}

impl View for Auxiliary {
    type V = AuxiliaryView;

    open spec fn view(&self) -> AuxiliaryView {
        match self {
            Auxiliary::Info(i) => AuxiliaryView::Info {
                version_data: i.version_data,
                info_data: i.info_data@,
                signature_data: i.signature_data@,
            },
            Auxiliary::Version(v) => AuxiliaryView::Version {
                version: v.version,
                department: v.department,
            },
        }
    }
}

/// The XOR stream of an info block whose body starts at `start`: the body's
/// first byte seeds the key (record type 0), the masked bytes follow it.
pub open spec fn info_stream(b: Seq<u8>, start: int) -> PayloadView {
    PayloadView::Xor { start: start + 1, key: xor_key(b[start], 0) }
}

/// The larger of two positions.
pub open spec fn max_pos(a: int, b: int) -> int {
    if a >= b { a } else { b }
}

/// The info block whose body starts at `start` and spans `size` bytes, and
/// the position after it: a version byte, a 16-bit length and that many
/// info bytes, then a 16-bit length and that many signature bytes, all
/// masked. `None` where the stream ends first.
pub open spec fn spec_read_info(b: Seq<u8>, start: int, size: int) -> Option<(AuxiliaryView, int)> {
    if start >= b.len() {
        None
    } else {
        let xs = info_stream(b, start);
        match payload_prefix(b, xs, 3) {
            None => None,
            Some(h) => {
                let l = le_u16(h, 1) as int;
                match payload_prefix(b, xs, (5 + l) as nat) {
                    None => None,
                    Some(h2) => {
                        let sl = le_u16(h2, 3 + l) as int;
                        match payload_prefix(b, xs, (5 + l + sl) as nat) {
                            None => None,
                            Some(all) => Some(
                                (
                                    AuxiliaryView::Info {
                                        version_data: all[0],
                                        info_data: all.subrange(3, 3 + l),
                                        signature_data: all.subrange(5 + l, 5 + l + sl),
                                    },
                                    max_pos(start + size, start + 6 + l + sl),
                                ),
                            ),
                        }
                    },
                }
            },
        }
    }
}

/// The auxiliary block at `at` and the position after it; `None` where the
/// magic byte is neither 0 nor 1, where the bytes end before the block, or
/// where the end position lies beyond the address space.
pub open spec fn spec_read_auxiliary(b: Seq<u8>, at: int) -> Option<(AuxiliaryView, int)> {
    if at < 0 || at + 3 > b.len() {
        None
    } else {
        let size = le_u16(b, at + 1) as int;
        let start = at + 3;
        let r = if b[at] == 0 {
            spec_read_info(b, start, size)
        } else if b[at] == 1 {
            if start + 3 <= b.len() {
                Some(
                    (
                        AuxiliaryView::Version {
                            version: le_u16(b, start),
                            department: Department::spec_from_code(b[start + 2]),
                        },
                        max_pos(start + size, start + 3),
                    ),
                )
            } else {
                None
            }
        } else {
            None
        };
        match r {
            Some((v, e)) => if e <= usize::MAX {
                Some((v, e))
            } else {
                None
            },
            None => None,
        }
    }
}

/// The larger of two positions, `None` where `a + size` overflows.
fn end_of_block(start: usize, size: u16, consumed: usize) -> (r: Option<usize>)
    ensures
        match r {
            Some(e) => e == max_pos(start + size, consumed as int),
            None => start + size > usize::MAX,
        },
{
    match start.checked_add(size as usize) {
        Some(e) => if e >= consumed {
            Some(e)
        } else {
            Some(consumed)
        },
        None => None,
    }
}

/// Reads the auxiliary block at `at` (see `spec_read_auxiliary`).
pub fn read_auxiliary(b: &[u8], at: usize) -> (r: Option<(Auxiliary, usize)>)
    ensures
        match spec_read_auxiliary(b@, at as int) {
            Some((v, e)) => r matches Some((a, f)) && a@ == v && f == e,
            None => r is None,
        },
{
    assert(b@.len() == b.len());
    if at > b.len() || b.len() - at < 3 {
        return None;
    }
    let size = read_u16_le(b, at + 1);
    let start = at + 3;
    if b[at] == 0 {
        if start >= b.len() {
            return None;
        }
        let xs = XorDecoder::new(b, start, 0);
        let head = match xs.read(b, 3) {
            Some(h) => h,
            None => {
                return None;
            },
        };
        let l = read_u16_le(head.as_slice(), 1) as usize;
        let head2 = match xs.read(b, 5 + l) {
            Some(h) => h,
            None => {
                return None;
            },
        };
        let sl = read_u16_le(head2.as_slice(), 3 + l) as usize;
        let all = match xs.read(b, 5 + l + sl) {
            Some(h) => h,
            None => {
                return None;
            },
        };
        let info = AuxiliaryInfo {
            version_data: all[0],
            info_data: slice_range(all.as_slice(), 3, 3 + l),
            signature_data: slice_range(all.as_slice(), 5 + l, 5 + l + sl),
        };
        match end_of_block(start, size, start + 6 + l + sl) {
            Some(e) => Some((Auxiliary::Info(info), e)),
            None => None,
        }
    } else if b[at] == 1 {
        if b.len() - start < 3 {
            return None;
        }
        let v = AuxiliaryVersion {
            version: read_u16_le(b, start),
            department: Department::from_code(b[start + 2]),
        };
        match end_of_block(start, size, start + 3) {
            Some(e) => Some((Auxiliary::Version(v), e)),
            None => None,
        }
    } else {
        None
    }
}

} // verus!
