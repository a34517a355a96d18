//! The landing gear transformation record (type 6).
use vstd::prelude::*;
use crate::wire::{lemma_sub_byte_fields};

use crate::utils::{spec_sub_byte_field, sub_byte_field};

verus! {

#[derive(Debug, Clone, Copy, PartialEq, Eq, Structural)]
pub enum DeformMode {
    Pack,
    Protect,
    Normal,
    Unknown(u8),
}

impl DeformMode {
    /// The variant that the wire value `value` stands for.
    pub open spec fn spec_from_code(value: u8) -> DeformMode {
        match value {
            0 => DeformMode::Pack,
            1 => DeformMode::Protect,
            2 => DeformMode::Normal,
            _ => DeformMode::Unknown(value),
        }
    }

    /// Maps a wire value to its variant.
    pub fn from_code(value: u8) -> (r: DeformMode)
        ensures
            r == DeformMode::spec_from_code(value),
    {
        match value {
            0 => DeformMode::Pack,
            1 => DeformMode::Protect,
            2 => DeformMode::Normal,
            _ => DeformMode::Unknown(value),
        }
    }
}

impl From<u8> for DeformMode {
    fn from(value: u8) -> (r: DeformMode)
        ensures
            r == DeformMode::spec_from_code(value),
    {
        DeformMode::from_code(value)
    }
}

impl vstd::std_specs::convert::FromSpecImpl<u8> for DeformMode {
    open spec fn obeys_from_spec() -> bool {
        true
    }

    open spec fn from_spec(value: u8) -> DeformMode {
        DeformMode::spec_from_code(value)
    }
}

#[derive(Debug, Clone, Copy, PartialEq, Eq, Structural)]
pub enum DeformStatus {
    FoldComplete,
    Folding,
    StretchComplete,
    Stretching,
    StopDeformation,
    Unknown(u8),
}

impl DeformStatus {
    /// The variant that the wire value `value` stands for.
    pub open spec fn spec_from_code(value: u8) -> DeformStatus {
        match value {
            1 => DeformStatus::FoldComplete,
            2 => DeformStatus::Folding,
            3 => DeformStatus::StretchComplete,
            4 => DeformStatus::Stretching,
            5 => DeformStatus::StopDeformation,
            _ => DeformStatus::Unknown(value),
        }
    }

    /// Maps a wire value to its variant.
    pub fn from_code(value: u8) -> (r: DeformStatus)
        ensures
            r == DeformStatus::spec_from_code(value),
    {
        match value {
            1 => DeformStatus::FoldComplete,
            2 => DeformStatus::Folding,
            3 => DeformStatus::StretchComplete,
            4 => DeformStatus::Stretching,
            5 => DeformStatus::StopDeformation,
            _ => DeformStatus::Unknown(value),
        }
    }
}

impl From<u8> for DeformStatus {
    fn from(value: u8) -> (r: DeformStatus)
        ensures
            r == DeformStatus::spec_from_code(value),
    {
        DeformStatus::from_code(value)
    }
}

impl vstd::std_specs::convert::FromSpecImpl<u8> for DeformStatus {
    open spec fn obeys_from_spec() -> bool {
        true
    }

    open spec fn from_spec(value: u8) -> DeformStatus {
        DeformStatus::spec_from_code(value)
    }
}

/// State of the transforming landing gear.
#[derive(Debug, Clone, Copy, PartialEq, Eq, Structural)]
pub struct Deform {
    pub is_deform_protected: bool,
    pub deform_status: DeformStatus,
    pub deform_mode: DeformMode,
}

impl Deform {
    /// Number of payload bytes the record reads.
    pub open spec fn spec_size() -> nat {
        1
    }

    /// The record that the payload bytes `b` hold.
    pub open spec fn spec_parse(b: Seq<u8>) -> Deform {
        Deform {
            is_deform_protected: spec_sub_byte_field(b[0], 0x01) == 1,
            deform_status: DeformStatus::spec_from_code(spec_sub_byte_field(b[0], 0x0E)),
            deform_mode: DeformMode::spec_from_code(spec_sub_byte_field(b[0], 0x30)),
        }
    }

    /// Number of payload bytes the record reads.
    pub fn size() -> (r: usize)
        ensures
            r == Deform::spec_size(),
    {
        1
    }

    /// Reads the record from its decoded payload bytes.
    pub fn parse(b: &[u8]) -> (r: Deform)
        requires
            b@.len() >= Deform::spec_size(),
        ensures
            r == Deform::spec_parse(b@),
    {
        let is_deform_protected_value = sub_byte_field(b[0], 0x01) == 1;
        let deform_status_value = DeformStatus::from_code(sub_byte_field(b[0], 0x0E));
        let deform_mode_value = DeformMode::from_code(sub_byte_field(b[0], 0x30));
        Deform {
            is_deform_protected: is_deform_protected_value,
            deform_status: deform_status_value,
            deform_mode: deform_mode_value,
        }
    }
}

/// Where each field of a deform record sits in its one payload byte: bit 0
/// the protection flag, bits 1-3 the status and bits 4-5 the mode.
pub proof fn lemma_deform_layout(b: Seq<u8>)
    requires
        b.len() >= 1,
    ensures
        Deform::spec_size() == 1,
        ({
            let o = Deform::spec_parse(b);
            &&& o.is_deform_protected == ((b[0] % 2) == 1)
            &&& o.deform_status == DeformStatus::spec_from_code(((b[0] / 2) % 8))
            &&& o.deform_mode == DeformMode::spec_from_code(((b[0] / 16) % 4))
        }),
{
    lemma_sub_byte_fields(b[0]);
}

/// The deform mode of each wire code, as the log format numbers them.
pub proof fn lemma_deform_mode_codes(value: u8)
    ensures
        DeformMode::spec_from_code(0) == DeformMode::Pack,
        DeformMode::spec_from_code(1) == DeformMode::Protect,
        DeformMode::spec_from_code(2) == DeformMode::Normal,
        !(value == 0 || value == 1 || value == 2) ==> DeformMode::spec_from_code(value) == DeformMode::Unknown(value),
{
}

/// The deform status of each wire code, as the log format numbers them.
pub proof fn lemma_deform_status_codes(value: u8)
    ensures
        DeformStatus::spec_from_code(1) == DeformStatus::FoldComplete,
        DeformStatus::spec_from_code(2) == DeformStatus::Folding,
        DeformStatus::spec_from_code(3) == DeformStatus::StretchComplete,
        DeformStatus::spec_from_code(4) == DeformStatus::Stretching,
        DeformStatus::spec_from_code(5) == DeformStatus::StopDeformation,
        !(value == 1 || value == 2 || value == 3 || value == 4 || value == 5) ==> DeformStatus::spec_from_code(value) == DeformStatus::Unknown(value),
{
}

} // verus!
