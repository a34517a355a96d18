//! The remote controller display record (type 62).
use vstd::prelude::*;
use crate::wire::{le_bytes, lemma_le_16};

use crate::utils::{le_u16, read_u16_le};

verus! {

/// Stick positions shown by the remote controller.
#[derive(Debug, Clone, Copy, PartialEq, Eq, Structural)]
pub struct RCDisplayField {
    /// Right stick, horizontal.
    pub aileron: u16,
    /// Right stick, vertical.
    pub elevator: u16,
    /// Left stick, vertical.
    pub throttle: u16,
    /// Left stick, horizontal.
    pub rudder: u16,
    pub gimbal: u16,
}

impl RCDisplayField {
    /// Number of payload bytes the record reads.
    pub open spec fn spec_size() -> nat {
        17
    }

    /// The record that the payload bytes `b` hold.
    pub open spec fn spec_parse(b: Seq<u8>) -> RCDisplayField {
        RCDisplayField {
            aileron: le_u16(b, 7),
            elevator: le_u16(b, 9),
            throttle: le_u16(b, 11),
            rudder: le_u16(b, 13),
            gimbal: le_u16(b, 15),
        }
    }

    /// Number of payload bytes the record reads.
    pub fn size() -> (r: usize)
        ensures
            r == RCDisplayField::spec_size(),
    {
        17
    }

    /// Reads the record from its decoded payload bytes.
    pub fn parse(b: &[u8]) -> (r: RCDisplayField)
        requires
            b@.len() >= RCDisplayField::spec_size(),
        ensures
            r == RCDisplayField::spec_parse(b@),
    {
        let aileron_value = read_u16_le(b, 7);
        let elevator_value = read_u16_le(b, 9);
        let throttle_value = read_u16_le(b, 11);
        let rudder_value = read_u16_le(b, 13);
        let gimbal_value = read_u16_le(b, 15);
        RCDisplayField {
            aileron: aileron_value,
            elevator: elevator_value,
            throttle: throttle_value,
            rudder: rudder_value,
            gimbal: gimbal_value,
        }
    }
}

/// Where each stick of a remote controller display record sits in its
/// payload: the 16-bit little-endian values at 7, 9, 11, 13 and 15.
pub proof fn lemma_rc_display_field_layout(b: Seq<u8>)
    requires
        b.len() >= 17,
    ensures
        RCDisplayField::spec_size() == 17,
        ({
            let o = RCDisplayField::spec_parse(b);
            &&& o.aileron as int == le_bytes(b, 7, 2)
            &&& o.elevator as int == le_bytes(b, 9, 2)
            &&& o.throttle as int == le_bytes(b, 11, 2)
            &&& o.rudder as int == le_bytes(b, 13, 2)
            &&& o.gimbal as int == le_bytes(b, 15, 2)
        }),
{
    lemma_le_16(b, 11);
    lemma_le_16(b, 13);
    lemma_le_16(b, 15);
    lemma_le_16(b, 7);
    lemma_le_16(b, 9);
}

} // verus!
