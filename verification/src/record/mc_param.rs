//! The flight controller parameters record (type 19).
use vstd::prelude::*;
use crate::wire::{lemma_sub_byte_fields};

use crate::utils::{spec_sub_byte_field, sub_byte_field};

verus! {

#[derive(Debug, Clone, Copy, PartialEq, Eq, Structural)]
pub enum FailSafeProtectionType {
    Hover,
    Landing,
    GoHome,
    Unknown(u8),
}

impl FailSafeProtectionType {
    /// The variant that the wire value `value` stands for.
    pub open spec fn spec_from_code(value: u8) -> FailSafeProtectionType {
        match value {
            0 => FailSafeProtectionType::Hover,
            1 => FailSafeProtectionType::Landing,
            2 => FailSafeProtectionType::GoHome,
            _ => FailSafeProtectionType::Unknown(value),
        }
    }

    /// Maps a wire value to its variant.
    pub fn from(value: u8) -> (r: FailSafeProtectionType)
        ensures
            r == FailSafeProtectionType::spec_from_code(value),
    {
        match value {
            0 => FailSafeProtectionType::Hover,
            1 => FailSafeProtectionType::Landing,
            2 => FailSafeProtectionType::GoHome,
            _ => FailSafeProtectionType::Unknown(value),
        }
    }
}

/// Flight controller safety settings.
#[derive(Debug, Clone, Copy, PartialEq, Eq, Structural)]
pub struct MCParams {
    pub fail_safe_protection: FailSafeProtectionType,
    pub mvo_func_enabled: bool,
    pub avoid_obstacle_enabled: bool,
    pub user_avoid_enabled: bool,
}

impl MCParams {
    /// Number of payload bytes the record reads.
    pub open spec fn spec_size() -> nat {
        2
    }

    /// The record that the payload bytes `b` hold.
    pub open spec fn spec_parse(b: Seq<u8>) -> MCParams {
        MCParams {
            fail_safe_protection: FailSafeProtectionType::spec_from_code(b[0]),
            mvo_func_enabled: spec_sub_byte_field(b[1], 0x01) == 1,
            avoid_obstacle_enabled: spec_sub_byte_field(b[1], 0x02) == 1,
            user_avoid_enabled: spec_sub_byte_field(b[1], 0x04) == 1,
        }
    }

    /// Number of payload bytes the record reads.
    pub fn size() -> (r: usize)
        ensures
            r == MCParams::spec_size(),
    {
        2
    }

    /// Reads the record from its decoded payload bytes.
    pub fn parse(b: &[u8]) -> (r: MCParams)
        requires
            b@.len() >= MCParams::spec_size(),
        ensures
            r == MCParams::spec_parse(b@),
    {
        let fail_safe_protection_value = FailSafeProtectionType::from(b[0]);
        let mvo_func_enabled_value = sub_byte_field(b[1], 0x01) == 1;
        let avoid_obstacle_enabled_value = sub_byte_field(b[1], 0x02) == 1;
        let user_avoid_enabled_value = sub_byte_field(b[1], 0x04) == 1;
        MCParams {
            fail_safe_protection: fail_safe_protection_value,
            mvo_func_enabled: mvo_func_enabled_value,
            avoid_obstacle_enabled: avoid_obstacle_enabled_value,
            user_avoid_enabled: user_avoid_enabled_value,
        }
    }
}

/// Where each field of a flight controller parameters record sits in its
/// payload: byte 0 the fail-safe action, byte 1 three flags.
pub proof fn lemma_mc_params_layout(b: Seq<u8>)
    requires
        b.len() >= 2,
    ensures
        MCParams::spec_size() == 2,
        ({
            let o = MCParams::spec_parse(b);
            &&& o.fail_safe_protection == FailSafeProtectionType::spec_from_code(b[0])
            &&& o.mvo_func_enabled == ((b[1] % 2) == 1)
            &&& o.avoid_obstacle_enabled == (((b[1] / 2) % 2) == 1)
            &&& o.user_avoid_enabled == (((b[1] / 4) % 2) == 1)
        }),
{
    lemma_sub_byte_fields(b[1]);
}

/// The fail-safe action of each wire code: 0 hover, 1 landing, 2 go home.
pub proof fn lemma_fail_safe_protection_codes(value: u8)
    ensures
        FailSafeProtectionType::spec_from_code(0) == FailSafeProtectionType::Hover,
        FailSafeProtectionType::spec_from_code(1) == FailSafeProtectionType::Landing,
        FailSafeProtectionType::spec_from_code(2) == FailSafeProtectionType::GoHome,
        value > 2 ==> FailSafeProtectionType::spec_from_code(value)
            == FailSafeProtectionType::Unknown(value),
{
}

} // verus!
