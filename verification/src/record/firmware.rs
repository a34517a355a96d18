//! The firmware version record (type 15).
use vstd::prelude::*;
use crate::utils::decimal;

use crate::decoder::{payload_prefix, payload_read, payload_wf, Payload, PayloadView};
use crate::utils::{dotted_version, format_dotted_version};

verus! {

#[derive(Debug, Clone, Copy, PartialEq, Eq, Structural)]
pub enum SenderType {
    NoSender,
    Camera,
    MC,
    Gimbal,
    RC,
    Battery,
    Unknown(u8),
}

impl SenderType {
    /// The variant that the wire value `value` stands for.
    pub open spec fn spec_from_code(value: u8) -> SenderType {
        match value {
            0 => SenderType::NoSender,
            1 => SenderType::Camera,
            3 => SenderType::MC,
            4 => SenderType::Gimbal,
            6 => SenderType::RC,
            11 => SenderType::Battery,
            _ => SenderType::Unknown(value),
        }
    }

    /// Maps a wire value to its variant.
    pub fn from(value: u8) -> (r: SenderType)
        ensures
            r == SenderType::spec_from_code(value),
    {
        match value {
            0 => SenderType::NoSender,
            1 => SenderType::Camera,
            3 => SenderType::MC,
            4 => SenderType::Gimbal,
            6 => SenderType::RC,
            11 => SenderType::Battery,
            _ => SenderType::Unknown(value),
        }
    }
}


/// Firmware version of one component.
#[derive(Debug, Clone)]
pub struct Firmware {
    pub sender_type: SenderType,
    pub sub_sender_type: u8,
    /// The first three version bytes as `a.b.c`.
    pub version: String,
}

/// A firmware record, as values.
pub struct FirmwareView {
    pub sender_type: SenderType,
    pub sub_sender_type: u8,
    pub version: Seq<char>,
}

impl View for Firmware {
    type V = FirmwareView;

    open spec fn view(&self) -> FirmwareView {
        FirmwareView {
            sender_type: self.sender_type,
            sub_sender_type: self.sub_sender_type,
            version: self.version@,
        }
    }
}

impl Firmware {
    /// Sender byte, sub-sender byte, four version bytes; 6 bytes read.
    pub open spec fn spec_parse_payload(file: Seq<u8>, p: PayloadView) -> Option<(FirmwareView, nat)> {
        match payload_prefix(file, p, 6) {
            Some(b) => Some(
                (
                    FirmwareView {
                        sender_type: SenderType::spec_from_code(b[0]),
                        sub_sender_type: b[1],
                        version: dotted_version(b[2], b[3], b[4]),
                    },
                    6,
                ),
            ),
            None => None,
        }
    }

    /// Reads a firmware record from a record payload.
    pub fn parse_payload(file: &[u8], p: &Payload) -> (r: Option<(Firmware, usize)>)
        requires
            payload_wf(file@, p@),
        ensures
            match Firmware::spec_parse_payload(file@, p@) {
                Some((v, n)) => r matches Some((t, m)) && t@ == v && m == n,
                None => r is None,
            },
    {
        match payload_read(file, p, 6) {
            Some(b) => Some(
                (
                    Firmware {
                        sender_type: SenderType::from(b[0]),
                        sub_sender_type: b[1],
                        version: format_dotted_version(b[2], b[3], b[4]),
                    },
                    6,
                ),
            ),
            None => None,
        }
    }
}

/// The component of each firmware sender code: 0 none, 1 camera, 3 flight
/// controller, 4 gimbal, 6 remote controller, 11 battery.
pub proof fn lemma_sender_type_codes(value: u8)
    ensures
        SenderType::spec_from_code(0) == SenderType::NoSender,
        SenderType::spec_from_code(1) == SenderType::Camera,
        SenderType::spec_from_code(3) == SenderType::MC,
        SenderType::spec_from_code(4) == SenderType::Gimbal,
        SenderType::spec_from_code(6) == SenderType::RC,
        SenderType::spec_from_code(11) == SenderType::Battery,
        !(value == 0 || value == 1 || value == 3 || value == 4 || value == 6 || value == 11)
            ==> SenderType::spec_from_code(value) == SenderType::Unknown(value),
{
}

/// The layout of a firmware record: the sender at byte 0, the sub-sender at
/// byte 1, and the version as the three bytes 2, 3 and 4 written `a.b.c`;
/// six bytes are read.
pub proof fn lemma_firmware_layout(file: Seq<u8>, p: PayloadView)
    ensures
        payload_prefix(file, p, 6) matches Some(b) ==> Firmware::spec_parse_payload(file, p) == Some(
            (
                FirmwareView {
                    sender_type: SenderType::spec_from_code(b[0]),
                    sub_sender_type: b[1],
                    version: decimal(b[2] as nat) + "."@ + decimal(b[3] as nat) + "."@ + decimal(
                        b[4] as nat,
                    ),
                },
                6nat,
            ),
        ),
        payload_prefix(file, p, 6) is None ==> Firmware::spec_parse_payload(file, p) is None,
{
    reveal_strlit(".");
    if let Some(b) = payload_prefix(file, p, 6) {
        assert(dotted_version(b[2], b[3], b[4]) =~= decimal(b[2] as nat) + "."@ + decimal(
            b[3] as nat,
        ) + "."@ + decimal(b[4] as nat));
    }
}

} // verus!
