//! The camera record (type 25).
use vstd::prelude::*;
use crate::wire::{le_bytes, lemma_le_16, lemma_le_32, lemma_sub_byte_fields};

use crate::utils::{le_u16, le_u32, spec_sub_byte_field, read_u16_le, read_u32_le, sub_byte_field};

verus! {

#[derive(Debug, Clone, Copy, PartialEq, Eq, Structural)]
pub enum SDCardState {
    Normal,
    NoCard,
    InvalidCard,
    WriteProtected,
    Unformatted,
    Formatting,
    IllegalFileSys,
    Busy,
    Full,
    LowSpeed,
    IndexMax,
    Initialize,
    SuggestFormat,
    Repairing,
    Unknown(u8),
}

impl SDCardState {
    /// The variant that the wire value `value` stands for.
    pub open spec fn spec_from_code(value: u8) -> SDCardState {
        match value {
            0 => SDCardState::Normal,
            1 => SDCardState::NoCard,
            2 => SDCardState::InvalidCard,
            3 => SDCardState::WriteProtected,
            4 => SDCardState::Unformatted,
            5 => SDCardState::Formatting,
            6 => SDCardState::IllegalFileSys,
            8 => SDCardState::Full,
            9 => SDCardState::LowSpeed,
            11 => SDCardState::IndexMax,
            12 => SDCardState::Initialize,
            13 => SDCardState::SuggestFormat,
            14 => SDCardState::Repairing,
            _ => SDCardState::Unknown(value),
        }
    }

    /// Maps a wire value to its variant.
    pub fn from_code(value: u8) -> (r: SDCardState)
        ensures
            r == SDCardState::spec_from_code(value),
    {
        match value {
            0 => SDCardState::Normal,
            1 => SDCardState::NoCard,
            2 => SDCardState::InvalidCard,
            3 => SDCardState::WriteProtected,
            4 => SDCardState::Unformatted,
            5 => SDCardState::Formatting,
            6 => SDCardState::IllegalFileSys,
            8 => SDCardState::Full,
            9 => SDCardState::LowSpeed,
            11 => SDCardState::IndexMax,
            12 => SDCardState::Initialize,
            13 => SDCardState::SuggestFormat,
            14 => SDCardState::Repairing,
            _ => SDCardState::Unknown(value),
        }
    }
}

impl From<u8> for SDCardState {
    fn from(value: u8) -> (r: SDCardState)
        ensures
            r == SDCardState::spec_from_code(value),
    {
        SDCardState::from_code(value)
    }
}

impl vstd::std_specs::convert::FromSpecImpl<u8> for SDCardState {
    open spec fn obeys_from_spec() -> bool {
        true
    }

    open spec fn from_spec(value: u8) -> SDCardState {
        SDCardState::spec_from_code(value)
    }
}

#[derive(Debug, Clone, Copy, PartialEq, Eq, Structural)]
pub enum CameraWorkMode {
    Capture,
    Recording,
    Playback,
    Transcode,
    Tuning,
    PowerSave,
    Download,
    XcodePlayback,
    Broadcast,
    Unknown(u8),
}

impl CameraWorkMode {
    /// The variant that the wire value `value` stands for.
    pub open spec fn spec_from_code(value: u8) -> CameraWorkMode {
        match value {
            0 => CameraWorkMode::Capture,
            1 => CameraWorkMode::Recording,
            2 => CameraWorkMode::Playback,
            3 => CameraWorkMode::Transcode,
            4 => CameraWorkMode::Tuning,
            5 => CameraWorkMode::PowerSave,
            6 => CameraWorkMode::Download,
            7 => CameraWorkMode::XcodePlayback,
            8 => CameraWorkMode::Broadcast,
            _ => CameraWorkMode::Unknown(value),
        }
    }

    /// Maps a wire value to its variant.
    pub fn from_code(value: u8) -> (r: CameraWorkMode)
        ensures
            r == CameraWorkMode::spec_from_code(value),
    {
        match value {
            0 => CameraWorkMode::Capture,
            1 => CameraWorkMode::Recording,
            2 => CameraWorkMode::Playback,
            3 => CameraWorkMode::Transcode,
            4 => CameraWorkMode::Tuning,
            5 => CameraWorkMode::PowerSave,
            6 => CameraWorkMode::Download,
            7 => CameraWorkMode::XcodePlayback,
            8 => CameraWorkMode::Broadcast,
            _ => CameraWorkMode::Unknown(value),
        }
    }
}

impl From<u8> for CameraWorkMode {
    fn from(value: u8) -> (r: CameraWorkMode)
        ensures
            r == CameraWorkMode::spec_from_code(value),
    {
        CameraWorkMode::from_code(value)
    }
}

impl vstd::std_specs::convert::FromSpecImpl<u8> for CameraWorkMode {
    open spec fn obeys_from_spec() -> bool {
        true
    }

    open spec fn from_spec(value: u8) -> CameraWorkMode {
        CameraWorkMode::spec_from_code(value)
    }
}

/// State of the camera and its storage.
#[derive(Debug, Clone, Copy, PartialEq, Eq, Structural)]
pub struct Camera {
    pub is_connect: bool,
    pub is_usb_connect: bool,
    pub timer_sync_state: u8,
    pub is_shooting_single_photo: bool,
    pub is_recording: bool,
    pub has_sd_card: bool,
    pub sd_card_state: SDCardState,
    pub is_upgrading: u8,
    pub is_heat: bool,
    pub is_capture_disable: bool,
    pub is_ddr_storing: bool,
    pub conti_capture: bool,
    pub hdmi_output_status: bool,
    pub encrypt_status: u8,
    pub file_syn_state: bool,
    pub rc_btn_forbid_state: bool,
    pub get_focus_state: bool,
    pub pano_timelapse_gimbal_state: bool,
    pub is_enable_tracking_mode: bool,
    pub work_mode: CameraWorkMode,
    /// Megabytes.
    pub sd_card_total_capacity: u32,
    /// Megabytes.
    pub sd_card_remain_capacity: u32,
    pub remain_photo_num: u32,
    /// Seconds.
    pub remain_video_timer: u32,
    /// Seconds.
    pub record_time: u16,
    pub camera_type: u8,
}

impl Camera {
    /// Number of payload bytes the record reads.
    pub open spec fn spec_size() -> nat {
        24
    }

    /// The record that the payload bytes `b` hold.
    pub open spec fn spec_parse(b: Seq<u8>) -> Camera {
        Camera {
            is_connect: spec_sub_byte_field(b[0], 0x01) == 1,
            is_usb_connect: spec_sub_byte_field(b[0], 0x02) == 1,
            timer_sync_state: spec_sub_byte_field(b[0], 0x04),
            is_shooting_single_photo: spec_sub_byte_field(b[0], 0x38) == 1,
            is_recording: spec_sub_byte_field(b[0], 0xC0) != 0,
            has_sd_card: spec_sub_byte_field(b[1], 0x02) == 1,
            sd_card_state: SDCardState::spec_from_code(spec_sub_byte_field(b[1], 0x3C)),
            is_upgrading: spec_sub_byte_field(b[1], 0x40),
            is_heat: spec_sub_byte_field(b[2], 0x02) == 1,
            is_capture_disable: spec_sub_byte_field(b[2], 0x04) == 1,
            is_ddr_storing: spec_sub_byte_field(b[2], 0x08) == 1,
            conti_capture: spec_sub_byte_field(b[2], 0x10) == 1,
            hdmi_output_status: spec_sub_byte_field(b[2], 0x20) == 1,
            encrypt_status: spec_sub_byte_field(b[2], 0xC0),
            file_syn_state: spec_sub_byte_field(b[3], 0x01) == 1,
            rc_btn_forbid_state: spec_sub_byte_field(b[3], 0x02) == 1,
            get_focus_state: spec_sub_byte_field(b[3], 0x04) == 1,
            pano_timelapse_gimbal_state: spec_sub_byte_field(b[3], 0x08) == 1,
            is_enable_tracking_mode: spec_sub_byte_field(b[3], 0x10) == 1,
            work_mode: CameraWorkMode::spec_from_code(b[4]),
            sd_card_total_capacity: le_u32(b, 5),
            sd_card_remain_capacity: le_u32(b, 9),
            remain_photo_num: le_u32(b, 13),
            remain_video_timer: le_u32(b, 17),
            record_time: le_u16(b, 21),
            camera_type: b[23],
        }
    }

    /// Number of payload bytes the record reads.
    pub fn size() -> (r: usize)
        ensures
            r == Camera::spec_size(),
    {
        24
    }

    fn parse_part0(b: &[u8]) -> (r: (bool, bool, u8, bool, bool, bool, SDCardState, u8, bool, bool, bool, bool,))
        requires
            b@.len() >= Camera::spec_size(),
        ensures
            r.0 == (spec_sub_byte_field(b@[0], 0x01) == 1),
            r.1 == (spec_sub_byte_field(b@[0], 0x02) == 1),
            r.2 == (spec_sub_byte_field(b@[0], 0x04)),
            r.3 == (spec_sub_byte_field(b@[0], 0x38) == 1),
            r.4 == (spec_sub_byte_field(b@[0], 0xC0) != 0),
            r.5 == (spec_sub_byte_field(b@[1], 0x02) == 1),
            r.6 == (SDCardState::spec_from_code(spec_sub_byte_field(b@[1], 0x3C))),
            r.7 == (spec_sub_byte_field(b@[1], 0x40)),
            r.8 == (spec_sub_byte_field(b@[2], 0x02) == 1),
            r.9 == (spec_sub_byte_field(b@[2], 0x04) == 1),
            r.10 == (spec_sub_byte_field(b@[2], 0x08) == 1),
            r.11 == (spec_sub_byte_field(b@[2], 0x10) == 1),
    {
        let is_connect_value = sub_byte_field(b[0], 0x01) == 1;
        let is_usb_connect_value = sub_byte_field(b[0], 0x02) == 1;
        let timer_sync_state_value = sub_byte_field(b[0], 0x04);
        let is_shooting_single_photo_value = sub_byte_field(b[0], 0x38) == 1;
        let is_recording_value = sub_byte_field(b[0], 0xC0) != 0;
        let has_sd_card_value = sub_byte_field(b[1], 0x02) == 1;
        let sd_card_state_value = SDCardState::from_code(sub_byte_field(b[1], 0x3C));
        let is_upgrading_value = sub_byte_field(b[1], 0x40);
        let is_heat_value = sub_byte_field(b[2], 0x02) == 1;
        let is_capture_disable_value = sub_byte_field(b[2], 0x04) == 1;
        let is_ddr_storing_value = sub_byte_field(b[2], 0x08) == 1;
        let conti_capture_value = sub_byte_field(b[2], 0x10) == 1;
        (is_connect_value, is_usb_connect_value, timer_sync_state_value, is_shooting_single_photo_value, is_recording_value, has_sd_card_value, sd_card_state_value, is_upgrading_value, is_heat_value, is_capture_disable_value, is_ddr_storing_value, conti_capture_value,)
    }

    fn parse_part1(b: &[u8]) -> (r: (bool, u8, bool, bool, bool, bool, bool, CameraWorkMode, u32, u32, u32, u32,))
        requires
            b@.len() >= Camera::spec_size(),
        ensures
            r.0 == (spec_sub_byte_field(b@[2], 0x20) == 1),
            r.1 == (spec_sub_byte_field(b@[2], 0xC0)),
            r.2 == (spec_sub_byte_field(b@[3], 0x01) == 1),
            r.3 == (spec_sub_byte_field(b@[3], 0x02) == 1),
            r.4 == (spec_sub_byte_field(b@[3], 0x04) == 1),
            r.5 == (spec_sub_byte_field(b@[3], 0x08) == 1),
            r.6 == (spec_sub_byte_field(b@[3], 0x10) == 1),
            r.7 == (CameraWorkMode::spec_from_code(b@[4])),
            r.8 == (le_u32(b@, 5)),
            r.9 == (le_u32(b@, 9)),
            r.10 == (le_u32(b@, 13)),
            r.11 == (le_u32(b@, 17)),
    {
        let hdmi_output_status_value = sub_byte_field(b[2], 0x20) == 1;
        let encrypt_status_value = sub_byte_field(b[2], 0xC0);
        let file_syn_state_value = sub_byte_field(b[3], 0x01) == 1;
        let rc_btn_forbid_state_value = sub_byte_field(b[3], 0x02) == 1;
        let get_focus_state_value = sub_byte_field(b[3], 0x04) == 1;
        let pano_timelapse_gimbal_state_value = sub_byte_field(b[3], 0x08) == 1;
        let is_enable_tracking_mode_value = sub_byte_field(b[3], 0x10) == 1;
        let work_mode_value = CameraWorkMode::from_code(b[4]);
        let sd_card_total_capacity_value = read_u32_le(b, 5);
        let sd_card_remain_capacity_value = read_u32_le(b, 9);
        let remain_photo_num_value = read_u32_le(b, 13);
        let remain_video_timer_value = read_u32_le(b, 17);
        (hdmi_output_status_value, encrypt_status_value, file_syn_state_value, rc_btn_forbid_state_value, get_focus_state_value, pano_timelapse_gimbal_state_value, is_enable_tracking_mode_value, work_mode_value, sd_card_total_capacity_value, sd_card_remain_capacity_value, remain_photo_num_value, remain_video_timer_value,)
    }

    fn parse_part2(b: &[u8]) -> (r: (u16, u8,))
        requires
            b@.len() >= Camera::spec_size(),
        ensures
            r.0 == (le_u16(b@, 21)),
            r.1 == (b@[23]),
    {
        let record_time_value = read_u16_le(b, 21);
        let camera_type_value = b[23];
        (record_time_value, camera_type_value,)
    }

    /// Reads the record from its decoded payload bytes.
    pub fn parse(b: &[u8]) -> (r: Camera)
        requires
            b@.len() >= Camera::spec_size(),
        ensures
            r == Camera::spec_parse(b@),
    {
        let part0 = Camera::parse_part0(b);
        let part1 = Camera::parse_part1(b);
        let part2 = Camera::parse_part2(b);
        Camera {
            is_connect: part0.0,
            is_usb_connect: part0.1,
            timer_sync_state: part0.2,
            is_shooting_single_photo: part0.3,
            is_recording: part0.4,
            has_sd_card: part0.5,
            sd_card_state: part0.6,
            is_upgrading: part0.7,
            is_heat: part0.8,
            is_capture_disable: part0.9,
            is_ddr_storing: part0.10,
            conti_capture: part0.11,
            hdmi_output_status: part1.0,
            encrypt_status: part1.1,
            file_syn_state: part1.2,
            rc_btn_forbid_state: part1.3,
            get_focus_state: part1.4,
            pano_timelapse_gimbal_state: part1.5,
            is_enable_tracking_mode: part1.6,
            work_mode: part1.7,
            sd_card_total_capacity: part1.8,
            sd_card_remain_capacity: part1.9,
            remain_photo_num: part1.10,
            remain_video_timer: part1.11,
            record_time: part2.0,
            camera_type: part2.1,
        }
    }
}

/// Where each field of a camera record sits in its payload: bytes 0 to 3
/// hold bit fields (bit 0 is the lowest), byte 4 the work mode, 5-20 four
/// 32-bit little-endian counters, 21-22 the record time and 23 the camera
/// type.
pub proof fn lemma_camera_layout(b: Seq<u8>)
    requires
        b.len() >= 24,
    ensures
        Camera::spec_size() == 24,
        ({
            let o = Camera::spec_parse(b);
            &&& o.is_connect == ((b[0] % 2) == 1)
            &&& o.is_usb_connect == (((b[0] / 2) % 2) == 1)
            &&& o.timer_sync_state == ((b[0] / 4) % 2)
            &&& o.is_shooting_single_photo == (((b[0] / 8) % 8) == 1)
            &&& o.is_recording == ((b[0] / 64) != 0)
            &&& o.has_sd_card == (((b[1] / 2) % 2) == 1)
            &&& o.sd_card_state == SDCardState::spec_from_code(((b[1] / 4) % 16))
            &&& o.is_upgrading == ((b[1] / 64) % 2)
            &&& o.is_heat == (((b[2] / 2) % 2) == 1)
            &&& o.is_capture_disable == (((b[2] / 4) % 2) == 1)
            &&& o.is_ddr_storing == (((b[2] / 8) % 2) == 1)
            &&& o.conti_capture == (((b[2] / 16) % 2) == 1)
            &&& o.hdmi_output_status == (((b[2] / 32) % 2) == 1)
            &&& o.encrypt_status == (b[2] / 64)
            &&& o.file_syn_state == ((b[3] % 2) == 1)
            &&& o.rc_btn_forbid_state == (((b[3] / 2) % 2) == 1)
            &&& o.get_focus_state == (((b[3] / 4) % 2) == 1)
            &&& o.pano_timelapse_gimbal_state == (((b[3] / 8) % 2) == 1)
            &&& o.is_enable_tracking_mode == (((b[3] / 16) % 2) == 1)
            &&& o.work_mode == CameraWorkMode::spec_from_code(b[4])
            &&& o.sd_card_total_capacity as int == le_bytes(b, 5, 4)
            &&& o.sd_card_remain_capacity as int == le_bytes(b, 9, 4)
            &&& o.remain_photo_num as int == le_bytes(b, 13, 4)
            &&& o.remain_video_timer as int == le_bytes(b, 17, 4)
            &&& o.record_time as int == le_bytes(b, 21, 2)
            &&& o.camera_type == b[23]
        }),
{
    lemma_sub_byte_fields(b[0]);
    lemma_sub_byte_fields(b[1]);
    lemma_sub_byte_fields(b[2]);
    lemma_sub_byte_fields(b[3]);
    lemma_le_16(b, 21);
    lemma_le_32(b, 13);
    lemma_le_32(b, 17);
    lemma_le_32(b, 5);
    lemma_le_32(b, 9);
}

/// The sd card state of each wire code, as the log format numbers them.
pub proof fn lemma_sd_card_state_codes(value: u8)
    ensures
        SDCardState::spec_from_code(0) == SDCardState::Normal,
        SDCardState::spec_from_code(1) == SDCardState::NoCard,
        SDCardState::spec_from_code(2) == SDCardState::InvalidCard,
        SDCardState::spec_from_code(3) == SDCardState::WriteProtected,
        SDCardState::spec_from_code(4) == SDCardState::Unformatted,
        SDCardState::spec_from_code(5) == SDCardState::Formatting,
        SDCardState::spec_from_code(6) == SDCardState::IllegalFileSys,
        SDCardState::spec_from_code(8) == SDCardState::Full,
        SDCardState::spec_from_code(9) == SDCardState::LowSpeed,
        SDCardState::spec_from_code(11) == SDCardState::IndexMax,
        SDCardState::spec_from_code(12) == SDCardState::Initialize,
        SDCardState::spec_from_code(13) == SDCardState::SuggestFormat,
        SDCardState::spec_from_code(14) == SDCardState::Repairing,
        !(value == 0 || value == 1 || value == 2 || value == 3 || value == 4 || value == 5 || value == 6 || value == 8 || value == 9 || value == 11 || value == 12 || value == 13 || value == 14) ==> SDCardState::spec_from_code(value) == SDCardState::Unknown(value),
{
}

/// The camera work mode of each wire code, as the log format numbers them.
pub proof fn lemma_camera_work_mode_codes(value: u8)
    ensures
        CameraWorkMode::spec_from_code(0) == CameraWorkMode::Capture,
        CameraWorkMode::spec_from_code(1) == CameraWorkMode::Recording,
        CameraWorkMode::spec_from_code(2) == CameraWorkMode::Playback,
        CameraWorkMode::spec_from_code(3) == CameraWorkMode::Transcode,
        CameraWorkMode::spec_from_code(4) == CameraWorkMode::Tuning,
        CameraWorkMode::spec_from_code(5) == CameraWorkMode::PowerSave,
        CameraWorkMode::spec_from_code(6) == CameraWorkMode::Download,
        CameraWorkMode::spec_from_code(7) == CameraWorkMode::XcodePlayback,
        CameraWorkMode::spec_from_code(8) == CameraWorkMode::Broadcast,
        !(value == 0 || value == 1 || value == 2 || value == 3 || value == 4 || value == 5 || value == 6 || value == 7 || value == 8) ==> CameraWorkMode::spec_from_code(value) == CameraWorkMode::Unknown(value),
{
}

} // verus!
