//! The records of a log.
//!
//! A record is a type byte, a length (one byte up to format 12, two bytes
//! little-endian from format 13), a payload of that length, and an end byte
//! `0xFF`. Payloads of format 7 and later are XOR masked, and from format 13
//! most are AES encrypted as well (see `decoder`). Embedded JPEG images and
//! stretches of unreadable bytes also appear in the stream.
use vstd::prelude::*;

pub mod app_gps;
pub mod app_serious_warn;
pub mod app_tip;
pub mod app_warn;
pub mod camera;
pub mod center_battery;
pub mod custom;
pub mod deform;
pub mod firmware;
pub mod gimbal;
pub mod home;
pub mod key_storage;
pub mod mc_param;
pub mod osd;
pub mod rc;
pub mod rc_display_field;
pub mod rc_gps;
pub mod recover_info;
pub mod smart_battery;
pub mod smart_battery_group;
pub mod virtual_stick;

use crate::decoder::{payload_prefix, payload_read, payload_wf, Payload, PayloadView};
use crate::keychain::FeaturePoint;
use crate::layout::details::ProductType;
use crate::utils::{le_u16, read_u16_le, slice_range};
use app_gps::AppGPS;
use app_serious_warn::AppSeriousWarn;
use app_tip::AppTip;
use app_warn::AppWarn;
use camera::Camera;
use center_battery::CenterBattery;
use custom::Custom;
use deform::Deform;
use firmware::{Firmware, FirmwareView};
use gimbal::Gimbal;
use home::Home;
use key_storage::KeyStorage;
use mc_param::MCParams;
use osd::OSD;
use rc::RC;
use rc_display_field::RCDisplayField;
use rc_gps::RCGPS;
use recover_info::{RecoverInfo, RecoverInfoView};
use smart_battery::SmartBattery;
use smart_battery_group::{SmartBatteryGroup, SmartBatteryGroupView};
use virtual_stick::VirtualStick;

verus! {

/// The byte that ends every record.
pub const END_BYTE: u8 = 0xFF;

/// One entry of the record stream.
#[derive(Debug, Clone)]
pub enum Record {
    OSD(OSD),
    Home(Home),
    Gimbal(Gimbal),
    RC(RC),
    Custom(Custom),
    Deform(Deform),
    CenterBattery(CenterBattery),
    SmartBattery(SmartBattery),
    AppTip(AppTip),
    AppWarn(AppWarn),
    AppSeriousWarn(AppSeriousWarn),
    RCGPS(RCGPS),
    Recover(RecoverInfo),
    AppGPS(AppGPS),
    Firmware(Firmware),
    MCParams(MCParams),
    SmartBatteryGroup(SmartBatteryGroup),
    Camera(Camera),
    VirtualStick(VirtualStick),
    KeyStorageRecover(Vec<u8>),
    KeyStorage(KeyStorage),
    RCDisplayField(RCDisplayField),
    JPEG(Vec<u8>),
    /// A record of a type without a body layout: its type and decoded payload.
    Unknown(u8, Vec<u8>),
    /// Bytes skipped up to the next record boundary.
    Invalid(Vec<u8>),
}

/// A record, as values.
pub enum RecordView {
    OSD(OSD),
    Home(Home),
    Gimbal(Gimbal),
    RC(RC),
    Custom(Custom),
    Deform(Deform),
    CenterBattery(CenterBattery),
    SmartBattery(SmartBattery),
    AppTip(Seq<char>),
    AppWarn(Seq<char>),
    AppSeriousWarn(Seq<char>),
    RCGPS(RCGPS),
    Recover(RecoverInfoView),
    AppGPS(AppGPS),
    Firmware(FirmwareView),
    MCParams(MCParams),
    SmartBatteryGroup(SmartBatteryGroupView),
    Camera(Camera),
    VirtualStick(VirtualStick),
    KeyStorageRecover(Seq<u8>),
    KeyStorage((FeaturePoint, Seq<u8>)),
    RCDisplayField(RCDisplayField),
    JPEG(Seq<u8>),
    Unknown(u8, Seq<u8>),
    Invalid(Seq<u8>),
}

impl View for Record {
    type V = RecordView;

    open spec fn view(&self) -> RecordView {
        match self {
            Record::OSD(x) => RecordView::OSD(*x),
            Record::Home(x) => RecordView::Home(*x),
            Record::Gimbal(x) => RecordView::Gimbal(*x),
            Record::RC(x) => RecordView::RC(*x),
            Record::Custom(x) => RecordView::Custom(*x),
            Record::Deform(x) => RecordView::Deform(*x),
            Record::CenterBattery(x) => RecordView::CenterBattery(*x),
            Record::SmartBattery(x) => RecordView::SmartBattery(*x),
            Record::AppTip(x) => RecordView::AppTip(x@),
            Record::AppWarn(x) => RecordView::AppWarn(x@),
            Record::AppSeriousWarn(x) => RecordView::AppSeriousWarn(x@),
            Record::RCGPS(x) => RecordView::RCGPS(*x),
            Record::Recover(x) => RecordView::Recover(x@),
            Record::AppGPS(x) => RecordView::AppGPS(*x),
            Record::Firmware(x) => RecordView::Firmware(x@),
            Record::MCParams(x) => RecordView::MCParams(*x),
            Record::SmartBatteryGroup(x) => RecordView::SmartBatteryGroup(x@),
            Record::Camera(x) => RecordView::Camera(*x),
            Record::VirtualStick(x) => RecordView::VirtualStick(*x),
            Record::KeyStorageRecover(x) => RecordView::KeyStorageRecover(x@),
            Record::KeyStorage(x) => RecordView::KeyStorage(x@),
            Record::RCDisplayField(x) => RecordView::RCDisplayField(*x),
            Record::JPEG(x) => RecordView::JPEG(x@),
            Record::Unknown(t, x) => RecordView::Unknown(*t, x@),
            Record::Invalid(x) => RecordView::Invalid(x@),
        }
    }
}

/// The record types whose payload has a layout.
pub open spec fn is_known_record_type(t: u8) -> bool {
    t == 1 || t == 2 || t == 3 || t == 4 || t == 5 || t == 6 || t == 7 || t == 8 || t == 9 || t == 10 || t == 11 || t == 13 || t == 14 || t == 15 || t == 19 || t == 22 || t == 24 || t == 25 || t == 33 || t == 56 || t == 62
}

/// Whether the payload of records of type `t` has a layout.
pub fn is_known_type(t: u8) -> (r: bool)
    ensures
        r == is_known_record_type(t),
{
    t == 1 || t == 2 || t == 3 || t == 4 || t == 5 || t == 6 || t == 7 || t == 8 || t == 9 || t == 10 || t == 11 || t == 13 || t == 14 || t == 15 || t == 19 || t == 22 || t == 24 || t == 25 || t == 33 || t == 56 || t == 62
}

/// The record kind of each record type with a layout: 1 OSD, 2 home,
/// 3 gimbal, 4 remote controller, 5 custom, 6 deform, 7 center battery,
/// 8 smart battery, 9 tip, 10 warning, 11 remote controller GPS, 13
/// recovery, 14 app GPS, 15 firmware, 19 flight controller parameters,
/// 22 battery group, 24 serious warning, 25 camera, 33 virtual stick,
/// 56 key storage, 62 remote controller display.
pub proof fn lemma_record_type_kinds(file: Seq<u8>, p: PayloadView, version: u8, size: u16)
    ensures
        spec_parse_body(file, p, 1, version, size) matches Some((r, _)) ==> r is OSD,
        spec_parse_body(file, p, 2, version, size) matches Some((r, _)) ==> r is Home,
        spec_parse_body(file, p, 3, version, size) matches Some((r, _)) ==> r is Gimbal,
        spec_parse_body(file, p, 4, version, size) matches Some((r, _)) ==> r is RC,
        spec_parse_body(file, p, 5, version, size) matches Some((r, _)) ==> r is Custom,
        spec_parse_body(file, p, 6, version, size) matches Some((r, _)) ==> r is Deform,
        spec_parse_body(file, p, 7, version, size) matches Some((r, _)) ==> r is CenterBattery,
        spec_parse_body(file, p, 8, version, size) matches Some((r, _)) ==> r is SmartBattery,
        spec_parse_body(file, p, 9, version, size) matches Some((r, _)) ==> r is AppTip,
        spec_parse_body(file, p, 10, version, size) matches Some((r, _)) ==> r is AppWarn,
        spec_parse_body(file, p, 11, version, size) matches Some((r, _)) ==> r is RCGPS,
        spec_parse_body(file, p, 13, version, size) matches Some((r, _)) ==> r is Recover,
        spec_parse_body(file, p, 14, version, size) matches Some((r, _)) ==> r is AppGPS,
        spec_parse_body(file, p, 15, version, size) matches Some((r, _)) ==> r is Firmware,
        spec_parse_body(file, p, 19, version, size) matches Some((r, _)) ==> r is MCParams,
        spec_parse_body(file, p, 22, version, size) matches Some((r, _)) ==> r is SmartBatteryGroup,
        spec_parse_body(file, p, 24, version, size) matches Some((r, _)) ==> r is AppSeriousWarn,
        spec_parse_body(file, p, 25, version, size) matches Some((r, _)) ==> r is Camera,
        spec_parse_body(file, p, 33, version, size) matches Some((r, _)) ==> r is VirtualStick,
        spec_parse_body(file, p, 56, version, size) matches Some((r, _)) ==> r is KeyStorage,
        spec_parse_body(file, p, 62, version, size) matches Some((r, _)) ==> r is RCDisplayField,
{
    reveal(spec_parse_body);
}

/// The record body of type `record_type` read from a decoded payload, with
/// the number of payload bytes read; `None` where the bytes do not form the
/// body.
#[verifier::opaque]
pub open spec fn spec_parse_body(
    file: Seq<u8>,
    p: PayloadView,
    record_type: u8,
    version: u8,
    size: u16,
) -> Option<(RecordView, nat)> {
    match record_type {
            1 => match payload_prefix(file, p, OSD::spec_size(version)) {
                Some(b) => Some((RecordView::OSD(OSD::spec_parse(b, version)), OSD::spec_size(version))),
                None => None,
            },
            2 => match payload_prefix(file, p, Home::spec_size(version)) {
                Some(b) => Some((RecordView::Home(Home::spec_parse(b, version)), Home::spec_size(version))),
                None => None,
            },
            3 => match payload_prefix(file, p, Gimbal::spec_size(version)) {
                Some(b) => Some((RecordView::Gimbal(Gimbal::spec_parse(b, version)), Gimbal::spec_size(version))),
                None => None,
            },
            4 => match payload_prefix(file, p, RC::spec_size(version)) {
                Some(b) => Some((RecordView::RC(RC::spec_parse(b, version, ProductType::NoProduct)), RC::spec_size(version))),
                None => None,
            },
            6 => match payload_prefix(file, p, Deform::spec_size()) {
                Some(b) => Some((RecordView::Deform(Deform::spec_parse(b)), Deform::spec_size())),
                None => None,
            },
            7 => match payload_prefix(file, p, CenterBattery::spec_size(version)) {
                Some(b) => Some((RecordView::CenterBattery(CenterBattery::spec_parse(b, version)), CenterBattery::spec_size(version))),
                None => None,
            },
            8 => match payload_prefix(file, p, SmartBattery::spec_size()) {
                Some(b) => Some((RecordView::SmartBattery(SmartBattery::spec_parse(b)), SmartBattery::spec_size())),
                None => None,
            },
            11 => match payload_prefix(file, p, RCGPS::spec_size()) {
                Some(b) => Some((RecordView::RCGPS(RCGPS::spec_parse(b)), RCGPS::spec_size())),
                None => None,
            },
            14 => match payload_prefix(file, p, AppGPS::spec_size()) {
                Some(b) => Some((RecordView::AppGPS(AppGPS::spec_parse(b)), AppGPS::spec_size())),
                None => None,
            },
            19 => match payload_prefix(file, p, MCParams::spec_size()) {
                Some(b) => Some((RecordView::MCParams(MCParams::spec_parse(b)), MCParams::spec_size())),
                None => None,
            },
            25 => match payload_prefix(file, p, Camera::spec_size()) {
                Some(b) => Some((RecordView::Camera(Camera::spec_parse(b)), Camera::spec_size())),
                None => None,
            },
            33 => match payload_prefix(file, p, VirtualStick::spec_size()) {
                Some(b) => Some((RecordView::VirtualStick(VirtualStick::spec_parse(b)), VirtualStick::spec_size())),
                None => None,
            },
            62 => match payload_prefix(file, p, RCDisplayField::spec_size()) {
                Some(b) => Some((RecordView::RCDisplayField(RCDisplayField::spec_parse(b)), RCDisplayField::spec_size())),
                None => None,
            },
            5 => match Custom::spec_parse_payload(file, p) {
                Some((x, n)) => Some((RecordView::Custom(x), n)),
                None => None,
            },
            9 => match AppTip::spec_parse_payload(file, p, size) {
                Some((x, n)) => Some((RecordView::AppTip(x), n)),
                None => None,
            },
            10 => match AppWarn::spec_parse_payload(file, p, size) {
                Some((x, n)) => Some((RecordView::AppWarn(x), n)),
                None => None,
            },
            24 => match AppSeriousWarn::spec_parse_payload(file, p, size) {
                Some((x, n)) => Some((RecordView::AppSeriousWarn(x), n)),
                None => None,
            },
            13 => match RecoverInfo::spec_parse_payload(file, p, version) {
                Some((x, n)) => Some((RecordView::Recover(x), n)),
                None => None,
            },
            15 => match Firmware::spec_parse_payload(file, p) {
                Some((x, n)) => Some((RecordView::Firmware(x), n)),
                None => None,
            },
            22 => match SmartBatteryGroup::spec_parse_payload(file, p) {
                Some((x, n)) => Some((RecordView::SmartBatteryGroup(x), n)),
                None => None,
            },
            56 => match KeyStorage::spec_parse_payload(file, p) {
                Some((x, n)) => Some((RecordView::KeyStorage(x), n)),
                None => None,
            },
            _ => None,
    }
}

/// Reads the body of a record of a known type from its decoded payload.
pub fn parse_body(file: &[u8], p: &Payload, record_type: u8, version: u8, size: u16) -> (r: Option<
    (Record, usize),
>)
    requires
        payload_wf(file@, p@),
    ensures
        match spec_parse_body(file@, p@, record_type, version, size) {
            Some((v, n)) => r matches Some((x, m)) && x@ == v && m == n,
            None => r is None,
        },
{
    reveal(spec_parse_body);
    match record_type {
            1 => {
                let n = OSD::size(version);
                match payload_read(file, p, n) {
                    Some(b) => Some((Record::OSD(OSD::parse(b.as_slice(), version)), n)),
                    None => None,
                }
            },
            2 => {
                let n = Home::size(version);
                match payload_read(file, p, n) {
                    Some(b) => Some((Record::Home(Home::parse(b.as_slice(), version)), n)),
                    None => None,
                }
            },
            3 => {
                let n = Gimbal::size(version);
                match payload_read(file, p, n) {
                    Some(b) => Some((Record::Gimbal(Gimbal::parse(b.as_slice(), version)), n)),
                    None => None,
                }
            },
            4 => {
                let n = RC::size(version);
                match payload_read(file, p, n) {
                    Some(b) => Some((Record::RC(RC::parse(b.as_slice(), version, ProductType::NoProduct)), n)),
                    None => None,
                }
            },
            6 => {
                let n = Deform::size();
                match payload_read(file, p, n) {
                    Some(b) => Some((Record::Deform(Deform::parse(b.as_slice())), n)),
                    None => None,
                }
            },
            7 => {
                let n = CenterBattery::size(version);
                match payload_read(file, p, n) {
                    Some(b) => Some((Record::CenterBattery(CenterBattery::parse(b.as_slice(), version)), n)),
                    None => None,
                }
            },
            8 => {
                let n = SmartBattery::size();
                match payload_read(file, p, n) {
                    Some(b) => Some((Record::SmartBattery(SmartBattery::parse(b.as_slice())), n)),
                    None => None,
                }
            },
            11 => {
                let n = RCGPS::size();
                match payload_read(file, p, n) {
                    Some(b) => Some((Record::RCGPS(RCGPS::parse(b.as_slice())), n)),
                    None => None,
                }
            },
            14 => {
                let n = AppGPS::size();
                match payload_read(file, p, n) {
                    Some(b) => Some((Record::AppGPS(AppGPS::parse(b.as_slice())), n)),
                    None => None,
                }
            },
            19 => {
                let n = MCParams::size();
                match payload_read(file, p, n) {
                    Some(b) => Some((Record::MCParams(MCParams::parse(b.as_slice())), n)),
                    None => None,
                }
            },
            25 => {
                let n = Camera::size();
                match payload_read(file, p, n) {
                    Some(b) => Some((Record::Camera(Camera::parse(b.as_slice())), n)),
                    None => None,
                }
            },
            33 => {
                let n = VirtualStick::size();
                match payload_read(file, p, n) {
                    Some(b) => Some((Record::VirtualStick(VirtualStick::parse(b.as_slice())), n)),
                    None => None,
                }
            },
            62 => {
                let n = RCDisplayField::size();
                match payload_read(file, p, n) {
                    Some(b) => Some((Record::RCDisplayField(RCDisplayField::parse(b.as_slice())), n)),
                    None => None,
                }
            },
            5 => match Custom::parse_payload(file, p) {
                Some((x, n)) => Some((Record::Custom(x), n)),
                None => None,
            },
            9 => match AppTip::parse_payload(file, p, size) {
                Some((x, n)) => Some((Record::AppTip(x), n)),
                None => None,
            },
            10 => match AppWarn::parse_payload(file, p, size) {
                Some((x, n)) => Some((Record::AppWarn(x), n)),
                None => None,
            },
            24 => match AppSeriousWarn::parse_payload(file, p, size) {
                Some((x, n)) => Some((Record::AppSeriousWarn(x), n)),
                None => None,
            },
            13 => match RecoverInfo::parse_payload(file, p, version) {
                Some((x, n)) => Some((Record::Recover(x), n)),
                None => None,
            },
            15 => match Firmware::parse_payload(file, p) {
                Some((x, n)) => Some((Record::Firmware(x), n)),
                None => None,
            },
            22 => match SmartBatteryGroup::parse_payload(file, p) {
                Some((x, n)) => Some((Record::SmartBatteryGroup(x), n)),
                None => None,
            },
            56 => match KeyStorage::parse_payload(file, p) {
                Some((x, n)) => Some((Record::KeyStorage(x), n)),
                None => None,
            },
            _ => None,
    }
}

} // verus!
