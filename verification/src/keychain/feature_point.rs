//! Feature points: the groups of record types that share one AES key.
use vstd::prelude::*;

verus! {

/// A group of record types encrypted with the same keychain entry.
#[derive(Debug, Clone, Copy, PartialEq, Eq, Hash, Structural)]
pub enum FeaturePoint {
    BaseFeature,
    VisionFeature,
    WaypointFeature,
    AgricultureFeature,
    AirLinkFeature,
    AfterSalesFeature,
    DJIFlyCustomFeature,
    PlaintextFeature,
    FlightHubFeature,
    GimbalFeature,
    RCFeature,
    CameraFeature,
    BatteryFeature,
    FlySafeFeature,
    SecurityFeature,
}

impl FeaturePoint {
    /// The 16-bit wire value of a feature point.
    pub open spec fn spec_code(self) -> u16 {
        match self {
            FeaturePoint::BaseFeature => 1,
            FeaturePoint::VisionFeature => 2,
            FeaturePoint::WaypointFeature => 3,
            FeaturePoint::AgricultureFeature => 4,
            FeaturePoint::AirLinkFeature => 5,
            FeaturePoint::AfterSalesFeature => 6,
            FeaturePoint::DJIFlyCustomFeature => 7,
            FeaturePoint::PlaintextFeature => 8,
            FeaturePoint::FlightHubFeature => 9,
            FeaturePoint::GimbalFeature => 10,
            FeaturePoint::RCFeature => 11,
            FeaturePoint::CameraFeature => 12,
            FeaturePoint::BatteryFeature => 13,
            FeaturePoint::FlySafeFeature => 14,
            FeaturePoint::SecurityFeature => 15,
        }
    }

    /// The feature point whose wire value is `code`, if any.
    pub open spec fn spec_from_code(code: u16) -> Option<FeaturePoint> {
        match code {
            1 => Some(FeaturePoint::BaseFeature),
            2 => Some(FeaturePoint::VisionFeature),
            3 => Some(FeaturePoint::WaypointFeature),
            4 => Some(FeaturePoint::AgricultureFeature),
            5 => Some(FeaturePoint::AirLinkFeature),
            6 => Some(FeaturePoint::AfterSalesFeature),
            7 => Some(FeaturePoint::DJIFlyCustomFeature),
            8 => Some(FeaturePoint::PlaintextFeature),
            9 => Some(FeaturePoint::FlightHubFeature),
            10 => Some(FeaturePoint::GimbalFeature),
            11 => Some(FeaturePoint::RCFeature),
            12 => Some(FeaturePoint::CameraFeature),
            13 => Some(FeaturePoint::BatteryFeature),
            14 => Some(FeaturePoint::FlySafeFeature),
            15 => Some(FeaturePoint::SecurityFeature),
            _ => None,
        }
    }

    /// The wire value of a feature point.
    pub fn code(&self) -> (r: u16)
        ensures
            r == self.spec_code(),
    {
        match self {
            FeaturePoint::BaseFeature => 1,
            FeaturePoint::VisionFeature => 2,
            FeaturePoint::WaypointFeature => 3,
            FeaturePoint::AgricultureFeature => 4,
            FeaturePoint::AirLinkFeature => 5,
            FeaturePoint::AfterSalesFeature => 6,
            FeaturePoint::DJIFlyCustomFeature => 7,
            FeaturePoint::PlaintextFeature => 8,
            FeaturePoint::FlightHubFeature => 9,
            FeaturePoint::GimbalFeature => 10,
            FeaturePoint::RCFeature => 11,
            FeaturePoint::CameraFeature => 12,
            FeaturePoint::BatteryFeature => 13,
            FeaturePoint::FlySafeFeature => 14,
            FeaturePoint::SecurityFeature => 15,
        }
    }

    /// Reads a wire value as a feature point; values outside 1..=15 are not
    /// feature points.
    pub fn from_code(code: u16) -> (r: Option<FeaturePoint>)
        ensures
            r == FeaturePoint::spec_from_code(code),
    {
        match code {
            1 => Some(FeaturePoint::BaseFeature),
            2 => Some(FeaturePoint::VisionFeature),
            3 => Some(FeaturePoint::WaypointFeature),
            4 => Some(FeaturePoint::AgricultureFeature),
            5 => Some(FeaturePoint::AirLinkFeature),
            6 => Some(FeaturePoint::AfterSalesFeature),
            7 => Some(FeaturePoint::DJIFlyCustomFeature),
            8 => Some(FeaturePoint::PlaintextFeature),
            9 => Some(FeaturePoint::FlightHubFeature),
            10 => Some(FeaturePoint::GimbalFeature),
            11 => Some(FeaturePoint::RCFeature),
            12 => Some(FeaturePoint::CameraFeature),
            13 => Some(FeaturePoint::BatteryFeature),
            14 => Some(FeaturePoint::FlySafeFeature),
            15 => Some(FeaturePoint::SecurityFeature),
            _ => None,
        }
    }

    /// The feature point that protects records of type `record_type` in a
    /// log of format `version`.
    #[verifier::opaque]
    pub open spec fn spec_from_record_type(record_type: u8, version: u8) -> FeaturePoint {
        match record_type {
            // OSDFlightRecordDataType
            1 => FeaturePoint::BaseFeature,
            // OSDHomeFlightRecordDataType
            2 => FeaturePoint::BaseFeature,
            // GimbalFlightRecordDataType
            3 => {
                if version == 13 {
                    FeaturePoint::BaseFeature
                } else {
                    FeaturePoint::GimbalFeature
                }
            },
            // RCFlightRecordDataType
            4 => {
                if version == 13 {
                    FeaturePoint::BaseFeature
                } else {
                    FeaturePoint::RCFeature
                }
            },
            // CustomFlightRecordDataType
            5 => FeaturePoint::DJIFlyCustomFeature,
            // MCTripodStateFlightRecordDataType
            6 => FeaturePoint::BaseFeature,
            // CenterBatteryFlightRecordDataType
            7 => {
                if version == 13 {
                    FeaturePoint::BaseFeature
                } else {
                    FeaturePoint::BatteryFeature
                }
            },
            // PushedBatteryFlightRecordDataType
            8 => {
                if version == 13 {
                    FeaturePoint::BaseFeature
                } else {
                    FeaturePoint::BatteryFeature
                }
            },
            // ShowTipsFlightRecordDataType
            9 => FeaturePoint::DJIFlyCustomFeature,
            // ShowWarningFlightRecordDataType
            10 => FeaturePoint::DJIFlyCustomFeature,
            // RCPushGPSFlightRecordDataType
            11 => {
                if version == 13 {
                    FeaturePoint::BaseFeature
                } else {
                    FeaturePoint::RCFeature
                }
            },
            // RCDebugDataType
            12 => FeaturePoint::AfterSalesFeature,
            // RecoverInfoDataType
            13 => FeaturePoint::BaseFeature,
            // AppLocationDataType
            14 => FeaturePoint::BaseFeature,
            // FirmwareVersionType
            15 => FeaturePoint::BaseFeature,
            // OFDMDebugDataType
            16 => FeaturePoint::AfterSalesFeature,
            // VisionGroupDataType
            17 => FeaturePoint::VisionFeature,
            // VisionWaringStringDataType
            18 => FeaturePoint::VisionFeature,
            // MCParamDataType
            19 => FeaturePoint::AfterSalesFeature,
            // APPOperationDataType
            20 => FeaturePoint::DJIFlyCustomFeature,
            // AGOSDDataType
            21 => FeaturePoint::AgricultureFeature,
            // SmartBatteryGroupDataType
            22 => {
                if version == 13 {
                    FeaturePoint::AfterSalesFeature
                } else {
                    FeaturePoint::BatteryFeature
                }
            },
            // ShowSeriousWarningFlightRecordDataType
            24 => FeaturePoint::DJIFlyCustomFeature,
            // CameraInfoFlightRecordDataType
            25 => {
                if version == 13 {
                    FeaturePoint::BaseFeature
                } else {
                    FeaturePoint::CameraFeature
                }
            },
            // ADSBFlightDataDataType
            26 => FeaturePoint::AfterSalesFeature,
            // ADSBFlightOriginalDataType
            27 => FeaturePoint::AfterSalesFeature,
            // FlyForbidDBuuidDataType
            28 => {
                if version == 13 {
                    FeaturePoint::AfterSalesFeature
                } else {
                    FeaturePoint::FlySafeFeature
                }
            },
            // AppSpecialControlJoyStickDataType
            29 => {
                if version == 13 {
                    FeaturePoint::BaseFeature
                } else {
                    FeaturePoint::RCFeature
                }
            },
            // AppLowFreqCustomDataType
            30 => FeaturePoint::DJIFlyCustomFeature,
            // NavigationModeGroupedDataType
            31 => FeaturePoint::WaypointFeature,
            // GSMissionStatusDataType
            32 => FeaturePoint::WaypointFeature,
            // AppVirtualStickDataType
            33 => {
                if version == 13 {
                    FeaturePoint::BaseFeature
                } else {
                    FeaturePoint::RCFeature
                }
            },
            // GSMissionEventDataType
            34 => FeaturePoint::WaypointFeature,
            // WaypointMissionUploadDataType
            35 => FeaturePoint::WaypointFeature,
            // WaypointUploadDataType
            36 => FeaturePoint::WaypointFeature,
            // WaypointMissionDownloadDataType
            38 => FeaturePoint::WaypointFeature,
            // WaypointDownloadDataType
            39 => FeaturePoint::WaypointFeature,
            // ComponentSerialNumberDataType
            40 => FeaturePoint::BaseFeature,
            // AgricultureDisplayField
            41 => FeaturePoint::AgricultureFeature,
            // AgricultureRadarPush
            43 => FeaturePoint::AgricultureFeature,
            // AgricultureSpray
            44 => FeaturePoint::AgricultureFeature,
            // RTKDifferenceDataType
            45 => FeaturePoint::AgricultureFeature,
            // AgricultureFarmMissionInfo
            46 => FeaturePoint::AgricultureFeature,
            // AgricultureFarmTaskTeamDataType
            47 => FeaturePoint::AgricultureFeature,
            // AgricultureGroundStationPushData
            48 => FeaturePoint::AgricultureFeature,
            // AgricultureOFDMRadioSignalPush
            49 => FeaturePoint::AirLinkFeature,
            // FlightRecordRecover
            50 => FeaturePoint::PlaintextFeature,
            // FlySafeLimitInfoDataType
            51 => {
                if version == 13 {
                    FeaturePoint::AfterSalesFeature
                } else {
                    FeaturePoint::FlySafeFeature
                }
            },
            // FlySafeUnlockLicenseUserActionInfoDataType
            52 => {
                if version == 13 {
                    FeaturePoint::AfterSalesFeature
                } else {
                    FeaturePoint::FlySafeFeature
                }
            },
            // FlightHubInfoDataType
            53 => {
                if version == 13 {
                    FeaturePoint::AfterSalesFeature
                } else {
                    FeaturePoint::FlightHubFeature
                }
            },
            // GOBusinessDataType
            54 => FeaturePoint::DJIFlyCustomFeature,
            // Unknown
            55 => FeaturePoint::SecurityFeature,
            // KeyStorage
            56 => FeaturePoint::PlaintextFeature,
            // HealthGroupDataType
            58 => FeaturePoint::BaseFeature,
            // FCIMUInfoDataType
            59 => FeaturePoint::BaseFeature,
            // RemoteControllerDisplayField
            62 => FeaturePoint::RCFeature,
            // FlightControllerCommonOSDField
            63 => FeaturePoint::BaseFeature,
            // Default
            _ => FeaturePoint::PlaintextFeature,
        }
    }

    /// The feature point that protects records of type `record_type` in a
    /// log of format `version`.
    pub fn from_record_type(record_type: u8, version: u8) -> (r: Self)
        ensures
            r == FeaturePoint::spec_from_record_type(record_type, version),
    {
        reveal(FeaturePoint::spec_from_record_type);
        match record_type {
            // OSDFlightRecordDataType
            1 => FeaturePoint::BaseFeature,
            // OSDHomeFlightRecordDataType
            2 => FeaturePoint::BaseFeature,
            // GimbalFlightRecordDataType
            3 => {
                if version == 13 {
                    FeaturePoint::BaseFeature
                } else {
                    FeaturePoint::GimbalFeature
                }
            },
            // RCFlightRecordDataType
            4 => {
                if version == 13 {
                    FeaturePoint::BaseFeature
                } else {
                    FeaturePoint::RCFeature
                }
            },
            // CustomFlightRecordDataType
            5 => FeaturePoint::DJIFlyCustomFeature,
            // MCTripodStateFlightRecordDataType
            6 => FeaturePoint::BaseFeature,
            // CenterBatteryFlightRecordDataType
            7 => {
                if version == 13 {
                    FeaturePoint::BaseFeature
                } else {
                    FeaturePoint::BatteryFeature
                }
            },
            // PushedBatteryFlightRecordDataType
            8 => {
                if version == 13 {
                    FeaturePoint::BaseFeature
                } else {
                    FeaturePoint::BatteryFeature
                }
            },
            // ShowTipsFlightRecordDataType
            9 => FeaturePoint::DJIFlyCustomFeature,
            // ShowWarningFlightRecordDataType
            10 => FeaturePoint::DJIFlyCustomFeature,
            // RCPushGPSFlightRecordDataType
            11 => {
                if version == 13 {
                    FeaturePoint::BaseFeature
                } else {
                    FeaturePoint::RCFeature
                }
            },
            // RCDebugDataType
            12 => FeaturePoint::AfterSalesFeature,
            // RecoverInfoDataType
            13 => FeaturePoint::BaseFeature,
            // AppLocationDataType
            14 => FeaturePoint::BaseFeature,
            // FirmwareVersionType
            15 => FeaturePoint::BaseFeature,
            // OFDMDebugDataType
            16 => FeaturePoint::AfterSalesFeature,
            // VisionGroupDataType
            17 => FeaturePoint::VisionFeature,
            // VisionWaringStringDataType
            18 => FeaturePoint::VisionFeature,
            // MCParamDataType
            19 => FeaturePoint::AfterSalesFeature,
            // APPOperationDataType
            20 => FeaturePoint::DJIFlyCustomFeature,
            // AGOSDDataType
            21 => FeaturePoint::AgricultureFeature,
            // SmartBatteryGroupDataType
            22 => {
                if version == 13 {
                    FeaturePoint::AfterSalesFeature
                } else {
                    FeaturePoint::BatteryFeature
                }
            },
            // ShowSeriousWarningFlightRecordDataType
            24 => FeaturePoint::DJIFlyCustomFeature,
            // CameraInfoFlightRecordDataType
            25 => {
                if version == 13 {
                    FeaturePoint::BaseFeature
                } else {
                    FeaturePoint::CameraFeature
                }
            },
            // ADSBFlightDataDataType
            26 => FeaturePoint::AfterSalesFeature,
            // ADSBFlightOriginalDataType
            27 => FeaturePoint::AfterSalesFeature,
            // FlyForbidDBuuidDataType
            28 => {
                if version == 13 {
                    FeaturePoint::AfterSalesFeature
                } else {
                    FeaturePoint::FlySafeFeature
                }
            },
            // AppSpecialControlJoyStickDataType
            29 => {
                if version == 13 {
                    FeaturePoint::BaseFeature
                } else {
                    FeaturePoint::RCFeature
                }
            },
            // AppLowFreqCustomDataType
            30 => FeaturePoint::DJIFlyCustomFeature,
            // NavigationModeGroupedDataType
            31 => FeaturePoint::WaypointFeature,
            // GSMissionStatusDataType
            32 => FeaturePoint::WaypointFeature,
            // AppVirtualStickDataType
            33 => {
                if version == 13 {
                    FeaturePoint::BaseFeature
                } else {
                    FeaturePoint::RCFeature
                }
            },
            // GSMissionEventDataType
            34 => FeaturePoint::WaypointFeature,
            // WaypointMissionUploadDataType
            35 => FeaturePoint::WaypointFeature,
            // WaypointUploadDataType
            36 => FeaturePoint::WaypointFeature,
            // WaypointMissionDownloadDataType
            38 => FeaturePoint::WaypointFeature,
            // WaypointDownloadDataType
            39 => FeaturePoint::WaypointFeature,
            // ComponentSerialNumberDataType
            40 => FeaturePoint::BaseFeature,
            // AgricultureDisplayField
            41 => FeaturePoint::AgricultureFeature,
            // AgricultureRadarPush
            43 => FeaturePoint::AgricultureFeature,
            // AgricultureSpray
            44 => FeaturePoint::AgricultureFeature,
            // RTKDifferenceDataType
            45 => FeaturePoint::AgricultureFeature,
            // AgricultureFarmMissionInfo
            46 => FeaturePoint::AgricultureFeature,
            // AgricultureFarmTaskTeamDataType
            47 => FeaturePoint::AgricultureFeature,
            // AgricultureGroundStationPushData
            48 => FeaturePoint::AgricultureFeature,
            // AgricultureOFDMRadioSignalPush
            49 => FeaturePoint::AirLinkFeature,
            // FlightRecordRecover
            50 => FeaturePoint::PlaintextFeature,
            // FlySafeLimitInfoDataType
            51 => {
                if version == 13 {
                    FeaturePoint::AfterSalesFeature
                } else {
                    FeaturePoint::FlySafeFeature
                }
            },
            // FlySafeUnlockLicenseUserActionInfoDataType
            52 => {
                if version == 13 {
                    FeaturePoint::AfterSalesFeature
                } else {
                    FeaturePoint::FlySafeFeature
                }
            },
            // FlightHubInfoDataType
            53 => {
                if version == 13 {
                    FeaturePoint::AfterSalesFeature
                } else {
                    FeaturePoint::FlightHubFeature
                }
            },
            // GOBusinessDataType
            54 => FeaturePoint::DJIFlyCustomFeature,
            // Unknown
            55 => FeaturePoint::SecurityFeature,
            // KeyStorage
            56 => FeaturePoint::PlaintextFeature,
            // HealthGroupDataType
            58 => FeaturePoint::BaseFeature,
            // FCIMUInfoDataType
            59 => FeaturePoint::BaseFeature,
            // RemoteControllerDisplayField
            62 => FeaturePoint::RCFeature,
            // FlightControllerCommonOSDField
            63 => FeaturePoint::BaseFeature,
            // Default
            _ => FeaturePoint::PlaintextFeature,
        }
    }
}

/// The number of each feature point, the one that ends its name on the
/// keychain service's wire: Base 1, Vision 2, Waypoint 3, Agriculture 4,
/// AirLink 5, AfterSales 6, DJIFlyCustom 7, Plaintext 8, FlightHub 9,
/// Gimbal 10, RC 11, Camera 12, Battery 13, FlySafe 14, Security 15.
pub proof fn lemma_feature_point_numbers()
    ensures
        FeaturePoint::BaseFeature.spec_code() == 1,
        FeaturePoint::spec_from_code(1) == Some(FeaturePoint::BaseFeature),
        FeaturePoint::VisionFeature.spec_code() == 2,
        FeaturePoint::spec_from_code(2) == Some(FeaturePoint::VisionFeature),
        FeaturePoint::WaypointFeature.spec_code() == 3,
        FeaturePoint::spec_from_code(3) == Some(FeaturePoint::WaypointFeature),
        FeaturePoint::AgricultureFeature.spec_code() == 4,
        FeaturePoint::spec_from_code(4) == Some(FeaturePoint::AgricultureFeature),
        FeaturePoint::AirLinkFeature.spec_code() == 5,
        FeaturePoint::spec_from_code(5) == Some(FeaturePoint::AirLinkFeature),
        FeaturePoint::AfterSalesFeature.spec_code() == 6,
        FeaturePoint::spec_from_code(6) == Some(FeaturePoint::AfterSalesFeature),
        FeaturePoint::DJIFlyCustomFeature.spec_code() == 7,
        FeaturePoint::spec_from_code(7) == Some(FeaturePoint::DJIFlyCustomFeature),
        FeaturePoint::PlaintextFeature.spec_code() == 8,
        FeaturePoint::spec_from_code(8) == Some(FeaturePoint::PlaintextFeature),
        FeaturePoint::FlightHubFeature.spec_code() == 9,
        FeaturePoint::spec_from_code(9) == Some(FeaturePoint::FlightHubFeature),
        FeaturePoint::GimbalFeature.spec_code() == 10,
        FeaturePoint::spec_from_code(10) == Some(FeaturePoint::GimbalFeature),
        FeaturePoint::RCFeature.spec_code() == 11,
        FeaturePoint::spec_from_code(11) == Some(FeaturePoint::RCFeature),
        FeaturePoint::CameraFeature.spec_code() == 12,
        FeaturePoint::spec_from_code(12) == Some(FeaturePoint::CameraFeature),
        FeaturePoint::BatteryFeature.spec_code() == 13,
        FeaturePoint::spec_from_code(13) == Some(FeaturePoint::BatteryFeature),
        FeaturePoint::FlySafeFeature.spec_code() == 14,
        FeaturePoint::spec_from_code(14) == Some(FeaturePoint::FlySafeFeature),
        FeaturePoint::SecurityFeature.spec_code() == 15,
        FeaturePoint::spec_from_code(15) == Some(FeaturePoint::SecurityFeature),
{
}

/// Which keychain entry protects each record type: the feature point of
/// every record type, for logs of format 13 and for the formats after it.
/// Types that no feature point protects are read in plain text.
pub proof fn lemma_record_type_feature_points(t: u8, version: u8)
    ensures
        (t == 1 || t == 2 || t == 6 || t == 13 || t == 14 || t == 15 || t == 40 || t == 58 || t == 59 || t == 63) ==> FeaturePoint::spec_from_record_type(t, version) == FeaturePoint::BaseFeature,
        (t == 5 || t == 9 || t == 10 || t == 20 || t == 24 || t == 30 || t == 54) ==> FeaturePoint::spec_from_record_type(t, version) == FeaturePoint::DJIFlyCustomFeature,
        (t == 12 || t == 16 || t == 19 || t == 26 || t == 27) ==> FeaturePoint::spec_from_record_type(t, version) == FeaturePoint::AfterSalesFeature,
        (t == 17 || t == 18) ==> FeaturePoint::spec_from_record_type(t, version) == FeaturePoint::VisionFeature,
        (t == 21 || t == 41 || t == 43 || t == 44 || t == 45 || t == 46 || t == 47 || t == 48) ==> FeaturePoint::spec_from_record_type(t, version) == FeaturePoint::AgricultureFeature,
        (t == 31 || t == 32 || t == 34 || t == 35 || t == 36 || t == 38 || t == 39) ==> FeaturePoint::spec_from_record_type(t, version) == FeaturePoint::WaypointFeature,
        t == 49 ==> FeaturePoint::spec_from_record_type(t, version) == FeaturePoint::AirLinkFeature,
        (t == 50 || t == 56) ==> FeaturePoint::spec_from_record_type(t, version) == FeaturePoint::PlaintextFeature,
        t == 55 ==> FeaturePoint::spec_from_record_type(t, version) == FeaturePoint::SecurityFeature,
        t == 62 ==> FeaturePoint::spec_from_record_type(t, version) == FeaturePoint::RCFeature,
        version == 13 && (t == 3 || t == 4 || t == 7 || t == 8 || t == 11 || t == 25 || t == 29 || t == 33) ==> FeaturePoint::spec_from_record_type(t, version) == FeaturePoint::BaseFeature,
        version == 13 && (t == 22 || t == 28 || t == 51 || t == 52 || t == 53) ==> FeaturePoint::spec_from_record_type(t, version) == FeaturePoint::AfterSalesFeature,
        version != 13 && (t == 3) ==> FeaturePoint::spec_from_record_type(t, version) == FeaturePoint::GimbalFeature,
        version != 13 && (t == 4 || t == 11 || t == 29 || t == 33) ==> FeaturePoint::spec_from_record_type(t, version) == FeaturePoint::RCFeature,
        version != 13 && (t == 7 || t == 8 || t == 22) ==> FeaturePoint::spec_from_record_type(t, version) == FeaturePoint::BatteryFeature,
        version != 13 && (t == 25) ==> FeaturePoint::spec_from_record_type(t, version) == FeaturePoint::CameraFeature,
        version != 13 && (t == 28 || t == 51 || t == 52) ==> FeaturePoint::spec_from_record_type(t, version) == FeaturePoint::FlySafeFeature,
        version != 13 && (t == 53) ==> FeaturePoint::spec_from_record_type(t, version) == FeaturePoint::FlightHubFeature,
        !(t == 1 || t == 2 || t == 3 || t == 4 || t == 5 || t == 6 || t == 7 || t == 8 || t == 9 || t == 10 || t == 11 || t == 12 || t == 13 || t == 14 || t == 15 || t == 16 || t == 17 || t == 18 || t == 19 || t == 20 || t == 21 || t == 22 || t == 24 || t == 25 || t == 26 || t == 27 || t == 28 || t == 29 || t == 30 || t == 31 || t == 32 || t == 33 || t == 34 || t == 35 || t == 36 || t == 38 || t == 39 || t == 40 || t == 41 || t == 43 || t == 44 || t == 45 || t == 46 || t == 47 || t == 48 || t == 49 || t == 50 || t == 51 || t == 52 || t == 53 || t == 54 || t == 55 || t == 56 || t == 58 || t == 59 || t == 62 || t == 63) ==> FeaturePoint::spec_from_record_type(t, version) == FeaturePoint::PlaintextFeature,
{
    reveal(FeaturePoint::spec_from_record_type);
}


/// Every feature point has a wire value, and reading it back gives the
/// feature point.
pub proof fn lemma_feature_point_code_round_trip(fp: FeaturePoint)
    ensures
        1 <= fp.spec_code() <= 15,
        FeaturePoint::spec_from_code(fp.spec_code()) == Some(fp),
{
}

/// A wire value that reads as a feature point is that feature point's value.
pub proof fn lemma_feature_point_from_code(code: u16)
    ensures
        FeaturePoint::spec_from_code(code) matches Some(fp) ==> fp.spec_code() == code,
        FeaturePoint::spec_from_code(code) is None <==> !(1 <= code <= 15),
{
}


impl FeaturePoint {
    /// The name of a feature point on the keychain service's wire.
    pub open spec fn spec_wire_name(self) -> Seq<char> {
        match self {
            FeaturePoint::BaseFeature => "FR_Standardization_Feature_Base_1"@,
            FeaturePoint::VisionFeature => "FR_Standardization_Feature_Vision_2"@,
            FeaturePoint::WaypointFeature => "FR_Standardization_Feature_Waypoint_3"@,
            FeaturePoint::AgricultureFeature => "FR_Standardization_Feature_Agriculture_4"@,
            FeaturePoint::AirLinkFeature => "FR_Standardization_Feature_AirLink_5"@,
            FeaturePoint::AfterSalesFeature => "FR_Standardization_Feature_AfterSales_6"@,
            FeaturePoint::DJIFlyCustomFeature => "FR_Standardization_Feature_DJIFlyCustom_7"@,
            FeaturePoint::PlaintextFeature => "FR_Standardization_Feature_Plaintext_8"@,
            FeaturePoint::FlightHubFeature => "FR_Standardization_Feature_FlightHub_9"@,
            FeaturePoint::GimbalFeature => "FR_Standardization_Feature_Gimbal_10"@,
            FeaturePoint::RCFeature => "FR_Standardization_Feature_RC_11"@,
            FeaturePoint::CameraFeature => "FR_Standardization_Feature_Camera_12"@,
            FeaturePoint::BatteryFeature => "FR_Standardization_Feature_Battery_13"@,
            FeaturePoint::FlySafeFeature => "FR_Standardization_Feature_FlySafe_14"@,
            FeaturePoint::SecurityFeature => "FR_Standardization_Feature_Security_15"@,
        }
    }

    /// The feature point whose wire name is `name`, if any.
    pub open spec fn spec_from_wire_name(name: Seq<char>) -> Option<FeaturePoint> {
        if name == "FR_Standardization_Feature_Base_1"@ {
            Some(FeaturePoint::BaseFeature)
        } else         if name == "FR_Standardization_Feature_Vision_2"@ {
            Some(FeaturePoint::VisionFeature)
        } else         if name == "FR_Standardization_Feature_Waypoint_3"@ {
            Some(FeaturePoint::WaypointFeature)
        } else         if name == "FR_Standardization_Feature_Agriculture_4"@ {
            Some(FeaturePoint::AgricultureFeature)
        } else         if name == "FR_Standardization_Feature_AirLink_5"@ {
            Some(FeaturePoint::AirLinkFeature)
        } else         if name == "FR_Standardization_Feature_AfterSales_6"@ {
            Some(FeaturePoint::AfterSalesFeature)
        } else         if name == "FR_Standardization_Feature_DJIFlyCustom_7"@ {
            Some(FeaturePoint::DJIFlyCustomFeature)
        } else         if name == "FR_Standardization_Feature_Plaintext_8"@ {
            Some(FeaturePoint::PlaintextFeature)
        } else         if name == "FR_Standardization_Feature_FlightHub_9"@ {
            Some(FeaturePoint::FlightHubFeature)
        } else         if name == "FR_Standardization_Feature_Gimbal_10"@ {
            Some(FeaturePoint::GimbalFeature)
        } else         if name == "FR_Standardization_Feature_RC_11"@ {
            Some(FeaturePoint::RCFeature)
        } else         if name == "FR_Standardization_Feature_Camera_12"@ {
            Some(FeaturePoint::CameraFeature)
        } else         if name == "FR_Standardization_Feature_Battery_13"@ {
            Some(FeaturePoint::BatteryFeature)
        } else         if name == "FR_Standardization_Feature_FlySafe_14"@ {
            Some(FeaturePoint::FlySafeFeature)
        } else         if name == "FR_Standardization_Feature_Security_15"@ {
            Some(FeaturePoint::SecurityFeature)
        } else {
            None
        }
    }

    /// The wire name of a feature point (see `spec_wire_name`).
    pub fn wire_name(&self) -> (r: String)
        ensures
            r@ == self.spec_wire_name(),
    {
        match self {
            FeaturePoint::BaseFeature => "FR_Standardization_Feature_Base_1".to_string(),
            FeaturePoint::VisionFeature => "FR_Standardization_Feature_Vision_2".to_string(),
            FeaturePoint::WaypointFeature => "FR_Standardization_Feature_Waypoint_3".to_string(),
            FeaturePoint::AgricultureFeature => "FR_Standardization_Feature_Agriculture_4".to_string(),
            FeaturePoint::AirLinkFeature => "FR_Standardization_Feature_AirLink_5".to_string(),
            FeaturePoint::AfterSalesFeature => "FR_Standardization_Feature_AfterSales_6".to_string(),
            FeaturePoint::DJIFlyCustomFeature => "FR_Standardization_Feature_DJIFlyCustom_7".to_string(),
            FeaturePoint::PlaintextFeature => "FR_Standardization_Feature_Plaintext_8".to_string(),
            FeaturePoint::FlightHubFeature => "FR_Standardization_Feature_FlightHub_9".to_string(),
            FeaturePoint::GimbalFeature => "FR_Standardization_Feature_Gimbal_10".to_string(),
            FeaturePoint::RCFeature => "FR_Standardization_Feature_RC_11".to_string(),
            FeaturePoint::CameraFeature => "FR_Standardization_Feature_Camera_12".to_string(),
            FeaturePoint::BatteryFeature => "FR_Standardization_Feature_Battery_13".to_string(),
            FeaturePoint::FlySafeFeature => "FR_Standardization_Feature_FlySafe_14".to_string(),
            FeaturePoint::SecurityFeature => "FR_Standardization_Feature_Security_15".to_string(),
        }
    }

    /// The feature point whose wire name is `name` (see
    /// `spec_from_wire_name`).
    pub fn from_wire_name(name: &String) -> (r: Option<FeaturePoint>)
        ensures
            r == FeaturePoint::spec_from_wire_name(name@),
    {
        if *name == "FR_Standardization_Feature_Base_1".to_string() {
            Some(FeaturePoint::BaseFeature)
        } else         if *name == "FR_Standardization_Feature_Vision_2".to_string() {
            Some(FeaturePoint::VisionFeature)
        } else         if *name == "FR_Standardization_Feature_Waypoint_3".to_string() {
            Some(FeaturePoint::WaypointFeature)
        } else         if *name == "FR_Standardization_Feature_Agriculture_4".to_string() {
            Some(FeaturePoint::AgricultureFeature)
        } else         if *name == "FR_Standardization_Feature_AirLink_5".to_string() {
            Some(FeaturePoint::AirLinkFeature)
        } else         if *name == "FR_Standardization_Feature_AfterSales_6".to_string() {
            Some(FeaturePoint::AfterSalesFeature)
        } else         if *name == "FR_Standardization_Feature_DJIFlyCustom_7".to_string() {
            Some(FeaturePoint::DJIFlyCustomFeature)
        } else         if *name == "FR_Standardization_Feature_Plaintext_8".to_string() {
            Some(FeaturePoint::PlaintextFeature)
        } else         if *name == "FR_Standardization_Feature_FlightHub_9".to_string() {
            Some(FeaturePoint::FlightHubFeature)
        } else         if *name == "FR_Standardization_Feature_Gimbal_10".to_string() {
            Some(FeaturePoint::GimbalFeature)
        } else         if *name == "FR_Standardization_Feature_RC_11".to_string() {
            Some(FeaturePoint::RCFeature)
        } else         if *name == "FR_Standardization_Feature_Camera_12".to_string() {
            Some(FeaturePoint::CameraFeature)
        } else         if *name == "FR_Standardization_Feature_Battery_13".to_string() {
            Some(FeaturePoint::BatteryFeature)
        } else         if *name == "FR_Standardization_Feature_FlySafe_14".to_string() {
            Some(FeaturePoint::FlySafeFeature)
        } else         if *name == "FR_Standardization_Feature_Security_15".to_string() {
            Some(FeaturePoint::SecurityFeature)
        } else {
            None
        }
    }
}

/// Writing a feature point's wire name and reading it back gives the
/// feature point.
pub proof fn lemma_feature_point_wire_name_round_trip(fp: FeaturePoint)
    ensures
        FeaturePoint::spec_from_wire_name(fp.spec_wire_name()) == Some(fp),
{
    match fp {
            FeaturePoint::BaseFeature => {
                reveal_strlit("FR_Standardization_Feature_Base_1");
            },
            FeaturePoint::VisionFeature => {
                reveal_strlit("FR_Standardization_Feature_Vision_2");
                reveal_strlit("FR_Standardization_Feature_Base_1");
                assert("FR_Standardization_Feature_Base_1"@[27] != "FR_Standardization_Feature_Vision_2"@[27]);
            },
            FeaturePoint::WaypointFeature => {
                reveal_strlit("FR_Standardization_Feature_Waypoint_3");
                reveal_strlit("FR_Standardization_Feature_Base_1");
                assert("FR_Standardization_Feature_Base_1"@[27] != "FR_Standardization_Feature_Waypoint_3"@[27]);
                reveal_strlit("FR_Standardization_Feature_Vision_2");
                assert("FR_Standardization_Feature_Vision_2"@[27] != "FR_Standardization_Feature_Waypoint_3"@[27]);
            },
            FeaturePoint::AgricultureFeature => {
                reveal_strlit("FR_Standardization_Feature_Agriculture_4");
                reveal_strlit("FR_Standardization_Feature_Base_1");
                assert("FR_Standardization_Feature_Base_1"@[27] != "FR_Standardization_Feature_Agriculture_4"@[27]);
                reveal_strlit("FR_Standardization_Feature_Vision_2");
                assert("FR_Standardization_Feature_Vision_2"@[27] != "FR_Standardization_Feature_Agriculture_4"@[27]);
                reveal_strlit("FR_Standardization_Feature_Waypoint_3");
                assert("FR_Standardization_Feature_Waypoint_3"@[27] != "FR_Standardization_Feature_Agriculture_4"@[27]);
            },
            FeaturePoint::AirLinkFeature => {
                reveal_strlit("FR_Standardization_Feature_AirLink_5");
                reveal_strlit("FR_Standardization_Feature_Base_1");
                assert("FR_Standardization_Feature_Base_1"@[27] != "FR_Standardization_Feature_AirLink_5"@[27]);
                reveal_strlit("FR_Standardization_Feature_Vision_2");
                assert("FR_Standardization_Feature_Vision_2"@[27] != "FR_Standardization_Feature_AirLink_5"@[27]);
                reveal_strlit("FR_Standardization_Feature_Waypoint_3");
                assert("FR_Standardization_Feature_Waypoint_3"@[27] != "FR_Standardization_Feature_AirLink_5"@[27]);
                reveal_strlit("FR_Standardization_Feature_Agriculture_4");
                assert("FR_Standardization_Feature_Agriculture_4"@[28] != "FR_Standardization_Feature_AirLink_5"@[28]);
            },
            FeaturePoint::AfterSalesFeature => {
                reveal_strlit("FR_Standardization_Feature_AfterSales_6");
                reveal_strlit("FR_Standardization_Feature_Base_1");
                assert("FR_Standardization_Feature_Base_1"@[27] != "FR_Standardization_Feature_AfterSales_6"@[27]);
                reveal_strlit("FR_Standardization_Feature_Vision_2");
                assert("FR_Standardization_Feature_Vision_2"@[27] != "FR_Standardization_Feature_AfterSales_6"@[27]);
                reveal_strlit("FR_Standardization_Feature_Waypoint_3");
                assert("FR_Standardization_Feature_Waypoint_3"@[27] != "FR_Standardization_Feature_AfterSales_6"@[27]);
                reveal_strlit("FR_Standardization_Feature_Agriculture_4");
                assert("FR_Standardization_Feature_Agriculture_4"@[28] != "FR_Standardization_Feature_AfterSales_6"@[28]);
                reveal_strlit("FR_Standardization_Feature_AirLink_5");
                assert("FR_Standardization_Feature_AirLink_5"@[28] != "FR_Standardization_Feature_AfterSales_6"@[28]);
            },
            FeaturePoint::DJIFlyCustomFeature => {
                reveal_strlit("FR_Standardization_Feature_DJIFlyCustom_7");
                reveal_strlit("FR_Standardization_Feature_Base_1");
                assert("FR_Standardization_Feature_Base_1"@[27] != "FR_Standardization_Feature_DJIFlyCustom_7"@[27]);
                reveal_strlit("FR_Standardization_Feature_Vision_2");
                assert("FR_Standardization_Feature_Vision_2"@[27] != "FR_Standardization_Feature_DJIFlyCustom_7"@[27]);
                reveal_strlit("FR_Standardization_Feature_Waypoint_3");
                assert("FR_Standardization_Feature_Waypoint_3"@[27] != "FR_Standardization_Feature_DJIFlyCustom_7"@[27]);
                reveal_strlit("FR_Standardization_Feature_Agriculture_4");
                assert("FR_Standardization_Feature_Agriculture_4"@[27] != "FR_Standardization_Feature_DJIFlyCustom_7"@[27]);
                reveal_strlit("FR_Standardization_Feature_AirLink_5");
                assert("FR_Standardization_Feature_AirLink_5"@[27] != "FR_Standardization_Feature_DJIFlyCustom_7"@[27]);
                reveal_strlit("FR_Standardization_Feature_AfterSales_6");
                assert("FR_Standardization_Feature_AfterSales_6"@[27] != "FR_Standardization_Feature_DJIFlyCustom_7"@[27]);
            },
            FeaturePoint::PlaintextFeature => {
                reveal_strlit("FR_Standardization_Feature_Plaintext_8");
                reveal_strlit("FR_Standardization_Feature_Base_1");
                assert("FR_Standardization_Feature_Base_1"@[27] != "FR_Standardization_Feature_Plaintext_8"@[27]);
                reveal_strlit("FR_Standardization_Feature_Vision_2");
                assert("FR_Standardization_Feature_Vision_2"@[27] != "FR_Standardization_Feature_Plaintext_8"@[27]);
                reveal_strlit("FR_Standardization_Feature_Waypoint_3");
                assert("FR_Standardization_Feature_Waypoint_3"@[27] != "FR_Standardization_Feature_Plaintext_8"@[27]);
                reveal_strlit("FR_Standardization_Feature_Agriculture_4");
                assert("FR_Standardization_Feature_Agriculture_4"@[27] != "FR_Standardization_Feature_Plaintext_8"@[27]);
                reveal_strlit("FR_Standardization_Feature_AirLink_5");
                assert("FR_Standardization_Feature_AirLink_5"@[27] != "FR_Standardization_Feature_Plaintext_8"@[27]);
                reveal_strlit("FR_Standardization_Feature_AfterSales_6");
                assert("FR_Standardization_Feature_AfterSales_6"@[27] != "FR_Standardization_Feature_Plaintext_8"@[27]);
                reveal_strlit("FR_Standardization_Feature_DJIFlyCustom_7");
                assert("FR_Standardization_Feature_DJIFlyCustom_7"@[27] != "FR_Standardization_Feature_Plaintext_8"@[27]);
            },
            FeaturePoint::FlightHubFeature => {
                reveal_strlit("FR_Standardization_Feature_FlightHub_9");
                reveal_strlit("FR_Standardization_Feature_Base_1");
                assert("FR_Standardization_Feature_Base_1"@[27] != "FR_Standardization_Feature_FlightHub_9"@[27]);
                reveal_strlit("FR_Standardization_Feature_Vision_2");
                assert("FR_Standardization_Feature_Vision_2"@[27] != "FR_Standardization_Feature_FlightHub_9"@[27]);
                reveal_strlit("FR_Standardization_Feature_Waypoint_3");
                assert("FR_Standardization_Feature_Waypoint_3"@[27] != "FR_Standardization_Feature_FlightHub_9"@[27]);
                reveal_strlit("FR_Standardization_Feature_Agriculture_4");
                assert("FR_Standardization_Feature_Agriculture_4"@[27] != "FR_Standardization_Feature_FlightHub_9"@[27]);
                reveal_strlit("FR_Standardization_Feature_AirLink_5");
                assert("FR_Standardization_Feature_AirLink_5"@[27] != "FR_Standardization_Feature_FlightHub_9"@[27]);
                reveal_strlit("FR_Standardization_Feature_AfterSales_6");
                assert("FR_Standardization_Feature_AfterSales_6"@[27] != "FR_Standardization_Feature_FlightHub_9"@[27]);
                reveal_strlit("FR_Standardization_Feature_DJIFlyCustom_7");
                assert("FR_Standardization_Feature_DJIFlyCustom_7"@[27] != "FR_Standardization_Feature_FlightHub_9"@[27]);
                reveal_strlit("FR_Standardization_Feature_Plaintext_8");
                assert("FR_Standardization_Feature_Plaintext_8"@[27] != "FR_Standardization_Feature_FlightHub_9"@[27]);
            },
            FeaturePoint::GimbalFeature => {
                reveal_strlit("FR_Standardization_Feature_Gimbal_10");
                reveal_strlit("FR_Standardization_Feature_Base_1");
                assert("FR_Standardization_Feature_Base_1"@[27] != "FR_Standardization_Feature_Gimbal_10"@[27]);
                reveal_strlit("FR_Standardization_Feature_Vision_2");
                assert("FR_Standardization_Feature_Vision_2"@[27] != "FR_Standardization_Feature_Gimbal_10"@[27]);
                reveal_strlit("FR_Standardization_Feature_Waypoint_3");
                assert("FR_Standardization_Feature_Waypoint_3"@[27] != "FR_Standardization_Feature_Gimbal_10"@[27]);
                reveal_strlit("FR_Standardization_Feature_Agriculture_4");
                assert("FR_Standardization_Feature_Agriculture_4"@[27] != "FR_Standardization_Feature_Gimbal_10"@[27]);
                reveal_strlit("FR_Standardization_Feature_AirLink_5");
                assert("FR_Standardization_Feature_AirLink_5"@[27] != "FR_Standardization_Feature_Gimbal_10"@[27]);
                reveal_strlit("FR_Standardization_Feature_AfterSales_6");
                assert("FR_Standardization_Feature_AfterSales_6"@[27] != "FR_Standardization_Feature_Gimbal_10"@[27]);
                reveal_strlit("FR_Standardization_Feature_DJIFlyCustom_7");
                assert("FR_Standardization_Feature_DJIFlyCustom_7"@[27] != "FR_Standardization_Feature_Gimbal_10"@[27]);
                reveal_strlit("FR_Standardization_Feature_Plaintext_8");
                assert("FR_Standardization_Feature_Plaintext_8"@[27] != "FR_Standardization_Feature_Gimbal_10"@[27]);
                reveal_strlit("FR_Standardization_Feature_FlightHub_9");
                assert("FR_Standardization_Feature_FlightHub_9"@[27] != "FR_Standardization_Feature_Gimbal_10"@[27]);
            },
            FeaturePoint::RCFeature => {
                reveal_strlit("FR_Standardization_Feature_RC_11");
                reveal_strlit("FR_Standardization_Feature_Base_1");
                assert("FR_Standardization_Feature_Base_1"@[27] != "FR_Standardization_Feature_RC_11"@[27]);
                reveal_strlit("FR_Standardization_Feature_Vision_2");
                assert("FR_Standardization_Feature_Vision_2"@[27] != "FR_Standardization_Feature_RC_11"@[27]);
                reveal_strlit("FR_Standardization_Feature_Waypoint_3");
                assert("FR_Standardization_Feature_Waypoint_3"@[27] != "FR_Standardization_Feature_RC_11"@[27]);
                reveal_strlit("FR_Standardization_Feature_Agriculture_4");
                assert("FR_Standardization_Feature_Agriculture_4"@[27] != "FR_Standardization_Feature_RC_11"@[27]);
                reveal_strlit("FR_Standardization_Feature_AirLink_5");
                assert("FR_Standardization_Feature_AirLink_5"@[27] != "FR_Standardization_Feature_RC_11"@[27]);
                reveal_strlit("FR_Standardization_Feature_AfterSales_6");
                assert("FR_Standardization_Feature_AfterSales_6"@[27] != "FR_Standardization_Feature_RC_11"@[27]);
                reveal_strlit("FR_Standardization_Feature_DJIFlyCustom_7");
                assert("FR_Standardization_Feature_DJIFlyCustom_7"@[27] != "FR_Standardization_Feature_RC_11"@[27]);
                reveal_strlit("FR_Standardization_Feature_Plaintext_8");
                assert("FR_Standardization_Feature_Plaintext_8"@[27] != "FR_Standardization_Feature_RC_11"@[27]);
                reveal_strlit("FR_Standardization_Feature_FlightHub_9");
                assert("FR_Standardization_Feature_FlightHub_9"@[27] != "FR_Standardization_Feature_RC_11"@[27]);
                reveal_strlit("FR_Standardization_Feature_Gimbal_10");
                assert("FR_Standardization_Feature_Gimbal_10"@[27] != "FR_Standardization_Feature_RC_11"@[27]);
            },
            FeaturePoint::CameraFeature => {
                reveal_strlit("FR_Standardization_Feature_Camera_12");
                reveal_strlit("FR_Standardization_Feature_Base_1");
                assert("FR_Standardization_Feature_Base_1"@[27] != "FR_Standardization_Feature_Camera_12"@[27]);
                reveal_strlit("FR_Standardization_Feature_Vision_2");
                assert("FR_Standardization_Feature_Vision_2"@[27] != "FR_Standardization_Feature_Camera_12"@[27]);
                reveal_strlit("FR_Standardization_Feature_Waypoint_3");
                assert("FR_Standardization_Feature_Waypoint_3"@[27] != "FR_Standardization_Feature_Camera_12"@[27]);
                reveal_strlit("FR_Standardization_Feature_Agriculture_4");
                assert("FR_Standardization_Feature_Agriculture_4"@[27] != "FR_Standardization_Feature_Camera_12"@[27]);
                reveal_strlit("FR_Standardization_Feature_AirLink_5");
                assert("FR_Standardization_Feature_AirLink_5"@[27] != "FR_Standardization_Feature_Camera_12"@[27]);
                reveal_strlit("FR_Standardization_Feature_AfterSales_6");
                assert("FR_Standardization_Feature_AfterSales_6"@[27] != "FR_Standardization_Feature_Camera_12"@[27]);
                reveal_strlit("FR_Standardization_Feature_DJIFlyCustom_7");
                assert("FR_Standardization_Feature_DJIFlyCustom_7"@[27] != "FR_Standardization_Feature_Camera_12"@[27]);
                reveal_strlit("FR_Standardization_Feature_Plaintext_8");
                assert("FR_Standardization_Feature_Plaintext_8"@[27] != "FR_Standardization_Feature_Camera_12"@[27]);
                reveal_strlit("FR_Standardization_Feature_FlightHub_9");
                assert("FR_Standardization_Feature_FlightHub_9"@[27] != "FR_Standardization_Feature_Camera_12"@[27]);
                reveal_strlit("FR_Standardization_Feature_Gimbal_10");
                assert("FR_Standardization_Feature_Gimbal_10"@[27] != "FR_Standardization_Feature_Camera_12"@[27]);
                reveal_strlit("FR_Standardization_Feature_RC_11");
                assert("FR_Standardization_Feature_RC_11"@[27] != "FR_Standardization_Feature_Camera_12"@[27]);
            },
            FeaturePoint::BatteryFeature => {
                reveal_strlit("FR_Standardization_Feature_Battery_13");
                reveal_strlit("FR_Standardization_Feature_Base_1");
                assert("FR_Standardization_Feature_Base_1"@[29] != "FR_Standardization_Feature_Battery_13"@[29]);
                reveal_strlit("FR_Standardization_Feature_Vision_2");
                assert("FR_Standardization_Feature_Vision_2"@[27] != "FR_Standardization_Feature_Battery_13"@[27]);
                reveal_strlit("FR_Standardization_Feature_Waypoint_3");
                assert("FR_Standardization_Feature_Waypoint_3"@[27] != "FR_Standardization_Feature_Battery_13"@[27]);
                reveal_strlit("FR_Standardization_Feature_Agriculture_4");
                assert("FR_Standardization_Feature_Agriculture_4"@[27] != "FR_Standardization_Feature_Battery_13"@[27]);
                reveal_strlit("FR_Standardization_Feature_AirLink_5");
                assert("FR_Standardization_Feature_AirLink_5"@[27] != "FR_Standardization_Feature_Battery_13"@[27]);
                reveal_strlit("FR_Standardization_Feature_AfterSales_6");
                assert("FR_Standardization_Feature_AfterSales_6"@[27] != "FR_Standardization_Feature_Battery_13"@[27]);
                reveal_strlit("FR_Standardization_Feature_DJIFlyCustom_7");
                assert("FR_Standardization_Feature_DJIFlyCustom_7"@[27] != "FR_Standardization_Feature_Battery_13"@[27]);
                reveal_strlit("FR_Standardization_Feature_Plaintext_8");
                assert("FR_Standardization_Feature_Plaintext_8"@[27] != "FR_Standardization_Feature_Battery_13"@[27]);
                reveal_strlit("FR_Standardization_Feature_FlightHub_9");
                assert("FR_Standardization_Feature_FlightHub_9"@[27] != "FR_Standardization_Feature_Battery_13"@[27]);
                reveal_strlit("FR_Standardization_Feature_Gimbal_10");
                assert("FR_Standardization_Feature_Gimbal_10"@[27] != "FR_Standardization_Feature_Battery_13"@[27]);
                reveal_strlit("FR_Standardization_Feature_RC_11");
                assert("FR_Standardization_Feature_RC_11"@[27] != "FR_Standardization_Feature_Battery_13"@[27]);
                reveal_strlit("FR_Standardization_Feature_Camera_12");
                assert("FR_Standardization_Feature_Camera_12"@[27] != "FR_Standardization_Feature_Battery_13"@[27]);
            },
            FeaturePoint::FlySafeFeature => {
                reveal_strlit("FR_Standardization_Feature_FlySafe_14");
                reveal_strlit("FR_Standardization_Feature_Base_1");
                assert("FR_Standardization_Feature_Base_1"@[27] != "FR_Standardization_Feature_FlySafe_14"@[27]);
                reveal_strlit("FR_Standardization_Feature_Vision_2");
                assert("FR_Standardization_Feature_Vision_2"@[27] != "FR_Standardization_Feature_FlySafe_14"@[27]);
                reveal_strlit("FR_Standardization_Feature_Waypoint_3");
                assert("FR_Standardization_Feature_Waypoint_3"@[27] != "FR_Standardization_Feature_FlySafe_14"@[27]);
                reveal_strlit("FR_Standardization_Feature_Agriculture_4");
                assert("FR_Standardization_Feature_Agriculture_4"@[27] != "FR_Standardization_Feature_FlySafe_14"@[27]);
                reveal_strlit("FR_Standardization_Feature_AirLink_5");
                assert("FR_Standardization_Feature_AirLink_5"@[27] != "FR_Standardization_Feature_FlySafe_14"@[27]);
                reveal_strlit("FR_Standardization_Feature_AfterSales_6");
                assert("FR_Standardization_Feature_AfterSales_6"@[27] != "FR_Standardization_Feature_FlySafe_14"@[27]);
                reveal_strlit("FR_Standardization_Feature_DJIFlyCustom_7");
                assert("FR_Standardization_Feature_DJIFlyCustom_7"@[27] != "FR_Standardization_Feature_FlySafe_14"@[27]);
                reveal_strlit("FR_Standardization_Feature_Plaintext_8");
                assert("FR_Standardization_Feature_Plaintext_8"@[27] != "FR_Standardization_Feature_FlySafe_14"@[27]);
                reveal_strlit("FR_Standardization_Feature_FlightHub_9");
                assert("FR_Standardization_Feature_FlightHub_9"@[29] != "FR_Standardization_Feature_FlySafe_14"@[29]);
                reveal_strlit("FR_Standardization_Feature_Gimbal_10");
                assert("FR_Standardization_Feature_Gimbal_10"@[27] != "FR_Standardization_Feature_FlySafe_14"@[27]);
                reveal_strlit("FR_Standardization_Feature_RC_11");
                assert("FR_Standardization_Feature_RC_11"@[27] != "FR_Standardization_Feature_FlySafe_14"@[27]);
                reveal_strlit("FR_Standardization_Feature_Camera_12");
                assert("FR_Standardization_Feature_Camera_12"@[27] != "FR_Standardization_Feature_FlySafe_14"@[27]);
                reveal_strlit("FR_Standardization_Feature_Battery_13");
                assert("FR_Standardization_Feature_Battery_13"@[27] != "FR_Standardization_Feature_FlySafe_14"@[27]);
            },
            FeaturePoint::SecurityFeature => {
                reveal_strlit("FR_Standardization_Feature_Security_15");
                reveal_strlit("FR_Standardization_Feature_Base_1");
                assert("FR_Standardization_Feature_Base_1"@[27] != "FR_Standardization_Feature_Security_15"@[27]);
                reveal_strlit("FR_Standardization_Feature_Vision_2");
                assert("FR_Standardization_Feature_Vision_2"@[27] != "FR_Standardization_Feature_Security_15"@[27]);
                reveal_strlit("FR_Standardization_Feature_Waypoint_3");
                assert("FR_Standardization_Feature_Waypoint_3"@[27] != "FR_Standardization_Feature_Security_15"@[27]);
                reveal_strlit("FR_Standardization_Feature_Agriculture_4");
                assert("FR_Standardization_Feature_Agriculture_4"@[27] != "FR_Standardization_Feature_Security_15"@[27]);
                reveal_strlit("FR_Standardization_Feature_AirLink_5");
                assert("FR_Standardization_Feature_AirLink_5"@[27] != "FR_Standardization_Feature_Security_15"@[27]);
                reveal_strlit("FR_Standardization_Feature_AfterSales_6");
                assert("FR_Standardization_Feature_AfterSales_6"@[27] != "FR_Standardization_Feature_Security_15"@[27]);
                reveal_strlit("FR_Standardization_Feature_DJIFlyCustom_7");
                assert("FR_Standardization_Feature_DJIFlyCustom_7"@[27] != "FR_Standardization_Feature_Security_15"@[27]);
                reveal_strlit("FR_Standardization_Feature_Plaintext_8");
                assert("FR_Standardization_Feature_Plaintext_8"@[27] != "FR_Standardization_Feature_Security_15"@[27]);
                reveal_strlit("FR_Standardization_Feature_FlightHub_9");
                assert("FR_Standardization_Feature_FlightHub_9"@[27] != "FR_Standardization_Feature_Security_15"@[27]);
                reveal_strlit("FR_Standardization_Feature_Gimbal_10");
                assert("FR_Standardization_Feature_Gimbal_10"@[27] != "FR_Standardization_Feature_Security_15"@[27]);
                reveal_strlit("FR_Standardization_Feature_RC_11");
                assert("FR_Standardization_Feature_RC_11"@[27] != "FR_Standardization_Feature_Security_15"@[27]);
                reveal_strlit("FR_Standardization_Feature_Camera_12");
                assert("FR_Standardization_Feature_Camera_12"@[27] != "FR_Standardization_Feature_Security_15"@[27]);
                reveal_strlit("FR_Standardization_Feature_Battery_13");
                assert("FR_Standardization_Feature_Battery_13"@[27] != "FR_Standardization_Feature_Security_15"@[27]);
                reveal_strlit("FR_Standardization_Feature_FlySafe_14");
                assert("FR_Standardization_Feature_FlySafe_14"@[27] != "FR_Standardization_Feature_Security_15"@[27]);
            },
    }
}

/// A name that no feature point has reads as none.
pub proof fn lemma_feature_point_unknown_wire_name(name: Seq<char>)
    requires
        forall|fp: FeaturePoint| fp.spec_wire_name() != name,
    ensures
        FeaturePoint::spec_from_wire_name(name) is None,
{
    assert(FeaturePoint::BaseFeature.spec_wire_name() != name);
    assert(FeaturePoint::VisionFeature.spec_wire_name() != name);
    assert(FeaturePoint::WaypointFeature.spec_wire_name() != name);
    assert(FeaturePoint::AgricultureFeature.spec_wire_name() != name);
    assert(FeaturePoint::AirLinkFeature.spec_wire_name() != name);
    assert(FeaturePoint::AfterSalesFeature.spec_wire_name() != name);
    assert(FeaturePoint::DJIFlyCustomFeature.spec_wire_name() != name);
    assert(FeaturePoint::PlaintextFeature.spec_wire_name() != name);
    assert(FeaturePoint::FlightHubFeature.spec_wire_name() != name);
    assert(FeaturePoint::GimbalFeature.spec_wire_name() != name);
    assert(FeaturePoint::RCFeature.spec_wire_name() != name);
    assert(FeaturePoint::CameraFeature.spec_wire_name() != name);
    assert(FeaturePoint::BatteryFeature.spec_wire_name() != name);
    assert(FeaturePoint::FlySafeFeature.spec_wire_name() != name);
    assert(FeaturePoint::SecurityFeature.spec_wire_name() != name);
}


/// The name of each feature point on the keychain service's wire, as the
/// service spells it.
pub proof fn lemma_feature_point_wire_names()
    ensures
        FeaturePoint::BaseFeature.spec_wire_name() == "FR_Standardization_Feature_Base_1"@,
        FeaturePoint::spec_from_wire_name("FR_Standardization_Feature_Base_1"@) == Some(FeaturePoint::BaseFeature),
        FeaturePoint::VisionFeature.spec_wire_name() == "FR_Standardization_Feature_Vision_2"@,
        FeaturePoint::spec_from_wire_name("FR_Standardization_Feature_Vision_2"@) == Some(FeaturePoint::VisionFeature),
        FeaturePoint::WaypointFeature.spec_wire_name() == "FR_Standardization_Feature_Waypoint_3"@,
        FeaturePoint::spec_from_wire_name("FR_Standardization_Feature_Waypoint_3"@) == Some(FeaturePoint::WaypointFeature),
        FeaturePoint::AgricultureFeature.spec_wire_name() == "FR_Standardization_Feature_Agriculture_4"@,
        FeaturePoint::spec_from_wire_name("FR_Standardization_Feature_Agriculture_4"@) == Some(FeaturePoint::AgricultureFeature),
        FeaturePoint::AirLinkFeature.spec_wire_name() == "FR_Standardization_Feature_AirLink_5"@,
        FeaturePoint::spec_from_wire_name("FR_Standardization_Feature_AirLink_5"@) == Some(FeaturePoint::AirLinkFeature),
        FeaturePoint::AfterSalesFeature.spec_wire_name() == "FR_Standardization_Feature_AfterSales_6"@,
        FeaturePoint::spec_from_wire_name("FR_Standardization_Feature_AfterSales_6"@) == Some(FeaturePoint::AfterSalesFeature),
        FeaturePoint::DJIFlyCustomFeature.spec_wire_name() == "FR_Standardization_Feature_DJIFlyCustom_7"@,
        FeaturePoint::spec_from_wire_name("FR_Standardization_Feature_DJIFlyCustom_7"@) == Some(FeaturePoint::DJIFlyCustomFeature),
        FeaturePoint::PlaintextFeature.spec_wire_name() == "FR_Standardization_Feature_Plaintext_8"@,
        FeaturePoint::spec_from_wire_name("FR_Standardization_Feature_Plaintext_8"@) == Some(FeaturePoint::PlaintextFeature),
        FeaturePoint::FlightHubFeature.spec_wire_name() == "FR_Standardization_Feature_FlightHub_9"@,
        FeaturePoint::spec_from_wire_name("FR_Standardization_Feature_FlightHub_9"@) == Some(FeaturePoint::FlightHubFeature),
        FeaturePoint::GimbalFeature.spec_wire_name() == "FR_Standardization_Feature_Gimbal_10"@,
        FeaturePoint::spec_from_wire_name("FR_Standardization_Feature_Gimbal_10"@) == Some(FeaturePoint::GimbalFeature),
        FeaturePoint::RCFeature.spec_wire_name() == "FR_Standardization_Feature_RC_11"@,
        FeaturePoint::spec_from_wire_name("FR_Standardization_Feature_RC_11"@) == Some(FeaturePoint::RCFeature),
        FeaturePoint::CameraFeature.spec_wire_name() == "FR_Standardization_Feature_Camera_12"@,
        FeaturePoint::spec_from_wire_name("FR_Standardization_Feature_Camera_12"@) == Some(FeaturePoint::CameraFeature),
        FeaturePoint::BatteryFeature.spec_wire_name() == "FR_Standardization_Feature_Battery_13"@,
        FeaturePoint::spec_from_wire_name("FR_Standardization_Feature_Battery_13"@) == Some(FeaturePoint::BatteryFeature),
        FeaturePoint::FlySafeFeature.spec_wire_name() == "FR_Standardization_Feature_FlySafe_14"@,
        FeaturePoint::spec_from_wire_name("FR_Standardization_Feature_FlySafe_14"@) == Some(FeaturePoint::FlySafeFeature),
        FeaturePoint::SecurityFeature.spec_wire_name() == "FR_Standardization_Feature_Security_15"@,
        FeaturePoint::spec_from_wire_name("FR_Standardization_Feature_Security_15"@) == Some(FeaturePoint::SecurityFeature),
{
    lemma_feature_point_wire_name_round_trip(FeaturePoint::BaseFeature);
    lemma_feature_point_wire_name_round_trip(FeaturePoint::VisionFeature);
    lemma_feature_point_wire_name_round_trip(FeaturePoint::WaypointFeature);
    lemma_feature_point_wire_name_round_trip(FeaturePoint::AgricultureFeature);
    lemma_feature_point_wire_name_round_trip(FeaturePoint::AirLinkFeature);
    lemma_feature_point_wire_name_round_trip(FeaturePoint::AfterSalesFeature);
    lemma_feature_point_wire_name_round_trip(FeaturePoint::DJIFlyCustomFeature);
    lemma_feature_point_wire_name_round_trip(FeaturePoint::PlaintextFeature);
    lemma_feature_point_wire_name_round_trip(FeaturePoint::FlightHubFeature);
    lemma_feature_point_wire_name_round_trip(FeaturePoint::GimbalFeature);
    lemma_feature_point_wire_name_round_trip(FeaturePoint::RCFeature);
    lemma_feature_point_wire_name_round_trip(FeaturePoint::CameraFeature);
    lemma_feature_point_wire_name_round_trip(FeaturePoint::BatteryFeature);
    lemma_feature_point_wire_name_round_trip(FeaturePoint::FlySafeFeature);
    lemma_feature_point_wire_name_round_trip(FeaturePoint::SecurityFeature);
}

} // verus!
