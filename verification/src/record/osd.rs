//! The aircraft state record (type 1).
use vstd::prelude::*;

use crate::wire::{le_bytes, le_signed16, lemma_le_16, lemma_le_64, lemma_sub_byte_fields};
use crate::utils::{le_u16, le_u64, as_i16, spec_sub_byte_field, read_u16_le, read_u64_le, to_i16, sub_byte_field};

verus! {

#[derive(Debug, Clone, Copy, PartialEq, Eq, Structural)]
pub enum DroneType {
    NoDrone,
    Inspire1,
    Phantom3Advanced,
    Phantom3Pro,
    Phantom3Standard,
    OpenFrame,
    AceOne,
    WKM,
    Naza,
    A2,
    A3,
    Phantom4,
    Matrice600,
    Phantom34K,
    MavicPro,
    Inspire2,
    Phantom4Pro,
    N3,
    Spark,
    Matrice600Pro,
    MavicAir,
    Matrice200,
    Phantom4Advanced,
    Matrice210,
    Phantom3SE,
    Matrice210RTK,
    Phantom4ProV2,
    Mavic2,
    Mavic2Enterprise,
    MavicAir2,
    Matrice300RTK,
    Mini2,
    Mavic3Enterprise,
    Mavic3Pro,
    Matrice350RTK,
    Mini4Pro,
    Avata2,
    Unknown(u8),
}

impl DroneType {
    /// The variant that the wire value `value` stands for.
    #[verifier::opaque]
    pub open spec fn spec_from_code(value: u8) -> DroneType {
        match value {
            0 => DroneType::NoDrone,
            1 => DroneType::Inspire1,
            2 => DroneType::Phantom3Advanced,
            3 => DroneType::Phantom3Pro,
            4 => DroneType::Phantom3Standard,
            5 => DroneType::OpenFrame,
            6 => DroneType::AceOne,
            7 => DroneType::WKM,
            8 => DroneType::Naza,
            9 => DroneType::A2,
            10 => DroneType::A3,
            11 => DroneType::Phantom4,
            14 => DroneType::Matrice600,
            15 => DroneType::Phantom34K,
            16 => DroneType::MavicPro,
            17 => DroneType::Inspire2,
            18 => DroneType::Phantom4Pro,
            20 => DroneType::N3,
            21 => DroneType::Spark,
            23 => DroneType::Matrice600Pro,
            24 => DroneType::MavicAir,
            25 => DroneType::Matrice200,
            27 => DroneType::Phantom4Advanced,
            28 => DroneType::Matrice210,
            29 => DroneType::Phantom3SE,
            30 => DroneType::Matrice210RTK,
            36 => DroneType::Phantom4ProV2,
            41 => DroneType::Mavic2,
            51 => DroneType::Mavic2Enterprise,
            58 => DroneType::MavicAir2,
            60 => DroneType::Matrice300RTK,
            63 => DroneType::Mini2,
            77 => DroneType::Mavic3Enterprise,
            84 => DroneType::Mavic3Pro,
            89 => DroneType::Matrice350RTK,
            93 => DroneType::Mini4Pro,
            94 => DroneType::Avata2,
            _ => DroneType::Unknown(value),
        }
    }

    /// Maps a wire value to its variant.
    pub fn from_code(value: u8) -> (r: DroneType)
        ensures
            r == DroneType::spec_from_code(value),
    {
        reveal(DroneType::spec_from_code);
        match value {
            0 => DroneType::NoDrone,
            1 => DroneType::Inspire1,
            2 => DroneType::Phantom3Advanced,
            3 => DroneType::Phantom3Pro,
            4 => DroneType::Phantom3Standard,
            5 => DroneType::OpenFrame,
            6 => DroneType::AceOne,
            7 => DroneType::WKM,
            8 => DroneType::Naza,
            9 => DroneType::A2,
            10 => DroneType::A3,
            11 => DroneType::Phantom4,
            14 => DroneType::Matrice600,
            15 => DroneType::Phantom34K,
            16 => DroneType::MavicPro,
            17 => DroneType::Inspire2,
            18 => DroneType::Phantom4Pro,
            20 => DroneType::N3,
            21 => DroneType::Spark,
            23 => DroneType::Matrice600Pro,
            24 => DroneType::MavicAir,
            25 => DroneType::Matrice200,
            27 => DroneType::Phantom4Advanced,
            28 => DroneType::Matrice210,
            29 => DroneType::Phantom3SE,
            30 => DroneType::Matrice210RTK,
            36 => DroneType::Phantom4ProV2,
            41 => DroneType::Mavic2,
            51 => DroneType::Mavic2Enterprise,
            58 => DroneType::MavicAir2,
            60 => DroneType::Matrice300RTK,
            63 => DroneType::Mini2,
            77 => DroneType::Mavic3Enterprise,
            84 => DroneType::Mavic3Pro,
            89 => DroneType::Matrice350RTK,
            93 => DroneType::Mini4Pro,
            94 => DroneType::Avata2,
            _ => DroneType::Unknown(value),
        }
    }
}

impl From<u8> for DroneType {
    fn from(value: u8) -> (r: DroneType)
        ensures
            r == DroneType::spec_from_code(value),
    {
        DroneType::from_code(value)
    }
}

impl vstd::std_specs::convert::FromSpecImpl<u8> for DroneType {
    open spec fn obeys_from_spec() -> bool {
        true
    }

    open spec fn from_spec(value: u8) -> DroneType {
        DroneType::spec_from_code(value)
    }
}

impl Default for DroneType {
    fn default() -> (r: DroneType)
        ensures
            r == DroneType::NoDrone,
    {
        DroneType::NoDrone
    }
}

#[derive(Debug, Clone, Copy, PartialEq, Eq, Structural)]
pub enum FlightMode {
    /// Manual mode. Shown as Manual in DJI app.
    Manual,
    /// Attitude mode. Shown as Atti in DJI app.
    Atti,
    /// Attitude course lock mode. Shown as Atti in DJI app.
    AttiCourseLock,
    /// Attitude hover mode. Shown as Atti in DJI app.
    AttiHover,
    /// Hover mode. Shown as P-GPS in DJI app.
    Hover,
    /// GPS blake mode. Shown as P-GPS in DJI app.
    GPSBlake,
    /// GPS Attitude mode. Shown as P-GPS in DJI app.
    GPSAtti,
    /// GPS course lock mode. Shown as CL/P-CL/F-CL in DJI app.
    GPSCourseLock,
    /// GPS Home mode. Shown as HL/P-HL/F-HL in DJI app.
    GPSHomeLock,
    /// GPS hotpoint mode. Show as POI/F-POI in DJI app.
    GPSHotPoint,
    /// Assisted takeoff mode. Shown as TakeOff in DJI app.
    AssistedTakeoff,
    /// Auto takeoff mode. Shown as TakeOff in DJI app.
    AutoTakeoff,
    /// Auto landing mode. Shown as Landing in DJI app.
    AutoLanding,
    /// Attitude landing mode. Shown as Landing in DJI app.
    AttiLanding,
    /// GPS waypoint mode. Shown as WP/F-WP in DJI app.
    GPSWaypoint,
    /// Go home mode. Shown as Gohome in DJI app.
    GoHome,
    ClickGo,
    /// Joystick mode. hown as Joystick in DJI app.
    Joystick,
    GPSAttiWristband,
    Cinematic,
    /// Attitude limited mode. Shown as Atti in DJI app.
    AttiLimited,
    /// Draw mode. Shown as Draw in DJI app.
    Draw,
    /// GPS follow me mode. Shown as FM/F-FM in DJI app.
    GPSFollowMe,
    /// ActiveTrack mode. Shown as ActiveTrack in DJI app.
    ActiveTrack,
    /// TapFly mode. Shown as TapFly in DJI app.
    TapFly,
    Pano,
    Farming,
    FPV,
    /// Sport mode. Shown as Sport in DJI app.
    GPSSport,
    GPSNovice,
    /// Confirm landing mode. Shown as Landing in DJI app.
    ConfirmLanding,
    /// The aircraft should move following the terrain. Shown as TerrainTracking in DJI app.
    TerrainTracking,
    NaviAdvGoHome,
    NaviAdvLanding,
    /// Tripod mode. Shown as Tripod in DJI app.
    Tripod,
    /// Active track mode, corresponds to Spotlight active track mode. Shown as QuickShot/ActiveTrack in DJI app.
    TrackHeadlock,
    /// The motors are just started. Shown as TakeOff in DJI app.
    EngineStart,
    GPSGentle,
    Unknown(u8),
}

impl FlightMode {
    /// The variant that the wire value `value` stands for.
    #[verifier::opaque]
    pub open spec fn spec_from_code(value: u8) -> FlightMode {
        match value {
            0 => FlightMode::Manual,
            1 => FlightMode::Atti,
            2 => FlightMode::AttiCourseLock,
            3 => FlightMode::AttiHover,
            4 => FlightMode::Hover,
            5 => FlightMode::GPSBlake,
            6 => FlightMode::GPSAtti,
            7 => FlightMode::GPSCourseLock,
            8 => FlightMode::GPSHomeLock,
            9 => FlightMode::GPSHotPoint,
            10 => FlightMode::AssistedTakeoff,
            11 => FlightMode::AutoTakeoff,
            12 => FlightMode::AutoLanding,
            13 => FlightMode::AttiLanding,
            14 => FlightMode::GPSWaypoint,
            15 => FlightMode::GoHome,
            16 => FlightMode::ClickGo,
            17 => FlightMode::Joystick,
            18 => FlightMode::GPSAttiWristband,
            19 => FlightMode::Cinematic,
            23 => FlightMode::AttiLimited,
            24 => FlightMode::Draw,
            25 => FlightMode::GPSFollowMe,
            26 => FlightMode::ActiveTrack,
            27 => FlightMode::TapFly,
            28 => FlightMode::Pano,
            29 => FlightMode::Farming,
            30 => FlightMode::FPV,
            31 => FlightMode::GPSSport,
            32 => FlightMode::GPSNovice,
            33 => FlightMode::ConfirmLanding,
            35 => FlightMode::TerrainTracking,
            36 => FlightMode::NaviAdvGoHome,
            37 => FlightMode::NaviAdvLanding,
            38 => FlightMode::Tripod,
            39 => FlightMode::TrackHeadlock,
            41 => FlightMode::EngineStart,
            43 => FlightMode::GPSGentle,
            _ => FlightMode::Unknown(value),
        }
    }

    /// Maps a wire value to its variant.
    pub fn from_code(value: u8) -> (r: FlightMode)
        ensures
            r == FlightMode::spec_from_code(value),
    {
        reveal(FlightMode::spec_from_code);
        match value {
            0 => FlightMode::Manual,
            1 => FlightMode::Atti,
            2 => FlightMode::AttiCourseLock,
            3 => FlightMode::AttiHover,
            4 => FlightMode::Hover,
            5 => FlightMode::GPSBlake,
            6 => FlightMode::GPSAtti,
            7 => FlightMode::GPSCourseLock,
            8 => FlightMode::GPSHomeLock,
            9 => FlightMode::GPSHotPoint,
            10 => FlightMode::AssistedTakeoff,
            11 => FlightMode::AutoTakeoff,
            12 => FlightMode::AutoLanding,
            13 => FlightMode::AttiLanding,
            14 => FlightMode::GPSWaypoint,
            15 => FlightMode::GoHome,
            16 => FlightMode::ClickGo,
            17 => FlightMode::Joystick,
            18 => FlightMode::GPSAttiWristband,
            19 => FlightMode::Cinematic,
            23 => FlightMode::AttiLimited,
            24 => FlightMode::Draw,
            25 => FlightMode::GPSFollowMe,
            26 => FlightMode::ActiveTrack,
            27 => FlightMode::TapFly,
            28 => FlightMode::Pano,
            29 => FlightMode::Farming,
            30 => FlightMode::FPV,
            31 => FlightMode::GPSSport,
            32 => FlightMode::GPSNovice,
            33 => FlightMode::ConfirmLanding,
            35 => FlightMode::TerrainTracking,
            36 => FlightMode::NaviAdvGoHome,
            37 => FlightMode::NaviAdvLanding,
            38 => FlightMode::Tripod,
            39 => FlightMode::TrackHeadlock,
            41 => FlightMode::EngineStart,
            43 => FlightMode::GPSGentle,
            _ => FlightMode::Unknown(value),
        }
    }
}

impl From<u8> for FlightMode {
    fn from(value: u8) -> (r: FlightMode)
        ensures
            r == FlightMode::spec_from_code(value),
    {
        FlightMode::from_code(value)
    }
}

impl vstd::std_specs::convert::FromSpecImpl<u8> for FlightMode {
    open spec fn obeys_from_spec() -> bool {
        true
    }

    open spec fn from_spec(value: u8) -> FlightMode {
        FlightMode::spec_from_code(value)
    }
}

#[derive(Debug, Clone, Copy, PartialEq, Eq, Structural)]
pub enum AppCommand {
    AutoFly,
    AutoLanding,
    HomePointNow,
    HomePointHot,
    HomePointLock,
    GoHome,
    StartMotor,
    StopMotor,
    Calibration,
    DeformProtecClose,
    DeformProtecOpen,
    DropGoHome,
    DropTakeOff,
    DropLanding,
    DynamicHomePointOpen,
    DynamicHomePointClose,
    FollowFunctionOpen,
    FollowFunctionClose,
    IOCOpen,
    IOCClose,
    DropCalibration,
    PackMode,
    UnPackMode,
    EnterManualMode,
    StopDeform,
    DownDeform,
    UpDeform,
    ForceLanding,
    ForceLanding2,
    Unknown(u8),
}

impl AppCommand {
    /// The variant that the wire value `value` stands for.
    #[verifier::opaque]
    pub open spec fn spec_from_code(value: u8) -> AppCommand {
        match value {
            1 => AppCommand::AutoFly,
            2 => AppCommand::AutoLanding,
            3 => AppCommand::HomePointNow,
            4 => AppCommand::HomePointHot,
            5 => AppCommand::HomePointLock,
            6 => AppCommand::GoHome,
            7 => AppCommand::StartMotor,
            8 => AppCommand::StopMotor,
            9 => AppCommand::Calibration,
            10 => AppCommand::DeformProtecClose,
            11 => AppCommand::DeformProtecOpen,
            12 => AppCommand::DropGoHome,
            13 => AppCommand::DropTakeOff,
            14 => AppCommand::DropLanding,
            15 => AppCommand::DynamicHomePointOpen,
            16 => AppCommand::DynamicHomePointClose,
            17 => AppCommand::FollowFunctionOpen,
            18 => AppCommand::FollowFunctionClose,
            19 => AppCommand::IOCOpen,
            20 => AppCommand::IOCClose,
            21 => AppCommand::DropCalibration,
            22 => AppCommand::PackMode,
            23 => AppCommand::UnPackMode,
            24 => AppCommand::EnterManualMode,
            25 => AppCommand::StopDeform,
            28 => AppCommand::DownDeform,
            29 => AppCommand::UpDeform,
            30 => AppCommand::ForceLanding,
            31 => AppCommand::ForceLanding2,
            _ => AppCommand::Unknown(value),
        }
    }

    /// Maps a wire value to its variant.
    pub fn from_code(value: u8) -> (r: AppCommand)
        ensures
            r == AppCommand::spec_from_code(value),
    {
        reveal(AppCommand::spec_from_code);
        match value {
            1 => AppCommand::AutoFly,
            2 => AppCommand::AutoLanding,
            3 => AppCommand::HomePointNow,
            4 => AppCommand::HomePointHot,
            5 => AppCommand::HomePointLock,
            6 => AppCommand::GoHome,
            7 => AppCommand::StartMotor,
            8 => AppCommand::StopMotor,
            9 => AppCommand::Calibration,
            10 => AppCommand::DeformProtecClose,
            11 => AppCommand::DeformProtecOpen,
            12 => AppCommand::DropGoHome,
            13 => AppCommand::DropTakeOff,
            14 => AppCommand::DropLanding,
            15 => AppCommand::DynamicHomePointOpen,
            16 => AppCommand::DynamicHomePointClose,
            17 => AppCommand::FollowFunctionOpen,
            18 => AppCommand::FollowFunctionClose,
            19 => AppCommand::IOCOpen,
            20 => AppCommand::IOCClose,
            21 => AppCommand::DropCalibration,
            22 => AppCommand::PackMode,
            23 => AppCommand::UnPackMode,
            24 => AppCommand::EnterManualMode,
            25 => AppCommand::StopDeform,
            28 => AppCommand::DownDeform,
            29 => AppCommand::UpDeform,
            30 => AppCommand::ForceLanding,
            31 => AppCommand::ForceLanding2,
            _ => AppCommand::Unknown(value),
        }
    }
}

impl From<u8> for AppCommand {
    fn from(value: u8) -> (r: AppCommand)
        ensures
            r == AppCommand::spec_from_code(value),
    {
        AppCommand::from_code(value)
    }
}

impl vstd::std_specs::convert::FromSpecImpl<u8> for AppCommand {
    open spec fn obeys_from_spec() -> bool {
        true
    }

    open spec fn from_spec(value: u8) -> AppCommand {
        AppCommand::spec_from_code(value)
    }
}

#[derive(Debug, Clone, Copy, PartialEq, Eq, Structural)]
pub enum GroundOrSky {
    Ground,
    Sky,
    Unknown(u8),
}

impl GroundOrSky {
    /// The variant that the wire value `value` stands for.
    pub open spec fn spec_from_code(value: u8) -> GroundOrSky {
        match value {
            0 | 1 => GroundOrSky::Ground,
            2 | 3 => GroundOrSky::Sky,
            _ => GroundOrSky::Unknown(value),
        }
    }

    /// Maps a wire value to its variant.
    pub fn from_code(value: u8) -> (r: GroundOrSky)
        ensures
            r == GroundOrSky::spec_from_code(value),
    {
        match value {
            0 | 1 => GroundOrSky::Ground,
            2 | 3 => GroundOrSky::Sky,
            _ => GroundOrSky::Unknown(value),
        }
    }
}

impl From<u8> for GroundOrSky {
    fn from(value: u8) -> (r: GroundOrSky)
        ensures
            r == GroundOrSky::spec_from_code(value),
    {
        GroundOrSky::from_code(value)
    }
}

impl vstd::std_specs::convert::FromSpecImpl<u8> for GroundOrSky {
    open spec fn obeys_from_spec() -> bool {
        true
    }

    open spec fn from_spec(value: u8) -> GroundOrSky {
        GroundOrSky::spec_from_code(value)
    }
}

#[derive(Debug, Clone, Copy, PartialEq, Eq, Structural)]
pub enum GoHomeStatus {
    Standby,
    Preascending,
    Align,
    Ascending,
    Cruise,
    Braking,
    Bypassing,
    Unknown(u8),
}

impl GoHomeStatus {
    /// The variant that the wire value `value` stands for.
    pub open spec fn spec_from_code(value: u8) -> GoHomeStatus {
        match value {
            0 => GoHomeStatus::Standby,
            1 => GoHomeStatus::Preascending,
            2 => GoHomeStatus::Align,
            3 => GoHomeStatus::Ascending,
            4 => GoHomeStatus::Cruise,
            5 => GoHomeStatus::Braking,
            6 => GoHomeStatus::Bypassing,
            _ => GoHomeStatus::Unknown(value),
        }
    }

    /// Maps a wire value to its variant.
    pub fn from_code(value: u8) -> (r: GoHomeStatus)
        ensures
            r == GoHomeStatus::spec_from_code(value),
    {
        match value {
            0 => GoHomeStatus::Standby,
            1 => GoHomeStatus::Preascending,
            2 => GoHomeStatus::Align,
            3 => GoHomeStatus::Ascending,
            4 => GoHomeStatus::Cruise,
            5 => GoHomeStatus::Braking,
            6 => GoHomeStatus::Bypassing,
            _ => GoHomeStatus::Unknown(value),
        }
    }
}

impl From<u8> for GoHomeStatus {
    fn from(value: u8) -> (r: GoHomeStatus)
        ensures
            r == GoHomeStatus::spec_from_code(value),
    {
        GoHomeStatus::from_code(value)
    }
}

impl vstd::std_specs::convert::FromSpecImpl<u8> for GoHomeStatus {
    open spec fn obeys_from_spec() -> bool {
        true
    }

    open spec fn from_spec(value: u8) -> GoHomeStatus {
        GoHomeStatus::spec_from_code(value)
    }
}

#[derive(Debug, Clone, Copy, PartialEq, Eq, Structural)]
pub enum BatteryType {
    NonSmart,
    Smart,
    Unknown(u8),
}

impl BatteryType {
    /// The variant that the wire value `value` stands for.
    pub open spec fn spec_from_code(value: u8) -> BatteryType {
        match value {
            1 => BatteryType::NonSmart,
            2 => BatteryType::Smart,
            _ => BatteryType::Unknown(value),
        }
    }

    /// Maps a wire value to its variant.
    pub fn from_code(value: u8) -> (r: BatteryType)
        ensures
            r == BatteryType::spec_from_code(value),
    {
        match value {
            1 => BatteryType::NonSmart,
            2 => BatteryType::Smart,
            _ => BatteryType::Unknown(value),
        }
    }
}

impl From<u8> for BatteryType {
    fn from(value: u8) -> (r: BatteryType)
        ensures
            r == BatteryType::spec_from_code(value),
    {
        BatteryType::from_code(value)
    }
}

impl vstd::std_specs::convert::FromSpecImpl<u8> for BatteryType {
    open spec fn obeys_from_spec() -> bool {
        true
    }

    open spec fn from_spec(value: u8) -> BatteryType {
        BatteryType::spec_from_code(value)
    }
}

#[derive(Debug, Clone, Copy, PartialEq, Eq, Structural)]
pub enum FlightAction {
    NoAction,
    WarningPowerGoHome,
    WarningPowerLanding,
    SmartPowerGoHome,
    SmartPowerLanding,
    LowVoltageLanding,
    LowVoltageGoHome,
    SeriousLowVoltageLanding,
    RCOnekeyGoHome,
    RCAssistantTakeoff,
    RCAutoTakeoff,
    RCAutoLanding,
    AppAutoGoHome,
    AppAutoLanding,
    AppAutoTakeoff,
    OutOfControlGoHome,
    ApiAutoTakeoff,
    ApiAutoLanding,
    ApiAutoGoHome,
    AvoidGroundLanding,
    AirportAvoidLanding,
    TooCloseGoHomeLanding,
    TooFarGoHomeLanding,
    AppWPMission,
    WPAutoTakeoff,
    GoHomeAvoid,
    PGoHomeFinish,
    VertLowLimitLanding,
    BatteryForceLanding,
    MCProtectGoHome,
    MotorblockLanding,
    AppRequestForceLanding,
    FakeBatteryLanding,
    RTHComingObstacleLanding,
    IMUErrorRTH,
    Unknown(u8),
}

impl FlightAction {
    /// The variant that the wire value `value` stands for.
    #[verifier::opaque]
    pub open spec fn spec_from_code(value: u8) -> FlightAction {
        match value {
            0 => FlightAction::NoAction,
            1 => FlightAction::WarningPowerGoHome,
            2 => FlightAction::WarningPowerLanding,
            3 => FlightAction::SmartPowerGoHome,
            4 => FlightAction::SmartPowerLanding,
            5 => FlightAction::LowVoltageLanding,
            6 => FlightAction::LowVoltageGoHome,
            7 => FlightAction::SeriousLowVoltageLanding,
            8 => FlightAction::RCOnekeyGoHome,
            9 => FlightAction::RCAssistantTakeoff,
            10 => FlightAction::RCAutoTakeoff,
            11 => FlightAction::RCAutoLanding,
            12 => FlightAction::AppAutoGoHome,
            13 => FlightAction::AppAutoLanding,
            14 => FlightAction::AppAutoTakeoff,
            15 => FlightAction::OutOfControlGoHome,
            16 => FlightAction::ApiAutoTakeoff,
            17 => FlightAction::ApiAutoLanding,
            18 => FlightAction::ApiAutoGoHome,
            19 => FlightAction::AvoidGroundLanding,
            20 => FlightAction::AirportAvoidLanding,
            21 => FlightAction::TooCloseGoHomeLanding,
            22 => FlightAction::TooFarGoHomeLanding,
            23 => FlightAction::AppWPMission,
            24 => FlightAction::WPAutoTakeoff,
            25 => FlightAction::GoHomeAvoid,
            26 => FlightAction::PGoHomeFinish,
            27 => FlightAction::VertLowLimitLanding,
            28 => FlightAction::BatteryForceLanding,
            29 => FlightAction::MCProtectGoHome,
            30 => FlightAction::MotorblockLanding,
            31 => FlightAction::AppRequestForceLanding,
            32 => FlightAction::FakeBatteryLanding,
            33 => FlightAction::RTHComingObstacleLanding,
            34 => FlightAction::IMUErrorRTH,
            _ => FlightAction::Unknown(value),
        }
    }

    /// Maps a wire value to its variant.
    pub fn from_code(value: u8) -> (r: FlightAction)
        ensures
            r == FlightAction::spec_from_code(value),
    {
        reveal(FlightAction::spec_from_code);
        match value {
            0 => FlightAction::NoAction,
            1 => FlightAction::WarningPowerGoHome,
            2 => FlightAction::WarningPowerLanding,
            3 => FlightAction::SmartPowerGoHome,
            4 => FlightAction::SmartPowerLanding,
            5 => FlightAction::LowVoltageLanding,
            6 => FlightAction::LowVoltageGoHome,
            7 => FlightAction::SeriousLowVoltageLanding,
            8 => FlightAction::RCOnekeyGoHome,
            9 => FlightAction::RCAssistantTakeoff,
            10 => FlightAction::RCAutoTakeoff,
            11 => FlightAction::RCAutoLanding,
            12 => FlightAction::AppAutoGoHome,
            13 => FlightAction::AppAutoLanding,
            14 => FlightAction::AppAutoTakeoff,
            15 => FlightAction::OutOfControlGoHome,
            16 => FlightAction::ApiAutoTakeoff,
            17 => FlightAction::ApiAutoLanding,
            18 => FlightAction::ApiAutoGoHome,
            19 => FlightAction::AvoidGroundLanding,
            20 => FlightAction::AirportAvoidLanding,
            21 => FlightAction::TooCloseGoHomeLanding,
            22 => FlightAction::TooFarGoHomeLanding,
            23 => FlightAction::AppWPMission,
            24 => FlightAction::WPAutoTakeoff,
            25 => FlightAction::GoHomeAvoid,
            26 => FlightAction::PGoHomeFinish,
            27 => FlightAction::VertLowLimitLanding,
            28 => FlightAction::BatteryForceLanding,
            29 => FlightAction::MCProtectGoHome,
            30 => FlightAction::MotorblockLanding,
            31 => FlightAction::AppRequestForceLanding,
            32 => FlightAction::FakeBatteryLanding,
            33 => FlightAction::RTHComingObstacleLanding,
            34 => FlightAction::IMUErrorRTH,
            _ => FlightAction::Unknown(value),
        }
    }
}

impl From<u8> for FlightAction {
    fn from(value: u8) -> (r: FlightAction)
        ensures
            r == FlightAction::spec_from_code(value),
    {
        FlightAction::from_code(value)
    }
}

impl vstd::std_specs::convert::FromSpecImpl<u8> for FlightAction {
    open spec fn obeys_from_spec() -> bool {
        true
    }

    open spec fn from_spec(value: u8) -> FlightAction {
        FlightAction::spec_from_code(value)
    }
}

#[derive(Debug, Clone, Copy, PartialEq, Eq, Structural)]
pub enum MotorStartFailedCause {
    NoCause,
    CompassError,
    AssistantProtected,
    DeviceLocked,
    DistanceLimit,
    IMUNeedCalibration,
    IMUSNError,
    IMUWarning,
    CompassCalibrating,
    AttiError,
    NoviceProtected,
    BatteryCellError,
    BatteryCommuniteError,
    SeriousLowVoltage,
    SeriousLowPower,
    LowVoltage,
    TempureVolLow,
    SmartLowToLand,
    BatteryNotReady,
    SimulatorMode,
    PackMode,
    AttitudeAbnormal,
    UnActive,
    FlyForbiddenError,
    BiasError,
    EscError,
    ImuInitError,
    SystemUpgrade,
    SimulatorStarted,
    ImuingError,
    AttiAngleOver,
    GyroscopeError,
    AcceleratorError,
    CompassFailed,
    BarometerError,
    BarometerNegative,
    CompassBig,
    GyroscopeBiasBig,
    AcceleratorBiasBig,
    CompassNoiseBig,
    BarometerNoiseBig,
    InvalidSn,
    FlashOperating,
    GPSdisconnect,
    SDCardException,
    IMUNoconnection,
    RCCalibration,
    RCCalibrationException,
    RCCalibrationUnfinished,
    RCCalibrationException2,
    RCCalibrationException3,
    AircraftTypeMismatch,
    FoundUnfinishedModule,
    CyroAbnormal,
    BaroAbnormal,
    CompassAbnormal,
    GPSAbnormal,
    NSAbnormal,
    TopologyAbnormal,
    RCNeedCali,
    InvalidFloat,
    M600BatTooLittle,
    M600BatAuthErr,
    M600BatCommErr,
    M600BatDifVoltLarge1,
    M600BatDifVoltLarge2,
    InvalidVersion,
    GimbalGyroAbnormal,
    GimbalESCPitchNonData,
    GimbalESCRollNonData,
    GimbalESCYawNonData,
    GimbalFirmwIsUpdating,
    GimbalDisorder,
    GimbalPitchShock,
    GimbalRollShock,
    GimbalYawShock,
    IMUcCalibrationFinished,
    BattVersionError,
    RTKBadSignal,
    RTKDeviationError,
    ESCCalibrating,
    GPSSignInvalid,
    GimbalIsCalibrating,
    LockByApp,
    StartFlyHeightError,
    ESCVersionNotMatch,
    IMUOriNotMatch,
    StopByApp,
    CompassIMUOriNotMatch,
    BatteryOverTemperature,
    BatteryInstallError,
    BeImpact,
    Unknown(u8),
}

impl MotorStartFailedCause {
    /// The variant that the wire value `value` stands for.
    #[verifier::opaque]
    pub open spec fn spec_from_code(value: u8) -> MotorStartFailedCause {
        match value {
            0 => MotorStartFailedCause::NoCause,
            1 => MotorStartFailedCause::CompassError,
            2 => MotorStartFailedCause::AssistantProtected,
            3 => MotorStartFailedCause::DeviceLocked,
            4 => MotorStartFailedCause::DistanceLimit,
            5 => MotorStartFailedCause::IMUNeedCalibration,
            6 => MotorStartFailedCause::IMUSNError,
            7 => MotorStartFailedCause::IMUWarning,
            8 => MotorStartFailedCause::CompassCalibrating,
            9 => MotorStartFailedCause::AttiError,
            10 => MotorStartFailedCause::NoviceProtected,
            11 => MotorStartFailedCause::BatteryCellError,
            12 => MotorStartFailedCause::BatteryCommuniteError,
            13 => MotorStartFailedCause::SeriousLowVoltage,
            14 => MotorStartFailedCause::SeriousLowPower,
            15 => MotorStartFailedCause::LowVoltage,
            16 => MotorStartFailedCause::TempureVolLow,
            17 => MotorStartFailedCause::SmartLowToLand,
            18 => MotorStartFailedCause::BatteryNotReady,
            19 => MotorStartFailedCause::SimulatorMode,
            20 => MotorStartFailedCause::PackMode,
            21 => MotorStartFailedCause::AttitudeAbnormal,
            22 => MotorStartFailedCause::UnActive,
            23 => MotorStartFailedCause::FlyForbiddenError,
            24 => MotorStartFailedCause::BiasError,
            25 => MotorStartFailedCause::EscError,
            26 => MotorStartFailedCause::ImuInitError,
            27 => MotorStartFailedCause::SystemUpgrade,
            28 => MotorStartFailedCause::SimulatorStarted,
            29 => MotorStartFailedCause::ImuingError,
            30 => MotorStartFailedCause::AttiAngleOver,
            31 => MotorStartFailedCause::GyroscopeError,
            32 => MotorStartFailedCause::AcceleratorError,
            33 => MotorStartFailedCause::CompassFailed,
            34 => MotorStartFailedCause::BarometerError,
            35 => MotorStartFailedCause::BarometerNegative,
            36 => MotorStartFailedCause::CompassBig,
            37 => MotorStartFailedCause::GyroscopeBiasBig,
            38 => MotorStartFailedCause::AcceleratorBiasBig,
            39 => MotorStartFailedCause::CompassNoiseBig,
            40 => MotorStartFailedCause::BarometerNoiseBig,
            41 => MotorStartFailedCause::InvalidSn,
            44 => MotorStartFailedCause::FlashOperating,
            45 => MotorStartFailedCause::GPSdisconnect,
            47 => MotorStartFailedCause::SDCardException,
            61 => MotorStartFailedCause::IMUNoconnection,
            62 => MotorStartFailedCause::RCCalibration,
            63 => MotorStartFailedCause::RCCalibrationException,
            64 => MotorStartFailedCause::RCCalibrationUnfinished,
            65 => MotorStartFailedCause::RCCalibrationException2,
            66 => MotorStartFailedCause::RCCalibrationException3,
            67 => MotorStartFailedCause::AircraftTypeMismatch,
            68 => MotorStartFailedCause::FoundUnfinishedModule,
            70 => MotorStartFailedCause::CyroAbnormal,
            71 => MotorStartFailedCause::BaroAbnormal,
            72 => MotorStartFailedCause::CompassAbnormal,
            73 => MotorStartFailedCause::GPSAbnormal,
            74 => MotorStartFailedCause::NSAbnormal,
            75 => MotorStartFailedCause::TopologyAbnormal,
            76 => MotorStartFailedCause::RCNeedCali,
            77 => MotorStartFailedCause::InvalidFloat,
            78 => MotorStartFailedCause::M600BatTooLittle,
            79 => MotorStartFailedCause::M600BatAuthErr,
            80 => MotorStartFailedCause::M600BatCommErr,
            81 => MotorStartFailedCause::M600BatDifVoltLarge1,
            82 => MotorStartFailedCause::M600BatDifVoltLarge2,
            83 => MotorStartFailedCause::InvalidVersion,
            84 => MotorStartFailedCause::GimbalGyroAbnormal,
            85 => MotorStartFailedCause::GimbalESCPitchNonData,
            86 => MotorStartFailedCause::GimbalESCRollNonData,
            87 => MotorStartFailedCause::GimbalESCYawNonData,
            88 => MotorStartFailedCause::GimbalFirmwIsUpdating,
            89 => MotorStartFailedCause::GimbalDisorder,
            90 => MotorStartFailedCause::GimbalPitchShock,
            91 => MotorStartFailedCause::GimbalRollShock,
            92 => MotorStartFailedCause::GimbalYawShock,
            93 => MotorStartFailedCause::IMUcCalibrationFinished,
            101 => MotorStartFailedCause::BattVersionError,
            102 => MotorStartFailedCause::RTKBadSignal,
            103 => MotorStartFailedCause::RTKDeviationError,
            112 => MotorStartFailedCause::ESCCalibrating,
            113 => MotorStartFailedCause::GPSSignInvalid,
            114 => MotorStartFailedCause::GimbalIsCalibrating,
            115 => MotorStartFailedCause::LockByApp,
            116 => MotorStartFailedCause::StartFlyHeightError,
            117 => MotorStartFailedCause::ESCVersionNotMatch,
            118 => MotorStartFailedCause::IMUOriNotMatch,
            119 => MotorStartFailedCause::StopByApp,
            120 => MotorStartFailedCause::CompassIMUOriNotMatch,
            122 => MotorStartFailedCause::CompassIMUOriNotMatch,
            123 => MotorStartFailedCause::BatteryOverTemperature,
            124 => MotorStartFailedCause::BatteryInstallError,
            125 => MotorStartFailedCause::BeImpact,
            _ => MotorStartFailedCause::Unknown(value),
        }
    }

    /// Maps a wire value to its variant.
    pub fn from_code(value: u8) -> (r: MotorStartFailedCause)
        ensures
            r == MotorStartFailedCause::spec_from_code(value),
    {
        reveal(MotorStartFailedCause::spec_from_code);
        match value {
            0 => MotorStartFailedCause::NoCause,
            1 => MotorStartFailedCause::CompassError,
            2 => MotorStartFailedCause::AssistantProtected,
            3 => MotorStartFailedCause::DeviceLocked,
            4 => MotorStartFailedCause::DistanceLimit,
            5 => MotorStartFailedCause::IMUNeedCalibration,
            6 => MotorStartFailedCause::IMUSNError,
            7 => MotorStartFailedCause::IMUWarning,
            8 => MotorStartFailedCause::CompassCalibrating,
            9 => MotorStartFailedCause::AttiError,
            10 => MotorStartFailedCause::NoviceProtected,
            11 => MotorStartFailedCause::BatteryCellError,
            12 => MotorStartFailedCause::BatteryCommuniteError,
            13 => MotorStartFailedCause::SeriousLowVoltage,
            14 => MotorStartFailedCause::SeriousLowPower,
            15 => MotorStartFailedCause::LowVoltage,
            16 => MotorStartFailedCause::TempureVolLow,
            17 => MotorStartFailedCause::SmartLowToLand,
            18 => MotorStartFailedCause::BatteryNotReady,
            19 => MotorStartFailedCause::SimulatorMode,
            20 => MotorStartFailedCause::PackMode,
            21 => MotorStartFailedCause::AttitudeAbnormal,
            22 => MotorStartFailedCause::UnActive,
            23 => MotorStartFailedCause::FlyForbiddenError,
            24 => MotorStartFailedCause::BiasError,
            25 => MotorStartFailedCause::EscError,
            26 => MotorStartFailedCause::ImuInitError,
            27 => MotorStartFailedCause::SystemUpgrade,
            28 => MotorStartFailedCause::SimulatorStarted,
            29 => MotorStartFailedCause::ImuingError,
            30 => MotorStartFailedCause::AttiAngleOver,
            31 => MotorStartFailedCause::GyroscopeError,
            32 => MotorStartFailedCause::AcceleratorError,
            33 => MotorStartFailedCause::CompassFailed,
            34 => MotorStartFailedCause::BarometerError,
            35 => MotorStartFailedCause::BarometerNegative,
            36 => MotorStartFailedCause::CompassBig,
            37 => MotorStartFailedCause::GyroscopeBiasBig,
            38 => MotorStartFailedCause::AcceleratorBiasBig,
            39 => MotorStartFailedCause::CompassNoiseBig,
            40 => MotorStartFailedCause::BarometerNoiseBig,
            41 => MotorStartFailedCause::InvalidSn,
            44 => MotorStartFailedCause::FlashOperating,
            45 => MotorStartFailedCause::GPSdisconnect,
            47 => MotorStartFailedCause::SDCardException,
            61 => MotorStartFailedCause::IMUNoconnection,
            62 => MotorStartFailedCause::RCCalibration,
            63 => MotorStartFailedCause::RCCalibrationException,
            64 => MotorStartFailedCause::RCCalibrationUnfinished,
            65 => MotorStartFailedCause::RCCalibrationException2,
            66 => MotorStartFailedCause::RCCalibrationException3,
            67 => MotorStartFailedCause::AircraftTypeMismatch,
            68 => MotorStartFailedCause::FoundUnfinishedModule,
            70 => MotorStartFailedCause::CyroAbnormal,
            71 => MotorStartFailedCause::BaroAbnormal,
            72 => MotorStartFailedCause::CompassAbnormal,
            73 => MotorStartFailedCause::GPSAbnormal,
            74 => MotorStartFailedCause::NSAbnormal,
            75 => MotorStartFailedCause::TopologyAbnormal,
            76 => MotorStartFailedCause::RCNeedCali,
            77 => MotorStartFailedCause::InvalidFloat,
            78 => MotorStartFailedCause::M600BatTooLittle,
            79 => MotorStartFailedCause::M600BatAuthErr,
            80 => MotorStartFailedCause::M600BatCommErr,
            81 => MotorStartFailedCause::M600BatDifVoltLarge1,
            82 => MotorStartFailedCause::M600BatDifVoltLarge2,
            83 => MotorStartFailedCause::InvalidVersion,
            84 => MotorStartFailedCause::GimbalGyroAbnormal,
            85 => MotorStartFailedCause::GimbalESCPitchNonData,
            86 => MotorStartFailedCause::GimbalESCRollNonData,
            87 => MotorStartFailedCause::GimbalESCYawNonData,
            88 => MotorStartFailedCause::GimbalFirmwIsUpdating,
            89 => MotorStartFailedCause::GimbalDisorder,
            90 => MotorStartFailedCause::GimbalPitchShock,
            91 => MotorStartFailedCause::GimbalRollShock,
            92 => MotorStartFailedCause::GimbalYawShock,
            93 => MotorStartFailedCause::IMUcCalibrationFinished,
            101 => MotorStartFailedCause::BattVersionError,
            102 => MotorStartFailedCause::RTKBadSignal,
            103 => MotorStartFailedCause::RTKDeviationError,
            112 => MotorStartFailedCause::ESCCalibrating,
            113 => MotorStartFailedCause::GPSSignInvalid,
            114 => MotorStartFailedCause::GimbalIsCalibrating,
            115 => MotorStartFailedCause::LockByApp,
            116 => MotorStartFailedCause::StartFlyHeightError,
            117 => MotorStartFailedCause::ESCVersionNotMatch,
            118 => MotorStartFailedCause::IMUOriNotMatch,
            119 => MotorStartFailedCause::StopByApp,
            120 => MotorStartFailedCause::CompassIMUOriNotMatch,
            122 => MotorStartFailedCause::CompassIMUOriNotMatch,
            123 => MotorStartFailedCause::BatteryOverTemperature,
            124 => MotorStartFailedCause::BatteryInstallError,
            125 => MotorStartFailedCause::BeImpact,
            _ => MotorStartFailedCause::Unknown(value),
        }
    }
}

impl From<u8> for MotorStartFailedCause {
    fn from(value: u8) -> (r: MotorStartFailedCause)
        ensures
            r == MotorStartFailedCause::spec_from_code(value),
    {
        MotorStartFailedCause::from_code(value)
    }
}

impl vstd::std_specs::convert::FromSpecImpl<u8> for MotorStartFailedCause {
    open spec fn obeys_from_spec() -> bool {
        true
    }

    open spec fn from_spec(value: u8) -> MotorStartFailedCause {
        MotorStartFailedCause::spec_from_code(value)
    }
}

#[derive(Debug, Clone, Copy, PartialEq, Eq, Structural)]
pub enum NonGPSCause {
    Already,
    Forbid,
    GpsNumNonEnough,
    GpsHdopLarge,
    GpsPositionNonMatch,
    SpeedErrorLarge,
    YawErrorLarge,
    CompassErrorLarge,
    Unknown(u8),
}

impl NonGPSCause {
    /// The variant that the wire value `value` stands for.
    pub open spec fn spec_from_code(value: u8) -> NonGPSCause {
        match value {
            0 => NonGPSCause::Already,
            1 => NonGPSCause::Forbid,
            2 => NonGPSCause::GpsNumNonEnough,
            3 => NonGPSCause::GpsHdopLarge,
            4 => NonGPSCause::GpsPositionNonMatch,
            5 => NonGPSCause::SpeedErrorLarge,
            6 => NonGPSCause::YawErrorLarge,
            7 => NonGPSCause::CompassErrorLarge,
            _ => NonGPSCause::Unknown(value),
        }
    }

    /// Maps a wire value to its variant.
    pub fn from_code(value: u8) -> (r: NonGPSCause)
        ensures
            r == NonGPSCause::spec_from_code(value),
    {
        match value {
            0 => NonGPSCause::Already,
            1 => NonGPSCause::Forbid,
            2 => NonGPSCause::GpsNumNonEnough,
            3 => NonGPSCause::GpsHdopLarge,
            4 => NonGPSCause::GpsPositionNonMatch,
            5 => NonGPSCause::SpeedErrorLarge,
            6 => NonGPSCause::YawErrorLarge,
            7 => NonGPSCause::CompassErrorLarge,
            _ => NonGPSCause::Unknown(value),
        }
    }
}

impl From<u8> for NonGPSCause {
    fn from(value: u8) -> (r: NonGPSCause)
        ensures
            r == NonGPSCause::spec_from_code(value),
    {
        NonGPSCause::from_code(value)
    }
}

impl vstd::std_specs::convert::FromSpecImpl<u8> for NonGPSCause {
    open spec fn obeys_from_spec() -> bool {
        true
    }

    open spec fn from_spec(value: u8) -> NonGPSCause {
        NonGPSCause::spec_from_code(value)
    }
}

#[derive(Debug, Clone, Copy, PartialEq, Eq, Structural)]
pub enum ImuInitFailReason {
    MonitorError,
    CollectingData,
    AcceDead,
    CompassDead,
    BarometerDead,
    BarometerNegative,
    CompassModTooLarge,
    GyroBiasTooLarge,
    AcceBiasTooLarge,
    CompassNoiseTooLarge,
    BarometerNoiseTooLarge,
    WaitingMcStationary,
    AcceMoveTooLarge,
    McHeaderMoved,
    McVibrated,
    Unknown(u8),
}

impl ImuInitFailReason {
    /// The variant that the wire value `value` stands for.
    pub open spec fn spec_from_code(value: u8) -> ImuInitFailReason {
        match value {
            0 => ImuInitFailReason::MonitorError,
            1 => ImuInitFailReason::CollectingData,
            3 => ImuInitFailReason::AcceDead,
            4 => ImuInitFailReason::CompassDead,
            5 => ImuInitFailReason::BarometerDead,
            6 => ImuInitFailReason::BarometerNegative,
            7 => ImuInitFailReason::CompassModTooLarge,
            8 => ImuInitFailReason::GyroBiasTooLarge,
            9 => ImuInitFailReason::AcceBiasTooLarge,
            10 => ImuInitFailReason::CompassNoiseTooLarge,
            11 => ImuInitFailReason::BarometerNoiseTooLarge,
            12 => ImuInitFailReason::WaitingMcStationary,
            13 => ImuInitFailReason::AcceMoveTooLarge,
            14 => ImuInitFailReason::McHeaderMoved,
            15 => ImuInitFailReason::McVibrated,
            _ => ImuInitFailReason::Unknown(value),
        }
    }

    /// Maps a wire value to its variant.
    pub fn from_code(value: u8) -> (r: ImuInitFailReason)
        ensures
            r == ImuInitFailReason::spec_from_code(value),
    {
        match value {
            0 => ImuInitFailReason::MonitorError,
            1 => ImuInitFailReason::CollectingData,
            3 => ImuInitFailReason::AcceDead,
            4 => ImuInitFailReason::CompassDead,
            5 => ImuInitFailReason::BarometerDead,
            6 => ImuInitFailReason::BarometerNegative,
            7 => ImuInitFailReason::CompassModTooLarge,
            8 => ImuInitFailReason::GyroBiasTooLarge,
            9 => ImuInitFailReason::AcceBiasTooLarge,
            10 => ImuInitFailReason::CompassNoiseTooLarge,
            11 => ImuInitFailReason::BarometerNoiseTooLarge,
            12 => ImuInitFailReason::WaitingMcStationary,
            13 => ImuInitFailReason::AcceMoveTooLarge,
            14 => ImuInitFailReason::McHeaderMoved,
            15 => ImuInitFailReason::McVibrated,
            _ => ImuInitFailReason::Unknown(value),
        }
    }
}

impl From<u8> for ImuInitFailReason {
    fn from(value: u8) -> (r: ImuInitFailReason)
        ensures
            r == ImuInitFailReason::spec_from_code(value),
    {
        ImuInitFailReason::from_code(value)
    }
}

impl vstd::std_specs::convert::FromSpecImpl<u8> for ImuInitFailReason {
    open spec fn obeys_from_spec() -> bool {
        true
    }

    open spec fn from_spec(value: u8) -> ImuInitFailReason {
        ImuInitFailReason::spec_from_code(value)
    }
}

impl Default for ImuInitFailReason {
    fn default() -> (r: ImuInitFailReason)
        ensures
            r == ImuInitFailReason::MonitorError,
    {
        ImuInitFailReason::MonitorError
    }
}

/// Position, attitude and status of the aircraft.
#[derive(Debug, Clone, Copy, PartialEq, Eq, Structural)]
pub struct OSD {
    /// Longitude in radians, as the bits of an IEEE-754 binary64 value.
    pub longitude: u64,
    /// Latitude in radians, as the bits of an IEEE-754 binary64 value.
    pub latitude: u64,
    /// Height above the take-off point, in decimetres.
    pub altitude: i16,
    /// Decimetres per second.
    pub speed_x: i16,
    /// Decimetres per second.
    pub speed_y: i16,
    /// Decimetres per second.
    pub speed_z: i16,
    /// Tenths of a degree.
    pub pitch: i16,
    /// Tenths of a degree.
    pub roll: i16,
    /// Tenths of a degree.
    pub yaw: i16,
    pub flight_mode: FlightMode,
    pub rc_outcontrol: bool,
    pub app_command: AppCommand,
    pub can_ioc_work: bool,
    pub ground_or_sky: GroundOrSky,
    pub is_motor_up: bool,
    pub is_swave_work: bool,
    pub go_home_status: GoHomeStatus,
    pub is_vision_used: bool,
    pub voltage_warning: u8,
    pub is_imu_preheated: bool,
    pub mode_channel: u8,
    pub is_gps_valid: bool,
    pub is_compass_error: bool,
    pub wave_error: bool,
    pub gps_level: u8,
    pub battery_type: BatteryType,
    pub is_out_of_limit: bool,
    pub is_go_home_height_modified: bool,
    pub is_propeller_catapult: bool,
    pub is_motor_blocked: bool,
    pub is_not_enough_force: bool,
    pub is_barometer_dead_in_air: bool,
    pub is_vibrating: bool,
    pub is_acceletor_over_range: bool,
    pub gps_num: u8,
    pub flight_action: FlightAction,
    pub motor_start_failed_cause: MotorStartFailedCause,
    pub non_gps_cause: NonGPSCause,
    pub waypoint_limit_mode: bool,
    pub battery: u8,
    /// Ultrasonic height, in decimetres.
    pub s_wave_height: u8,
    /// Tenths of a second.
    pub fly_time: u16,
    pub motor_revolution: u8,
    pub version_c: u8,
    /// `DroneType::NoDrone` before format 2.
    pub drone_type: DroneType,
    /// `ImuInitFailReason::MonitorError` before format 3.
    pub imu_init_fail_reason: ImuInitFailReason,
}

impl OSD {
    /// Number of payload bytes the record reads in a log of format `version`.
    pub open spec fn spec_size(version: u8) -> nat {
        if version >= 3 { 50 } else if version >= 2 { 49 } else { 48 }
    }

    /// The record that the payload bytes `b` hold.
    pub open spec fn spec_parse(b: Seq<u8>, version: u8) -> OSD {
        OSD {
            longitude: le_u64(b, 0),
            latitude: le_u64(b, 8),
            altitude: as_i16(le_u16(b, 16)),
            speed_x: as_i16(le_u16(b, 18)),
            speed_y: as_i16(le_u16(b, 20)),
            speed_z: as_i16(le_u16(b, 22)),
            pitch: as_i16(le_u16(b, 24)),
            roll: as_i16(le_u16(b, 26)),
            yaw: as_i16(le_u16(b, 28)),
            flight_mode: FlightMode::spec_from_code(spec_sub_byte_field(b[30], 0x7F)),
            rc_outcontrol: spec_sub_byte_field(b[30], 0x80) == 1,
            app_command: AppCommand::spec_from_code(b[31]),
            can_ioc_work: spec_sub_byte_field(b[32], 0x01) == 1,
            ground_or_sky: GroundOrSky::spec_from_code(spec_sub_byte_field(b[32], 0x06)),
            is_motor_up: spec_sub_byte_field(b[32], 0x08) == 1,
            is_swave_work: spec_sub_byte_field(b[32], 0x10) == 1,
            go_home_status: GoHomeStatus::spec_from_code(spec_sub_byte_field(b[32], 0xE0)),
            is_vision_used: spec_sub_byte_field(b[33], 0x01) == 1,
            voltage_warning: spec_sub_byte_field(b[33], 0x06),
            is_imu_preheated: spec_sub_byte_field(b[33], 0x10) == 1,
            mode_channel: spec_sub_byte_field(b[33], 0x60),
            is_gps_valid: spec_sub_byte_field(b[33], 0x80) == 1,
            is_compass_error: spec_sub_byte_field(b[34], 0x01) == 1,
            wave_error: spec_sub_byte_field(b[34], 0x02) == 1,
            gps_level: spec_sub_byte_field(b[34], 0x3C),
            battery_type: BatteryType::spec_from_code(spec_sub_byte_field(b[34], 0xC0)),
            is_out_of_limit: spec_sub_byte_field(b[35], 0x01) == 1,
            is_go_home_height_modified: spec_sub_byte_field(b[35], 0x02) == 1,
            is_propeller_catapult: spec_sub_byte_field(b[35], 0x04) == 1,
            is_motor_blocked: spec_sub_byte_field(b[35], 0x08) == 1,
            is_not_enough_force: spec_sub_byte_field(b[35], 0x10) == 1,
            is_barometer_dead_in_air: spec_sub_byte_field(b[35], 0x20) == 1,
            is_vibrating: spec_sub_byte_field(b[35], 0x40) == 1,
            is_acceletor_over_range: spec_sub_byte_field(b[35], 0x80) == 1,
            gps_num: b[36],
            flight_action: FlightAction::spec_from_code(b[37]),
            motor_start_failed_cause: MotorStartFailedCause::spec_from_code(b[38]),
            non_gps_cause: NonGPSCause::spec_from_code(spec_sub_byte_field(b[39], 0x0F)),
            waypoint_limit_mode: spec_sub_byte_field(b[39], 0x10) == 1,
            battery: b[40],
            s_wave_height: b[41],
            fly_time: le_u16(b, 42),
            motor_revolution: b[44],
            version_c: b[47],
            drone_type: if version >= 2 { DroneType::spec_from_code(b[48]) } else { DroneType::NoDrone },
            imu_init_fail_reason: if version >= 3 { ImuInitFailReason::spec_from_code(b[49]) } else { ImuInitFailReason::MonitorError },
        }
    }

    /// Number of payload bytes the record reads.
    pub fn size(version: u8) -> (r: usize)
        ensures
            r == OSD::spec_size(version),
    {
        if version >= 3 { 50 } else if version >= 2 { 49 } else { 48 }
    }

    fn parse_part0(b: &[u8], version: u8) -> (r: (u64, u64, i16, i16, i16, i16, i16, i16, i16, FlightMode, bool, AppCommand,))
        requires
            b@.len() >= OSD::spec_size(version),
        ensures
            r.0 == (le_u64(b@, 0)),
            r.1 == (le_u64(b@, 8)),
            r.2 == (as_i16(le_u16(b@, 16))),
            r.3 == (as_i16(le_u16(b@, 18))),
            r.4 == (as_i16(le_u16(b@, 20))),
            r.5 == (as_i16(le_u16(b@, 22))),
            r.6 == (as_i16(le_u16(b@, 24))),
            r.7 == (as_i16(le_u16(b@, 26))),
            r.8 == (as_i16(le_u16(b@, 28))),
            r.9 == (FlightMode::spec_from_code(spec_sub_byte_field(b@[30], 0x7F))),
            r.10 == (spec_sub_byte_field(b@[30], 0x80) == 1),
            r.11 == (AppCommand::spec_from_code(b@[31])),
    {
        let longitude_value = read_u64_le(b, 0);
        let latitude_value = read_u64_le(b, 8);
        let altitude_value = to_i16(read_u16_le(b, 16));
        let speed_x_value = to_i16(read_u16_le(b, 18));
        let speed_y_value = to_i16(read_u16_le(b, 20));
        let speed_z_value = to_i16(read_u16_le(b, 22));
        let pitch_value = to_i16(read_u16_le(b, 24));
        let roll_value = to_i16(read_u16_le(b, 26));
        let yaw_value = to_i16(read_u16_le(b, 28));
        let flight_mode_value = FlightMode::from_code(sub_byte_field(b[30], 0x7F));
        let rc_outcontrol_value = sub_byte_field(b[30], 0x80) == 1;
        let app_command_value = AppCommand::from_code(b[31]);
        (longitude_value, latitude_value, altitude_value, speed_x_value, speed_y_value, speed_z_value, pitch_value, roll_value, yaw_value, flight_mode_value, rc_outcontrol_value, app_command_value,)
    }

    fn parse_part1(b: &[u8], version: u8) -> (r: (bool, GroundOrSky, bool, bool, GoHomeStatus, bool, u8, bool, u8, bool, bool, bool,))
        requires
            b@.len() >= OSD::spec_size(version),
        ensures
            r.0 == (spec_sub_byte_field(b@[32], 0x01) == 1),
            r.1 == (GroundOrSky::spec_from_code(spec_sub_byte_field(b@[32], 0x06))),
            r.2 == (spec_sub_byte_field(b@[32], 0x08) == 1),
            r.3 == (spec_sub_byte_field(b@[32], 0x10) == 1),
            r.4 == (GoHomeStatus::spec_from_code(spec_sub_byte_field(b@[32], 0xE0))),
            r.5 == (spec_sub_byte_field(b@[33], 0x01) == 1),
            r.6 == (spec_sub_byte_field(b@[33], 0x06)),
            r.7 == (spec_sub_byte_field(b@[33], 0x10) == 1),
            r.8 == (spec_sub_byte_field(b@[33], 0x60)),
            r.9 == (spec_sub_byte_field(b@[33], 0x80) == 1),
            r.10 == (spec_sub_byte_field(b@[34], 0x01) == 1),
            r.11 == (spec_sub_byte_field(b@[34], 0x02) == 1),
    {
        let can_ioc_work_value = sub_byte_field(b[32], 0x01) == 1;
        let ground_or_sky_value = GroundOrSky::from_code(sub_byte_field(b[32], 0x06));
        let is_motor_up_value = sub_byte_field(b[32], 0x08) == 1;
        let is_swave_work_value = sub_byte_field(b[32], 0x10) == 1;
        let go_home_status_value = GoHomeStatus::from_code(sub_byte_field(b[32], 0xE0));
        let is_vision_used_value = sub_byte_field(b[33], 0x01) == 1;
        let voltage_warning_value = sub_byte_field(b[33], 0x06);
        let is_imu_preheated_value = sub_byte_field(b[33], 0x10) == 1;
        let mode_channel_value = sub_byte_field(b[33], 0x60);
        let is_gps_valid_value = sub_byte_field(b[33], 0x80) == 1;
        let is_compass_error_value = sub_byte_field(b[34], 0x01) == 1;
        let wave_error_value = sub_byte_field(b[34], 0x02) == 1;
        (can_ioc_work_value, ground_or_sky_value, is_motor_up_value, is_swave_work_value, go_home_status_value, is_vision_used_value, voltage_warning_value, is_imu_preheated_value, mode_channel_value, is_gps_valid_value, is_compass_error_value, wave_error_value,)
    }

    fn parse_part2(b: &[u8], version: u8) -> (r: (u8, BatteryType, bool, bool, bool, bool, bool, bool, bool, bool, u8, FlightAction,))
        requires
            b@.len() >= OSD::spec_size(version),
        ensures
            r.0 == (spec_sub_byte_field(b@[34], 0x3C)),
            r.1 == (BatteryType::spec_from_code(spec_sub_byte_field(b@[34], 0xC0))),
            r.2 == (spec_sub_byte_field(b@[35], 0x01) == 1),
            r.3 == (spec_sub_byte_field(b@[35], 0x02) == 1),
            r.4 == (spec_sub_byte_field(b@[35], 0x04) == 1),
            r.5 == (spec_sub_byte_field(b@[35], 0x08) == 1),
            r.6 == (spec_sub_byte_field(b@[35], 0x10) == 1),
            r.7 == (spec_sub_byte_field(b@[35], 0x20) == 1),
            r.8 == (spec_sub_byte_field(b@[35], 0x40) == 1),
            r.9 == (spec_sub_byte_field(b@[35], 0x80) == 1),
            r.10 == (b@[36]),
            r.11 == (FlightAction::spec_from_code(b@[37])),
    {
        let gps_level_value = sub_byte_field(b[34], 0x3C);
        let battery_type_value = BatteryType::from_code(sub_byte_field(b[34], 0xC0));
        let is_out_of_limit_value = sub_byte_field(b[35], 0x01) == 1;
        let is_go_home_height_modified_value = sub_byte_field(b[35], 0x02) == 1;
        let is_propeller_catapult_value = sub_byte_field(b[35], 0x04) == 1;
        let is_motor_blocked_value = sub_byte_field(b[35], 0x08) == 1;
        let is_not_enough_force_value = sub_byte_field(b[35], 0x10) == 1;
        let is_barometer_dead_in_air_value = sub_byte_field(b[35], 0x20) == 1;
        let is_vibrating_value = sub_byte_field(b[35], 0x40) == 1;
        let is_acceletor_over_range_value = sub_byte_field(b[35], 0x80) == 1;
        let gps_num_value = b[36];
        let flight_action_value = FlightAction::from_code(b[37]);
        (gps_level_value, battery_type_value, is_out_of_limit_value, is_go_home_height_modified_value, is_propeller_catapult_value, is_motor_blocked_value, is_not_enough_force_value, is_barometer_dead_in_air_value, is_vibrating_value, is_acceletor_over_range_value, gps_num_value, flight_action_value,)
    }

    fn parse_part3(b: &[u8], version: u8) -> (r: (MotorStartFailedCause, NonGPSCause, bool, u8, u8, u16, u8, u8, DroneType, ImuInitFailReason,))
        requires
            b@.len() >= OSD::spec_size(version),
        ensures
            r.0 == (MotorStartFailedCause::spec_from_code(b@[38])),
            r.1 == (NonGPSCause::spec_from_code(spec_sub_byte_field(b@[39], 0x0F))),
            r.2 == (spec_sub_byte_field(b@[39], 0x10) == 1),
            r.3 == (b@[40]),
            r.4 == (b@[41]),
            r.5 == (le_u16(b@, 42)),
            r.6 == (b@[44]),
            r.7 == (b@[47]),
            r.8 == (if version >= 2 { DroneType::spec_from_code(b@[48]) } else { DroneType::NoDrone }),
            r.9 == (if version >= 3 { ImuInitFailReason::spec_from_code(b@[49]) } else { ImuInitFailReason::MonitorError }),
    {
        let motor_start_failed_cause_value = MotorStartFailedCause::from_code(b[38]);
        let non_gps_cause_value = NonGPSCause::from_code(sub_byte_field(b[39], 0x0F));
        let waypoint_limit_mode_value = sub_byte_field(b[39], 0x10) == 1;
        let battery_value = b[40];
        let s_wave_height_value = b[41];
        let fly_time_value = read_u16_le(b, 42);
        let motor_revolution_value = b[44];
        let version_c_value = b[47];
        let drone_type_value = if version >= 2 { DroneType::from_code(b[48]) } else { DroneType::NoDrone };
        let imu_init_fail_reason_value = if version >= 3 { ImuInitFailReason::from_code(b[49]) } else { ImuInitFailReason::MonitorError };
        (motor_start_failed_cause_value, non_gps_cause_value, waypoint_limit_mode_value, battery_value, s_wave_height_value, fly_time_value, motor_revolution_value, version_c_value, drone_type_value, imu_init_fail_reason_value,)
    }

    /// Reads the record from its decoded payload bytes.
    pub fn parse(b: &[u8], version: u8) -> (r: OSD)
        requires
            b@.len() >= OSD::spec_size(version),
        ensures
            r == OSD::spec_parse(b@, version),
    {
        let part0 = OSD::parse_part0(b, version);
        let part1 = OSD::parse_part1(b, version);
        let part2 = OSD::parse_part2(b, version);
        let part3 = OSD::parse_part3(b, version);
        OSD {
            longitude: part0.0,
            latitude: part0.1,
            altitude: part0.2,
            speed_x: part0.3,
            speed_y: part0.4,
            speed_z: part0.5,
            pitch: part0.6,
            roll: part0.7,
            yaw: part0.8,
            flight_mode: part0.9,
            rc_outcontrol: part0.10,
            app_command: part0.11,
            can_ioc_work: part1.0,
            ground_or_sky: part1.1,
            is_motor_up: part1.2,
            is_swave_work: part1.3,
            go_home_status: part1.4,
            is_vision_used: part1.5,
            voltage_warning: part1.6,
            is_imu_preheated: part1.7,
            mode_channel: part1.8,
            is_gps_valid: part1.9,
            is_compass_error: part1.10,
            wave_error: part1.11,
            gps_level: part2.0,
            battery_type: part2.1,
            is_out_of_limit: part2.2,
            is_go_home_height_modified: part2.3,
            is_propeller_catapult: part2.4,
            is_motor_blocked: part2.5,
            is_not_enough_force: part2.6,
            is_barometer_dead_in_air: part2.7,
            is_vibrating: part2.8,
            is_acceletor_over_range: part2.9,
            gps_num: part2.10,
            flight_action: part2.11,
            motor_start_failed_cause: part3.0,
            non_gps_cause: part3.1,
            waypoint_limit_mode: part3.2,
            battery: part3.3,
            s_wave_height: part3.4,
            fly_time: part3.5,
            motor_revolution: part3.6,
            version_c: part3.7,
            drone_type: part3.8,
            imu_init_fail_reason: part3.9,
        }
    }
}


/// Where each field of an OSD record sits in its payload, in plain
/// arithmetic: longitude and latitude are the 8-byte values at 0 and 8;
/// altitude, the three speeds, pitch, roll and yaw the signed 16-bit values
/// at 16, 18, ..., 28; bytes 30 to 35 hold bit fields (bit 0 is the lowest);
/// byte 36 is the satellite count, 37 the flight action, 38 the motor start
/// failure, 39 a bit field, 40 the battery, 41 the ultrasonic height, 42-43
/// the flight time, 44 the motor revolution, 47 the C version, 48 the
/// aircraft (format 2 on) and 49 the IMU start failure (format 3 on).
pub proof fn lemma_osd_layout(b: Seq<u8>, version: u8)
    requires
        b.len() >= OSD::spec_size(version),
    ensures
        ({
            let o = OSD::spec_parse(b, version);
            &&& o.longitude as int == le_bytes(b, 0, 8)
            &&& o.latitude as int == le_bytes(b, 8, 8)
            &&& o.altitude as int == le_signed16(b, 16)
            &&& o.speed_x as int == le_signed16(b, 18)
            &&& o.speed_y as int == le_signed16(b, 20)
            &&& o.speed_z as int == le_signed16(b, 22)
            &&& o.pitch as int == le_signed16(b, 24)
            &&& o.roll as int == le_signed16(b, 26)
            &&& o.yaw as int == le_signed16(b, 28)
            &&& o.flight_mode == FlightMode::spec_from_code(b[30] % 128)
            &&& o.rc_outcontrol == (b[30] >= 128)
            &&& o.app_command == AppCommand::spec_from_code(b[31])
            &&& o.can_ioc_work == (b[32] % 2 == 1)
            &&& o.ground_or_sky == GroundOrSky::spec_from_code((b[32] / 2) % 4)
            &&& o.is_motor_up == ((b[32] / 8) % 2 == 1)
            &&& o.is_swave_work == ((b[32] / 16) % 2 == 1)
            &&& o.go_home_status == GoHomeStatus::spec_from_code(b[32] / 32)
            &&& o.is_vision_used == (b[33] % 2 == 1)
            &&& o.voltage_warning == (b[33] / 2) % 4
            &&& o.is_imu_preheated == ((b[33] / 16) % 2 == 1)
            &&& o.mode_channel == (b[33] / 32) % 4
            &&& o.is_gps_valid == (b[33] >= 128)
            &&& o.is_compass_error == (b[34] % 2 == 1)
            &&& o.wave_error == ((b[34] / 2) % 2 == 1)
            &&& o.gps_level == (b[34] / 4) % 16
            &&& o.battery_type == BatteryType::spec_from_code(b[34] / 64)
            &&& o.is_out_of_limit == (b[35] % 2 == 1)
            &&& o.is_go_home_height_modified == ((b[35] / 2) % 2 == 1)
            &&& o.is_propeller_catapult == ((b[35] / 4) % 2 == 1)
            &&& o.is_motor_blocked == ((b[35] / 8) % 2 == 1)
            &&& o.is_not_enough_force == ((b[35] / 16) % 2 == 1)
            &&& o.is_barometer_dead_in_air == ((b[35] / 32) % 2 == 1)
            &&& o.is_vibrating == ((b[35] / 64) % 2 == 1)
            &&& o.is_acceletor_over_range == (b[35] >= 128)
            &&& o.gps_num == b[36]
            &&& o.flight_action == FlightAction::spec_from_code(b[37])
            &&& o.motor_start_failed_cause == MotorStartFailedCause::spec_from_code(b[38])
            &&& o.non_gps_cause == NonGPSCause::spec_from_code(b[39] % 16)
            &&& o.waypoint_limit_mode == ((b[39] / 16) % 2 == 1)
            &&& o.battery == b[40]
            &&& o.s_wave_height == b[41]
            &&& o.fly_time as int == le_bytes(b, 42, 2)
            &&& o.motor_revolution == b[44]
            &&& o.version_c == b[47]
            &&& version >= 2 ==> o.drone_type == DroneType::spec_from_code(b[48])
            &&& version < 2 ==> o.drone_type == DroneType::NoDrone
            &&& version >= 3 ==> o.imu_init_fail_reason == ImuInitFailReason::spec_from_code(b[49])
            &&& version < 3 ==> o.imu_init_fail_reason == ImuInitFailReason::MonitorError
        }),
{
    lemma_le_64(b, 0);
    lemma_le_64(b, 8);
    lemma_le_16(b, 16);
    lemma_le_16(b, 18);
    lemma_le_16(b, 20);
    lemma_le_16(b, 22);
    lemma_le_16(b, 24);
    lemma_le_16(b, 26);
    lemma_le_16(b, 28);
    lemma_le_16(b, 42);
    lemma_sub_byte_fields(b[30]);
    lemma_sub_byte_fields(b[32]);
    lemma_sub_byte_fields(b[33]);
    lemma_sub_byte_fields(b[34]);
    lemma_sub_byte_fields(b[35]);
    lemma_sub_byte_fields(b[39]);
}

/// The drone type of each wire code, as the log format numbers them.
pub proof fn lemma_drone_type_codes(value: u8)
    ensures
        DroneType::spec_from_code(0) == DroneType::NoDrone,
        DroneType::spec_from_code(1) == DroneType::Inspire1,
        DroneType::spec_from_code(2) == DroneType::Phantom3Advanced,
        DroneType::spec_from_code(3) == DroneType::Phantom3Pro,
        DroneType::spec_from_code(4) == DroneType::Phantom3Standard,
        DroneType::spec_from_code(5) == DroneType::OpenFrame,
        DroneType::spec_from_code(6) == DroneType::AceOne,
        DroneType::spec_from_code(7) == DroneType::WKM,
        DroneType::spec_from_code(8) == DroneType::Naza,
        DroneType::spec_from_code(9) == DroneType::A2,
        DroneType::spec_from_code(10) == DroneType::A3,
        DroneType::spec_from_code(11) == DroneType::Phantom4,
        DroneType::spec_from_code(14) == DroneType::Matrice600,
        DroneType::spec_from_code(15) == DroneType::Phantom34K,
        DroneType::spec_from_code(16) == DroneType::MavicPro,
        DroneType::spec_from_code(17) == DroneType::Inspire2,
        DroneType::spec_from_code(18) == DroneType::Phantom4Pro,
        DroneType::spec_from_code(20) == DroneType::N3,
        DroneType::spec_from_code(21) == DroneType::Spark,
        DroneType::spec_from_code(23) == DroneType::Matrice600Pro,
        DroneType::spec_from_code(24) == DroneType::MavicAir,
        DroneType::spec_from_code(25) == DroneType::Matrice200,
        DroneType::spec_from_code(27) == DroneType::Phantom4Advanced,
        DroneType::spec_from_code(28) == DroneType::Matrice210,
        DroneType::spec_from_code(29) == DroneType::Phantom3SE,
        DroneType::spec_from_code(30) == DroneType::Matrice210RTK,
        DroneType::spec_from_code(36) == DroneType::Phantom4ProV2,
        DroneType::spec_from_code(41) == DroneType::Mavic2,
        DroneType::spec_from_code(51) == DroneType::Mavic2Enterprise,
        DroneType::spec_from_code(58) == DroneType::MavicAir2,
        DroneType::spec_from_code(60) == DroneType::Matrice300RTK,
        DroneType::spec_from_code(63) == DroneType::Mini2,
        DroneType::spec_from_code(77) == DroneType::Mavic3Enterprise,
        DroneType::spec_from_code(84) == DroneType::Mavic3Pro,
        DroneType::spec_from_code(89) == DroneType::Matrice350RTK,
        DroneType::spec_from_code(93) == DroneType::Mini4Pro,
        DroneType::spec_from_code(94) == DroneType::Avata2,
        !(value == 0 || value == 1 || value == 2 || value == 3 || value == 4 || value == 5 || value == 6 || value == 7 || value == 8 || value == 9 || value == 10 || value == 11 || value == 14 || value == 15 || value == 16 || value == 17 || value == 18 || value == 20 || value == 21 || value == 23 || value == 24 || value == 25 || value == 27 || value == 28 || value == 29 || value == 30 || value == 36 || value == 41 || value == 51 || value == 58 || value == 60 || value == 63 || value == 77 || value == 84 || value == 89 || value == 93 || value == 94) ==> DroneType::spec_from_code(value) == DroneType::Unknown(value),
{
    reveal(DroneType::spec_from_code);
}

/// The flight mode of each wire code, as the log format numbers them.
pub proof fn lemma_flight_mode_codes(value: u8)
    ensures
        FlightMode::spec_from_code(0) == FlightMode::Manual,
        FlightMode::spec_from_code(1) == FlightMode::Atti,
        FlightMode::spec_from_code(2) == FlightMode::AttiCourseLock,
        FlightMode::spec_from_code(3) == FlightMode::AttiHover,
        FlightMode::spec_from_code(4) == FlightMode::Hover,
        FlightMode::spec_from_code(5) == FlightMode::GPSBlake,
        FlightMode::spec_from_code(6) == FlightMode::GPSAtti,
        FlightMode::spec_from_code(7) == FlightMode::GPSCourseLock,
        FlightMode::spec_from_code(8) == FlightMode::GPSHomeLock,
        FlightMode::spec_from_code(9) == FlightMode::GPSHotPoint,
        FlightMode::spec_from_code(10) == FlightMode::AssistedTakeoff,
        FlightMode::spec_from_code(11) == FlightMode::AutoTakeoff,
        FlightMode::spec_from_code(12) == FlightMode::AutoLanding,
        FlightMode::spec_from_code(13) == FlightMode::AttiLanding,
        FlightMode::spec_from_code(14) == FlightMode::GPSWaypoint,
        FlightMode::spec_from_code(15) == FlightMode::GoHome,
        FlightMode::spec_from_code(16) == FlightMode::ClickGo,
        FlightMode::spec_from_code(17) == FlightMode::Joystick,
        FlightMode::spec_from_code(18) == FlightMode::GPSAttiWristband,
        FlightMode::spec_from_code(19) == FlightMode::Cinematic,
        FlightMode::spec_from_code(23) == FlightMode::AttiLimited,
        FlightMode::spec_from_code(24) == FlightMode::Draw,
        FlightMode::spec_from_code(25) == FlightMode::GPSFollowMe,
        FlightMode::spec_from_code(26) == FlightMode::ActiveTrack,
        FlightMode::spec_from_code(27) == FlightMode::TapFly,
        FlightMode::spec_from_code(28) == FlightMode::Pano,
        FlightMode::spec_from_code(29) == FlightMode::Farming,
        FlightMode::spec_from_code(30) == FlightMode::FPV,
        FlightMode::spec_from_code(31) == FlightMode::GPSSport,
        FlightMode::spec_from_code(32) == FlightMode::GPSNovice,
        FlightMode::spec_from_code(33) == FlightMode::ConfirmLanding,
        FlightMode::spec_from_code(35) == FlightMode::TerrainTracking,
        FlightMode::spec_from_code(36) == FlightMode::NaviAdvGoHome,
        FlightMode::spec_from_code(37) == FlightMode::NaviAdvLanding,
        FlightMode::spec_from_code(38) == FlightMode::Tripod,
        FlightMode::spec_from_code(39) == FlightMode::TrackHeadlock,
        FlightMode::spec_from_code(41) == FlightMode::EngineStart,
        FlightMode::spec_from_code(43) == FlightMode::GPSGentle,
        !(value == 0 || value == 1 || value == 2 || value == 3 || value == 4 || value == 5 || value == 6 || value == 7 || value == 8 || value == 9 || value == 10 || value == 11 || value == 12 || value == 13 || value == 14 || value == 15 || value == 16 || value == 17 || value == 18 || value == 19 || value == 23 || value == 24 || value == 25 || value == 26 || value == 27 || value == 28 || value == 29 || value == 30 || value == 31 || value == 32 || value == 33 || value == 35 || value == 36 || value == 37 || value == 38 || value == 39 || value == 41 || value == 43) ==> FlightMode::spec_from_code(value) == FlightMode::Unknown(value),
{
    reveal(FlightMode::spec_from_code);
}

/// The app command of each wire code, as the log format numbers them.
pub proof fn lemma_app_command_codes(value: u8)
    ensures
        AppCommand::spec_from_code(1) == AppCommand::AutoFly,
        AppCommand::spec_from_code(2) == AppCommand::AutoLanding,
        AppCommand::spec_from_code(3) == AppCommand::HomePointNow,
        AppCommand::spec_from_code(4) == AppCommand::HomePointHot,
        AppCommand::spec_from_code(5) == AppCommand::HomePointLock,
        AppCommand::spec_from_code(6) == AppCommand::GoHome,
        AppCommand::spec_from_code(7) == AppCommand::StartMotor,
        AppCommand::spec_from_code(8) == AppCommand::StopMotor,
        AppCommand::spec_from_code(9) == AppCommand::Calibration,
        AppCommand::spec_from_code(10) == AppCommand::DeformProtecClose,
        AppCommand::spec_from_code(11) == AppCommand::DeformProtecOpen,
        AppCommand::spec_from_code(12) == AppCommand::DropGoHome,
        AppCommand::spec_from_code(13) == AppCommand::DropTakeOff,
        AppCommand::spec_from_code(14) == AppCommand::DropLanding,
        AppCommand::spec_from_code(15) == AppCommand::DynamicHomePointOpen,
        AppCommand::spec_from_code(16) == AppCommand::DynamicHomePointClose,
        AppCommand::spec_from_code(17) == AppCommand::FollowFunctionOpen,
        AppCommand::spec_from_code(18) == AppCommand::FollowFunctionClose,
        AppCommand::spec_from_code(19) == AppCommand::IOCOpen,
        AppCommand::spec_from_code(20) == AppCommand::IOCClose,
        AppCommand::spec_from_code(21) == AppCommand::DropCalibration,
        AppCommand::spec_from_code(22) == AppCommand::PackMode,
        AppCommand::spec_from_code(23) == AppCommand::UnPackMode,
        AppCommand::spec_from_code(24) == AppCommand::EnterManualMode,
        AppCommand::spec_from_code(25) == AppCommand::StopDeform,
        AppCommand::spec_from_code(28) == AppCommand::DownDeform,
        AppCommand::spec_from_code(29) == AppCommand::UpDeform,
        AppCommand::spec_from_code(30) == AppCommand::ForceLanding,
        AppCommand::spec_from_code(31) == AppCommand::ForceLanding2,
        !(value == 1 || value == 2 || value == 3 || value == 4 || value == 5 || value == 6 || value == 7 || value == 8 || value == 9 || value == 10 || value == 11 || value == 12 || value == 13 || value == 14 || value == 15 || value == 16 || value == 17 || value == 18 || value == 19 || value == 20 || value == 21 || value == 22 || value == 23 || value == 24 || value == 25 || value == 28 || value == 29 || value == 30 || value == 31) ==> AppCommand::spec_from_code(value) == AppCommand::Unknown(value),
{
    reveal(AppCommand::spec_from_code);
}

/// The ground or sky of each wire code, as the log format numbers them.
pub proof fn lemma_ground_or_sky_codes(value: u8)
    ensures
        GroundOrSky::spec_from_code(0) == GroundOrSky::Ground,
        GroundOrSky::spec_from_code(1) == GroundOrSky::Ground,
        GroundOrSky::spec_from_code(2) == GroundOrSky::Sky,
        GroundOrSky::spec_from_code(3) == GroundOrSky::Sky,
        value > 3 ==> GroundOrSky::spec_from_code(value) == GroundOrSky::Unknown(value),
{
}

/// The go home status of each wire code, as the log format numbers them.
pub proof fn lemma_go_home_status_codes(value: u8)
    ensures
        GoHomeStatus::spec_from_code(0) == GoHomeStatus::Standby,
        GoHomeStatus::spec_from_code(1) == GoHomeStatus::Preascending,
        GoHomeStatus::spec_from_code(2) == GoHomeStatus::Align,
        GoHomeStatus::spec_from_code(3) == GoHomeStatus::Ascending,
        GoHomeStatus::spec_from_code(4) == GoHomeStatus::Cruise,
        GoHomeStatus::spec_from_code(5) == GoHomeStatus::Braking,
        GoHomeStatus::spec_from_code(6) == GoHomeStatus::Bypassing,
        !(value == 0 || value == 1 || value == 2 || value == 3 || value == 4 || value == 5 || value == 6) ==> GoHomeStatus::spec_from_code(value) == GoHomeStatus::Unknown(value),
{
}

/// The battery type of each wire code, as the log format numbers them.
pub proof fn lemma_battery_type_codes(value: u8)
    ensures
        BatteryType::spec_from_code(1) == BatteryType::NonSmart,
        BatteryType::spec_from_code(2) == BatteryType::Smart,
        !(value == 1 || value == 2) ==> BatteryType::spec_from_code(value) == BatteryType::Unknown(value),
{
}

/// The flight action of each wire code, as the log format numbers them.
pub proof fn lemma_flight_action_codes(value: u8)
    ensures
        FlightAction::spec_from_code(0) == FlightAction::NoAction,
        FlightAction::spec_from_code(1) == FlightAction::WarningPowerGoHome,
        FlightAction::spec_from_code(2) == FlightAction::WarningPowerLanding,
        FlightAction::spec_from_code(3) == FlightAction::SmartPowerGoHome,
        FlightAction::spec_from_code(4) == FlightAction::SmartPowerLanding,
        FlightAction::spec_from_code(5) == FlightAction::LowVoltageLanding,
        FlightAction::spec_from_code(6) == FlightAction::LowVoltageGoHome,
        FlightAction::spec_from_code(7) == FlightAction::SeriousLowVoltageLanding,
        FlightAction::spec_from_code(8) == FlightAction::RCOnekeyGoHome,
        FlightAction::spec_from_code(9) == FlightAction::RCAssistantTakeoff,
        FlightAction::spec_from_code(10) == FlightAction::RCAutoTakeoff,
        FlightAction::spec_from_code(11) == FlightAction::RCAutoLanding,
        FlightAction::spec_from_code(12) == FlightAction::AppAutoGoHome,
        FlightAction::spec_from_code(13) == FlightAction::AppAutoLanding,
        FlightAction::spec_from_code(14) == FlightAction::AppAutoTakeoff,
        FlightAction::spec_from_code(15) == FlightAction::OutOfControlGoHome,
        FlightAction::spec_from_code(16) == FlightAction::ApiAutoTakeoff,
        FlightAction::spec_from_code(17) == FlightAction::ApiAutoLanding,
        FlightAction::spec_from_code(18) == FlightAction::ApiAutoGoHome,
        FlightAction::spec_from_code(19) == FlightAction::AvoidGroundLanding,
        FlightAction::spec_from_code(20) == FlightAction::AirportAvoidLanding,
        FlightAction::spec_from_code(21) == FlightAction::TooCloseGoHomeLanding,
        FlightAction::spec_from_code(22) == FlightAction::TooFarGoHomeLanding,
        FlightAction::spec_from_code(23) == FlightAction::AppWPMission,
        FlightAction::spec_from_code(24) == FlightAction::WPAutoTakeoff,
        FlightAction::spec_from_code(25) == FlightAction::GoHomeAvoid,
        FlightAction::spec_from_code(26) == FlightAction::PGoHomeFinish,
        FlightAction::spec_from_code(27) == FlightAction::VertLowLimitLanding,
        FlightAction::spec_from_code(28) == FlightAction::BatteryForceLanding,
        FlightAction::spec_from_code(29) == FlightAction::MCProtectGoHome,
        FlightAction::spec_from_code(30) == FlightAction::MotorblockLanding,
        FlightAction::spec_from_code(31) == FlightAction::AppRequestForceLanding,
        FlightAction::spec_from_code(32) == FlightAction::FakeBatteryLanding,
        FlightAction::spec_from_code(33) == FlightAction::RTHComingObstacleLanding,
        FlightAction::spec_from_code(34) == FlightAction::IMUErrorRTH,
        !(value == 0 || value == 1 || value == 2 || value == 3 || value == 4 || value == 5 || value == 6 || value == 7 || value == 8 || value == 9 || value == 10 || value == 11 || value == 12 || value == 13 || value == 14 || value == 15 || value == 16 || value == 17 || value == 18 || value == 19 || value == 20 || value == 21 || value == 22 || value == 23 || value == 24 || value == 25 || value == 26 || value == 27 || value == 28 || value == 29 || value == 30 || value == 31 || value == 32 || value == 33 || value == 34) ==> FlightAction::spec_from_code(value) == FlightAction::Unknown(value),
{
    reveal(FlightAction::spec_from_code);
}

/// The motor start failed cause of each wire code, as the log format numbers them.
pub proof fn lemma_motor_start_failed_cause_codes(value: u8)
    ensures
        MotorStartFailedCause::spec_from_code(0) == MotorStartFailedCause::NoCause,
        MotorStartFailedCause::spec_from_code(1) == MotorStartFailedCause::CompassError,
        MotorStartFailedCause::spec_from_code(2) == MotorStartFailedCause::AssistantProtected,
        MotorStartFailedCause::spec_from_code(3) == MotorStartFailedCause::DeviceLocked,
        MotorStartFailedCause::spec_from_code(4) == MotorStartFailedCause::DistanceLimit,
        MotorStartFailedCause::spec_from_code(5) == MotorStartFailedCause::IMUNeedCalibration,
        MotorStartFailedCause::spec_from_code(6) == MotorStartFailedCause::IMUSNError,
        MotorStartFailedCause::spec_from_code(7) == MotorStartFailedCause::IMUWarning,
        MotorStartFailedCause::spec_from_code(8) == MotorStartFailedCause::CompassCalibrating,
        MotorStartFailedCause::spec_from_code(9) == MotorStartFailedCause::AttiError,
        MotorStartFailedCause::spec_from_code(10) == MotorStartFailedCause::NoviceProtected,
        MotorStartFailedCause::spec_from_code(11) == MotorStartFailedCause::BatteryCellError,
        MotorStartFailedCause::spec_from_code(12) == MotorStartFailedCause::BatteryCommuniteError,
        MotorStartFailedCause::spec_from_code(13) == MotorStartFailedCause::SeriousLowVoltage,
        MotorStartFailedCause::spec_from_code(14) == MotorStartFailedCause::SeriousLowPower,
        MotorStartFailedCause::spec_from_code(15) == MotorStartFailedCause::LowVoltage,
        MotorStartFailedCause::spec_from_code(16) == MotorStartFailedCause::TempureVolLow,
        MotorStartFailedCause::spec_from_code(17) == MotorStartFailedCause::SmartLowToLand,
        MotorStartFailedCause::spec_from_code(18) == MotorStartFailedCause::BatteryNotReady,
        MotorStartFailedCause::spec_from_code(19) == MotorStartFailedCause::SimulatorMode,
        MotorStartFailedCause::spec_from_code(20) == MotorStartFailedCause::PackMode,
        MotorStartFailedCause::spec_from_code(21) == MotorStartFailedCause::AttitudeAbnormal,
        MotorStartFailedCause::spec_from_code(22) == MotorStartFailedCause::UnActive,
        MotorStartFailedCause::spec_from_code(23) == MotorStartFailedCause::FlyForbiddenError,
        MotorStartFailedCause::spec_from_code(24) == MotorStartFailedCause::BiasError,
        MotorStartFailedCause::spec_from_code(25) == MotorStartFailedCause::EscError,
        MotorStartFailedCause::spec_from_code(26) == MotorStartFailedCause::ImuInitError,
        MotorStartFailedCause::spec_from_code(27) == MotorStartFailedCause::SystemUpgrade,
        MotorStartFailedCause::spec_from_code(28) == MotorStartFailedCause::SimulatorStarted,
        MotorStartFailedCause::spec_from_code(29) == MotorStartFailedCause::ImuingError,
        MotorStartFailedCause::spec_from_code(30) == MotorStartFailedCause::AttiAngleOver,
        MotorStartFailedCause::spec_from_code(31) == MotorStartFailedCause::GyroscopeError,
        MotorStartFailedCause::spec_from_code(32) == MotorStartFailedCause::AcceleratorError,
        MotorStartFailedCause::spec_from_code(33) == MotorStartFailedCause::CompassFailed,
        MotorStartFailedCause::spec_from_code(34) == MotorStartFailedCause::BarometerError,
        MotorStartFailedCause::spec_from_code(35) == MotorStartFailedCause::BarometerNegative,
        MotorStartFailedCause::spec_from_code(36) == MotorStartFailedCause::CompassBig,
        MotorStartFailedCause::spec_from_code(37) == MotorStartFailedCause::GyroscopeBiasBig,
        MotorStartFailedCause::spec_from_code(38) == MotorStartFailedCause::AcceleratorBiasBig,
        MotorStartFailedCause::spec_from_code(39) == MotorStartFailedCause::CompassNoiseBig,
        MotorStartFailedCause::spec_from_code(40) == MotorStartFailedCause::BarometerNoiseBig,
        MotorStartFailedCause::spec_from_code(41) == MotorStartFailedCause::InvalidSn,
        MotorStartFailedCause::spec_from_code(44) == MotorStartFailedCause::FlashOperating,
        MotorStartFailedCause::spec_from_code(45) == MotorStartFailedCause::GPSdisconnect,
        MotorStartFailedCause::spec_from_code(47) == MotorStartFailedCause::SDCardException,
        MotorStartFailedCause::spec_from_code(61) == MotorStartFailedCause::IMUNoconnection,
        MotorStartFailedCause::spec_from_code(62) == MotorStartFailedCause::RCCalibration,
        MotorStartFailedCause::spec_from_code(63) == MotorStartFailedCause::RCCalibrationException,
        MotorStartFailedCause::spec_from_code(64) == MotorStartFailedCause::RCCalibrationUnfinished,
        MotorStartFailedCause::spec_from_code(65) == MotorStartFailedCause::RCCalibrationException2,
        MotorStartFailedCause::spec_from_code(66) == MotorStartFailedCause::RCCalibrationException3,
        MotorStartFailedCause::spec_from_code(67) == MotorStartFailedCause::AircraftTypeMismatch,
        MotorStartFailedCause::spec_from_code(68) == MotorStartFailedCause::FoundUnfinishedModule,
        MotorStartFailedCause::spec_from_code(70) == MotorStartFailedCause::CyroAbnormal,
        MotorStartFailedCause::spec_from_code(71) == MotorStartFailedCause::BaroAbnormal,
        MotorStartFailedCause::spec_from_code(72) == MotorStartFailedCause::CompassAbnormal,
        MotorStartFailedCause::spec_from_code(73) == MotorStartFailedCause::GPSAbnormal,
        MotorStartFailedCause::spec_from_code(74) == MotorStartFailedCause::NSAbnormal,
        MotorStartFailedCause::spec_from_code(75) == MotorStartFailedCause::TopologyAbnormal,
        MotorStartFailedCause::spec_from_code(76) == MotorStartFailedCause::RCNeedCali,
        MotorStartFailedCause::spec_from_code(77) == MotorStartFailedCause::InvalidFloat,
        MotorStartFailedCause::spec_from_code(78) == MotorStartFailedCause::M600BatTooLittle,
        MotorStartFailedCause::spec_from_code(79) == MotorStartFailedCause::M600BatAuthErr,
        MotorStartFailedCause::spec_from_code(80) == MotorStartFailedCause::M600BatCommErr,
        MotorStartFailedCause::spec_from_code(81) == MotorStartFailedCause::M600BatDifVoltLarge1,
        MotorStartFailedCause::spec_from_code(82) == MotorStartFailedCause::M600BatDifVoltLarge2,
        MotorStartFailedCause::spec_from_code(83) == MotorStartFailedCause::InvalidVersion,
        MotorStartFailedCause::spec_from_code(84) == MotorStartFailedCause::GimbalGyroAbnormal,
        MotorStartFailedCause::spec_from_code(85) == MotorStartFailedCause::GimbalESCPitchNonData,
        MotorStartFailedCause::spec_from_code(86) == MotorStartFailedCause::GimbalESCRollNonData,
        MotorStartFailedCause::spec_from_code(87) == MotorStartFailedCause::GimbalESCYawNonData,
        MotorStartFailedCause::spec_from_code(88) == MotorStartFailedCause::GimbalFirmwIsUpdating,
        MotorStartFailedCause::spec_from_code(89) == MotorStartFailedCause::GimbalDisorder,
        MotorStartFailedCause::spec_from_code(90) == MotorStartFailedCause::GimbalPitchShock,
        MotorStartFailedCause::spec_from_code(91) == MotorStartFailedCause::GimbalRollShock,
        MotorStartFailedCause::spec_from_code(92) == MotorStartFailedCause::GimbalYawShock,
        MotorStartFailedCause::spec_from_code(93) == MotorStartFailedCause::IMUcCalibrationFinished,
        MotorStartFailedCause::spec_from_code(101) == MotorStartFailedCause::BattVersionError,
        MotorStartFailedCause::spec_from_code(102) == MotorStartFailedCause::RTKBadSignal,
        MotorStartFailedCause::spec_from_code(103) == MotorStartFailedCause::RTKDeviationError,
        MotorStartFailedCause::spec_from_code(112) == MotorStartFailedCause::ESCCalibrating,
        MotorStartFailedCause::spec_from_code(113) == MotorStartFailedCause::GPSSignInvalid,
        MotorStartFailedCause::spec_from_code(114) == MotorStartFailedCause::GimbalIsCalibrating,
        MotorStartFailedCause::spec_from_code(115) == MotorStartFailedCause::LockByApp,
        MotorStartFailedCause::spec_from_code(116) == MotorStartFailedCause::StartFlyHeightError,
        MotorStartFailedCause::spec_from_code(117) == MotorStartFailedCause::ESCVersionNotMatch,
        MotorStartFailedCause::spec_from_code(118) == MotorStartFailedCause::IMUOriNotMatch,
        MotorStartFailedCause::spec_from_code(119) == MotorStartFailedCause::StopByApp,
        MotorStartFailedCause::spec_from_code(120) == MotorStartFailedCause::CompassIMUOriNotMatch,
        MotorStartFailedCause::spec_from_code(122) == MotorStartFailedCause::CompassIMUOriNotMatch,
        MotorStartFailedCause::spec_from_code(123) == MotorStartFailedCause::BatteryOverTemperature,
        MotorStartFailedCause::spec_from_code(124) == MotorStartFailedCause::BatteryInstallError,
        MotorStartFailedCause::spec_from_code(125) == MotorStartFailedCause::BeImpact,
        !(value == 0 || value == 1 || value == 2 || value == 3 || value == 4 || value == 5 || value == 6 || value == 7 || value == 8 || value == 9 || value == 10 || value == 11 || value == 12 || value == 13 || value == 14 || value == 15 || value == 16 || value == 17 || value == 18 || value == 19 || value == 20 || value == 21 || value == 22 || value == 23 || value == 24 || value == 25 || value == 26 || value == 27 || value == 28 || value == 29 || value == 30 || value == 31 || value == 32 || value == 33 || value == 34 || value == 35 || value == 36 || value == 37 || value == 38 || value == 39 || value == 40 || value == 41 || value == 44 || value == 45 || value == 47 || value == 61 || value == 62 || value == 63 || value == 64 || value == 65 || value == 66 || value == 67 || value == 68 || value == 70 || value == 71 || value == 72 || value == 73 || value == 74 || value == 75 || value == 76 || value == 77 || value == 78 || value == 79 || value == 80 || value == 81 || value == 82 || value == 83 || value == 84 || value == 85 || value == 86 || value == 87 || value == 88 || value == 89 || value == 90 || value == 91 || value == 92 || value == 93 || value == 101 || value == 102 || value == 103 || value == 112 || value == 113 || value == 114 || value == 115 || value == 116 || value == 117 || value == 118 || value == 119 || value == 120 || value == 122 || value == 123 || value == 124 || value == 125) ==> MotorStartFailedCause::spec_from_code(value) == MotorStartFailedCause::Unknown(value),
{
    reveal(MotorStartFailedCause::spec_from_code);
}

/// The non-GPS cause of each wire code, as the log format numbers them.
pub proof fn lemma_non_gps_cause_codes(value: u8)
    ensures
        NonGPSCause::spec_from_code(0) == NonGPSCause::Already,
        NonGPSCause::spec_from_code(1) == NonGPSCause::Forbid,
        NonGPSCause::spec_from_code(2) == NonGPSCause::GpsNumNonEnough,
        NonGPSCause::spec_from_code(3) == NonGPSCause::GpsHdopLarge,
        NonGPSCause::spec_from_code(4) == NonGPSCause::GpsPositionNonMatch,
        NonGPSCause::spec_from_code(5) == NonGPSCause::SpeedErrorLarge,
        NonGPSCause::spec_from_code(6) == NonGPSCause::YawErrorLarge,
        NonGPSCause::spec_from_code(7) == NonGPSCause::CompassErrorLarge,
        !(value == 0 || value == 1 || value == 2 || value == 3 || value == 4 || value == 5 || value == 6 || value == 7) ==> NonGPSCause::spec_from_code(value) == NonGPSCause::Unknown(value),
{
}

/// The imu init fail reason of each wire code, as the log format numbers them.
pub proof fn lemma_imu_init_fail_reason_codes(value: u8)
    ensures
        ImuInitFailReason::spec_from_code(0) == ImuInitFailReason::MonitorError,
        ImuInitFailReason::spec_from_code(1) == ImuInitFailReason::CollectingData,
        ImuInitFailReason::spec_from_code(3) == ImuInitFailReason::AcceDead,
        ImuInitFailReason::spec_from_code(4) == ImuInitFailReason::CompassDead,
        ImuInitFailReason::spec_from_code(5) == ImuInitFailReason::BarometerDead,
        ImuInitFailReason::spec_from_code(6) == ImuInitFailReason::BarometerNegative,
        ImuInitFailReason::spec_from_code(7) == ImuInitFailReason::CompassModTooLarge,
        ImuInitFailReason::spec_from_code(8) == ImuInitFailReason::GyroBiasTooLarge,
        ImuInitFailReason::spec_from_code(9) == ImuInitFailReason::AcceBiasTooLarge,
        ImuInitFailReason::spec_from_code(10) == ImuInitFailReason::CompassNoiseTooLarge,
        ImuInitFailReason::spec_from_code(11) == ImuInitFailReason::BarometerNoiseTooLarge,
        ImuInitFailReason::spec_from_code(12) == ImuInitFailReason::WaitingMcStationary,
        ImuInitFailReason::spec_from_code(13) == ImuInitFailReason::AcceMoveTooLarge,
        ImuInitFailReason::spec_from_code(14) == ImuInitFailReason::McHeaderMoved,
        ImuInitFailReason::spec_from_code(15) == ImuInitFailReason::McVibrated,
        !(value == 0 || value == 1 || value == 3 || value == 4 || value == 5 || value == 6 || value == 7 || value == 8 || value == 9 || value == 10 || value == 11 || value == 12 || value == 13 || value == 14 || value == 15) ==> ImuInitFailReason::spec_from_code(value) == ImuInitFailReason::Unknown(value),
{
}

} // verus!
