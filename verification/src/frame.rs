//! The frame state that records set without floating-point arithmetic:
//! camera and remote controller state, the recovered aircraft identity,
//! home-point modes, battery charge and capacities, and the tips and
//! warnings shown during a frame. A frame runs from one OSD
//! record to the next.
use vstd::prelude::*;

use crate::layout::details::Platform;
use crate::record::camera::SDCardState;
use crate::record::center_battery::CenterBattery;
use crate::record::home::{CompassCalibrationState, Home, IOCMode};
use crate::record::gimbal::Gimbal;
use crate::record::rc::RC;
use crate::record::recover_info::RecoverInfoView;
use crate::record::rc_display_field::RCDisplayField;
use crate::record::smart_battery::SmartBattery;
use crate::record::smart_battery_group::{
    SmartBatteryDynamic, SmartBatteryGroup, SmartBatteryGroupView,
};
use crate::record::osd::{AppCommand, FlightMode, GroundOrSky, OSD};
use crate::record::{Record, RecordView};
use crate::stream::record_views;
use crate::utils::{append_message, decimal, push_char, push_decimal, spec_append_message};

verus! {

/// Messages of a frame.
#[derive(Debug, Clone)]
pub struct FrameApp {
    /// App tips, separated by `"; "`.
    pub tip: String,
    /// App warnings, separated by `"; "`.
    pub warn: String,
}

/// Camera state of a frame.
#[derive(Debug, Clone, Copy, PartialEq, Eq, Structural)]
pub struct Camera {
    pub is_photo: bool,
    pub is_video: bool,
    pub sd_card_is_inserted: bool,
    pub sd_card_state: Option<SDCardState>,
}

/// Remote controller state of a frame.
#[derive(Debug, Clone, Copy, PartialEq, Eq, Structural)]
pub struct FrameRC {
    pub downlink_signal: Option<u8>,
    pub uplink_signal: Option<u8>,
    pub aileron: u16,
    pub elevator: u16,
    pub throttle: u16,
    pub rudder: u16,
}

/// Aircraft identity recovered from the log.
#[derive(Debug, Clone)]
pub struct Recover {
    pub app_platform: Option<Platform>,
    pub app_version: String,
    pub aircraft_name: String,
    pub aircraft_sn: String,
    pub camera_sn: String,
    pub rc_sn: String,
    pub battery_sn: String,
}

/// Aircraft identity, as values.
pub struct RecoverView {
    pub app_platform: Option<Platform>,
    pub app_version: Seq<char>,
    pub aircraft_name: Seq<char>,
    pub aircraft_sn: Seq<char>,
    pub camera_sn: Seq<char>,
    pub rc_sn: Seq<char>,
    pub battery_sn: Seq<char>,
}

impl View for Recover {
    type V = RecoverView;

    open spec fn view(&self) -> RecoverView {
        RecoverView {
            app_platform: self.app_platform,
            app_version: self.app_version@,
            aircraft_name: self.aircraft_name@,
            aircraft_sn: self.aircraft_sn@,
            camera_sn: self.camera_sn@,
            rc_sn: self.rc_sn@,
            battery_sn: self.battery_sn@,
        }
    }
}

/// Home-point settings that a home record sets only while the matching mode
/// is on; they keep their last value otherwise.
#[derive(Debug, Clone, Copy)]
pub struct FrameHome {
    /// Set while the compass is being calibrated.
    pub compass_calibration_state: Option<CompassCalibrationState>,
    /// Set while intelligent orientation control is on.
    pub ioc_mode: Option<IOCMode>,
    /// Set while intelligent orientation control is on.
    pub ioc_course_lock_angle: Option<i16>,
}

/// The integer battery readings of a frame.
#[derive(Debug, Clone, Copy)]
pub struct FrameBattery {
    /// Charge level in percent.
    pub charge_level: u8,
    /// Remaining capacity in mAh.
    pub current_capacity: u32,
    /// Full capacity in mAh.
    pub full_capacity: u32,
}

/// Whether a battery record of index `index` gives the frame its readings,
/// on an aircraft with `battery_num` batteries: with several batteries, the
/// one at index 1 does.
pub open spec fn spec_battery_feeds_frame(battery_num: u8, index: u8) -> bool {
    battery_num < 2 || index == 1
}

/// Whether a battery record of index `index` gives the frame its readings
/// (see `spec_battery_feeds_frame`).
pub fn battery_feeds_frame(battery_num: u8, index: u8) -> (r: bool)
    ensures
        r == spec_battery_feeds_frame(battery_num, index),
{
    battery_num < 2 || index == 1
}

/// How many cell voltages of a single-voltage battery record the frame
/// takes: as many as the frame has cells, the record counts and the record
/// holds, whichever is fewest.
pub fn cells_to_copy(frame_cells: usize, cell_count: u8, available: usize) -> (r: usize)
    ensures
        r <= frame_cells,
        r <= cell_count,
        r <= available,
        r == frame_cells || r == cell_count || r == available,
{
    let mut n = frame_cells;
    if (cell_count as usize) < n {
        n = cell_count as usize;
    }
    if available < n {
        n = available;
    }
    n
}

/// The state of the frame being filled, in its parts without
/// floating-point values.
#[derive(Debug)]
pub struct FrameState {
    pub camera: Camera,
    pub rc: FrameRC,
    pub recover: Recover,
    pub app: FrameApp,
    /// Flight mode of the last OSD record.
    pub flyc_state: Option<FlightMode>,
    /// App command of the last OSD record; none for the null command.
    pub flyc_command: Option<AppCommand>,
    /// Whether the last OSD record has the aircraft on the ground.
    pub is_on_ground: bool,
    pub is_pitch_at_limit: bool,
    pub is_roll_at_limit: bool,
    pub is_yaw_at_limit: bool,
    pub home: FrameHome,
    pub battery: FrameBattery,
    /// Whether an OSD record has been read: the frame being filled is then
    /// closed by the next one.
    pub started: bool,
}

/// The state of a frame, as values.
pub struct FrameStateView {
    pub camera: Camera,
    pub rc: FrameRC,
    pub recover: RecoverView,
    pub tip: Seq<char>,
    pub warn: Seq<char>,
    pub flyc_state: Option<FlightMode>,
    pub flyc_command: Option<AppCommand>,
    pub is_on_ground: bool,
    pub is_pitch_at_limit: bool,
    pub is_roll_at_limit: bool,
    pub is_yaw_at_limit: bool,
    pub home: FrameHome,
    pub battery: FrameBattery,
    pub started: bool,
}

impl View for FrameState {
    type V = FrameStateView;

    open spec fn view(&self) -> FrameStateView {
        FrameStateView {
            camera: self.camera,
            rc: self.rc,
            recover: self.recover@,
            tip: self.app.tip@,
            warn: self.app.warn@,
            flyc_state: self.flyc_state,
            flyc_command: self.flyc_command,
            is_on_ground: self.is_on_ground,
            is_pitch_at_limit: self.is_pitch_at_limit,
            is_roll_at_limit: self.is_roll_at_limit,
            is_yaw_at_limit: self.is_yaw_at_limit,
            home: self.home,
            battery: self.battery,
            started: self.started,
        }
    }
}

/// The name of a flight mode, as its `Debug` form writes it.
pub open spec fn spec_flight_mode_name(mode: FlightMode) -> Seq<char> {
    match mode {
        FlightMode::Manual => "Manual"@,
        FlightMode::Atti => "Atti"@,
        FlightMode::AttiCourseLock => "AttiCourseLock"@,
        FlightMode::AttiHover => "AttiHover"@,
        FlightMode::Hover => "Hover"@,
        FlightMode::GPSBlake => "GPSBlake"@,
        FlightMode::GPSAtti => "GPSAtti"@,
        FlightMode::GPSCourseLock => "GPSCourseLock"@,
        FlightMode::GPSHomeLock => "GPSHomeLock"@,
        FlightMode::GPSHotPoint => "GPSHotPoint"@,
        FlightMode::AssistedTakeoff => "AssistedTakeoff"@,
        FlightMode::AutoTakeoff => "AutoTakeoff"@,
        FlightMode::AutoLanding => "AutoLanding"@,
        FlightMode::AttiLanding => "AttiLanding"@,
        FlightMode::GPSWaypoint => "GPSWaypoint"@,
        FlightMode::GoHome => "GoHome"@,
        FlightMode::ClickGo => "ClickGo"@,
        FlightMode::Joystick => "Joystick"@,
        FlightMode::GPSAttiWristband => "GPSAttiWristband"@,
        FlightMode::Cinematic => "Cinematic"@,
        FlightMode::AttiLimited => "AttiLimited"@,
        FlightMode::Draw => "Draw"@,
        FlightMode::GPSFollowMe => "GPSFollowMe"@,
        FlightMode::ActiveTrack => "ActiveTrack"@,
        FlightMode::TapFly => "TapFly"@,
        FlightMode::Pano => "Pano"@,
        FlightMode::Farming => "Farming"@,
        FlightMode::FPV => "FPV"@,
        FlightMode::GPSSport => "GPSSport"@,
        FlightMode::GPSNovice => "GPSNovice"@,
        FlightMode::ConfirmLanding => "ConfirmLanding"@,
        FlightMode::TerrainTracking => "TerrainTracking"@,
        FlightMode::NaviAdvGoHome => "NaviAdvGoHome"@,
        FlightMode::NaviAdvLanding => "NaviAdvLanding"@,
        FlightMode::Tripod => "Tripod"@,
        FlightMode::TrackHeadlock => "TrackHeadlock"@,
        FlightMode::EngineStart => "EngineStart"@,
        FlightMode::GPSGentle => "GPSGentle"@,
        FlightMode::Unknown(n) => "Unknown("@ + decimal(n as nat) + ")"@,
    }
}

/// The name of a flight mode (see `spec_flight_mode_name`).
pub fn flight_mode_name(mode: FlightMode) -> (r: String)
    ensures
        r@ == spec_flight_mode_name(mode),
{
    match mode {
        FlightMode::Manual => "Manual".to_string(),
        FlightMode::Atti => "Atti".to_string(),
        FlightMode::AttiCourseLock => "AttiCourseLock".to_string(),
        FlightMode::AttiHover => "AttiHover".to_string(),
        FlightMode::Hover => "Hover".to_string(),
        FlightMode::GPSBlake => "GPSBlake".to_string(),
        FlightMode::GPSAtti => "GPSAtti".to_string(),
        FlightMode::GPSCourseLock => "GPSCourseLock".to_string(),
        FlightMode::GPSHomeLock => "GPSHomeLock".to_string(),
        FlightMode::GPSHotPoint => "GPSHotPoint".to_string(),
        FlightMode::AssistedTakeoff => "AssistedTakeoff".to_string(),
        FlightMode::AutoTakeoff => "AutoTakeoff".to_string(),
        FlightMode::AutoLanding => "AutoLanding".to_string(),
        FlightMode::AttiLanding => "AttiLanding".to_string(),
        FlightMode::GPSWaypoint => "GPSWaypoint".to_string(),
        FlightMode::GoHome => "GoHome".to_string(),
        FlightMode::ClickGo => "ClickGo".to_string(),
        FlightMode::Joystick => "Joystick".to_string(),
        FlightMode::GPSAttiWristband => "GPSAttiWristband".to_string(),
        FlightMode::Cinematic => "Cinematic".to_string(),
        FlightMode::AttiLimited => "AttiLimited".to_string(),
        FlightMode::Draw => "Draw".to_string(),
        FlightMode::GPSFollowMe => "GPSFollowMe".to_string(),
        FlightMode::ActiveTrack => "ActiveTrack".to_string(),
        FlightMode::TapFly => "TapFly".to_string(),
        FlightMode::Pano => "Pano".to_string(),
        FlightMode::Farming => "Farming".to_string(),
        FlightMode::FPV => "FPV".to_string(),
        FlightMode::GPSSport => "GPSSport".to_string(),
        FlightMode::GPSNovice => "GPSNovice".to_string(),
        FlightMode::ConfirmLanding => "ConfirmLanding".to_string(),
        FlightMode::TerrainTracking => "TerrainTracking".to_string(),
        FlightMode::NaviAdvGoHome => "NaviAdvGoHome".to_string(),
        FlightMode::NaviAdvLanding => "NaviAdvLanding".to_string(),
        FlightMode::Tripod => "Tripod".to_string(),
        FlightMode::TrackHeadlock => "TrackHeadlock".to_string(),
        FlightMode::EngineStart => "EngineStart".to_string(),
        FlightMode::GPSGentle => "GPSGentle".to_string(),
        FlightMode::Unknown(n) => {
            let mut s = "Unknown(".to_string();
            push_decimal(&mut s, n);
            push_char(&mut s, ')');
            proof {
                assert(s@ == "Unknown("@ + decimal(n as nat) + ")"@) by {
                    reveal_strlit(")");
                    assert(")"@ =~= seq![')']);
                }
            }
            s
        },
    }
}

/// The tip of a change of flight mode.
pub open spec fn flight_mode_tip(mode: FlightMode) -> Seq<char> {
    "Flight mode changed to "@ + spec_flight_mode_name(mode) + "."@
}

/// The state at the start of a log: nothing set, no messages.
pub open spec fn initial_frame() -> FrameStateView {
    FrameStateView {
        camera: Camera {
            is_photo: false,
            is_video: false,
            sd_card_is_inserted: false,
            sd_card_state: None,
        },
        rc: FrameRC {
            downlink_signal: None,
            uplink_signal: None,
            aileron: 0,
            elevator: 0,
            throttle: 0,
            rudder: 0,
        },
        recover: RecoverView {
            app_platform: None,
            app_version: Seq::empty(),
            aircraft_name: Seq::empty(),
            aircraft_sn: Seq::empty(),
            camera_sn: Seq::empty(),
            rc_sn: Seq::empty(),
            battery_sn: Seq::empty(),
        },
        tip: Seq::empty(),
        warn: Seq::empty(),
        flyc_state: None,
        flyc_command: None,
        is_on_ground: false,
        is_pitch_at_limit: false,
        is_roll_at_limit: false,
        is_yaw_at_limit: false,
        home: FrameHome { compass_calibration_state: None, ioc_mode: None, ioc_course_lock_angle: None },
        battery: FrameBattery { charge_level: 0, current_capacity: 0, full_capacity: 0 },
        started: false,
    }
}

/// The state a new frame starts from: the events of the last frame (a
/// photo being taken, tips and warnings) are cleared.
pub open spec fn reset_frame(s: FrameStateView) -> FrameStateView {
    FrameStateView {
        camera: Camera { is_photo: false, ..s.camera },
        tip: Seq::empty(),
        warn: Seq::empty(),
        ..s
    }
}

/// `tip` with `message` appended where `cond` holds.
pub open spec fn tip_if(tip: Seq<char>, cond: bool, message: Seq<char>) -> Seq<char> {
    if cond {
        spec_append_message(tip, message)
    } else {
        tip
    }
}

/// The state after a record, and the frame that the record closes, if any:
/// an OSD record after the first closes the frame being filled and starts a
/// new one, noting a change of flight mode and taking its command (none for
/// the null command) and whether it is on the ground; a gimbal record notes each axis
/// that reaches its endpoint; camera, remote controller and recovery records
/// set their parts; app tips, warnings and serious warnings are appended; a home record sets
/// the compass calibration state while calibrating and the orientation
/// control mode and course lock angle while that control is on; battery
/// records set the battery readings, a battery group record only where it
/// comes from the battery that feeds the frame (see
/// `spec_battery_feeds_frame`) on an aircraft with `battery_num` batteries.
pub open spec fn spec_apply(s: FrameStateView, r: RecordView, battery_num: u8) -> (
    FrameStateView,
    Option<FrameStateView>,
) {
    match r {
        RecordView::OSD(osd) => {
            let base = if s.started {
                reset_frame(s)
            } else {
                s
            };
            let tip = tip_if(
                base.tip,
                base.flyc_state != Some(osd.flight_mode),
                flight_mode_tip(osd.flight_mode),
            );
            (
                FrameStateView {
                    tip,
                    flyc_state: Some(osd.flight_mode),
                    flyc_command: if osd.app_command == AppCommand::Unknown(0) {
                        None
                    } else {
                        Some(osd.app_command)
                    },
                    is_on_ground: osd.ground_or_sky == GroundOrSky::Ground,
                    started: true,
                    ..base
                },
                if s.started {
                    Some(s)
                } else {
                    None
                },
            )
        },
        RecordView::Gimbal(g) => {
            let t1 = tip_if(
                s.tip,
                !s.is_pitch_at_limit && g.is_pitch_at_limit,
                "Gimbal pitch axis endpoint reached."@,
            );
            let t2 = tip_if(
                t1,
                !s.is_roll_at_limit && g.is_roll_at_limit,
                "Gimbal roll axis endpoint reached."@,
            );
            let t3 = tip_if(
                t2,
                !s.is_yaw_at_limit && g.is_yaw_at_limit,
                "Gimbal yaw axis endpoint reached."@,
            );
            (
                FrameStateView {
                    tip: t3,
                    is_pitch_at_limit: g.is_pitch_at_limit,
                    is_roll_at_limit: g.is_roll_at_limit,
                    is_yaw_at_limit: g.is_yaw_at_limit,
                    ..s
                },
                None,
            )
        },
        RecordView::Camera(c) => (
            FrameStateView {
                camera: Camera {
                    is_photo: c.is_shooting_single_photo,
                    is_video: c.is_recording,
                    sd_card_is_inserted: c.has_sd_card,
                    sd_card_state: Some(c.sd_card_state),
                },
                ..s
            },
            None,
        ),
        RecordView::RC(rc) => (
            FrameStateView {
                rc: FrameRC {
                    aileron: rc.aileron,
                    elevator: rc.elevator,
                    throttle: rc.throttle,
                    rudder: rc.rudder,
                    ..s.rc
                },
                ..s
            },
            None,
        ),
        RecordView::RCDisplayField(rc) => (
            FrameStateView {
                rc: FrameRC {
                    aileron: rc.aileron,
                    elevator: rc.elevator,
                    throttle: rc.throttle,
                    rudder: rc.rudder,
                    ..s.rc
                },
                ..s
            },
            None,
        ),
        RecordView::Recover(ri) => (
            FrameStateView {
                recover: RecoverView {
                    app_platform: Some(ri.app_platform),
                    app_version: ri.app_version,
                    aircraft_name: ri.aircraft_name,
                    aircraft_sn: ri.aircraft_sn,
                    camera_sn: ri.camera_sn,
                    rc_sn: ri.rc_sn,
                    battery_sn: ri.battery_sn,
                },
                ..s
            },
            None,
        ),
        RecordView::AppTip(m) => (FrameStateView { tip: spec_append_message(s.tip, m), ..s }, None),
        RecordView::AppWarn(m) => (
            FrameStateView { warn: spec_append_message(s.warn, m), ..s },
            None,
        ),
        RecordView::AppSeriousWarn(m) => (
            FrameStateView { warn: spec_append_message(s.warn, m), ..s },
            None,
        ),
        RecordView::Home(h) => (
            FrameStateView {
                home: FrameHome {
                    compass_calibration_state: if h.is_compass_adjust {
                        Some(h.compass_state)
                    } else {
                        s.home.compass_calibration_state
                    },
                    ioc_mode: if h.is_ioc_open {
                        Some(h.ioc_mode)
                    } else {
                        s.home.ioc_mode
                    },
                    ioc_course_lock_angle: if h.is_ioc_open {
                        Some(h.ioc_course_lock_angle)
                    } else {
                        s.home.ioc_course_lock_angle
                    },
                },
                ..s
            },
            None,
        ),
        RecordView::CenterBattery(b) => (
            FrameStateView {
                battery: FrameBattery {
                    charge_level: b.relative_capacity,
                    current_capacity: b.current_capacity as u32,
                    full_capacity: b.full_capacity as u32,
                },
                ..s
            },
            None,
        ),
        RecordView::SmartBattery(b) => (
            FrameStateView { battery: FrameBattery { charge_level: b.percent, ..s.battery }, ..s },
            None,
        ),
        RecordView::SmartBatteryGroup(SmartBatteryGroupView::SmartBatteryDynamic(b)) => (
            if spec_battery_feeds_frame(battery_num, b.index) {
                FrameStateView {
                    battery: FrameBattery {
                        charge_level: b.capacity_percent,
                        current_capacity: b.remained_capacity,
                        full_capacity: b.full_capacity,
                    },
                    ..s
                }
            } else {
                s
            },
            None,
        ),
        _ => (s, None),
    }
}

/// A center battery record gives the frame its charge level and its current
/// and full capacity; a smart battery record its charge level alone; a
/// battery group record of the battery that feeds the frame (any, with fewer
/// than two batteries; the one of index 1 otherwise) its charge level,
/// remaining and full capacity, and one of another battery changes nothing.
/// None of them closes a frame.
pub proof fn lemma_apply_battery_records(
    s: FrameStateView,
    battery_num: u8,
    center: CenterBattery,
    smart: SmartBattery,
    group: SmartBatteryDynamic,
)
    ensures
        ({
            let (t, closed) = spec_apply(s, RecordView::CenterBattery(center), battery_num);
            &&& t.battery.charge_level == center.relative_capacity
            &&& t.battery.current_capacity == center.current_capacity
            &&& t.battery.full_capacity == center.full_capacity
            &&& t.home == s.home && t.camera == s.camera && t.tip == s.tip
            &&& closed is None
        }),
        ({
            let (t, closed) = spec_apply(s, RecordView::SmartBattery(smart), battery_num);
            &&& t.battery.charge_level == smart.percent
            &&& t.battery.current_capacity == s.battery.current_capacity
            &&& t.battery.full_capacity == s.battery.full_capacity
            &&& closed is None
        }),
        ({
            let (t, closed) = spec_apply(
                s,
                RecordView::SmartBatteryGroup(SmartBatteryGroupView::SmartBatteryDynamic(group)),
                battery_num,
            );
            &&& (battery_num < 2 || group.index == 1) ==> {
                &&& t.battery.charge_level == group.capacity_percent
                &&& t.battery.current_capacity == group.remained_capacity
                &&& t.battery.full_capacity == group.full_capacity
            }
            &&& !(battery_num < 2 || group.index == 1) ==> t == s
            &&& closed is None
        }),
{
}

/// A home record sets the compass calibration state only while the compass
/// is being calibrated, and the orientation control mode and course lock
/// angle only while that control is on; otherwise they keep their values.
/// It touches nothing else and closes no frame.
pub proof fn lemma_apply_home_record(s: FrameStateView, battery_num: u8, h: Home)
    ensures
        ({
            let (t, closed) = spec_apply(s, RecordView::Home(h), battery_num);
            &&& h.is_compass_adjust ==> t.home.compass_calibration_state == Some(h.compass_state)
            &&& !h.is_compass_adjust ==> t.home.compass_calibration_state
                == s.home.compass_calibration_state
            &&& h.is_ioc_open ==> t.home.ioc_mode == Some(h.ioc_mode)
                && t.home.ioc_course_lock_angle == Some(h.ioc_course_lock_angle)
            &&& !h.is_ioc_open ==> t.home.ioc_mode == s.home.ioc_mode
                && t.home.ioc_course_lock_angle == s.home.ioc_course_lock_angle
            &&& t.battery == s.battery && t.camera == s.camera && t.rc == s.rc
            &&& closed is None
        }),
{
}

/// An OSD record closes the frame being filled, if one is, and starts the
/// next: the new frame takes the record's flight mode, its command (none for
/// the null command) and whether it is on the ground, and drops the photo
/// flag, tips and warnings of the closed one; a change of flight mode is
/// noted in the tips. The closed frame is the state before the record.
pub proof fn lemma_apply_osd_record(s: FrameStateView, battery_num: u8, osd: OSD)
    ensures
        ({
            let (t, closed) = spec_apply(s, RecordView::OSD(osd), battery_num);
            &&& closed == (if s.started { Some(s) } else { None::<FrameStateView> })
            &&& t.started
            &&& t.flyc_state == Some(osd.flight_mode)
            &&& t.flyc_command == (if osd.app_command == AppCommand::Unknown(0) {
                None
            } else {
                Some(osd.app_command)
            })
            &&& t.is_on_ground == (osd.ground_or_sky == GroundOrSky::Ground)
            &&& s.started ==> !t.camera.is_photo && t.warn.len() == 0
            &&& !s.started ==> t.camera == s.camera && t.warn == s.warn
            &&& s.flyc_state == Some(osd.flight_mode) && s.started ==> t.tip.len() == 0
            &&& s.flyc_state != Some(osd.flight_mode) ==> t.tip.len() > 0
            &&& t.battery == s.battery && t.home == s.home && t.rc == s.rc
        }),
{
    if s.flyc_state != Some(osd.flight_mode) {
        reveal_strlit("Flight mode changed to ");
        assert(flight_mode_tip(osd.flight_mode).len() > 0);
    }
}

/// A camera record gives the frame its photo and video flags and its SD card
/// presence and state; a remote controller record (either kind) its four
/// stick positions, leaving the signal strengths. Neither closes a frame.
pub proof fn lemma_apply_camera_and_rc_records(
    s: FrameStateView,
    battery_num: u8,
    c: crate::record::camera::Camera,
    rc: RC,
    display: RCDisplayField,
)
    ensures
        ({
            let (t, closed) = spec_apply(s, RecordView::Camera(c), battery_num);
            &&& t.camera.is_photo == c.is_shooting_single_photo
            &&& t.camera.is_video == c.is_recording
            &&& t.camera.sd_card_is_inserted == c.has_sd_card
            &&& t.camera.sd_card_state == Some(c.sd_card_state)
            &&& t.rc == s.rc && closed is None
        }),
        ({
            let (t, closed) = spec_apply(s, RecordView::RC(rc), battery_num);
            &&& t.rc.aileron == rc.aileron && t.rc.elevator == rc.elevator
            &&& t.rc.throttle == rc.throttle && t.rc.rudder == rc.rudder
            &&& t.rc.downlink_signal == s.rc.downlink_signal
            &&& t.rc.uplink_signal == s.rc.uplink_signal
            &&& t.camera == s.camera && closed is None
        }),
        ({
            let (t, closed) = spec_apply(s, RecordView::RCDisplayField(display), battery_num);
            &&& t.rc.aileron == display.aileron && t.rc.elevator == display.elevator
            &&& t.rc.throttle == display.throttle && t.rc.rudder == display.rudder
            &&& t.rc.downlink_signal == s.rc.downlink_signal
            &&& t.rc.uplink_signal == s.rc.uplink_signal
            &&& closed is None
        }),
{
}

/// A gimbal record gives the frame the endpoint flags of its three axes,
/// and adds a tip for each axis that has just reached its endpoint; a
/// recovery record gives the frame the recovered identity (app platform and
/// version, aircraft name and serial, camera, remote controller and battery
/// serials); tips, warnings and serious warnings are added to the frame's
/// messages. None of them closes a frame.
pub proof fn lemma_apply_gimbal_recover_and_message_records(
    s: FrameStateView,
    battery_num: u8,
    g: Gimbal,
    ri: RecoverInfoView,
    m: Seq<char>,
)
    ensures
        ({
            let (t, closed) = spec_apply(s, RecordView::Gimbal(g), battery_num);
            &&& t.is_pitch_at_limit == g.is_pitch_at_limit
            &&& t.is_roll_at_limit == g.is_roll_at_limit
            &&& t.is_yaw_at_limit == g.is_yaw_at_limit
            &&& !(!s.is_pitch_at_limit && g.is_pitch_at_limit) && !(!s.is_roll_at_limit
                && g.is_roll_at_limit) && !(!s.is_yaw_at_limit && g.is_yaw_at_limit) ==> t.tip
                == s.tip
            &&& (!s.is_pitch_at_limit && g.is_pitch_at_limit) ==> t.tip.len() > 0
            &&& closed is None
        }),
        ({
            let (t, closed) = spec_apply(s, RecordView::Recover(ri), battery_num);
            &&& t.recover.app_platform == Some(ri.app_platform)
            &&& t.recover.app_version == ri.app_version
            &&& t.recover.aircraft_name == ri.aircraft_name
            &&& t.recover.aircraft_sn == ri.aircraft_sn
            &&& t.recover.camera_sn == ri.camera_sn
            &&& t.recover.rc_sn == ri.rc_sn
            &&& t.recover.battery_sn == ri.battery_sn
            &&& closed is None
        }),
        spec_apply(s, RecordView::AppTip(m), battery_num) == (
            FrameStateView { tip: spec_append_message(s.tip, m), ..s },
            None::<FrameStateView>,
        ),
        spec_apply(s, RecordView::AppWarn(m), battery_num) == (
            FrameStateView { warn: spec_append_message(s.warn, m), ..s },
            None::<FrameStateView>,
        ),
        spec_apply(s, RecordView::AppSeriousWarn(m), battery_num) == (
            FrameStateView { warn: spec_append_message(s.warn, m), ..s },
            None::<FrameStateView>,
        ),
{
    if !s.is_pitch_at_limit && g.is_pitch_at_limit {
        reveal_strlit("Gimbal pitch axis endpoint reached.");
    }
}

/// The frames that a list of records closes, and the state after them.
pub open spec fn spec_frames(recs: Seq<RecordView>, battery_num: u8) -> (
    Seq<FrameStateView>,
    FrameStateView,
)
    decreases recs.len(),
{
    if recs.len() == 0 {
        (Seq::empty(), initial_frame())
    } else {
        let (frames, s) = spec_frames(recs.drop_last(), battery_num);
        let (s2, closed) = spec_apply(s, recs.last(), battery_num);
        match closed {
            Some(f) => (frames.push(f), s2),
            None => (frames, s2),
        }
    }
}

/// The number of OSD records in a list of records.
pub open spec fn osd_count(recs: Seq<RecordView>) -> nat
    decreases recs.len(),
{
    if recs.len() == 0 {
        0
    } else {
        osd_count(recs.drop_last()) + if recs.last() is OSD {
            1nat
        } else {
            0nat
        }
    }
}

/// Frames follow OSD records: the records close one frame fewer than they
/// hold OSD records (none where they hold none), and a frame is being filled
/// once an OSD record has been read.
pub proof fn lemma_frames_follow_osd_records(recs: Seq<RecordView>, battery_num: u8)
    ensures
        spec_frames(recs, battery_num).1.started == (osd_count(recs) > 0),
        spec_frames(recs, battery_num).0.len() == if osd_count(recs) > 0 {
            osd_count(recs) - 1
        } else {
            0
        },
    decreases recs.len(),
{
    if recs.len() > 0 {
        lemma_frames_follow_osd_records(recs.drop_last(), battery_num);
    }
}

impl Recover {
    /// A copy of the identity.
    pub fn copy(&self) -> (r: Recover)
        ensures
            r@ == self@,
    {
        Recover {
            app_platform: self.app_platform,
            app_version: self.app_version.clone(),
            aircraft_name: self.aircraft_name.clone(),
            aircraft_sn: self.aircraft_sn.clone(),
            camera_sn: self.camera_sn.clone(),
            rc_sn: self.rc_sn.clone(),
            battery_sn: self.battery_sn.clone(),
        }
    }
}

impl FrameState {
    /// The state at the start of a log (see `initial_frame`).
    pub fn new() -> (r: FrameState)
        ensures
            r@ == initial_frame(),
    {
        FrameState {
            camera: Camera {
                is_photo: false,
                is_video: false,
                sd_card_is_inserted: false,
                sd_card_state: None,
            },
            rc: FrameRC {
                downlink_signal: None,
                uplink_signal: None,
                aileron: 0,
                elevator: 0,
                throttle: 0,
                rudder: 0,
            },
            recover: Recover {
                app_platform: None,
                app_version: String::new(),
                aircraft_name: String::new(),
                aircraft_sn: String::new(),
                camera_sn: String::new(),
                rc_sn: String::new(),
                battery_sn: String::new(),
            },
            app: FrameApp { tip: String::new(), warn: String::new() },
            flyc_state: None,
            flyc_command: None,
            is_on_ground: false,
            is_pitch_at_limit: false,
            is_roll_at_limit: false,
            is_yaw_at_limit: false,
            home: FrameHome { compass_calibration_state: None, ioc_mode: None, ioc_course_lock_angle: None },
            battery: FrameBattery { charge_level: 0, current_capacity: 0, full_capacity: 0 },
            started: false,
        }
    }

    /// A copy of the state.
    pub fn copy(&self) -> (r: FrameState)
        ensures
            r@ == self@,
    {
        FrameState {
            camera: self.camera,
            rc: self.rc,
            recover: self.recover.copy(),
            app: FrameApp { tip: self.app.tip.clone(), warn: self.app.warn.clone() },
            flyc_state: self.flyc_state,
            flyc_command: self.flyc_command,
            is_on_ground: self.is_on_ground,
            is_pitch_at_limit: self.is_pitch_at_limit,
            is_roll_at_limit: self.is_roll_at_limit,
            is_yaw_at_limit: self.is_yaw_at_limit,
            home: self.home,
            battery: self.battery,
            started: self.started,
        }
    }

    /// Applies a record to the state (see `spec_apply`), giving the frame
    /// that it closes, if any.
    pub fn apply(&mut self, record: &Record, battery_num: u8) -> (r: Option<FrameState>)
        ensures
            final(self)@ == spec_apply(old(self)@, record@, battery_num).0,
            record matches Record::CenterBattery(b) ==> final(self).battery.charge_level
                == b.relative_capacity && final(self).battery.current_capacity
                == b.current_capacity && final(self).battery.full_capacity == b.full_capacity,
            record matches Record::SmartBatteryGroup(SmartBatteryGroup::SmartBatteryDynamic(b))
                ==> if battery_num < 2 || b.index == 1 {
                final(self).battery.charge_level == b.capacity_percent
                    && final(self).battery.current_capacity == b.remained_capacity
                    && final(self).battery.full_capacity == b.full_capacity
            } else {
                final(self).battery == old(self).battery
            },
            match spec_apply(old(self)@, record@, battery_num).1 {
                Some(f) => r matches Some(x) && x@ == f,
                None => r is None,
            },
    {
        match record {
            Record::OSD(osd) => {
                let closed = if self.started {
                    let c = self.copy();
                    self.camera.is_photo = false;
                    self.app.tip = String::new();
                    self.app.warn = String::new();
                    Some(c)
                } else {
                    None
                };
                if self.flyc_state != Some(osd.flight_mode) {
                    let mut message = "Flight mode changed to ".to_string();
                    let name = flight_mode_name(osd.flight_mode);
                    message.append(name.as_str());
                    push_char(&mut message, '.');
                    proof {
                        reveal_strlit(".");
                        assert(message@ =~= flight_mode_tip(osd.flight_mode));
                    }
                    let tip = self.app.tip.clone();
                    self.app.tip = append_message(tip, message.as_str());
                }
                self.flyc_state = Some(osd.flight_mode);
                self.flyc_command = match osd.app_command {
                    AppCommand::Unknown(0) => None,
                    c => Some(c),
                };
                self.is_on_ground = match osd.ground_or_sky {
                    GroundOrSky::Ground => true,
                    _ => false,
                };
                self.started = true;
                closed
            },
            Record::Gimbal(g) => {
                if !self.is_pitch_at_limit && g.is_pitch_at_limit {
                    let tip = self.app.tip.clone();
                    self.app.tip = append_message(tip, "Gimbal pitch axis endpoint reached.");
                }
                self.is_pitch_at_limit = g.is_pitch_at_limit;
                if !self.is_roll_at_limit && g.is_roll_at_limit {
                    let tip = self.app.tip.clone();
                    self.app.tip = append_message(tip, "Gimbal roll axis endpoint reached.");
                }
                self.is_roll_at_limit = g.is_roll_at_limit;
                if !self.is_yaw_at_limit && g.is_yaw_at_limit {
                    let tip = self.app.tip.clone();
                    self.app.tip = append_message(tip, "Gimbal yaw axis endpoint reached.");
                }
                self.is_yaw_at_limit = g.is_yaw_at_limit;
                None
            },
            Record::Camera(c) => {
                self.camera = Camera {
                    is_photo: c.is_shooting_single_photo,
                    is_video: c.is_recording,
                    sd_card_is_inserted: c.has_sd_card,
                    sd_card_state: Some(c.sd_card_state),
                };
                None
            },
            Record::RC(rc) => {
                self.rc.aileron = rc.aileron;
                self.rc.elevator = rc.elevator;
                self.rc.throttle = rc.throttle;
                self.rc.rudder = rc.rudder;
                None
            },
            Record::RCDisplayField(rc) => {
                self.rc.aileron = rc.aileron;
                self.rc.elevator = rc.elevator;
                self.rc.throttle = rc.throttle;
                self.rc.rudder = rc.rudder;
                None
            },
            Record::Recover(ri) => {
                self.recover = Recover {
                    app_platform: Some(ri.app_platform),
                    app_version: ri.app_version.clone(),
                    aircraft_name: ri.aircraft_name.clone(),
                    aircraft_sn: ri.aircraft_sn.clone(),
                    camera_sn: ri.camera_sn.clone(),
                    rc_sn: ri.rc_sn.clone(),
                    battery_sn: ri.battery_sn.clone(),
                };
                None
            },
            Record::AppTip(t) => {
                let tip = self.app.tip.clone();
                self.app.tip = append_message(tip, t.message.as_str());
                None
            },
            Record::AppWarn(w) => {
                let warn = self.app.warn.clone();
                self.app.warn = append_message(warn, w.message.as_str());
                None
            },
            Record::AppSeriousWarn(w) => {
                let warn = self.app.warn.clone();
                self.app.warn = append_message(warn, w.message.as_str());
                None
            },
            Record::Home(h) => {
                if h.is_compass_adjust {
                    self.home.compass_calibration_state = Some(h.compass_state);
                }
                if h.is_ioc_open {
                    self.home.ioc_mode = Some(h.ioc_mode);
                    self.home.ioc_course_lock_angle = Some(h.ioc_course_lock_angle);
                }
                None
            },
            Record::CenterBattery(b) => {
                self.battery = FrameBattery {
                    charge_level: b.relative_capacity,
                    current_capacity: b.current_capacity as u32,
                    full_capacity: b.full_capacity as u32,
                };
                None
            },
            Record::SmartBattery(b) => {
                self.battery.charge_level = b.percent;
                None
            },
            Record::SmartBatteryGroup(SmartBatteryGroup::SmartBatteryDynamic(b)) => {
                if battery_feeds_frame(battery_num, b.index) {
                    self.battery = FrameBattery {
                        charge_level: b.capacity_percent,
                        current_capacity: b.remained_capacity,
                        full_capacity: b.full_capacity,
                    };
                }
                None
            },
            _ => None,
        }
    }
}

/// The frames that a list of records closes (see `spec_frames`): a frame is
/// closed by each OSD record after the first, so the frame being filled when
/// the records end is not among them.
pub fn frame_states(records: &Vec<Record>, battery_num: u8) -> (r: Vec<FrameState>)
    ensures
        r@.map_values(|f: FrameState| f@) == spec_frames(record_views(records@), battery_num).0,
{
    let mut state = FrameState::new();
    let mut out: Vec<FrameState> = Vec::new();
    let mut i: usize = 0;
    proof {
        assert(record_views(records@).take(0) =~= Seq::<RecordView>::empty());
        assert(out@.map_values(|f: FrameState| f@) =~= Seq::<FrameStateView>::empty());
    }
    while i < records.len()
        invariant
            i <= records@.len(),
            out@.map_values(|f: FrameState| f@) == spec_frames(
                record_views(records@).take(i as int),
                battery_num,
            ).0,
            state@ == spec_frames(record_views(records@).take(i as int), battery_num).1,
        decreases records.len() - i,
    {
        proof {
            let t = record_views(records@).take(i + 1);
            assert(t.drop_last() =~= record_views(records@).take(i as int));
            assert(t.last() == records@[i as int]@);
        }
        let ghost before = out@;
        match state.apply(&records[i], battery_num) {
            Some(f) => {
                out.push(f);
                proof {
                    assert(out@.map_values(|f: FrameState| f@) =~= before.map_values(
                        |f: FrameState| f@,
                    ).push(out@.last()@));
                }
            },
            None => {},
        }
        i = i + 1;
    }
    proof {
        assert(record_views(records@).take(i as int) =~= record_views(records@));
    }
    out
}

} // verus!
