use dji_log_parser::export::{get_headers, moment_pictures};
use dji_log_parser::frame::{battery_feeds_frame, cells_to_copy, flight_mode_name, frame_states, FrameState};
use dji_log_parser::record::home::{CompassCalibrationState, Home, IOCMode};
use dji_log_parser::record::smart_battery_group::{SmartBatteryDynamic, SmartBatteryGroup};
use dji_log_parser::record::app_tip::AppTip;
use dji_log_parser::record::app_serious_warn::AppSeriousWarn;
use dji_log_parser::record::app_warn::AppWarn;
use dji_log_parser::record::camera::Camera;
use dji_log_parser::record::gimbal::Gimbal;
use dji_log_parser::record::osd::{FlightMode, OSD};
use dji_log_parser::record::rc::RC;
use dji_log_parser::record::Record;
use dji_log_parser::layout::details::ProductType;

fn osd(mode: FlightMode) -> Record {
    let mut o = OSD::parse(&vec![0u8; OSD::size(13)], 13);
    o.flight_mode = mode;
    Record::OSD(o)
}

fn gimbal(pitch: bool, roll: bool, yaw: bool) -> Record {
    let mut g = Gimbal::parse(&vec![0u8; Gimbal::size(13)], 13);
    g.is_pitch_at_limit = pitch;
    g.is_roll_at_limit = roll;
    g.is_yaw_at_limit = yaw;
    Record::Gimbal(g)
}

fn tip(m: &str) -> Record {
    Record::AppTip(AppTip { message: m.to_string() })
}

#[test]
fn flight_mode_names_follow_debug_form() {
    assert_eq!(flight_mode_name(FlightMode::GPSAtti), "GPSAtti");
    assert_eq!(flight_mode_name(FlightMode::Unknown(200)), "Unknown(200)");
    assert_eq!(flight_mode_name(FlightMode::Unknown(7)), format!("{:?}", FlightMode::Unknown(7)));
    assert_eq!(flight_mode_name(FlightMode::GPSGentle), format!("{:?}", FlightMode::GPSGentle));
}

#[test]
fn each_osd_record_after_the_first_closes_a_frame() {
    let records = vec![
        tip("before"),
        osd(FlightMode::Manual),
        tip("one"),
        osd(FlightMode::Manual),
        Record::AppWarn(AppWarn { message: "careful".to_string() }),
        osd(FlightMode::GPSAtti),
        tip("last"),
    ];
    let frames = frame_states(&records, 1);
    assert_eq!(frames.len(), 2);
    assert_eq!(frames[0].app.tip, "before; Flight mode changed to Manual.; one");
    assert_eq!(frames[0].app.warn, "");
    assert_eq!(frames[1].app.tip, "");
    assert_eq!(frames[1].app.warn, "careful");
    assert_eq!(frames[1].flyc_state, Some(FlightMode::Manual));
}

#[test]
fn gimbal_endpoints_are_noted_once() {
    let mut state = FrameState::new();
    assert!(state.apply(&gimbal(true, false, true), 1).is_none());
    assert_eq!(
        state.app.tip,
        "Gimbal pitch axis endpoint reached.; Gimbal yaw axis endpoint reached."
    );
    state.apply(&gimbal(true, true, true), 1);
    assert_eq!(
        state.app.tip,
        "Gimbal pitch axis endpoint reached.; Gimbal yaw axis endpoint reached.; Gimbal roll axis endpoint reached."
    );
}

#[test]
fn camera_and_rc_records_set_their_parts() {
    let mut state = FrameState::new();
    let mut c = Camera::parse(&vec![0u8; Camera::size()]);
    c.is_shooting_single_photo = true;
    c.is_recording = true;
    c.has_sd_card = true;
    state.apply(&Record::Camera(c), 1);
    assert!(state.camera.is_photo);
    assert!(state.camera.is_video);
    assert!(state.camera.sd_card_is_inserted);
    let mut rc = RC::parse(&vec![0u8; RC::size(13)], 13, ProductType::NoProduct);
    rc.aileron = 1024;
    rc.throttle = 364;
    state.apply(&Record::RC(rc), 1);
    assert_eq!(state.rc.aileron, 1024);
    assert_eq!(state.rc.throttle, 364);
    state.apply(&osd(FlightMode::Manual), 1);
    let closed = state.apply(&osd(FlightMode::Manual), 1).unwrap();
    assert!(closed.camera.is_photo);
    assert!(!state.camera.is_photo);
    assert!(state.camera.is_video);
}

#[test]
fn csv_headers_have_one_column_per_cell() {
    let none = get_headers(0);
    let four = get_headers(4);
    assert_eq!(four.len(), none.len() + 4);
    assert_eq!(none[0], "CUSTOM.dateTime");
    assert_eq!(none.last().unwrap(), "DETAILS.appVersion");
    let at = none.iter().position(|h| h == "BATTERY.isCellVoltageEstimated").unwrap();
    assert_eq!(four[at + 1], "BATTERY.cellVoltage1");
    assert_eq!(four[at + 4], "BATTERY.cellVoltage4");
    assert_eq!(four[at + 5], "BATTERY.cellVoltageDeviation");
    assert_eq!(get_headers(12)[at + 12], "BATTERY.cellVoltage12");
}

#[test]
fn moment_pictures_match_announced_sizes_in_order() {
    let records = vec![
        Record::JPEG(vec![0; 3]),
        Record::JPEG(vec![0; 5]),
        tip("x"),
        Record::JPEG(vec![0; 3]),
        Record::JPEG(vec![0; 7]),
    ];
    let found = moment_pictures(&records, &[5, 7, 0, 0]);
    assert_eq!(found, vec![(0, 1), (1, 4)]);
    assert!(moment_pictures(&records, &[9, 9, 9, 9]).is_empty());
}

#[test]
fn battery_of_index_one_feeds_multi_battery_frames() {
    assert!(battery_feeds_frame(1, 0));
    assert!(battery_feeds_frame(0, 5));
    assert!(battery_feeds_frame(2, 1));
    assert!(!battery_feeds_frame(2, 0));
    assert!(!battery_feeds_frame(4, 2));
}

#[test]
fn cells_copied_are_the_fewest_of_three() {
    assert_eq!(cells_to_copy(4, 6, 6), 4);
    assert_eq!(cells_to_copy(6, 3, 6), 3);
    assert_eq!(cells_to_copy(6, 6, 2), 2);
    assert_eq!(cells_to_copy(0, 6, 6), 0);
}

fn dynamic_battery(index: u8, percent: u8, remained: u32, full: u32) -> Record {
    let mut b = SmartBatteryDynamic::parse(&vec![0u8; SmartBatteryDynamic::size()]);
    b.index = index;
    b.capacity_percent = percent;
    b.remained_capacity = remained;
    b.full_capacity = full;
    Record::SmartBatteryGroup(SmartBatteryGroup::SmartBatteryDynamic(b))
}

#[test]
fn battery_group_records_of_other_batteries_are_skipped() {
    let mut state = FrameState::new();
    state.apply(&dynamic_battery(0, 40, 1000, 3000), 2);
    assert_eq!(state.battery.charge_level, 0);
    state.apply(&dynamic_battery(1, 55, 1500, 3000), 2);
    assert_eq!(state.battery.charge_level, 55);
    assert_eq!(state.battery.current_capacity, 1500);
    assert_eq!(state.battery.full_capacity, 3000);
    let mut single = FrameState::new();
    single.apply(&dynamic_battery(0, 40, 1000, 3000), 1);
    assert_eq!(single.battery.charge_level, 40);
}

#[test]
fn home_settings_keep_their_last_value() {
    let mut state = FrameState::new();
    let mut h = Home::parse(&vec![0u8; Home::size(13)], 13);
    h.is_compass_adjust = true;
    h.compass_state = CompassCalibrationState::Successful;
    h.is_ioc_open = true;
    h.ioc_mode = IOCMode::HomeLock;
    h.ioc_course_lock_angle = -12;
    state.apply(&Record::Home(h), 1);
    h.is_compass_adjust = false;
    h.compass_state = CompassCalibrationState::Failed;
    h.is_ioc_open = false;
    h.ioc_course_lock_angle = 40;
    state.apply(&Record::Home(h), 1);
    assert_eq!(state.home.compass_calibration_state, Some(CompassCalibrationState::Successful));
    assert_eq!(state.home.ioc_mode, Some(IOCMode::HomeLock));
    assert_eq!(state.home.ioc_course_lock_angle, Some(-12));
}

#[test]
fn serious_warnings_join_the_frame_warnings() {
    let mut state = FrameState::new();
    state.apply(&Record::AppWarn(AppWarn { message: "careful".to_string() }), 1);
    state.apply(&Record::AppSeriousWarn(AppSeriousWarn { message: "land now".to_string() }), 1);
    assert_eq!(state.app.warn, "careful; land now");
}
