use dji_log_parser::record::osd::{DroneType, FlightMode, GoHomeStatus, GroundOrSky, OSD};
use dji_log_parser::utils::sub_byte_field;

#[test]
fn osd_fields_sit_where_the_layout_puts_them() {
    let mut b = vec![0u8; 50];
    b[0..8].copy_from_slice(&1.5f64.to_bits().to_le_bytes());
    b[8..16].copy_from_slice(&(-0.25f64).to_bits().to_le_bytes());
    b[16..18].copy_from_slice(&(-123i16).to_le_bytes());
    b[18..20].copy_from_slice(&45i16.to_le_bytes());
    b[28..30].copy_from_slice(&(-900i16).to_le_bytes());
    b[30] = 0x80 | 6;
    b[32] = 0x01 | (2 << 1) | 0x08 | (3 << 5);
    b[36] = 17;
    b[40] = 88;
    b[41] = 25;
    b[42..44].copy_from_slice(&1234u16.to_le_bytes());
    b[47] = 9;
    b[48] = 1;
    let osd = OSD::parse(&b, 13);
    assert_eq!(f64::from_bits(osd.longitude), 1.5);
    assert_eq!(f64::from_bits(osd.latitude), -0.25);
    assert_eq!(osd.altitude, -123);
    assert_eq!(osd.speed_x, 45);
    assert_eq!(osd.yaw, -900);
    assert_eq!(osd.flight_mode, FlightMode::GPSAtti);
    assert!(osd.rc_outcontrol);
    assert!(osd.can_ioc_work);
    assert_eq!(osd.ground_or_sky, GroundOrSky::Sky);
    assert!(osd.is_motor_up);
    assert!(!osd.is_swave_work);
    assert_eq!(osd.go_home_status, GoHomeStatus::Ascending);
    assert_eq!(osd.gps_num, 17);
    assert_eq!(osd.battery, 88);
    assert_eq!(osd.s_wave_height, 25);
    assert_eq!(osd.fly_time, 1234);
    assert_eq!(osd.version_c, 9);
    assert_eq!(osd.drone_type, DroneType::Inspire1);
    assert_eq!(OSD::size(13), 50);
    assert_eq!(OSD::size(2), 49);
    assert_eq!(OSD::size(1), 48);
}

#[test]
fn old_osd_has_no_drone_type() {
    let mut b = vec![0u8; 48];
    b[47] = 3;
    let osd = OSD::parse(&b, 1);
    assert_eq!(osd.version_c, 3);
    assert_eq!(osd.drone_type, DroneType::NoDrone);
}

#[test]
fn sub_byte_field_shifted_back_gives_masked_bits() {
    for (byte, mask, shift) in [(0xACu8, 0xE0u8, 5u32), (0x5A, 0x3C, 2), (0xFF, 0x80, 7), (0x12, 0x0F, 0)] {
        assert_eq!((sub_byte_field(byte, mask) as u32) << shift, (byte & mask) as u32);
    }
}
