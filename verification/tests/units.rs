use dji_log_parser::c_api::{get_last_error, listed_records, set_last_error, LastError};
use dji_log_parser::keychain::api::{status_error, KeychainResponseResult, KeychainsResponse};
use dji_log_parser::keychain::request::{KeychainAES, KeychainResponse};
use dji_log_parser::keychain::{FeaturePoint, Keychain, KeychainFeaturePoint};
use dji_log_parser::layout::auxiliary::{read_auxiliary, Auxiliary, Department};
use dji_log_parser::layout::details::{parse_battery_sn, Platform, ProductType};
use dji_log_parser::record::firmware::SenderType;
use dji_log_parser::record::mc_param::FailSafeProtectionType;
use dji_log_parser::record::rc::FlightModeSwitch;
use dji_log_parser::record::camera::SDCardState;
use dji_log_parser::record::osd::MotorStartFailedCause;
use dji_log_parser::record::Record;
use dji_log_parser::utils::{
    append_message, fixed_string, format_dotted_version, pad_with_zeros, read_u16_le, read_u32_le,
    sub_byte_field, to_i16, to_i8,
};
use dji_log_parser::Error;

#[test]
fn sub_byte_field_extracts_masked_bits() {
    assert_eq!(sub_byte_field(0b10101100, 0b11100000), 0b00000101);
    assert_eq!(sub_byte_field(0b10101100, 0b00001100), 0b11);
    assert_eq!(sub_byte_field(0xFF, 0x01), 1);
    assert_eq!(sub_byte_field(0xFF, 0x00), 0);
    assert_eq!(sub_byte_field(0x80, 0x80), 1);
}

#[test]
fn pad_with_zeros_extends_short_input() {
    let padded = pad_with_zeros(b"Hello, world!", 16);
    assert_eq!(padded, b"Hello, world!\0\0\0".to_vec());
    assert_eq!(pad_with_zeros(&[1, 2, 3], 2), vec![1, 2, 3]);
    assert_eq!(pad_with_zeros(&[], 3), vec![0, 0, 0]);
}

#[test]
fn append_message_joins_with_separator() {
    assert_eq!(append_message("Hello".to_string(), "World"), "Hello; World");
    assert_eq!(append_message(String::new(), "World"), "World");
    assert_eq!(append_message("Hello".to_string(), ""), "Hello");
    assert_eq!(append_message(String::new(), ""), "");
}

#[test]
fn fixed_string_drops_trailing_nuls() {
    assert_eq!(fixed_string(b"abc\0\0"), "abc");
    assert_eq!(fixed_string(b"\0\0"), "");
    assert_eq!(fixed_string(b"a\0b\0"), "a\0b");
    assert_eq!(fixed_string(&[0xFF, b'x', 0]), "\u{FFFD}x");
}

#[test]
fn little_endian_readers() {
    assert_eq!(read_u16_le(&[0x34, 0x12], 0), 0x1234);
    assert_eq!(read_u32_le(&[0, 0x78, 0x56, 0x34, 0x12], 1), 0x12345678);
    assert_eq!(to_i8(0xFF), -1);
    assert_eq!(to_i16(0x8000), i16::MIN);
    assert_eq!(format_dotted_version(1, 22, 255), "1.22.255");
}

#[test]
fn department_codes_round_trip() {
    assert_eq!(Department::from(3u8), Department::DJIFly);
    assert_eq!(Department::from(42u8), Department::Unknown(42));
    assert_eq!(u8::from(Department::GSPro), 8);
    assert_eq!(u8::from(Department::Unknown(42)), 42);
    for code in 0..=255u8 {
        assert_eq!(u8::from(Department::from(code)), code);
    }
}

#[test]
fn product_and_platform_codes() {
    assert_eq!(ProductType::from(0u8), ProductType::NoProduct);
    assert_eq!(ProductType::from(77u8), ProductType::Mavic3);
    assert_eq!(ProductType::from(32u8), ProductType::Unknown(32));
    assert_eq!(Platform::from(1u8), Platform::IOS);
    assert_eq!(Platform::from(12u8), Platform::Linux);
    assert_eq!(Platform::from(3u8), Platform::Unknown(3));
}

#[test]
fn battery_tables() {
    assert_eq!(ProductType::Inspire1.battery_cell_num(), 6);
    assert_eq!(ProductType::MavicMini.battery_cell_num(), 2);
    assert_eq!(ProductType::Matrice300RTK.battery_cell_num(), 12);
    assert_eq!(ProductType::Unknown(200).battery_cell_num(), 4);
    assert_eq!(ProductType::Inspire1.battery_num(), 2);
    assert_eq!(ProductType::Matrice600.battery_num(), 6);
    assert_eq!(ProductType::Mavic3.battery_num(), 1);
}

#[test]
fn battery_serial_decoding() {
    assert_eq!(parse_battery_sn(ProductType::Inspire1, vec![0x05, 0x14, 0x03, 0x00]), "345");
    assert_eq!(parse_battery_sn(ProductType::Inspire1Pro, vec![0x00, 0x00]), "");
    assert_eq!(parse_battery_sn(ProductType::Mavic3, b"ABC\0\0".to_vec()), "ABC");
    assert_eq!(parse_battery_sn(ProductType::Mavic3, vec![b'A', b'B', 0, b'C', 0]), "AB");
    assert_eq!(parse_battery_sn(ProductType::Mavic3, b"XYZ".to_vec()), "XYZ");
}

#[test]
fn small_enum_mappings() {
    assert_eq!(SenderType::from(0), SenderType::NoSender);
    assert_eq!(SenderType::from(11), SenderType::Battery);
    assert_eq!(SenderType::from(2), SenderType::Unknown(2));
    assert_eq!(FailSafeProtectionType::from(2), FailSafeProtectionType::GoHome);
    assert_eq!(FailSafeProtectionType::from(9), FailSafeProtectionType::Unknown(9));
    assert_eq!(SDCardState::from(8u8), SDCardState::Full);
    assert_eq!(SDCardState::from(7u8), SDCardState::Unknown(7));
    assert_eq!(MotorStartFailedCause::from(0u8), MotorStartFailedCause::NoCause);
    assert_eq!(MotorStartFailedCause::from(1u8), MotorStartFailedCause::CompassError);
}

#[test]
fn flight_mode_switch_remaps_mavic_pro() {
    assert_eq!(FlightModeSwitch::from(0, ProductType::MavicPro), FlightModeSwitch::Unknown(2));
    for v in 0..=255u8 {
        assert_ne!(FlightModeSwitch::from(v, ProductType::MavicPro), FlightModeSwitch::Three);
    }
    assert_eq!(FlightModeSwitch::from(2, ProductType::Mavic3), FlightModeSwitch::Three);
    assert_eq!(FlightModeSwitch::from(1, ProductType::MavicPro), FlightModeSwitch::Unknown(3));
    assert_eq!(FlightModeSwitch::from(2, ProductType::MavicPro), FlightModeSwitch::Two);
    assert_eq!(FlightModeSwitch::from(0, ProductType::Mavic3), FlightModeSwitch::One);
    assert_eq!(FlightModeSwitch::from(5, ProductType::MavicPro), FlightModeSwitch::Unknown(5));
}

#[test]
fn feature_point_codes_and_record_types() {
    assert_eq!(FeaturePoint::BaseFeature.code(), 1);
    assert_eq!(FeaturePoint::SecurityFeature.code(), 15);
    assert_eq!(FeaturePoint::from_code(12), Some(FeaturePoint::CameraFeature));
    assert_eq!(FeaturePoint::from_code(0), None);
    assert_eq!(FeaturePoint::from_code(16), None);
    assert_eq!(FeaturePoint::from_record_type(1, 13), FeaturePoint::BaseFeature);
    assert_eq!(FeaturePoint::from_record_type(9, 13), FeaturePoint::DJIFlyCustomFeature);
    assert_eq!(FeaturePoint::from_record_type(56, 14), FeaturePoint::PlaintextFeature);
}

#[test]
fn keychain_get_after_insert() {
    let mut k = Keychain::empty();
    assert!(k.get(&FeaturePoint::BaseFeature).is_none());
    assert!(k.insert(FeaturePoint::BaseFeature, (vec![1], vec![2])).is_none());
    assert_eq!(k.get(&FeaturePoint::BaseFeature), Some(&(vec![1], vec![2])));
    let previous = k.insert(FeaturePoint::BaseFeature, (vec![3], vec![4]));
    assert_eq!(previous, Some((vec![1], vec![2])));
    assert_eq!(k.get(&FeaturePoint::BaseFeature), Some(&(vec![3], vec![4])));
    assert!(k.get(&FeaturePoint::GimbalFeature).is_none());
}

#[test]
fn keychain_from_service_entries_decodes_base64() {
    let entries = vec![
        KeychainFeaturePoint {
            feature_point: FeaturePoint::GimbalFeature,
            aes_key: "AQID".to_string(),
            aes_iv: "BAU=".to_string(),
        },
        KeychainFeaturePoint {
            feature_point: FeaturePoint::RCFeature,
            aes_key: "not base64!".to_string(),
            aes_iv: "".to_string(),
        },
    ];
    let k = Keychain::from_feature_points(&entries);
    assert_eq!(k.get(&FeaturePoint::GimbalFeature), Some(&(vec![4, 5], vec![1, 2, 3])));
    assert_eq!(k.get(&FeaturePoint::RCFeature), Some(&(vec![], vec![])));
}

#[test]
fn decrypted_response_groups_become_keychains() {
    let response = KeychainResponse {
        data: vec![
            vec![KeychainAES {
                feature_point: FeaturePoint::CameraFeature,
                aes_key: "AQID".to_string(),
                aes_iv: "BA==".to_string(),
            }],
            vec![],
        ],
    };
    let keychains = response.keychains().unwrap();
    assert_eq!(keychains.len(), 2);
    assert_eq!(keychains[0].get(&FeaturePoint::CameraFeature), Some(&(vec![4], vec![1, 2, 3])));
    assert!(keychains[1].get(&FeaturePoint::CameraFeature).is_none());
    let broken = KeychainResponse {
        data: vec![vec![KeychainAES {
            feature_point: FeaturePoint::CameraFeature,
            aes_key: "%%".to_string(),
            aes_iv: "BA==".to_string(),
        }]],
    };
    assert!(broken.keychains().is_none());
}

#[test]
fn service_answers_map_to_results() {
    let ok = KeychainsResponse {
        data: Some(vec![vec![]]),
        result: KeychainResponseResult { code: 0, msg: "ok".to_string() },
    };
    assert_eq!(ok.into_keychains().unwrap().len(), 1);
    let refused = KeychainsResponse {
        data: None,
        result: KeychainResponseResult { code: 3, msg: "bad".to_string() },
    };
    match refused.into_keychains() {
        Err(Error::ApiError(m)) => assert_eq!(m, "bad"),
        other => panic!("unexpected {:?}", other),
    }
    let empty = KeychainsResponse {
        data: None,
        result: KeychainResponseResult { code: 0, msg: String::new() },
    };
    match empty.into_keychains() {
        Err(Error::ApiError(m)) => assert_eq!(m, "Missing keychain data"),
        other => panic!("unexpected {:?}", other),
    }
    assert!(matches!(status_error(403), Error::ApiKeyError));
    assert!(matches!(status_error(500), Error::NetworkRequestStatus(500)));
}

#[test]
fn last_error_is_read_once() {
    let mut slot = LastError::new();
    assert_eq!(get_last_error(&mut slot), "");
    set_last_error(&mut slot, "first".to_string());
    set_last_error(&mut slot, "second".to_string());
    assert_eq!(get_last_error(&mut slot), "second");
    assert_eq!(get_last_error(&mut slot), "");
}

#[test]
fn listed_records_leave_out_raw_entries() {
    let records = vec![
        Record::JPEG(vec![1]),
        Record::KeyStorageRecover(vec![2]),
        Record::Unknown(3, vec![]),
        Record::Invalid(vec![4]),
    ];
    let listed = listed_records(&records);
    assert_eq!(listed.len(), 1);
    assert!(matches!(listed[0], Record::KeyStorageRecover(_)));
}

#[test]
fn version_block_is_read() {
    let bytes = [9, 9, 1, 5, 0, 0x34, 0x12, 3, 0, 0];
    match read_auxiliary(&bytes, 2) {
        Some((Auxiliary::Version(v), end)) => {
            assert_eq!(v.version, 0x1234);
            assert_eq!(v.department, Department::DJIFly);
            assert_eq!(end, 10);
        }
        other => panic!("unexpected {:?}", other),
    }
    assert!(read_auxiliary(&bytes, 8).is_none());
    assert!(read_auxiliary(&[2, 0, 0, 0], 0).is_none());
}

#[test]
fn feature_point_wire_names_round_trip() {
    assert_eq!(FeaturePoint::BaseFeature.wire_name(), "FR_Standardization_Feature_Base_1");
    assert_eq!(FeaturePoint::SecurityFeature.wire_name(), "FR_Standardization_Feature_Security_15");
    for code in 1..=15u16 {
        let fp = FeaturePoint::from_code(code).unwrap();
        assert_eq!(FeaturePoint::from_wire_name(&fp.wire_name()), Some(fp));
    }
    assert_eq!(FeaturePoint::from_wire_name(&"FR_Standardization_Feature_Base_2".to_string()), None);
}

#[test]
fn error_messages() {
    assert_eq!(Error::ApiKeyError.message(), "Invalid Api Key");
    assert_eq!(Error::ApiError("quota".to_string()).message(), "DJI Api error: quota");
    assert_eq!(Error::KeychainRequired.message(), "Keychain is required");
    assert_eq!(
        Error::MissingAuxilliaryData("Info".to_string()).message(),
        "Missing Auxilliary data: Info"
    );
    assert_eq!(Error::Parse.message(), "Parse error");
    assert_eq!(Error::NetworkRequestStatus(503).message(), "Request request status error: 503");
    assert_eq!(Error::NetworkRequestStatus(0).message(), "Request request status error: 0");
    assert_eq!(Error::NetworkConnection.message(), "Network connection error");
}

#[test]
fn keychain_keeps_the_last_entry_of_a_feature_point() {
    let entries = vec![
        KeychainFeaturePoint {
            feature_point: FeaturePoint::BaseFeature,
            aes_key: "AQID".to_string(),
            aes_iv: "BA==".to_string(),
        },
        KeychainFeaturePoint {
            feature_point: FeaturePoint::BaseFeature,
            aes_key: "BQY=".to_string(),
            aes_iv: "Bw==".to_string(),
        },
    ];
    let k = Keychain::from_feature_points(&entries);
    assert_eq!(k.get(&FeaturePoint::BaseFeature), Some(&(vec![7], vec![5, 6])));
    assert!(k.get(&FeaturePoint::VisionFeature).is_none());
}
