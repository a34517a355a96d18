use aes::cipher::block_padding::Pkcs7;
use aes::cipher::{BlockEncryptMut, KeyIvInit};
use base64::Engine;
use dji_log_parser::decoder::{decodable, make_xor_key, payload_read, record_decoder, Payload};
use dji_log_parser::record::custom::year_of_timestamp;
use dji_log_parser::keychain::api::KeychainsRequest;
use dji_log_parser::keychain::{FeaturePoint, KeychainFeaturePoint};
use dji_log_parser::layout::auxiliary::Department;
use dji_log_parser::layout::details::{Platform, ProductType};
use dji_log_parser::keychain::Keychain;
use dji_log_parser::record::Record;
use dji_log_parser::stream::{parse_record, RecordStep};
use dji_log_parser::{DJILog, Error, Prefix};

fn details_block(version: u8) -> Vec<u8> {
    let mut d = vec![0u8; 380];
    d[0..4].copy_from_slice(b"Main");
    d[40..45].copy_from_slice(b"Paris");
    d[80] = 1;
    d[83..87].copy_from_slice(&1234i32.to_le_bytes());
    d[91..99].copy_from_slice(&1_600_000_000_000i64.to_le_bytes());
    d[119..123].copy_from_slice(&90_500i32.to_le_bytes());
    d[147..151].copy_from_slice(&(-7i32).to_le_bytes());
    if version <= 5 {
        d[277] = 77;
        d[278..283].copy_from_slice(b"Drone");
        d[267..272].copy_from_slice(b"SN123");
        d[348] = 2;
        d[349] = 1;
        d[350] = 22;
        d[351] = 3;
    } else {
        d[271] = 77;
        d[280..285].copy_from_slice(b"Drone");
        d[312..317].copy_from_slice(b"SN123");
        d[328..331].copy_from_slice(b"CAM");
        d[344..346].copy_from_slice(b"RC");
        d[360..363].copy_from_slice(b"BAT");
        d[376] = 6;
        d[377] = 1;
        d[378] = 22;
        d[379] = 3;
    }
    d
}

fn xor_mask(seed: u8, record_type: u8, data: &[u8]) -> Vec<u8> {
    let key = make_xor_key(seed, record_type);
    data.iter().enumerate().map(|(i, b)| b ^ key[i % 8]).collect()
}

fn encrypt(key: &[u8], iv: &[u8], plain: &[u8]) -> Vec<u8> {
    cbc::Encryptor::<aes::Aes256>::new_from_slices(key, iv)
        .unwrap()
        .encrypt_padded_vec_mut::<Pkcs7>(plain)
}

fn b64(data: &[u8]) -> String {
    base64::engine::general_purpose::STANDARD.encode(data)
}

/// A record of format 13 and later: type, 16-bit length, payload, end byte.
fn record13(record_type: u8, payload: &[u8]) -> Vec<u8> {
    let mut r = vec![record_type];
    r.extend_from_slice(&(payload.len() as u16).to_le_bytes());
    r.extend_from_slice(payload);
    r.push(0xFF);
    r
}

/// The two auxiliary blocks of a format 13 log.
fn auxiliary_blocks(version: u16, department: u8) -> Vec<u8> {
    let details = details_block(13);
    let mut body = vec![7u8];
    body.extend_from_slice(&(details.len() as u16).to_le_bytes());
    body.extend_from_slice(&details);
    body.extend_from_slice(&2u16.to_le_bytes());
    body.extend_from_slice(&[0xAA, 0xBB]);
    let seed = 0x5Au8;
    let mut info = vec![seed];
    info.extend_from_slice(&xor_mask(seed, 0, &body));
    let mut out = vec![0u8];
    out.extend_from_slice(&(info.len() as u16).to_le_bytes());
    out.extend_from_slice(&info);
    out.push(1);
    out.extend_from_slice(&3u16.to_le_bytes());
    out.extend_from_slice(&version.to_le_bytes());
    out.push(department);
    out
}

fn v6_log() -> (Vec<u8>, Prefix) {
    let mut bytes = Vec::new();
    bytes.extend_from_slice(&[9, 5, b'h', b'e', b'l', b'l', b'o', 0xFF]);
    bytes.extend_from_slice(&[200, 3, 1, 2, 3, 0xFF]);
    bytes.extend_from_slice(&[0xFF, 0xD8, 0x01, 0x02, 0xFF, 0xD9]);
    bytes.extend_from_slice(&[201, 1, 0, 0xFF]);
    let end = bytes.len() as u64;
    bytes.extend_from_slice(&details_block(6));
    let prefix = Prefix {
        version: 6,
        detail_offset: end,
        records_offset: 0,
        records_end_offset: Some(end),
    };
    (bytes, prefix)
}

#[test]
fn plain_log_details_are_read() {
    let (bytes, prefix) = v6_log();
    let log = DJILog::from_bytes(bytes, prefix).unwrap();
    assert_eq!(log.version, 6);
    assert_eq!(log.details.sub_street, "Main");
    assert_eq!(log.details.city, "Paris");
    assert_eq!(log.details.street, "");
    assert_eq!(log.details.is_favorite, 1);
    assert_eq!(log.details.record_line_count, 1234);
    assert_eq!(log.details.start_time, 1_600_000_000_000);
    assert_eq!(log.details.total_time, 90_500);
    assert_eq!(log.details.moment_pic_image_buffer_len, [-7, 0, 0, 0]);
    assert_eq!(log.details.product_type, ProductType::Mavic3);
    assert_eq!(log.details.aircraft_name, "Drone");
    assert_eq!(log.details.aircraft_sn, "SN123");
    assert_eq!(log.details.camera_sn, "CAM");
    assert_eq!(log.details.rc_sn, "RC");
    assert_eq!(log.details.battery_sn, "BAT");
    assert_eq!(log.details.app_platform, Platform::DJIFly);
    assert_eq!(log.details.app_version, "1.22.3");
}

#[test]
fn old_layout_details_are_read() {
    let mut bytes = details_block(5);
    bytes.truncate(356);
    let prefix = Prefix { version: 5, detail_offset: 0, records_offset: 0, records_end_offset: Some(0) };
    let log = DJILog::from_bytes(bytes, prefix).unwrap();
    assert_eq!(log.details.product_type, ProductType::Mavic3);
    assert_eq!(log.details.aircraft_name, "Drone");
    assert_eq!(log.details.aircraft_sn, "SN123");
    assert_eq!(log.details.app_platform, Platform::Android);
    assert_eq!(log.details.app_version, "1.22.3");
}

#[test]
fn plain_log_records_cover_every_kind() {
    let (bytes, prefix) = v6_log();
    let log = DJILog::from_bytes(bytes, prefix).unwrap();
    let records = log.records(None).unwrap();
    assert_eq!(records.len(), 4);
    match &records[0] {
        Record::AppTip(t) => assert_eq!(t.message, "hello"),
        other => panic!("unexpected {:?}", other),
    }
    match &records[1] {
        Record::Unknown(t, data) => {
            assert_eq!(*t, 200);
            assert_eq!(data, &vec![1, 2, 3]);
        }
        other => panic!("unexpected {:?}", other),
    }
    match &records[2] {
        Record::JPEG(data) => assert_eq!(data, &vec![0xFF, 0xD8, 0x01, 0x02]),
        other => panic!("unexpected {:?}", other),
    }
    match &records[3] {
        Record::Invalid(data) => assert_eq!(data, &vec![201, 1, 0, 0xFF]),
        other => panic!("unexpected {:?}", other),
    }
}

#[test]
fn reading_stops_at_the_end_offset() {
    let (bytes, mut prefix) = v6_log();
    prefix.records_end_offset = Some(8);
    let log = DJILog::from_bytes(bytes, prefix).unwrap();
    let records = log.records(None).unwrap();
    assert_eq!(records.len(), 1);
}

#[test]
fn reading_stops_where_no_record_can_be_read() {
    let mut bytes = details_block(6);
    let start = bytes.len() as u64;
    bytes.extend_from_slice(&[9, 5, b'h', b'i', 0, 0, 0, 0xFF]);
    bytes.push(202);
    let prefix = Prefix { version: 6, detail_offset: 0, records_offset: start, records_end_offset: None };
    let log = DJILog::from_bytes(bytes, prefix).unwrap();
    let records = log.records(None).unwrap();
    assert_eq!(records.len(), 1);
    match &records[0] {
        Record::AppTip(t) => assert_eq!(t.message, "hi"),
        other => panic!("unexpected {:?}", other),
    }
}

#[test]
fn invalid_bytes_run_to_the_next_end_byte() {
    let mut bytes = details_block(6);
    let start = bytes.len() as u64;
    bytes.extend_from_slice(&[202, 1, 5, 0xFF]);
    bytes.extend_from_slice(&[9, 2, b'o', b'k', 0xFF]);
    let prefix = Prefix { version: 6, detail_offset: 0, records_offset: start, records_end_offset: None };
    let log = DJILog::from_bytes(bytes, prefix).unwrap();
    let records = log.records(None).unwrap();
    assert_eq!(records.len(), 2);
    match &records[0] {
        Record::Invalid(data) => assert_eq!(data, &vec![202, 1, 5, 0xFF]),
        other => panic!("unexpected {:?}", other),
    }
    match &records[1] {
        Record::AppTip(t) => assert_eq!(t.message, "ok"),
        other => panic!("unexpected {:?}", other),
    }
}

#[test]
fn xor_masked_records_are_unmasked() {
    let seed = 0x33u8;
    let mut bytes = vec![9, 6, seed];
    bytes.extend_from_slice(&xor_mask(seed, 9, b"masked"));
    bytes.push(0xFF);
    let end = bytes.len() as u64;
    bytes.extend_from_slice(&details_block(8));
    let prefix = Prefix { version: 8, detail_offset: end, records_offset: 0, records_end_offset: Some(end) };
    let log = DJILog::from_bytes(bytes, prefix).unwrap();
    let records = log.records(None).unwrap();
    assert_eq!(records.len(), 1);
    match &records[0] {
        Record::AppTip(t) => assert_eq!(t.message, "masked"),
        other => panic!("unexpected {:?}", other),
    }
}

#[test]
fn xor_key_is_a_checksum_not_the_seed() {
    let key = make_xor_key(0x10, 9);
    assert_eq!(key.len(), 8);
    assert_ne!(key, ((0x10u64 + 9) as u64).to_le_bytes().to_vec());
    assert_ne!(make_xor_key(0x10, 9), make_xor_key(0x11, 9));
}

/// An encrypted record: seed, masked ciphertext, one trailing byte.
fn aes_record(record_type: u8, seed: u8, cipher: &[u8]) -> Vec<u8> {
    let mut payload = vec![seed];
    payload.extend_from_slice(&xor_mask(seed, record_type, cipher));
    payload.push(0);
    record13(record_type, &payload)
}

struct EncryptedLog {
    bytes: Vec<u8>,
    prefix: Prefix,
    key: Vec<u8>,
    iv: Vec<u8>,
}

fn v13_log(extra_records: &[Vec<u8>]) -> EncryptedLog {
    let key: Vec<u8> = (0..32u8).collect();
    let iv: Vec<u8> = (100..116u8).collect();
    let first = encrypt(&key, &iv, b"first tip");
    let next_iv = first[first.len() - 16..].to_vec();
    let second = encrypt(&key, &next_iv, b"second tip");
    let mut bytes = vec![0u8; 100];
    let detail_offset = bytes.len() as u64;
    bytes.extend_from_slice(&auxiliary_blocks(1, 3));
    bytes.extend_from_slice(&aes_record(9, 0x21, &first));
    bytes.extend_from_slice(&aes_record(9, 0x22, &second));
    for r in extra_records {
        bytes.extend_from_slice(r);
    }
    let prefix = Prefix { version: 13, detail_offset, records_offset: 0, records_end_offset: None };
    EncryptedLog { bytes, prefix, key, iv }
}

#[test]
fn encrypted_log_needs_keychains() {
    let log = v13_log(&[]);
    let parsed = DJILog::from_bytes(log.bytes, log.prefix).unwrap();
    assert!(matches!(parsed.records(None), Err(Error::KeychainRequired)));
}

#[test]
fn encrypted_log_details_come_from_the_info_block() {
    let log = v13_log(&[]);
    let parsed = DJILog::from_bytes(log.bytes, log.prefix).unwrap();
    assert_eq!(parsed.version, 13);
    assert_eq!(parsed.details.sub_street, "Main");
    assert_eq!(parsed.details.aircraft_name, "Drone");
    assert_eq!(parsed.details.app_version, "1.22.3");
}

#[test]
fn encrypted_records_decrypt_with_moving_iv() {
    let log = v13_log(&[]);
    let parsed = DJILog::from_bytes(log.bytes, log.prefix).unwrap();
    let chain = vec![KeychainFeaturePoint {
        feature_point: FeaturePoint::DJIFlyCustomFeature,
        aes_key: b64(&log.key),
        aes_iv: b64(&log.iv),
    }];
    let records = parsed.records(Some(vec![chain])).unwrap();
    assert_eq!(records.len(), 2);
    match &records[0] {
        Record::AppTip(t) => assert_eq!(t.message, "first tip"),
        other => panic!("unexpected {:?}", other),
    }
    match &records[1] {
        Record::AppTip(t) => assert_eq!(t.message, "second tip"),
        other => panic!("unexpected {:?}", other),
    }
}

#[test]
fn wrong_key_gives_empty_messages() {
    let log = v13_log(&[]);
    let parsed = DJILog::from_bytes(log.bytes, log.prefix).unwrap();
    let chain = vec![KeychainFeaturePoint {
        feature_point: FeaturePoint::DJIFlyCustomFeature,
        aes_key: b64(&[9u8; 32]),
        aes_iv: b64(&log.iv),
    }];
    let records = parsed.records(Some(vec![chain])).unwrap();
    for r in &records {
        match r {
            Record::AppTip(t) => assert_ne!(t.message, "first tip"),
            other => panic!("unexpected {:?}", other),
        }
    }
}

#[test]
fn keychain_of_wrong_size_aborts_reading() {
    let log = v13_log(&[]);
    let parsed = DJILog::from_bytes(log.bytes, log.prefix).unwrap();
    let chain = vec![KeychainFeaturePoint {
        feature_point: FeaturePoint::DJIFlyCustomFeature,
        aes_key: b64(&[1u8; 8]),
        aes_iv: b64(&log.iv),
    }];
    assert!(matches!(parsed.records(Some(vec![chain])), Err(Error::Parse)));
}

fn key_storage(seed: u8, feature_point: u16, data: &[u8]) -> Vec<u8> {
    let mut content = feature_point.to_le_bytes().to_vec();
    content.extend_from_slice(&(data.len() as u16).to_le_bytes());
    content.extend_from_slice(data);
    let mut payload = vec![seed];
    payload.extend_from_slice(&xor_mask(seed, 56, &content));
    record13(56, &payload)
}

#[test]
fn keychain_request_groups_key_storage_by_recovery_marker() {
    let extra = vec![
        key_storage(0x41, 1, &[1, 2, 3]),
        key_storage(0x42, 7, &[4]),
        record13(50, &[9, 9]),
        key_storage(0x43, 12, &[5, 6]),
    ];
    let log = v13_log(&extra);
    let parsed = DJILog::from_bytes(log.bytes, log.prefix).unwrap();
    let request: KeychainsRequest = parsed.keychains_request().unwrap();
    assert_eq!(request.version, 1);
    assert_eq!(request.department, 3);
    assert_eq!(request.keychains.len(), 2);
    assert_eq!(request.keychains[0].len(), 2);
    assert_eq!(request.keychains[0][0].feature_point, FeaturePoint::BaseFeature);
    assert_eq!(request.keychains[0][0].aes_ciphertext, "AQID");
    assert_eq!(request.keychains[0][1].feature_point, FeaturePoint::DJIFlyCustomFeature);
    assert_eq!(request.keychains[0][1].aes_ciphertext, "BA==");
    assert_eq!(request.keychains[1].len(), 1);
    assert_eq!(request.keychains[1][0].feature_point, FeaturePoint::CameraFeature);
    assert_eq!(request.keychains[1][0].aes_ciphertext, "BQY=");
}

#[test]
fn keychain_request_custom_params_replace_the_log_values() {
    let log = v13_log(&[]);
    let parsed = DJILog::from_bytes(log.bytes, log.prefix).unwrap();
    let request = parsed
        .keychains_request_with_custom_params(Some(Department::DJIPilot), Some(42))
        .unwrap();
    assert_eq!(request.version, 42);
    assert_eq!(request.department, 7);
    assert_eq!(request.keychains.len(), 1);
    assert!(request.keychains[0].is_empty());
}

#[test]
fn keychain_request_unknown_department_becomes_dji_fly() {
    let key: Vec<u8> = (0..32u8).collect();
    let _ = key;
    let mut bytes = vec![0u8; 10];
    bytes.extend_from_slice(&auxiliary_blocks(2, 99));
    let prefix = Prefix { version: 14, detail_offset: 10, records_offset: 0, records_end_offset: None };
    let parsed = DJILog::from_bytes(bytes, prefix).unwrap();
    let request = parsed.keychains_request().unwrap();
    assert_eq!(request.version, 2);
    assert_eq!(request.department, 3);
}

#[test]
fn keychain_request_of_plain_log_is_empty() {
    let (bytes, prefix) = v6_log();
    let log = DJILog::from_bytes(bytes, prefix).unwrap();
    let request = log.keychains_request().unwrap();
    assert_eq!(request.version, 0);
    assert_eq!(request.department, 0);
    assert!(request.keychains.is_empty());
}

#[test]
fn missing_info_block_is_reported() {
    let mut bytes = vec![0u8; 4];
    bytes.extend_from_slice(&[1, 3, 0, 1, 0, 3]);
    let prefix = Prefix { version: 13, detail_offset: 4, records_offset: 0, records_end_offset: None };
    match DJILog::from_bytes(bytes, prefix) {
        Err(Error::MissingAuxilliaryData(m)) => assert_eq!(m, "Info"),
        other => panic!("unexpected {:?}", other.map(|l| l.version)),
    }
}

#[test]
fn unreadable_auxiliary_block_is_a_parse_error() {
    let mut bytes = vec![0u8; 4];
    bytes.extend_from_slice(&[7, 3, 0, 1, 0, 3]);
    let prefix = Prefix { version: 13, detail_offset: 4, records_offset: 0, records_end_offset: None };
    assert!(matches!(DJILog::from_bytes(bytes, prefix), Err(Error::Parse)));
}

#[test]
fn missing_version_block_is_reported() {
    let mut bytes = vec![0u8; 4];
    let aux = auxiliary_blocks(1, 3);
    let info_len = 3 + u16::from_le_bytes([aux[1], aux[2]]) as usize;
    bytes.extend_from_slice(&aux[..info_len]);
    bytes.extend_from_slice(&aux[..info_len]);
    let prefix = Prefix { version: 13, detail_offset: 4, records_offset: 0, records_end_offset: None };
    let parsed = DJILog::from_bytes(bytes, prefix).unwrap();
    match parsed.keychains_request() {
        Err(Error::MissingAuxilliaryData(m)) => assert_eq!(m, "Version"),
        other => panic!("unexpected {:?}", other.map(|r| r.version)),
    }
}

fn custom_record(timestamp_ms: i64) -> Vec<u8> {
    let mut payload = vec![0u8, 0u8];
    payload.extend_from_slice(&2.5f32.to_bits().to_le_bytes());
    payload.extend_from_slice(&10.0f32.to_bits().to_le_bytes());
    payload.extend_from_slice(&timestamp_ms.to_le_bytes());
    let mut r = vec![5u8, payload.len() as u8];
    r.extend_from_slice(&payload);
    r.push(0xFF);
    r
}

#[test]
fn custom_records_need_a_plausible_year() {
    let mut bytes = details_block(6);
    let start = bytes.len() as u64;
    bytes.extend_from_slice(&custom_record(1_600_000_000_123));
    bytes.extend_from_slice(&custom_record(631_152_000_000));
    let prefix = Prefix { version: 6, detail_offset: 0, records_offset: start, records_end_offset: None };
    let log = DJILog::from_bytes(bytes, prefix).unwrap();
    let records = log.records(None).unwrap();
    assert_eq!(records.len(), 2);
    match &records[0] {
        Record::Custom(c) => {
            assert_eq!(c.update_timestamp, 1_600_000_000_123);
            assert_eq!(f32::from_bits(c.h_speed), 2.5);
            assert_eq!(f32::from_bits(c.distance), 10.0);
        }
        other => panic!("unexpected {:?}", other),
    }
    match &records[1] {
        Record::Unknown(t, data) => {
            assert_eq!(*t, 5);
            assert_eq!(data.len(), 18);
        }
        other => panic!("unexpected {:?}", other),
    }
}

#[test]
fn year_of_timestamp_uses_the_calendar() {
    assert_eq!(year_of_timestamp(1_600_000_000_123), 2020);
    assert_eq!(year_of_timestamp(0), 1970);
    assert_eq!(year_of_timestamp(-1), 1970);
    assert_eq!(year_of_timestamp(-86_400_000), 1969);
    assert_eq!(year_of_timestamp(i64::MAX), 1970);
}

#[test]
fn image_ends_before_its_end_marker() {
    let mut keychain = Keychain::empty();
    let file = [0xFF, 0xD8, 0x01, 0xFF, 0xD9, 0x07];
    match parse_record(&file, 0, 6, &mut keychain) {
        RecordStep::Parsed(Record::JPEG(data), next) => {
            assert_eq!(data, vec![0xFF, 0xD8, 0x01]);
            assert_eq!(next, 5);
        }
        other => panic!("unexpected {:?}", other),
    }
}

#[test]
fn invalid_stretch_stops_just_after_its_end_marker() {
    let mut keychain = Keychain::empty();
    let file = [0x01, 0x02, 0xFF, 0x05];
    match parse_record(&file, 0, 6, &mut keychain) {
        RecordStep::Parsed(Record::Invalid(data), next) => {
            assert_eq!(data, vec![0x01, 0x02, 0xFF]);
            assert_eq!(next, 3);
        }
        other => panic!("unexpected {:?}", other),
    }
}

/// The proleptic Gregorian year of a day count from 1970-01-01.
fn civil_year(z: i128) -> i128 {
    let z2 = z + 719468;
    let era = z2.div_euclid(146097);
    let doe = z2 - era * 146097;
    let yoe = (doe - doe / 1460 + doe / 36524 - doe / 146096) / 365;
    let doy = doe - (365 * yoe + yoe / 4 - yoe / 100);
    let mp = (5 * doy + 2) / 153;
    yoe + era * 400 + if mp >= 10 { 1 } else { 0 }
}

fn expected_year(ms: i64) -> i32 {
    let secs = ms / 1000;
    let nanos = (ms % 1000 * 1_000_000) as u32;
    let y = civil_year((secs as i128).div_euclid(86400));
    let sod = (secs as i128).rem_euclid(86400);
    if (-262143..=262142).contains(&y) && nanos < 2_000_000_000 && (nanos < 1_000_000_000 || sod % 60 == 59) {
        y as i32
    } else {
        1970
    }
}

#[test]
fn stated_calendar_agrees_with_chrono() {
    let day: i64 = 86_400_000;
    let mut probes: Vec<i64> = vec![0, -1, 1, 999, -999, -1000, 951_782_400_000, 951_868_800_000, 4_107_542_400_000];
    let mut ms: i64 = -8_300_000_000_000_000;
    while ms < 8_300_000_000_000_000 {
        probes.push(ms);
        ms += 997 * day + 12_345;
    }
    for edge in [8_210_266_876_800_000i64, -8_334_601_228_800_000] {
        for d in -3..=3i64 {
            probes.push(edge + d * day);
            probes.push(edge + d);
        }
    }
    probes.push(i64::MAX);
    probes.push(i64::MIN);
    assert_eq!(year_of_timestamp(8_210_266_876_800_000 - 1), 262142);
    assert_eq!(year_of_timestamp(8_210_266_876_800_000), 1970);
    assert_eq!(year_of_timestamp(-8_334_601_228_800_000), -262143);
    assert_eq!(year_of_timestamp(-8_334_601_228_800_000 - day), 1970);
    for p in probes {
        assert_eq!(year_of_timestamp(p), expected_year(p), "at {}", p);
    }
}

#[test]
fn aes_payload_needs_room_for_an_iv_and_its_bytes_in_the_file() {
    let mut keychain = Keychain::empty();
    keychain.insert(FeaturePoint::BaseFeature, (vec![3u8; 16], vec![9u8; 32]));
    let file = vec![0u8; 40];
    assert!(decodable(&file, 0, 1, 6, &keychain, 2));
    assert!(decodable(&file, 5, 1, 12, &keychain, 2));
    assert!(!decodable(&file, 40, 1, 12, &keychain, 2));
    assert!(!decodable(&file, 0, 1, 13, &keychain, 17));
    assert!(decodable(&file, 0, 1, 13, &keychain, 18));
    assert!(decodable(&file, 0, 1, 13, &keychain, 41));
    assert!(!decodable(&file, 0, 1, 13, &keychain, 42));
    let mut bad = Keychain::empty();
    bad.insert(FeaturePoint::BaseFeature, (vec![3u8; 15], vec![9u8; 32]));
    assert!(!decodable(&file, 0, 1, 13, &bad, 18));
    let empty = Keychain::empty();
    assert!(decodable(&file, 0, 1, 13, &empty, 17));
}

#[test]
fn aes_payload_moves_the_iv_on() {
    let key = [7u8; 32];
    let iv = [1u8; 16];
    let cipher = encrypt(&key, &iv, b"hello");
    assert_eq!(cipher.len(), 16);
    let seed = 0x33u8;
    let mut file = vec![seed];
    file.extend_from_slice(&xor_mask(seed, 1, &cipher));
    let mut keychain = Keychain::empty();
    keychain.insert(FeaturePoint::BaseFeature, (iv.to_vec(), key.to_vec()));
    assert!(decodable(&file, 0, 1, 13, &keychain, 18));
    let p = record_decoder(&file, 0, 1, 13, &mut keychain, 18);
    assert!(matches!(p, Payload::Aes(_)));
    assert_eq!(payload_read(&file, &p, 7).unwrap(), b"hello\0\0".to_vec());
    let (next_iv, kept_key) = keychain.get(&FeaturePoint::BaseFeature).unwrap();
    assert_eq!(next_iv, &cipher);
    assert_eq!(kept_key, &key.to_vec());
}

#[test]
fn reading_twice_with_the_same_keychains_gives_the_same_records() {
    let log = v13_log(&[]);
    let parsed = DJILog::from_bytes(log.bytes, log.prefix).unwrap();
    let chain = vec![KeychainFeaturePoint {
        feature_point: FeaturePoint::DJIFlyCustomFeature,
        aes_key: b64(&log.key),
        aes_iv: b64(&log.iv),
    }];
    let chains = vec![chain];
    let first = parsed.records(Some(chains.clone())).unwrap();
    let second = parsed.records(Some(chains)).unwrap();
    assert_eq!(format!("{:?}", first), format!("{:?}", second));
    assert_eq!(first.len(), 2);
}

/// The bitwise CRC-64 "Jones" checksum, one bit at a time.
fn crc64_bitwise(mut crc: u64, data: &[u8]) -> u64 {
    for b in data {
        crc ^= *b as u64;
        for _ in 0..8 {
            crc = if crc & 1 == 1 { (crc >> 1) ^ 0x95ac9329ac4bc9b5 } else { crc >> 1 };
        }
    }
    crc
}

#[test]
fn stated_checksum_agrees_with_crc64() {
    assert_eq!(crc64_bitwise(0, b"123456789"), 0xe9c6d914c4b8d9ca);
    let mut data: Vec<u8> = Vec::new();
    let mut x: u64 = 0x2545F4914F6CDD1D;
    for len in 0..70usize {
        for start in [0u64, 1, 0xFFFF_FFFF_FFFF_FFFF, 0x1234_5678_9ABC_DEF0] {
            assert_eq!(crc64::crc64(start, &data), crc64_bitwise(start, &data), "len {}", len);
        }
        x ^= x << 13;
        x ^= x >> 7;
        x ^= x << 17;
        data.push((x >> 24) as u8);
    }
}

#[test]
fn xor_key_is_the_stated_checksum() {
    for seed in [0u8, 1, 0x5A, 0xFF] {
        for record_type in [0u8, 1, 13, 255] {
            let product = 0x123456789ABCDEF0u64.wrapping_mul(seed as u64);
            let crc = crc64_bitwise(seed.wrapping_add(record_type) as u64, &product.to_le_bytes());
            assert_eq!(make_xor_key(seed, record_type), crc.to_le_bytes().to_vec());
        }
    }
}

#[test]
fn serious_warning_records_carry_their_message() {
    let mut keychain = Keychain::empty();
    let file = [24u8, 6, b'd', b'a', b'n', b'g', 0, 0, 0xFF];
    match parse_record(&file, 0, 6, &mut keychain) {
        RecordStep::Parsed(Record::AppSeriousWarn(w), next) => {
            assert_eq!(w.message, "dang");
            assert_eq!(next, 9);
        }
        other => panic!("unexpected {:?}", other),
    }
}
