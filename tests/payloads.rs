use instax_pal::commands::{parameter_rw_request, time_setting_request};
use instax_pal::frame::{Body, Packet};
use instax_pal::payload::{
    BatteryInfo, CameraFunctionInfo, CameraHistoryInfo, DateTimeResponse, ImageSupportInfo,
    ParameterReadWriteResponse, PayloadError, SupportFunctionInfoResponse,
    SupportFunctionVersionInfo,
};
use instax_pal::registry::{
    CameraErrorType, Direction, Operation, ReadWriteSettingMode, ReadWriteSettingType,
    SupportFunctionInfoType, SID,
};

#[test]
fn battery_response_decodes() {
    let info = BatteryInfo::decode(1, &vec![55, 90, 0, 1]).unwrap();
    assert_eq!(
        info,
        BatteryInfo { battery_level: 55, battery_capacity: 90, charger_type: 0, charger_state: 1 }
    );
}

#[test]
fn battery_response_through_frame() {
    let frame = Packet::new(
        Direction::FROM,
        Operation::Known(SID::SUPPORT_FUNCTION_INFO),
        Body::Data(vec![0, 1, 55, 90, 0, 1]),
    )
    .pack();
    let p = Packet::unpack(&frame).unwrap();
    let r = SupportFunctionInfoResponse::from_bytes(
        SupportFunctionInfoType::BATTERY_INFO,
        &p.payload(),
    );
    assert_eq!(
        r,
        Ok(SupportFunctionInfoResponse::BatteryInfo(BatteryInfo {
            battery_level: 55,
            battery_capacity: 90,
            charger_type: 0,
            charger_state: 1
        }))
    );
}

#[test]
fn battery_from_camera_function_tag_is_rejected() {
    let tag = SupportFunctionInfoType::CAMERA_FUNCTION_INFO.code();
    assert_eq!(BatteryInfo::decode(tag, &vec![55, 90, 0, 1]), Err(PayloadError::TagMismatch));
    assert_eq!(
        BatteryInfo::from_bytes(&vec![0, tag, 55, 90, 0, 1]),
        Err(PayloadError::TagMismatch)
    );
}

#[test]
fn truncated_records_are_rejected() {
    assert_eq!(BatteryInfo::decode(1, &vec![55, 90, 0]), Err(PayloadError::Truncated));
    assert_eq!(BatteryInfo::from_bytes(&vec![0]), Err(PayloadError::Truncated));
    assert_eq!(ImageSupportInfo::decode(0, &vec![0; 9]), Err(PayloadError::Truncated));
    assert_eq!(CameraFunctionInfo::decode(4, &vec![0; 6]), Err(PayloadError::Truncated));
    assert_eq!(CameraHistoryInfo::decode(5, &vec![0; 3]), Err(PayloadError::Truncated));
    assert_eq!(SupportFunctionVersionInfo::from_bytes(&vec![0; 7]), Err(PayloadError::Truncated));
    assert_eq!(ParameterReadWriteResponse::from_bytes(&vec![0; 5]), Err(PayloadError::Truncated));
    assert_eq!(DateTimeResponse::from_bytes(&vec![]), Err(PayloadError::Truncated));
}

#[test]
fn status_byte_bit_fields() {
    let info = CameraFunctionInfo::decode(4, &vec![0x13, 80, 2, 1, 0xff, 0xff, 6]).unwrap();
    assert_eq!(info.battery_level, 3);
    assert!(info.is_charging);
    assert_eq!(info.battery_capacity, 80);
    assert_eq!(info.auto_image_transfer_count, 2);
    assert_eq!(info.charger_state, 1);
    assert_eq!(info.camera_error_type, Some(CameraErrorType::NO_ERROR));
    assert_eq!(info.camera_status, 6);
    let idle = CameraFunctionInfo::decode(4, &vec![0x2f, 0, 0, 0, 0, 0x1d, 0]).unwrap();
    assert_eq!(idle.battery_level, 15);
    assert!(!idle.is_charging);
    assert_eq!(idle.camera_error_type, Some(CameraErrorType::SW_ABNORMALITY_ERROR));
}

#[test]
fn camera_error_codes() {
    let reserved = CameraFunctionInfo::decode(4, &vec![0, 0, 0, 0, 0xff, 0xfe, 0]).unwrap();
    assert_eq!(reserved.camera_error_type, Some(CameraErrorType::RESERVED_ERROR));
    let unnamed = CameraFunctionInfo::decode(4, &vec![0, 0, 0, 0, 0x00, 0x05, 0]).unwrap();
    assert_eq!(unnamed.camera_error_type, None);
}

#[test]
fn parameter_value_is_little_endian() {
    let r = ParameterReadWriteResponse::from_bytes(&vec![0x00, 0x0a, 0x2c, 0x00, 0x00, 0x00])
        .unwrap();
    assert_eq!(r.mode, Some(ReadWriteSettingMode::GET_CURRENT_SETTING));
    assert_eq!(r.setting, Some(ReadWriteSettingType::TRANSFER_FORMAT));
    assert_eq!(r.value, 44);
    let high = ParameterReadWriteResponse::from_bytes(&vec![0x00, 0x0a, 0x00, 0x00, 0x00, 0x2c])
        .unwrap();
    assert_eq!(high.value, 0x2c00_0000);
}

#[test]
fn parameter_unknown_codes() {
    let r = ParameterReadWriteResponse::from_bytes(&vec![9, 13, 1, 0, 0, 0]).unwrap();
    assert_eq!(r.mode, None);
    assert_eq!(r.setting, None);
    assert_eq!(r.value, 1);
}

#[test]
fn image_support_info_fields() {
    let info = ImageSupportInfo::from_bytes(&vec![
        0, 0, 0x02, 0x58, 0x03, 0x20, 2, 1, 0x00, 0x01, 0x86, 0xa0,
    ])
    .unwrap();
    assert_eq!(
        info,
        ImageSupportInfo { width: 600, height: 800, pic_type: 2, pic_option: 1, size: 100_000 }
    );
}

#[test]
fn camera_history_info_fields() {
    let info = CameraHistoryInfo::from_bytes(&vec![0, 5, 0x00, 0x01, 0x00, 0x02]).unwrap();
    assert_eq!(info.total_shoot_num, 65538);
}

#[test]
fn version_info_fields() {
    let info = SupportFunctionVersionInfo::from_bytes(&vec![1, 2, 3, 4, 5, 6, 7, 8, 9]).unwrap();
    assert_eq!(info.support_function_info, 1);
    assert_eq!(info.printer_history_info_version, 6);
    assert_eq!(info.camera_history_info_version, 8);
}

#[test]
fn unsupported_info_type() {
    assert_eq!(
        SupportFunctionInfoResponse::from_bytes(
            SupportFunctionInfoType::PRINTER_FUNCTION_INFO,
            &vec![0, 2, 0, 0]
        ),
        Err(PayloadError::UnsupportedInfoType)
    );
}

#[test]
fn info_dispatch_checks_tag() {
    assert_eq!(
        SupportFunctionInfoResponse::from_bytes(
            SupportFunctionInfoType::CAMERA_HISTORY_INFO,
            &vec![0, 1, 0, 0, 0, 0]
        ),
        Err(PayloadError::TagMismatch)
    );
}

#[test]
fn date_time_echo_is_text() {
    let mut bytes = vec![2u8];
    bytes.extend_from_slice(b"20261018093000");
    let r = DateTimeResponse::from_bytes(&bytes).unwrap();
    assert_eq!(r.datestamp, "20261018093000");
    let odd = DateTimeResponse::from_bytes(&vec![2, b'1', 0xff, b'2']).unwrap();
    assert_eq!(odd.datestamp, "1\u{fffd}2");
}

#[test]
fn parameter_request_bytes() {
    let p = parameter_rw_request(
        ReadWriteSettingType::FLASH_SETTING,
        ReadWriteSettingMode::GET_CURRENT_SETTING,
    );
    assert_eq!(p.body, Body::Data(vec![11, 0, 0, 0, 0, 0]));
    assert_eq!(p.size, 13);
    assert_eq!(p.sid, Operation::Known(SID::PARAMETER_RW));
}

#[test]
fn time_setting_request_bytes() {
    let p = time_setting_request("20261018093005").unwrap();
    let mut data = vec![2u8];
    data.extend_from_slice(b"20261018093005");
    assert_eq!(p.body, Body::Data(data));
    assert_eq!(p.size, 22);
    assert_eq!(p.pack().len(), 22);
}

#[test]
fn time_setting_rejects_malformed_timestamps() {
    assert!(time_setting_request("2026101809300").is_none());
    assert!(time_setting_request("202610180930055").is_none());
    assert!(time_setting_request("2026-10-18T0930").is_none());
    assert!(time_setting_request("").is_none());
}
