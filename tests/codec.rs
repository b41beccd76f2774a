use instax_pal::frame::{Body, FrameError, Packet};
use instax_pal::registry::{Direction, Operation, SupportFunctionInfoType, SID};

fn byte_sum_mod(bytes: &[u8]) -> u8 {
    bytes.iter().fold(0u8, |a, b| a.wrapping_add(*b))
}

fn from_camera(sid: Operation, body: Body) -> Vec<u8> {
    Packet::new(Direction::FROM, sid, body).pack()
}

#[test]
fn battery_query_encodes_to_known_bytes() {
    let p = Packet::with_type(
        SID::SUPPORT_FUNCTION_INFO,
        SupportFunctionInfoType::BATTERY_INFO.code(),
    );
    assert_eq!(p.pack(), vec![0x41, 0x62, 0x00, 0x08, 0x00, 0x02, 0x01, 0x51]);
}

#[test]
fn bare_command_encoding() {
    let bytes = Packet::with_sid(SID::IMAGE_AUTO_UPLOAD_INFO).pack();
    // 0x41 + 0x62 + 0x07 + 0x88 = 0x132 -> 0x32; 255 - 0x32 = 0xcd
    assert_eq!(bytes, vec![0x41, 0x62, 0x00, 0x07, 0x88, 0x00, 0xcd]);
}

#[test]
fn data_command_encoding() {
    // 0x41 + 0x62 + 0x0d + 0x80 + 0x11 + 0x0a = 0x14b -> 0x4b; 255 - 0x4b = 0xb4
    let bytes = Packet::with_data(SID::PARAMETER_RW, vec![0x0a, 0x00, 0, 0, 0, 0]).pack();
    assert_eq!(
        bytes,
        vec![0x41, 0x62, 0x00, 0x0d, 0x80, 0x11, 0x0a, 0x00, 0, 0, 0, 0, 0xb4]
    );
}

#[test]
fn encoded_lengths_follow_shape() {
    assert_eq!(Packet::with_sid(SID::SHUT_DOWN).pack().len(), 7);
    assert_eq!(Packet::with_type(SID::LIVE_VIEW_START, 0).pack().len(), 8);
    for n in [1usize, 2, 5, 40] {
        let bytes = Packet::with_data(SID::URL_PICTURE_UPLOAD, vec![7u8; n]).pack();
        assert_eq!(bytes.len(), 7 + n);
        assert_eq!(u16::from_be_bytes([bytes[2], bytes[3]]) as usize, 7 + n);
    }
}

#[test]
fn checksum_invariant_holds_for_encoded_frames() {
    let frames = vec![
        Packet::with_sid(SID::SUPPORT_FUNCTION_AND_VERSION_INFO).pack(),
        Packet::with_type(SID::SUPPORT_FUNCTION_INFO, 4).pack(),
        Packet::with_data(SID::TIME_SETTING, vec![0xff; 300]).pack(),
        from_camera(Operation::Unrecognized(0x9999), Body::Data(vec![1, 2, 3])),
    ];
    for f in frames {
        assert_eq!(byte_sum_mod(&f), 255);
    }
}

#[test]
fn round_trip_each_shape() {
    let packets = vec![
        Packet::with_sid(SID::LIVE_VIEW_RECEIVE),
        Packet::with_type(SID::SUPPORT_FUNCTION_INFO, 5),
        Packet::with_data(SID::IMAGE_AUTO_UPLOAD_DATA, vec![0, 0, 0, 9]),
        Packet::new(Direction::FROM, Operation::Known(SID::UNKNOWN), Body::Data(vec![1, 2])),
        Packet::new(Direction::FROM, Operation::Unrecognized(0x1234), Body::Bare),
    ];
    for p in packets {
        assert_eq!(Packet::unpack(&p.pack()), Ok(p.clone()));
    }
}

#[test]
fn decoding_recovers_shape() {
    let bare = Packet::unpack(&Packet::with_sid(SID::RESET).pack()).unwrap();
    assert_eq!(bare.body, Body::Bare);
    let typed = Packet::unpack(&Packet::with_type(SID::RESET, 3).pack()).unwrap();
    assert_eq!(typed.body, Body::Typed(3));
    let data = Packet::unpack(&Packet::with_data(SID::RESET, vec![4, 5, 6]).pack()).unwrap();
    assert_eq!(data.body, Body::Data(vec![4, 5, 6]));
    assert_eq!(data.size, 10);
}

#[test]
fn one_byte_data_section_reads_as_sub_type() {
    let bytes = Packet::with_data(SID::RESET, vec![9]).pack();
    assert_eq!(Packet::unpack(&bytes).unwrap().body, Body::Typed(9));
}

#[test]
fn every_single_bit_flip_is_rejected() {
    let frames = vec![
        Packet::with_sid(SID::SHUT_DOWN).pack(),
        Packet::with_type(SID::SUPPORT_FUNCTION_INFO, 1).pack(),
        from_camera(Operation::Known(SID::PARAMETER_RW), Body::Data(vec![0, 10, 44, 0, 0, 0])),
    ];
    for f in frames {
        for j in 0..f.len() {
            for k in 0..8 {
                let mut g = f.clone();
                g[j] ^= 1 << k;
                assert_eq!(Packet::unpack(&g), Err(FrameError::ChecksumMismatch));
            }
        }
    }
}

#[test]
fn short_buffer_is_rejected() {
    assert_eq!(Packet::unpack(&vec![]), Err(FrameError::FrameTooShort));
    assert_eq!(
        Packet::unpack(&vec![0x61, 0x42, 0x00, 0x07, 0x00, 0x00]),
        Err(FrameError::FrameTooShort)
    );
}

#[test]
fn unknown_direction_is_rejected() {
    // 0x12 + 0x34 + 0x07 + 0x01 = 0x4e; 255 - 0x4e = 0xb1
    let bytes = vec![0x12, 0x34, 0x00, 0x07, 0x00, 0x01, 0xb1];
    assert_eq!(Packet::unpack(&bytes), Err(FrameError::UnknownDirection));
}

#[test]
fn unknown_operation_id_decodes() {
    let bytes = from_camera(Operation::Unrecognized(0x9999), Body::Data(vec![0, 1, 2]));
    let p = Packet::unpack(&bytes).unwrap();
    assert_eq!(p.sid, Operation::Unrecognized(0x9999));
    assert_eq!(p.direction, Direction::FROM);
    assert_eq!(p.body, Body::Data(vec![0, 1, 2]));
}

#[test]
fn registry_lookups() {
    assert_eq!(SID::PARAMETER_RW.code(), 0x8011);
    assert_eq!(SID::from_code(0x8802), Some(SID::IMAGE_AUTO_UPLOAD_DATA));
    assert_eq!(SID::from_code(0x9999), None);
    assert_eq!(SID::from_code(0xffff), Some(SID::UNKNOWN));
    assert_eq!(Operation::from_code(0x840a), Operation::Known(SID::CAMERA_LOG_RECORD_DATE_DATA));
    assert_eq!(Operation::from_code(0x8207), Operation::Unrecognized(0x8207));
    assert_eq!(Direction::TO.marker(), 0x4162);
    assert_eq!(Direction::from_marker(0x6142), Some(Direction::FROM));
    assert_eq!(Direction::from_marker(0x4142), None);
}

#[test]
fn payload_of_each_shape() {
    assert_eq!(Packet::with_sid(SID::RESET).payload(), Vec::<u8>::new());
    assert_eq!(Packet::with_type(SID::RESET, 7).payload(), vec![7]);
    assert_eq!(Packet::with_data(SID::RESET, vec![1, 2]).payload(), vec![1, 2]);
}
