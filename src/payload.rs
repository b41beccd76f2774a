use vstd::prelude::*;
use crate::bytes::{be16_value, be32_value, copy_range, le32_value, read_be16, read_be32, read_le32};
use crate::registry::{
    camera_error_of_code, info_type_code, setting_mode_of_code, setting_type_of_code,
    CameraErrorType, ReadWriteSettingMode, ReadWriteSettingType, SupportFunctionInfoType,
};

verus! {

/// Why the data section of a response is not the record that was asked for.
#[derive(Debug, Clone, Copy, PartialEq, Eq, Structural)]
pub enum PayloadError {
    /// The tag byte names another sub-type than the one requested.
    TagMismatch,
    /// Fewer bytes than the record's fixed layout needs.
    Truncated,
    /// A sub-type that this engine has no record for.
    UnsupportedInfoType,
}

/// The tag byte of an info response's data section: it follows a leading
/// status byte.
pub open spec fn info_tag(bytes: Seq<u8>) -> u8 {
    bytes[1]
}

/// The fields of an info response's data section, after status and tag.
pub open spec fn info_rest(bytes: Seq<u8>) -> Seq<u8> {
    bytes.subrange(2, bytes.len() as int)
}

/// Reply to `SUPPORT_FUNCTION_AND_VERSION_INFO`: one version byte per record.
#[derive(Debug, Clone, Copy, PartialEq, Eq)]
pub struct SupportFunctionVersionInfo {
    pub support_function_info: u8,
    pub device_info_version: u8,
    pub support_img_info_version: u8,
    pub battery_info_version: u8,
    pub printer_func_info_version: u8,
    pub printer_history_info_version: u8,
    pub camera_func_info_version: u8,
    pub camera_history_info_version: u8,
}

pub open spec fn version_info_of(b: Seq<u8>) -> Result<SupportFunctionVersionInfo, PayloadError> {
    if b.len() < 8 {
        Err(PayloadError::Truncated)
    } else {
        Ok(
            SupportFunctionVersionInfo {
                support_function_info: b[0],
                device_info_version: b[1],
                support_img_info_version: b[2],
                battery_info_version: b[3],
                printer_func_info_version: b[4],
                printer_history_info_version: b[5],
                camera_func_info_version: b[6],
                camera_history_info_version: b[7],
            },
        )
    }
}

impl SupportFunctionVersionInfo {
    /// Reads the eight version bytes at the start of `bytes`.
    pub fn from_bytes(bytes: &Vec<u8>) -> (r: Result<Self, PayloadError>)
        ensures
            r == version_info_of(bytes@),
    {
        if bytes.len() < 8 {
            return Err(PayloadError::Truncated);
        }
        Ok(
            SupportFunctionVersionInfo {
                support_function_info: bytes[0],
                device_info_version: bytes[1],
                support_img_info_version: bytes[2],
                battery_info_version: bytes[3],
                printer_func_info_version: bytes[4],
                printer_history_info_version: bytes[5],
                camera_func_info_version: bytes[6],
                camera_history_info_version: bytes[7],
            },
        )
    }
}

/// What the camera can take as an image.
#[derive(Debug, Clone, Copy, PartialEq, Eq)]
pub struct ImageSupportInfo {
    pub width: u16,
    pub height: u16,
    pub pic_type: u8,
    pub pic_option: u8,
    pub size: u32,
}

pub open spec fn image_support_info_of(tag: u8, rest: Seq<u8>) -> Result<
    ImageSupportInfo,
    PayloadError,
> {
    if tag != info_type_code(SupportFunctionInfoType::IMAGE_SUPPORT_INFO) {
        Err(PayloadError::TagMismatch)
    } else if rest.len() < 10 {
        Err(PayloadError::Truncated)
    } else {
        Ok(
            ImageSupportInfo {
                width: be16_value(rest[0], rest[1]),
                height: be16_value(rest[2], rest[3]),
                pic_type: rest[4],
                pic_option: rest[5],
                size: be32_value(rest[6], rest[7], rest[8], rest[9]),
            },
        )
    }
}

impl ImageSupportInfo {
    /// Decodes the record from its tag byte and the fields after it.
    pub fn decode(tag: u8, rest: &Vec<u8>) -> (r: Result<Self, PayloadError>)
        ensures
            r == image_support_info_of(tag, rest@),
    {
        if tag != SupportFunctionInfoType::IMAGE_SUPPORT_INFO.code() {
            return Err(PayloadError::TagMismatch);
        }
        if rest.len() < 10 {
            return Err(PayloadError::Truncated);
        }
        Ok(
            ImageSupportInfo {
                width: read_be16(rest, 0),
                height: read_be16(rest, 2),
                pic_type: rest[4],
                pic_option: rest[5],
                size: read_be32(rest, 6),
            },
        )
    }

    /// Decodes the data section of an info response: status, tag, fields.
    pub fn from_bytes(bytes: &Vec<u8>) -> (r: Result<Self, PayloadError>)
        ensures
            bytes@.len() < 2 ==> r == Err::<Self, PayloadError>(PayloadError::Truncated),
            bytes@.len() >= 2 ==> r == image_support_info_of(info_tag(bytes@), info_rest(bytes@)),
    {
        if bytes.len() < 2 {
            return Err(PayloadError::Truncated);
        }
        let rest = copy_range(bytes, 2, bytes.len());
        Self::decode(bytes[1], &rest)
    }
}

/// Battery state as the battery record gives it.
#[derive(Debug, Clone, Copy, PartialEq, Eq)]
pub struct BatteryInfo {
    pub battery_level: u8,
    pub battery_capacity: u8,
    pub charger_type: u8,
    pub charger_state: u8,
}

pub open spec fn battery_info_of(tag: u8, rest: Seq<u8>) -> Result<BatteryInfo, PayloadError> {
    if tag != info_type_code(SupportFunctionInfoType::BATTERY_INFO) {
        Err(PayloadError::TagMismatch)
    } else if rest.len() < 4 {
        Err(PayloadError::Truncated)
    } else {
        Ok(
            BatteryInfo {
                battery_level: rest[0],
                battery_capacity: rest[1],
                charger_type: rest[2],
                charger_state: rest[3],
            },
        )
    }
}

impl BatteryInfo {
    /// Decodes the record from its tag byte and the fields after it.
    pub fn decode(tag: u8, rest: &Vec<u8>) -> (r: Result<Self, PayloadError>)
        ensures
            r == battery_info_of(tag, rest@),
    {
        if tag != SupportFunctionInfoType::BATTERY_INFO.code() {
            return Err(PayloadError::TagMismatch);
        }
        if rest.len() < 4 {
            return Err(PayloadError::Truncated);
        }
        Ok(
            BatteryInfo {
                battery_level: rest[0],
                battery_capacity: rest[1],
                charger_type: rest[2],
                charger_state: rest[3],
            },
        )
    }

    /// Decodes the data section of an info response: status, tag, fields.
    pub fn from_bytes(bytes: &Vec<u8>) -> (r: Result<Self, PayloadError>)
        ensures
            bytes@.len() < 2 ==> r == Err::<Self, PayloadError>(PayloadError::Truncated),
            bytes@.len() >= 2 ==> r == battery_info_of(info_tag(bytes@), info_rest(bytes@)),
    {
        if bytes.len() < 2 {
            return Err(PayloadError::Truncated);
        }
        let rest = copy_range(bytes, 2, bytes.len());
        Self::decode(bytes[1], &rest)
    }
}

/// A 16-bit field read as a two's-complement signed value.
pub open spec fn signed16(v: u16) -> i16 {
    if v >= 0x8000 {
        (v - 0x10000) as i16
    } else {
        v as i16
    }
}

/// Camera state as the camera function record gives it.
#[derive(Debug, Clone, Copy, PartialEq, Eq)]
pub struct CameraFunctionInfo {
    /// Low four bits of the status byte.
    pub battery_level: u8,
    /// Bit 4 of the status byte.
    pub is_charging: bool,
    pub battery_capacity: u8,
    pub auto_image_transfer_count: u8,
    pub charger_state: u8,
    /// The reported error, by its signed 16-bit code; `None` for a code that
    /// has no name here.
    pub camera_error_type: Option<CameraErrorType>,
    pub camera_status: u8,
}

pub open spec fn camera_function_info_of(tag: u8, rest: Seq<u8>) -> Result<
    CameraFunctionInfo,
    PayloadError,
> {
    if tag != info_type_code(SupportFunctionInfoType::CAMERA_FUNCTION_INFO) {
        Err(PayloadError::TagMismatch)
    } else if rest.len() < 7 {
        Err(PayloadError::Truncated)
    } else {
        Ok(
            CameraFunctionInfo {
                battery_level: rest[0] & 0x0f,
                is_charging: (rest[0] >> 4u8) & 1 != 0,
                battery_capacity: rest[1],
                auto_image_transfer_count: rest[2],
                charger_state: rest[3],
                camera_error_type: camera_error_of_code(signed16(be16_value(rest[4], rest[5]))),
                camera_status: rest[6],
            },
        )
    }
}

impl CameraFunctionInfo {
    /// Decodes the record from its tag byte and the fields after it.
    pub fn decode(tag: u8, rest: &Vec<u8>) -> (r: Result<Self, PayloadError>)
        ensures
            r == camera_function_info_of(tag, rest@),
    {
        if tag != SupportFunctionInfoType::CAMERA_FUNCTION_INFO.code() {
            return Err(PayloadError::TagMismatch);
        }
        if rest.len() < 7 {
            return Err(PayloadError::Truncated);
        }
        let status = rest[0];
        let code = read_be16(rest, 4);
        let signed: i16 = if code >= 0x8000 {
            (code as i32 - 0x10000) as i16
        } else {
            code as i16
        };
        Ok(
            CameraFunctionInfo {
                battery_level: status & 0x0f,
                is_charging: (status >> 4u8) & 1 != 0,
                battery_capacity: rest[1],
                auto_image_transfer_count: rest[2],
                charger_state: rest[3],
                camera_error_type: CameraErrorType::from_code(signed),
                camera_status: rest[6],
            },
        )
    }

    /// Decodes the data section of an info response: status, tag, fields.
    pub fn from_bytes(bytes: &Vec<u8>) -> (r: Result<Self, PayloadError>)
        ensures
            bytes@.len() < 2 ==> r == Err::<Self, PayloadError>(PayloadError::Truncated),
            bytes@.len() >= 2 ==> r == camera_function_info_of(
                info_tag(bytes@),
                info_rest(bytes@),
            ),
    {
        if bytes.len() < 2 {
            return Err(PayloadError::Truncated);
        }
        let rest = copy_range(bytes, 2, bytes.len());
        Self::decode(bytes[1], &rest)
    }
}

/// The camera's shot counter.
#[derive(Debug, Clone, Copy, PartialEq, Eq)]
pub struct CameraHistoryInfo {
    pub total_shoot_num: u32,
}

pub open spec fn camera_history_info_of(tag: u8, rest: Seq<u8>) -> Result<
    CameraHistoryInfo,
    PayloadError,
> {
    if tag != info_type_code(SupportFunctionInfoType::CAMERA_HISTORY_INFO) {
        Err(PayloadError::TagMismatch)
    } else if rest.len() < 4 {
        Err(PayloadError::Truncated)
    } else {
        Ok(CameraHistoryInfo { total_shoot_num: be32_value(rest[0], rest[1], rest[2], rest[3]) })
    }
}

impl CameraHistoryInfo {
    /// Decodes the record from its tag byte and the fields after it.
    pub fn decode(tag: u8, rest: &Vec<u8>) -> (r: Result<Self, PayloadError>)
        ensures
            r == camera_history_info_of(tag, rest@),
    {
        if tag != SupportFunctionInfoType::CAMERA_HISTORY_INFO.code() {
            return Err(PayloadError::TagMismatch);
        }
        if rest.len() < 4 {
            return Err(PayloadError::Truncated);
        }
        Ok(CameraHistoryInfo { total_shoot_num: read_be32(rest, 0) })
    }

    /// Decodes the data section of an info response: status, tag, fields.
    pub fn from_bytes(bytes: &Vec<u8>) -> (r: Result<Self, PayloadError>)
        ensures
            bytes@.len() < 2 ==> r == Err::<Self, PayloadError>(PayloadError::Truncated),
            bytes@.len() >= 2 ==> r == camera_history_info_of(
                info_tag(bytes@),
                info_rest(bytes@),
            ),
    {
        if bytes.len() < 2 {
            return Err(PayloadError::Truncated);
        }
        let rest = copy_range(bytes, 2, bytes.len());
        Self::decode(bytes[1], &rest)
    }
}

/// Result of a parameter read or write. The value field is little-endian,
/// unlike the frame header.
#[derive(Debug, Clone, Copy, PartialEq, Eq)]
pub struct ParameterReadWriteResponse {
    /// `None` for a mode code that has no name here.
    pub mode: Option<ReadWriteSettingMode>,
    /// `None` for a setting code that has no name here.
    pub setting: Option<ReadWriteSettingType>,
    pub value: u32,
}

pub open spec fn parameter_response_of(b: Seq<u8>) -> Result<
    ParameterReadWriteResponse,
    PayloadError,
> {
    if b.len() < 6 {
        Err(PayloadError::Truncated)
    } else {
        Ok(
            ParameterReadWriteResponse {
                mode: setting_mode_of_code(b[0]),
                setting: setting_type_of_code(b[1]),
                value: le32_value(b[2], b[3], b[4], b[5]),
            },
        )
    }
}

impl ParameterReadWriteResponse {
    /// Reads `[mode, setting, value (4 bytes, little-endian)]`.
    pub fn from_bytes(bytes: &Vec<u8>) -> (r: Result<Self, PayloadError>)
        ensures
            r == parameter_response_of(bytes@),
    {
        if bytes.len() < 6 {
            return Err(PayloadError::Truncated);
        }
        Ok(
            ParameterReadWriteResponse {
                mode: ReadWriteSettingMode::from_code(bytes[0]),
                setting: ReadWriteSettingType::from_code(bytes[1]),
                value: read_le32(bytes, 2),
            },
        )
    }
}

/// The text that lossy UTF-8 decoding makes of some bytes.
pub uninterp spec fn utf8_lossy(b: Seq<u8>) -> Seq<char>;

/// Relies on `String::from_utf8_lossy`: the text depends on the bytes alone,
/// and bytes that are all ASCII (valid UTF-8) come back as the same
/// characters.
#[verifier::external_body]
fn lossy_text(b: &Vec<u8>) -> (r: String)
    ensures
        r@ == utf8_lossy(b@),
        (forall|i: int| 0 <= i < b@.len() ==> b@[i] < 128) ==> (r@.len() == b@.len() && forall|
            i: int,
        |
            0 <= i < b@.len() ==> r@[i] as u32 == b@[i] as u32),
{
    String::from_utf8_lossy(b.as_slice()).into_owned()
}

/// The camera's echo of a time setting: the timestamp as raw text.
#[derive(Debug, Clone, PartialEq, Eq)]
pub struct DateTimeResponse {
    pub datestamp: String,
}

impl DateTimeResponse {
    /// Takes everything after the leading tag byte as text.
    pub fn from_bytes(bytes: &Vec<u8>) -> (r: Result<Self, PayloadError>)
        ensures
            bytes@.len() == 0 ==> r == Err::<Self, PayloadError>(PayloadError::Truncated),
            bytes@.len() > 0 ==> (r matches Ok(d) && d.datestamp@ == utf8_lossy(
                bytes@.subrange(1, bytes@.len() as int),
            )),
    {
        if bytes.len() == 0 {
            return Err(PayloadError::Truncated);
        }
        let rest = copy_range(bytes, 1, bytes.len());
        Ok(DateTimeResponse { datestamp: lossy_text(&rest) })
    }
}

/// A decoded reply to `SUPPORT_FUNCTION_INFO`, one variant per record.
#[derive(Debug, Clone, Copy, PartialEq, Eq)]
pub enum SupportFunctionInfoResponse {
    ImageSupportInfo(ImageSupportInfo),
    BatteryInfo(BatteryInfo),
    CameraFunctionInfo(CameraFunctionInfo),
    CameraHistoryInfo(CameraHistoryInfo),
}

/// Wraps a decoded record in the response variant for it.
pub open spec fn wrap_info<T>(
    r: Result<T, PayloadError>,
    f: spec_fn(T) -> SupportFunctionInfoResponse,
) -> Result<SupportFunctionInfoResponse, PayloadError> {
    match r {
        Ok(v) => Ok(f(v)),
        Err(e) => Err(e),
    }
}

/// How the data section of a reply to a query for `t` decodes.
pub open spec fn support_function_info_of(t: SupportFunctionInfoType, b: Seq<u8>) -> Result<
    SupportFunctionInfoResponse,
    PayloadError,
> {
    match t {
        SupportFunctionInfoType::PRINTER_FUNCTION_INFO => Err(PayloadError::UnsupportedInfoType),
        SupportFunctionInfoType::PRINT_HISTORY_INFO => Err(PayloadError::UnsupportedInfoType),
        _ => if b.len() < 2 {
            Err(PayloadError::Truncated)
        } else {
            match t {
                SupportFunctionInfoType::IMAGE_SUPPORT_INFO => wrap_info(
                    image_support_info_of(info_tag(b), info_rest(b)),
                    |v| SupportFunctionInfoResponse::ImageSupportInfo(v),
                ),
                SupportFunctionInfoType::BATTERY_INFO => wrap_info(
                    battery_info_of(info_tag(b), info_rest(b)),
                    |v| SupportFunctionInfoResponse::BatteryInfo(v),
                ),
                SupportFunctionInfoType::CAMERA_FUNCTION_INFO => wrap_info(
                    camera_function_info_of(info_tag(b), info_rest(b)),
                    |v| SupportFunctionInfoResponse::CameraFunctionInfo(v),
                ),
                _ => wrap_info(
                    camera_history_info_of(info_tag(b), info_rest(b)),
                    |v| SupportFunctionInfoResponse::CameraHistoryInfo(v),
                ),
            }
        },
    }
}

impl SupportFunctionInfoResponse {
    /// Decodes the data section of a reply to a query for `info_type`; the
    /// tag in the reply must name the same sub-type.
    pub fn from_bytes(info_type: SupportFunctionInfoType, bytes: &Vec<u8>) -> (r: Result<
        Self,
        PayloadError,
    >)
        ensures
            r == support_function_info_of(info_type, bytes@),
    {
        match info_type {
            SupportFunctionInfoType::IMAGE_SUPPORT_INFO => match ImageSupportInfo::from_bytes(
                bytes,
            ) {
                Ok(v) => Ok(SupportFunctionInfoResponse::ImageSupportInfo(v)),
                Err(e) => Err(e),
            },
            SupportFunctionInfoType::BATTERY_INFO => match BatteryInfo::from_bytes(bytes) {
                Ok(v) => Ok(SupportFunctionInfoResponse::BatteryInfo(v)),
                Err(e) => Err(e),
            },
            SupportFunctionInfoType::CAMERA_FUNCTION_INFO => match CameraFunctionInfo::from_bytes(
                bytes,
            ) {
                Ok(v) => Ok(SupportFunctionInfoResponse::CameraFunctionInfo(v)),
                Err(e) => Err(e),
            },
            SupportFunctionInfoType::CAMERA_HISTORY_INFO => match CameraHistoryInfo::from_bytes(
                bytes,
            ) {
                Ok(v) => Ok(SupportFunctionInfoResponse::CameraHistoryInfo(v)),
                Err(e) => Err(e),
            },
            _ => Err(PayloadError::UnsupportedInfoType),
        }
    }
}

} // verus!
