use vstd::prelude::*;

verus! {

/// Which way a frame travels. Every frame starts with the marker of its direction.
#[allow(non_camel_case_types)]
#[derive(Debug, Clone, Copy, PartialEq, Eq, Structural)]
pub enum Direction {
    /// Host to camera, marker "Ab".
    TO,
    /// Camera to host, marker "aB".
    FROM,
}

/// The 16-bit marker of a direction.
pub open spec fn direction_marker(d: Direction) -> u16 {
    match d {
        Direction::TO => 0x4162,
        Direction::FROM => 0x6142,
    }
}

/// The direction whose marker is `m`, if any.
pub open spec fn direction_of_marker(m: u16) -> Option<Direction> {
    if m == 0x4162 {
        Some(Direction::TO)
    } else if m == 0x6142 {
        Some(Direction::FROM)
    } else {
        None
    }
}

impl Direction {
    /// The marker that this direction puts on the wire.
    pub fn marker(&self) -> (r: u16)
        ensures
            r == direction_marker(*self),
    {
        match self {
            Direction::TO => 0x4162,
            Direction::FROM => 0x6142,
        }
    }

    /// Looks a marker up; `None` when it is neither direction's.
    pub fn from_marker(m: u16) -> (r: Option<Direction>)
        ensures
            r == direction_of_marker(m),
    {
        if m == 0x4162 {
            Some(Direction::TO)
        } else if m == 0x6142 {
            Some(Direction::FROM)
        } else {
            None
        }
    }
}

/// Operation identifiers: the closed set of command and response kinds that
/// this engine knows by name.
#[allow(non_camel_case_types)]
#[derive(Debug, Clone, Copy, PartialEq, Eq, Structural)]
pub enum SID {
    UNKNOWN,
    SUPPORT_FUNCTION_AND_VERSION_INFO,
    DEVICE_INFO_SERVICE,
    SUPPORT_FUNCTION_INFO,
    IDENTIFY_INFORMATION,
    SHUT_DOWN,
    RESET,
    AUTO_SLEEP_SETTINGS,
    BLE_CONNECT,
    PRINT_IMAGE_DOWNLOAD_START,
    PRINT_IMAGE_DOWNLOAD_DATA,
    PRINT_IMAGE_DOWNLOAD_END,
    PRINT_IMAGE_DOWNLOAD_CANCEL,
    PRINT_IMAGE,
    REJECT_FILM_COVER,
    FW_DOWNLOAD_START,
    FW_DOWNLOAD_DATA,
    FW_DOWNLOAD_END,
    FW_UPGRADE_EXIT,
    FW_PROGRAM_INFO,
    FW_DATA_BACKUP,
    FW_UPDATE_REQUEST,
    XYZ_AXIS_INFO,
    LED_PATTERN_SETTINGS,
    AXIS_ACTION_SETTINGS,
    LED_PATTERN_SETTINGS_DOUBLE,
    POWER_ONOFF_LED_SETTING,
    AR_LED_VIBRARTION_SETTING,
    FUNCTION_BUTTON_SETTING,
    ADDITIONAL_PRINTER_INFO,
    PRINTER_HEAD_LIGHT_CORRECT_INFO,
    PRINTER_HEAD_LIGHT_CORRECT_SETTINGS,
    CAMERA_SETTINGS,
    CAMERA_SETTINGS_GET,
    ADDITIONAL_CAMERA_INFO,
    PARAMETER_RW,
    TIME_SETTING,
    URL_UPLOAD_INFO,
    URL_PICTURE_UPLOAD_START,
    URL_PICTURE_UPLOAD,
    URL_PICTURE_UPLOAD_END,
    URL_AUDIO_UPLOAD_START,
    URL_AUDIO_UPLOAD,
    URL_AUDIO_UPLOAD_END,
    URL_UPLOAD_ADDRESS,
    URL_UPLOAD_DATA_COMPLETE,
    LIVE_VIEW_START,
    LIVE_VIEW_RECEIVE,
    LIVE_VIEW_STOP,
    LIVE_VIEW_TAKE_PICTURE,
    POST_VIEW_UPLOAD_START,
    POST_VIEW_UPLOAD,
    POST_VIEW_UPLOAD_END,
    POST_VIEW_PRINT,
    FRAME_PICTURE_DOWNLOAD_START,
    FRAME_PICTURE_DOWNLOAD,
    FRAME_PICTURE_DOWNLOAD_END,
    FRAME_PICTURE_NAME_SETTING,
    FRAME_PICTURE_NAME_GET,
    CAMERA_LOG_SUBTOTAL_START,
    CAMERA_LOG_SUBTOTAL_DATA,
    CAMERA_LOG_SUBTOTAL_CLEAR,
    CAMERA_LOG_DATE_START,
    CAMERA_LOG_DATE_DATA,
    CAMERA_LOG_DATE_CLEAR,
    CAMERA_LOG_FILTER_START,
    CAMERA_LOG_FILTER_DATA,
    CAMERA_LOG_FILTER_CLEAR,
    CAMERA_LOG_RECORD_DATE_START,
    CAMERA_LOG_RECORD_DATE_DATA,
    CAMERA_LOG_RECORD_DATE_CLEAR,
    CHECK_CAMERA_STATUS,
    EXECUTE_CAMERA_COMMAND,
    SOUND_PLAY_STATUS,
    SOUND_DOWNLOAD_START,
    SOUND_DOWNLOAD,
    SOUND_DOWNLOAD_END,
    SOUND_DOWNLOAD_CANCEL,
    SOUND_PLAY_START,
    SOUND_PLAY_STOP,
    IMAGE_MANUAL_UPLOAD_INFO,
    IMAGE_MANUAL_UPLOAD_START,
    IMAGE_MANUAL_UPLOAD_DATA,
    IMAGE_MANUAL_UPLOAD_END,
    IMAGE_MANUAL_UPLOAD_CANCEL,
    IMAGE_AUTO_UPLOAD_INFO,
    IMAGE_AUTO_UPLOAD_START,
    IMAGE_AUTO_UPLOAD_DATA,
    IMAGE_AUTO_UPLOAD_END,
    IMAGE_AUTO_UPLOAD_CANCEL,
    IMAGE_AUTO_UPLOAD_COMPLETE,
    INTERVAL_RECORD_STATUS,
    INTERVAL_RECORD_START,
    INTERVAL_RECORD_STOP,
}

/// The 16-bit identifier of a named operation.
pub open spec fn sid_code(s: SID) -> u16 {
    match s {
        SID::UNKNOWN => 0xffff,
        SID::SUPPORT_FUNCTION_AND_VERSION_INFO => 0x0000,
        SID::DEVICE_INFO_SERVICE => 0x0001,
        SID::SUPPORT_FUNCTION_INFO => 0x0002,
        SID::IDENTIFY_INFORMATION => 0x0010,
        SID::SHUT_DOWN => 0x0100,
        SID::RESET => 0x0101,
        SID::AUTO_SLEEP_SETTINGS => 0x0102,
        SID::BLE_CONNECT => 0x0103,
        SID::PRINT_IMAGE_DOWNLOAD_START => 0x1000,
        SID::PRINT_IMAGE_DOWNLOAD_DATA => 0x1001,
        SID::PRINT_IMAGE_DOWNLOAD_END => 0x1002,
        SID::PRINT_IMAGE_DOWNLOAD_CANCEL => 0x1003,
        SID::PRINT_IMAGE => 0x1080,
        SID::REJECT_FILM_COVER => 0x1081,
        SID::FW_DOWNLOAD_START => 0x2000,
        SID::FW_DOWNLOAD_DATA => 0x2001,
        SID::FW_DOWNLOAD_END => 0x2002,
        SID::FW_UPGRADE_EXIT => 0x2003,
        SID::FW_PROGRAM_INFO => 0x2010,
        SID::FW_DATA_BACKUP => 0x2080,
        SID::FW_UPDATE_REQUEST => 0x2081,
        SID::XYZ_AXIS_INFO => 0x3000,
        SID::LED_PATTERN_SETTINGS => 0x3001,
        SID::AXIS_ACTION_SETTINGS => 0x3002,
        SID::LED_PATTERN_SETTINGS_DOUBLE => 0x3003,
        SID::POWER_ONOFF_LED_SETTING => 0x3004,
        SID::AR_LED_VIBRARTION_SETTING => 0x3006,
        SID::FUNCTION_BUTTON_SETTING => 0x3008,
        SID::ADDITIONAL_PRINTER_INFO => 0x3010,
        SID::PRINTER_HEAD_LIGHT_CORRECT_INFO => 0x3080,
        SID::PRINTER_HEAD_LIGHT_CORRECT_SETTINGS => 0x3081,
        SID::CAMERA_SETTINGS => 0x8000,
        SID::CAMERA_SETTINGS_GET => 0x8001,
        SID::ADDITIONAL_CAMERA_INFO => 0x8010,
        SID::PARAMETER_RW => 0x8011,
        SID::TIME_SETTING => 0x8012,
        SID::URL_UPLOAD_INFO => 0x8100,
        SID::URL_PICTURE_UPLOAD_START => 0x8101,
        SID::URL_PICTURE_UPLOAD => 0x8102,
        SID::URL_PICTURE_UPLOAD_END => 0x8103,
        SID::URL_AUDIO_UPLOAD_START => 0x8104,
        SID::URL_AUDIO_UPLOAD => 0x8105,
        SID::URL_AUDIO_UPLOAD_END => 0x8106,
        SID::URL_UPLOAD_ADDRESS => 0x8107,
        SID::URL_UPLOAD_DATA_COMPLETE => 0x8108,
        SID::LIVE_VIEW_START => 0x8200,
        SID::LIVE_VIEW_RECEIVE => 0x8201,
        SID::LIVE_VIEW_STOP => 0x8202,
        SID::LIVE_VIEW_TAKE_PICTURE => 0x8210,
        SID::POST_VIEW_UPLOAD_START => 0x8220,
        SID::POST_VIEW_UPLOAD => 0x8221,
        SID::POST_VIEW_UPLOAD_END => 0x8222,
        SID::POST_VIEW_PRINT => 0x8230,
        SID::FRAME_PICTURE_DOWNLOAD_START => 0x8300,
        SID::FRAME_PICTURE_DOWNLOAD => 0x8301,
        SID::FRAME_PICTURE_DOWNLOAD_END => 0x8302,
        SID::FRAME_PICTURE_NAME_SETTING => 0x8303,
        SID::FRAME_PICTURE_NAME_GET => 0x8304,
        SID::CAMERA_LOG_SUBTOTAL_START => 0x8400,
        SID::CAMERA_LOG_SUBTOTAL_DATA => 0x8401,
        SID::CAMERA_LOG_SUBTOTAL_CLEAR => 0x8402,
        SID::CAMERA_LOG_DATE_START => 0x8403,
        SID::CAMERA_LOG_DATE_DATA => 0x8404,
        SID::CAMERA_LOG_DATE_CLEAR => 0x8405,
        SID::CAMERA_LOG_FILTER_START => 0x8406,
        SID::CAMERA_LOG_FILTER_DATA => 0x8407,
        SID::CAMERA_LOG_FILTER_CLEAR => 0x8408,
        SID::CAMERA_LOG_RECORD_DATE_START => 0x8409,
        SID::CAMERA_LOG_RECORD_DATE_DATA => 0x840a,
        SID::CAMERA_LOG_RECORD_DATE_CLEAR => 0x840b,
        SID::CHECK_CAMERA_STATUS => 0x8500,
        SID::EXECUTE_CAMERA_COMMAND => 0x8501,
        SID::SOUND_PLAY_STATUS => 0x8600,
        SID::SOUND_DOWNLOAD_START => 0x8601,
        SID::SOUND_DOWNLOAD => 0x8602,
        SID::SOUND_DOWNLOAD_END => 0x8603,
        SID::SOUND_DOWNLOAD_CANCEL => 0x8604,
        SID::SOUND_PLAY_START => 0x8605,
        SID::SOUND_PLAY_STOP => 0x8606,
        SID::IMAGE_MANUAL_UPLOAD_INFO => 0x8700,
        SID::IMAGE_MANUAL_UPLOAD_START => 0x8701,
        SID::IMAGE_MANUAL_UPLOAD_DATA => 0x8702,
        SID::IMAGE_MANUAL_UPLOAD_END => 0x8703,
        SID::IMAGE_MANUAL_UPLOAD_CANCEL => 0x8704,
        SID::IMAGE_AUTO_UPLOAD_INFO => 0x8800,
        SID::IMAGE_AUTO_UPLOAD_START => 0x8801,
        SID::IMAGE_AUTO_UPLOAD_DATA => 0x8802,
        SID::IMAGE_AUTO_UPLOAD_END => 0x8803,
        SID::IMAGE_AUTO_UPLOAD_CANCEL => 0x8804,
        SID::IMAGE_AUTO_UPLOAD_COMPLETE => 0x8805,
        SID::INTERVAL_RECORD_STATUS => 0x8900,
        SID::INTERVAL_RECORD_START => 0x8901,
        SID::INTERVAL_RECORD_STOP => 0x8902,
    }
}

/// The named operation with identifier `c`, if there is one.
pub open spec fn sid_of_code(c: u16) -> Option<SID> {
    if c == 0xffff {
        Some(SID::UNKNOWN)
    } else if c == 0x0000 {
        Some(SID::SUPPORT_FUNCTION_AND_VERSION_INFO)
    } else if c == 0x0001 {
        Some(SID::DEVICE_INFO_SERVICE)
    } else if c == 0x0002 {
        Some(SID::SUPPORT_FUNCTION_INFO)
    } else if c == 0x0010 {
        Some(SID::IDENTIFY_INFORMATION)
    } else if c == 0x0100 {
        Some(SID::SHUT_DOWN)
    } else if c == 0x0101 {
        Some(SID::RESET)
    } else if c == 0x0102 {
        Some(SID::AUTO_SLEEP_SETTINGS)
    } else if c == 0x0103 {
        Some(SID::BLE_CONNECT)
    } else if c == 0x1000 {
        Some(SID::PRINT_IMAGE_DOWNLOAD_START)
    } else if c == 0x1001 {
        Some(SID::PRINT_IMAGE_DOWNLOAD_DATA)
    } else if c == 0x1002 {
        Some(SID::PRINT_IMAGE_DOWNLOAD_END)
    } else if c == 0x1003 {
        Some(SID::PRINT_IMAGE_DOWNLOAD_CANCEL)
    } else if c == 0x1080 {
        Some(SID::PRINT_IMAGE)
    } else if c == 0x1081 {
        Some(SID::REJECT_FILM_COVER)
    } else if c == 0x2000 {
        Some(SID::FW_DOWNLOAD_START)
    } else if c == 0x2001 {
        Some(SID::FW_DOWNLOAD_DATA)
    } else if c == 0x2002 {
        Some(SID::FW_DOWNLOAD_END)
    } else if c == 0x2003 {
        Some(SID::FW_UPGRADE_EXIT)
    } else if c == 0x2010 {
        Some(SID::FW_PROGRAM_INFO)
    } else if c == 0x2080 {
        Some(SID::FW_DATA_BACKUP)
    } else if c == 0x2081 {
        Some(SID::FW_UPDATE_REQUEST)
    } else if c == 0x3000 {
        Some(SID::XYZ_AXIS_INFO)
    } else if c == 0x3001 {
        Some(SID::LED_PATTERN_SETTINGS)
    } else if c == 0x3002 {
        Some(SID::AXIS_ACTION_SETTINGS)
    } else if c == 0x3003 {
        Some(SID::LED_PATTERN_SETTINGS_DOUBLE)
    } else if c == 0x3004 {
        Some(SID::POWER_ONOFF_LED_SETTING)
    } else if c == 0x3006 {
        Some(SID::AR_LED_VIBRARTION_SETTING)
    } else if c == 0x3008 {
        Some(SID::FUNCTION_BUTTON_SETTING)
    } else if c == 0x3010 {
        Some(SID::ADDITIONAL_PRINTER_INFO)
    } else if c == 0x3080 {
        Some(SID::PRINTER_HEAD_LIGHT_CORRECT_INFO)
    } else if c == 0x3081 {
        Some(SID::PRINTER_HEAD_LIGHT_CORRECT_SETTINGS)
    } else if c == 0x8000 {
        Some(SID::CAMERA_SETTINGS)
    } else if c == 0x8001 {
        Some(SID::CAMERA_SETTINGS_GET)
    } else if c == 0x8010 {
        Some(SID::ADDITIONAL_CAMERA_INFO)
    } else if c == 0x8011 {
        Some(SID::PARAMETER_RW)
    } else if c == 0x8012 {
        Some(SID::TIME_SETTING)
    } else if c == 0x8100 {
        Some(SID::URL_UPLOAD_INFO)
    } else if c == 0x8101 {
        Some(SID::URL_PICTURE_UPLOAD_START)
    } else if c == 0x8102 {
        Some(SID::URL_PICTURE_UPLOAD)
    } else if c == 0x8103 {
        Some(SID::URL_PICTURE_UPLOAD_END)
    } else if c == 0x8104 {
        Some(SID::URL_AUDIO_UPLOAD_START)
    } else if c == 0x8105 {
        Some(SID::URL_AUDIO_UPLOAD)
    } else if c == 0x8106 {
        Some(SID::URL_AUDIO_UPLOAD_END)
    } else if c == 0x8107 {
        Some(SID::URL_UPLOAD_ADDRESS)
    } else if c == 0x8108 {
        Some(SID::URL_UPLOAD_DATA_COMPLETE)
    } else if c == 0x8200 {
        Some(SID::LIVE_VIEW_START)
    } else if c == 0x8201 {
        Some(SID::LIVE_VIEW_RECEIVE)
    } else if c == 0x8202 {
        Some(SID::LIVE_VIEW_STOP)
    } else if c == 0x8210 {
        Some(SID::LIVE_VIEW_TAKE_PICTURE)
    } else if c == 0x8220 {
        Some(SID::POST_VIEW_UPLOAD_START)
    } else if c == 0x8221 {
        Some(SID::POST_VIEW_UPLOAD)
    } else if c == 0x8222 {
        Some(SID::POST_VIEW_UPLOAD_END)
    } else if c == 0x8230 {
        Some(SID::POST_VIEW_PRINT)
    } else if c == 0x8300 {
        Some(SID::FRAME_PICTURE_DOWNLOAD_START)
    } else if c == 0x8301 {
        Some(SID::FRAME_PICTURE_DOWNLOAD)
    } else if c == 0x8302 {
        Some(SID::FRAME_PICTURE_DOWNLOAD_END)
    } else if c == 0x8303 {
        Some(SID::FRAME_PICTURE_NAME_SETTING)
    } else if c == 0x8304 {
        Some(SID::FRAME_PICTURE_NAME_GET)
    } else if c == 0x8400 {
        Some(SID::CAMERA_LOG_SUBTOTAL_START)
    } else if c == 0x8401 {
        Some(SID::CAMERA_LOG_SUBTOTAL_DATA)
    } else if c == 0x8402 {
        Some(SID::CAMERA_LOG_SUBTOTAL_CLEAR)
    } else if c == 0x8403 {
        Some(SID::CAMERA_LOG_DATE_START)
    } else if c == 0x8404 {
        Some(SID::CAMERA_LOG_DATE_DATA)
    } else if c == 0x8405 {
        Some(SID::CAMERA_LOG_DATE_CLEAR)
    } else if c == 0x8406 {
        Some(SID::CAMERA_LOG_FILTER_START)
    } else if c == 0x8407 {
        Some(SID::CAMERA_LOG_FILTER_DATA)
    } else if c == 0x8408 {
        Some(SID::CAMERA_LOG_FILTER_CLEAR)
    } else if c == 0x8409 {
        Some(SID::CAMERA_LOG_RECORD_DATE_START)
    } else if c == 0x840a {
        Some(SID::CAMERA_LOG_RECORD_DATE_DATA)
    } else if c == 0x840b {
        Some(SID::CAMERA_LOG_RECORD_DATE_CLEAR)
    } else if c == 0x8500 {
        Some(SID::CHECK_CAMERA_STATUS)
    } else if c == 0x8501 {
        Some(SID::EXECUTE_CAMERA_COMMAND)
    } else if c == 0x8600 {
        Some(SID::SOUND_PLAY_STATUS)
    } else if c == 0x8601 {
        Some(SID::SOUND_DOWNLOAD_START)
    } else if c == 0x8602 {
        Some(SID::SOUND_DOWNLOAD)
    } else if c == 0x8603 {
        Some(SID::SOUND_DOWNLOAD_END)
    } else if c == 0x8604 {
        Some(SID::SOUND_DOWNLOAD_CANCEL)
    } else if c == 0x8605 {
        Some(SID::SOUND_PLAY_START)
    } else if c == 0x8606 {
        Some(SID::SOUND_PLAY_STOP)
    } else if c == 0x8700 {
        Some(SID::IMAGE_MANUAL_UPLOAD_INFO)
    } else if c == 0x8701 {
        Some(SID::IMAGE_MANUAL_UPLOAD_START)
    } else if c == 0x8702 {
        Some(SID::IMAGE_MANUAL_UPLOAD_DATA)
    } else if c == 0x8703 {
        Some(SID::IMAGE_MANUAL_UPLOAD_END)
    } else if c == 0x8704 {
        Some(SID::IMAGE_MANUAL_UPLOAD_CANCEL)
    } else if c == 0x8800 {
        Some(SID::IMAGE_AUTO_UPLOAD_INFO)
    } else if c == 0x8801 {
        Some(SID::IMAGE_AUTO_UPLOAD_START)
    } else if c == 0x8802 {
        Some(SID::IMAGE_AUTO_UPLOAD_DATA)
    } else if c == 0x8803 {
        Some(SID::IMAGE_AUTO_UPLOAD_END)
    } else if c == 0x8804 {
        Some(SID::IMAGE_AUTO_UPLOAD_CANCEL)
    } else if c == 0x8805 {
        Some(SID::IMAGE_AUTO_UPLOAD_COMPLETE)
    } else if c == 0x8900 {
        Some(SID::INTERVAL_RECORD_STATUS)
    } else if c == 0x8901 {
        Some(SID::INTERVAL_RECORD_START)
    } else if c == 0x8902 {
        Some(SID::INTERVAL_RECORD_STOP)
    } else {
        None
    }
}

impl SID {
    /// The identifier that this operation carries on the wire.
    pub fn code(&self) -> (r: u16)
        ensures
            r == sid_code(*self),
    {
        match self {
            SID::UNKNOWN => 0xffff,
            SID::SUPPORT_FUNCTION_AND_VERSION_INFO => 0x0000,
            SID::DEVICE_INFO_SERVICE => 0x0001,
            SID::SUPPORT_FUNCTION_INFO => 0x0002,
            SID::IDENTIFY_INFORMATION => 0x0010,
            SID::SHUT_DOWN => 0x0100,
            SID::RESET => 0x0101,
            SID::AUTO_SLEEP_SETTINGS => 0x0102,
            SID::BLE_CONNECT => 0x0103,
            SID::PRINT_IMAGE_DOWNLOAD_START => 0x1000,
            SID::PRINT_IMAGE_DOWNLOAD_DATA => 0x1001,
            SID::PRINT_IMAGE_DOWNLOAD_END => 0x1002,
            SID::PRINT_IMAGE_DOWNLOAD_CANCEL => 0x1003,
            SID::PRINT_IMAGE => 0x1080,
            SID::REJECT_FILM_COVER => 0x1081,
            SID::FW_DOWNLOAD_START => 0x2000,
            SID::FW_DOWNLOAD_DATA => 0x2001,
            SID::FW_DOWNLOAD_END => 0x2002,
            SID::FW_UPGRADE_EXIT => 0x2003,
            SID::FW_PROGRAM_INFO => 0x2010,
            SID::FW_DATA_BACKUP => 0x2080,
            SID::FW_UPDATE_REQUEST => 0x2081,
            SID::XYZ_AXIS_INFO => 0x3000,
            SID::LED_PATTERN_SETTINGS => 0x3001,
            SID::AXIS_ACTION_SETTINGS => 0x3002,
            SID::LED_PATTERN_SETTINGS_DOUBLE => 0x3003,
            SID::POWER_ONOFF_LED_SETTING => 0x3004,
            SID::AR_LED_VIBRARTION_SETTING => 0x3006,
            SID::FUNCTION_BUTTON_SETTING => 0x3008,
            SID::ADDITIONAL_PRINTER_INFO => 0x3010,
            SID::PRINTER_HEAD_LIGHT_CORRECT_INFO => 0x3080,
            SID::PRINTER_HEAD_LIGHT_CORRECT_SETTINGS => 0x3081,
            SID::CAMERA_SETTINGS => 0x8000,
            SID::CAMERA_SETTINGS_GET => 0x8001,
            SID::ADDITIONAL_CAMERA_INFO => 0x8010,
            SID::PARAMETER_RW => 0x8011,
            SID::TIME_SETTING => 0x8012,
            SID::URL_UPLOAD_INFO => 0x8100,
            SID::URL_PICTURE_UPLOAD_START => 0x8101,
            SID::URL_PICTURE_UPLOAD => 0x8102,
            SID::URL_PICTURE_UPLOAD_END => 0x8103,
            SID::URL_AUDIO_UPLOAD_START => 0x8104,
            SID::URL_AUDIO_UPLOAD => 0x8105,
            SID::URL_AUDIO_UPLOAD_END => 0x8106,
            SID::URL_UPLOAD_ADDRESS => 0x8107,
            SID::URL_UPLOAD_DATA_COMPLETE => 0x8108,
            SID::LIVE_VIEW_START => 0x8200,
            SID::LIVE_VIEW_RECEIVE => 0x8201,
            SID::LIVE_VIEW_STOP => 0x8202,
            SID::LIVE_VIEW_TAKE_PICTURE => 0x8210,
            SID::POST_VIEW_UPLOAD_START => 0x8220,
            SID::POST_VIEW_UPLOAD => 0x8221,
            SID::POST_VIEW_UPLOAD_END => 0x8222,
            SID::POST_VIEW_PRINT => 0x8230,
            SID::FRAME_PICTURE_DOWNLOAD_START => 0x8300,
            SID::FRAME_PICTURE_DOWNLOAD => 0x8301,
            SID::FRAME_PICTURE_DOWNLOAD_END => 0x8302,
            SID::FRAME_PICTURE_NAME_SETTING => 0x8303,
            SID::FRAME_PICTURE_NAME_GET => 0x8304,
            SID::CAMERA_LOG_SUBTOTAL_START => 0x8400,
            SID::CAMERA_LOG_SUBTOTAL_DATA => 0x8401,
            SID::CAMERA_LOG_SUBTOTAL_CLEAR => 0x8402,
            SID::CAMERA_LOG_DATE_START => 0x8403,
            SID::CAMERA_LOG_DATE_DATA => 0x8404,
            SID::CAMERA_LOG_DATE_CLEAR => 0x8405,
            SID::CAMERA_LOG_FILTER_START => 0x8406,
            SID::CAMERA_LOG_FILTER_DATA => 0x8407,
            SID::CAMERA_LOG_FILTER_CLEAR => 0x8408,
            SID::CAMERA_LOG_RECORD_DATE_START => 0x8409,
            SID::CAMERA_LOG_RECORD_DATE_DATA => 0x840a,
            SID::CAMERA_LOG_RECORD_DATE_CLEAR => 0x840b,
            SID::CHECK_CAMERA_STATUS => 0x8500,
            SID::EXECUTE_CAMERA_COMMAND => 0x8501,
            SID::SOUND_PLAY_STATUS => 0x8600,
            SID::SOUND_DOWNLOAD_START => 0x8601,
            SID::SOUND_DOWNLOAD => 0x8602,
            SID::SOUND_DOWNLOAD_END => 0x8603,
            SID::SOUND_DOWNLOAD_CANCEL => 0x8604,
            SID::SOUND_PLAY_START => 0x8605,
            SID::SOUND_PLAY_STOP => 0x8606,
            SID::IMAGE_MANUAL_UPLOAD_INFO => 0x8700,
            SID::IMAGE_MANUAL_UPLOAD_START => 0x8701,
            SID::IMAGE_MANUAL_UPLOAD_DATA => 0x8702,
            SID::IMAGE_MANUAL_UPLOAD_END => 0x8703,
            SID::IMAGE_MANUAL_UPLOAD_CANCEL => 0x8704,
            SID::IMAGE_AUTO_UPLOAD_INFO => 0x8800,
            SID::IMAGE_AUTO_UPLOAD_START => 0x8801,
            SID::IMAGE_AUTO_UPLOAD_DATA => 0x8802,
            SID::IMAGE_AUTO_UPLOAD_END => 0x8803,
            SID::IMAGE_AUTO_UPLOAD_CANCEL => 0x8804,
            SID::IMAGE_AUTO_UPLOAD_COMPLETE => 0x8805,
            SID::INTERVAL_RECORD_STATUS => 0x8900,
            SID::INTERVAL_RECORD_START => 0x8901,
            SID::INTERVAL_RECORD_STOP => 0x8902,
        }
    }

    /// Looks an identifier up in the registry; `None` for one it does not hold.
    pub fn from_code(c: u16) -> (r: Option<SID>)
        ensures
            r == sid_of_code(c),
    {
        if c == 0xffff {
            Some(SID::UNKNOWN)
        } else if c == 0x0000 {
            Some(SID::SUPPORT_FUNCTION_AND_VERSION_INFO)
        } else if c == 0x0001 {
            Some(SID::DEVICE_INFO_SERVICE)
        } else if c == 0x0002 {
            Some(SID::SUPPORT_FUNCTION_INFO)
        } else if c == 0x0010 {
            Some(SID::IDENTIFY_INFORMATION)
        } else if c == 0x0100 {
            Some(SID::SHUT_DOWN)
        } else if c == 0x0101 {
            Some(SID::RESET)
        } else if c == 0x0102 {
            Some(SID::AUTO_SLEEP_SETTINGS)
        } else if c == 0x0103 {
            Some(SID::BLE_CONNECT)
        } else if c == 0x1000 {
            Some(SID::PRINT_IMAGE_DOWNLOAD_START)
        } else if c == 0x1001 {
            Some(SID::PRINT_IMAGE_DOWNLOAD_DATA)
        } else if c == 0x1002 {
            Some(SID::PRINT_IMAGE_DOWNLOAD_END)
        } else if c == 0x1003 {
            Some(SID::PRINT_IMAGE_DOWNLOAD_CANCEL)
        } else if c == 0x1080 {
            Some(SID::PRINT_IMAGE)
        } else if c == 0x1081 {
            Some(SID::REJECT_FILM_COVER)
        } else if c == 0x2000 {
            Some(SID::FW_DOWNLOAD_START)
        } else if c == 0x2001 {
            Some(SID::FW_DOWNLOAD_DATA)
        } else if c == 0x2002 {
            Some(SID::FW_DOWNLOAD_END)
        } else if c == 0x2003 {
            Some(SID::FW_UPGRADE_EXIT)
        } else if c == 0x2010 {
            Some(SID::FW_PROGRAM_INFO)
        } else if c == 0x2080 {
            Some(SID::FW_DATA_BACKUP)
        } else if c == 0x2081 {
            Some(SID::FW_UPDATE_REQUEST)
        } else if c == 0x3000 {
            Some(SID::XYZ_AXIS_INFO)
        } else if c == 0x3001 {
            Some(SID::LED_PATTERN_SETTINGS)
        } else if c == 0x3002 {
            Some(SID::AXIS_ACTION_SETTINGS)
        } else if c == 0x3003 {
            Some(SID::LED_PATTERN_SETTINGS_DOUBLE)
        } else if c == 0x3004 {
            Some(SID::POWER_ONOFF_LED_SETTING)
        } else if c == 0x3006 {
            Some(SID::AR_LED_VIBRARTION_SETTING)
        } else if c == 0x3008 {
            Some(SID::FUNCTION_BUTTON_SETTING)
        } else if c == 0x3010 {
            Some(SID::ADDITIONAL_PRINTER_INFO)
        } else if c == 0x3080 {
            Some(SID::PRINTER_HEAD_LIGHT_CORRECT_INFO)
        } else if c == 0x3081 {
            Some(SID::PRINTER_HEAD_LIGHT_CORRECT_SETTINGS)
        } else if c == 0x8000 {
            Some(SID::CAMERA_SETTINGS)
        } else if c == 0x8001 {
            Some(SID::CAMERA_SETTINGS_GET)
        } else if c == 0x8010 {
            Some(SID::ADDITIONAL_CAMERA_INFO)
        } else if c == 0x8011 {
            Some(SID::PARAMETER_RW)
        } else if c == 0x8012 {
            Some(SID::TIME_SETTING)
        } else if c == 0x8100 {
            Some(SID::URL_UPLOAD_INFO)
        } else if c == 0x8101 {
            Some(SID::URL_PICTURE_UPLOAD_START)
        } else if c == 0x8102 {
            Some(SID::URL_PICTURE_UPLOAD)
        } else if c == 0x8103 {
            Some(SID::URL_PICTURE_UPLOAD_END)
        } else if c == 0x8104 {
            Some(SID::URL_AUDIO_UPLOAD_START)
        } else if c == 0x8105 {
            Some(SID::URL_AUDIO_UPLOAD)
        } else if c == 0x8106 {
            Some(SID::URL_AUDIO_UPLOAD_END)
        } else if c == 0x8107 {
            Some(SID::URL_UPLOAD_ADDRESS)
        } else if c == 0x8108 {
            Some(SID::URL_UPLOAD_DATA_COMPLETE)
        } else if c == 0x8200 {
            Some(SID::LIVE_VIEW_START)
        } else if c == 0x8201 {
            Some(SID::LIVE_VIEW_RECEIVE)
        } else if c == 0x8202 {
            Some(SID::LIVE_VIEW_STOP)
        } else if c == 0x8210 {
            Some(SID::LIVE_VIEW_TAKE_PICTURE)
        } else if c == 0x8220 {
            Some(SID::POST_VIEW_UPLOAD_START)
        } else if c == 0x8221 {
            Some(SID::POST_VIEW_UPLOAD)
        } else if c == 0x8222 {
            Some(SID::POST_VIEW_UPLOAD_END)
        } else if c == 0x8230 {
            Some(SID::POST_VIEW_PRINT)
        } else if c == 0x8300 {
            Some(SID::FRAME_PICTURE_DOWNLOAD_START)
        } else if c == 0x8301 {
            Some(SID::FRAME_PICTURE_DOWNLOAD)
        } else if c == 0x8302 {
            Some(SID::FRAME_PICTURE_DOWNLOAD_END)
        } else if c == 0x8303 {
            Some(SID::FRAME_PICTURE_NAME_SETTING)
        } else if c == 0x8304 {
            Some(SID::FRAME_PICTURE_NAME_GET)
        } else if c == 0x8400 {
            Some(SID::CAMERA_LOG_SUBTOTAL_START)
        } else if c == 0x8401 {
            Some(SID::CAMERA_LOG_SUBTOTAL_DATA)
        } else if c == 0x8402 {
            Some(SID::CAMERA_LOG_SUBTOTAL_CLEAR)
        } else if c == 0x8403 {
            Some(SID::CAMERA_LOG_DATE_START)
        } else if c == 0x8404 {
            Some(SID::CAMERA_LOG_DATE_DATA)
        } else if c == 0x8405 {
            Some(SID::CAMERA_LOG_DATE_CLEAR)
        } else if c == 0x8406 {
            Some(SID::CAMERA_LOG_FILTER_START)
        } else if c == 0x8407 {
            Some(SID::CAMERA_LOG_FILTER_DATA)
        } else if c == 0x8408 {
            Some(SID::CAMERA_LOG_FILTER_CLEAR)
        } else if c == 0x8409 {
            Some(SID::CAMERA_LOG_RECORD_DATE_START)
        } else if c == 0x840a {
            Some(SID::CAMERA_LOG_RECORD_DATE_DATA)
        } else if c == 0x840b {
            Some(SID::CAMERA_LOG_RECORD_DATE_CLEAR)
        } else if c == 0x8500 {
            Some(SID::CHECK_CAMERA_STATUS)
        } else if c == 0x8501 {
            Some(SID::EXECUTE_CAMERA_COMMAND)
        } else if c == 0x8600 {
            Some(SID::SOUND_PLAY_STATUS)
        } else if c == 0x8601 {
            Some(SID::SOUND_DOWNLOAD_START)
        } else if c == 0x8602 {
            Some(SID::SOUND_DOWNLOAD)
        } else if c == 0x8603 {
            Some(SID::SOUND_DOWNLOAD_END)
        } else if c == 0x8604 {
            Some(SID::SOUND_DOWNLOAD_CANCEL)
        } else if c == 0x8605 {
            Some(SID::SOUND_PLAY_START)
        } else if c == 0x8606 {
            Some(SID::SOUND_PLAY_STOP)
        } else if c == 0x8700 {
            Some(SID::IMAGE_MANUAL_UPLOAD_INFO)
        } else if c == 0x8701 {
            Some(SID::IMAGE_MANUAL_UPLOAD_START)
        } else if c == 0x8702 {
            Some(SID::IMAGE_MANUAL_UPLOAD_DATA)
        } else if c == 0x8703 {
            Some(SID::IMAGE_MANUAL_UPLOAD_END)
        } else if c == 0x8704 {
            Some(SID::IMAGE_MANUAL_UPLOAD_CANCEL)
        } else if c == 0x8800 {
            Some(SID::IMAGE_AUTO_UPLOAD_INFO)
        } else if c == 0x8801 {
            Some(SID::IMAGE_AUTO_UPLOAD_START)
        } else if c == 0x8802 {
            Some(SID::IMAGE_AUTO_UPLOAD_DATA)
        } else if c == 0x8803 {
            Some(SID::IMAGE_AUTO_UPLOAD_END)
        } else if c == 0x8804 {
            Some(SID::IMAGE_AUTO_UPLOAD_CANCEL)
        } else if c == 0x8805 {
            Some(SID::IMAGE_AUTO_UPLOAD_COMPLETE)
        } else if c == 0x8900 {
            Some(SID::INTERVAL_RECORD_STATUS)
        } else if c == 0x8901 {
            Some(SID::INTERVAL_RECORD_START)
        } else if c == 0x8902 {
            Some(SID::INTERVAL_RECORD_STOP)
        } else {
            None
        }
    }
}

/// Each named operation is found again from its identifier.
pub proof fn lemma_sid_code_round_trip(s: SID)
    ensures
        sid_of_code(sid_code(s)) == Some(s),
{
}

/// An identifier that the registry holds belongs to the operation found for it.
pub proof fn lemma_sid_of_code_inverse(c: u16)
    ensures
        sid_of_code(c) matches Some(s) ==> sid_code(s) == c,
{
}

/// The operation that a frame names: one of the registry's, or an identifier
/// that the registry does not hold (newer firmware may add operations).
#[derive(Debug, Clone, Copy, PartialEq, Eq, Structural)]
pub enum Operation {
    Known(SID),
    Unrecognized(u16),
}

/// The identifier that an operation carries on the wire.
pub open spec fn operation_code(o: Operation) -> u16 {
    match o {
        Operation::Known(s) => sid_code(s),
        Operation::Unrecognized(c) => c,
    }
}

/// How an identifier read off the wire is classified.
pub open spec fn operation_of_code(c: u16) -> Operation {
    match sid_of_code(c) {
        Some(s) => Operation::Known(s),
        None => Operation::Unrecognized(c),
    }
}

/// An operation that decoding can produce: an unrecognized identifier is one
/// that the registry does not hold.
pub open spec fn operation_wf(o: Operation) -> bool {
    match o {
        Operation::Known(_) => true,
        Operation::Unrecognized(c) => sid_of_code(c).is_none(),
    }
}

impl Operation {
    pub fn code(&self) -> (r: u16)
        ensures
            r == operation_code(*self),
    {
        match self {
            Operation::Known(s) => s.code(),
            Operation::Unrecognized(c) => *c,
        }
    }

    /// Classifies an identifier; never fails.
    pub fn from_code(c: u16) -> (r: Operation)
        ensures
            r == operation_of_code(c),
            operation_wf(r),
            operation_code(r) == c,
    {
        proof {
            lemma_sid_of_code_inverse(c);
        }
        match SID::from_code(c) {
            Some(s) => Operation::Known(s),
            None => Operation::Unrecognized(c),
        }
    }
}

/// A well-formed operation is classified again from its own identifier.
pub proof fn lemma_operation_round_trip(o: Operation)
    requires
        operation_wf(o),
    ensures
        operation_of_code(operation_code(o)) == o,
{
    if let Operation::Known(s) = o {
        lemma_sid_code_round_trip(s);
    }
}

/// Sub-types of `SUPPORT_FUNCTION_INFO`: which record a query asks for.
#[allow(non_camel_case_types)]
#[derive(Debug, Clone, Copy, PartialEq, Eq, Structural)]
pub enum SupportFunctionInfoType {
    IMAGE_SUPPORT_INFO,
    BATTERY_INFO,
    PRINTER_FUNCTION_INFO,
    PRINT_HISTORY_INFO,
    CAMERA_FUNCTION_INFO,
    CAMERA_HISTORY_INFO,
}

pub open spec fn info_type_code(t: SupportFunctionInfoType) -> u8 {
    match t {
        SupportFunctionInfoType::IMAGE_SUPPORT_INFO => 0,
        SupportFunctionInfoType::BATTERY_INFO => 1,
        SupportFunctionInfoType::PRINTER_FUNCTION_INFO => 2,
        SupportFunctionInfoType::PRINT_HISTORY_INFO => 3,
        SupportFunctionInfoType::CAMERA_FUNCTION_INFO => 4,
        SupportFunctionInfoType::CAMERA_HISTORY_INFO => 5,
    }
}

impl SupportFunctionInfoType {
    pub fn code(&self) -> (r: u8)
        ensures
            r == info_type_code(*self),
    {
        match self {
            SupportFunctionInfoType::IMAGE_SUPPORT_INFO => 0,
            SupportFunctionInfoType::BATTERY_INFO => 1,
            SupportFunctionInfoType::PRINTER_FUNCTION_INFO => 2,
            SupportFunctionInfoType::PRINT_HISTORY_INFO => 3,
            SupportFunctionInfoType::CAMERA_FUNCTION_INFO => 4,
            SupportFunctionInfoType::CAMERA_HISTORY_INFO => 5,
        }
    }
}

/// Sub-types of the device information query.
#[allow(non_camel_case_types)]
#[derive(Debug, Clone, Copy, PartialEq, Eq, Structural)]
pub enum DeviceInfoType {
    MANUFACTURER_NAME,
    MODEL_NUMBER,
    SERIAL_NUMBER,
    HW_REVISION,
    FW_REVISION,
    SW_REVISION,
    SYSTEM_ID,
    REGULATORY_DATA,
    PNP_ID,
}

pub open spec fn device_info_type_code(t: DeviceInfoType) -> u8 {
    match t {
        DeviceInfoType::MANUFACTURER_NAME => 0,
        DeviceInfoType::MODEL_NUMBER => 1,
        DeviceInfoType::SERIAL_NUMBER => 2,
        DeviceInfoType::HW_REVISION => 3,
        DeviceInfoType::FW_REVISION => 4,
        DeviceInfoType::SW_REVISION => 5,
        DeviceInfoType::SYSTEM_ID => 6,
        DeviceInfoType::REGULATORY_DATA => 7,
        DeviceInfoType::PNP_ID => 8,
    }
}

impl DeviceInfoType {
    pub fn code(&self) -> (r: u8)
        ensures
            r == device_info_type_code(*self),
    {
        match self {
            DeviceInfoType::MANUFACTURER_NAME => 0,
            DeviceInfoType::MODEL_NUMBER => 1,
            DeviceInfoType::SERIAL_NUMBER => 2,
            DeviceInfoType::HW_REVISION => 3,
            DeviceInfoType::FW_REVISION => 4,
            DeviceInfoType::SW_REVISION => 5,
            DeviceInfoType::SYSTEM_ID => 6,
            DeviceInfoType::REGULATORY_DATA => 7,
            DeviceInfoType::PNP_ID => 8,
        }
    }
}

/// Error states that a camera reports, by signed code.
#[allow(non_camel_case_types)]
#[derive(Debug, Clone, Copy, PartialEq, Eq, Structural)]
pub enum CameraErrorType {
    NO_ERROR,
    BATTERY_NG_ERROR,
    NO_BATTERY_ERROR,
    BATTERY_TEMP_ERROR,
    BATTERY_CHARGE_FAULT_ERROR,
    MEDIA_CAPACITY_FULL,
    FRAME_NO_ERROR,
    SW_ABNORMALITY_ERROR,
    HW_ABNORMALITY_ERROR,
    MECHA_ABNORMALITY_ERROR,
    RESERVED_ERROR,
}

pub open spec fn camera_error_code(t: CameraErrorType) -> i16 {
    match t {
        CameraErrorType::NO_ERROR => -1i16,
        CameraErrorType::BATTERY_NG_ERROR => 0,
        CameraErrorType::NO_BATTERY_ERROR => 1,
        CameraErrorType::BATTERY_TEMP_ERROR => 2,
        CameraErrorType::BATTERY_CHARGE_FAULT_ERROR => 3,
        CameraErrorType::MEDIA_CAPACITY_FULL => 7,
        CameraErrorType::FRAME_NO_ERROR => 8,
        CameraErrorType::SW_ABNORMALITY_ERROR => 29,
        CameraErrorType::HW_ABNORMALITY_ERROR => 30,
        CameraErrorType::MECHA_ABNORMALITY_ERROR => 31,
        CameraErrorType::RESERVED_ERROR => -2i16,
    }
}

pub open spec fn camera_error_of_code(c: i16) -> Option<CameraErrorType> {
    if c == -1 {
        Some(CameraErrorType::NO_ERROR)
    } else if c == 0 {
        Some(CameraErrorType::BATTERY_NG_ERROR)
    } else if c == 1 {
        Some(CameraErrorType::NO_BATTERY_ERROR)
    } else if c == 2 {
        Some(CameraErrorType::BATTERY_TEMP_ERROR)
    } else if c == 3 {
        Some(CameraErrorType::BATTERY_CHARGE_FAULT_ERROR)
    } else if c == 7 {
        Some(CameraErrorType::MEDIA_CAPACITY_FULL)
    } else if c == 8 {
        Some(CameraErrorType::FRAME_NO_ERROR)
    } else if c == 29 {
        Some(CameraErrorType::SW_ABNORMALITY_ERROR)
    } else if c == 30 {
        Some(CameraErrorType::HW_ABNORMALITY_ERROR)
    } else if c == 31 {
        Some(CameraErrorType::MECHA_ABNORMALITY_ERROR)
    } else if c == -2 {
        Some(CameraErrorType::RESERVED_ERROR)
    } else {
        None
    }
}

impl CameraErrorType {
    pub fn code(&self) -> (r: i16)
        ensures
            r == camera_error_code(*self),
    {
        match self {
            CameraErrorType::NO_ERROR => -1,
            CameraErrorType::BATTERY_NG_ERROR => 0,
            CameraErrorType::NO_BATTERY_ERROR => 1,
            CameraErrorType::BATTERY_TEMP_ERROR => 2,
            CameraErrorType::BATTERY_CHARGE_FAULT_ERROR => 3,
            CameraErrorType::MEDIA_CAPACITY_FULL => 7,
            CameraErrorType::FRAME_NO_ERROR => 8,
            CameraErrorType::SW_ABNORMALITY_ERROR => 29,
            CameraErrorType::HW_ABNORMALITY_ERROR => 30,
            CameraErrorType::MECHA_ABNORMALITY_ERROR => 31,
            CameraErrorType::RESERVED_ERROR => -2,
        }
    }

    pub fn from_code(c: i16) -> (r: Option<CameraErrorType>)
        ensures
            r == camera_error_of_code(c),
    {
        if c == -1 {
            Some(CameraErrorType::NO_ERROR)
        } else if c == 0 {
            Some(CameraErrorType::BATTERY_NG_ERROR)
        } else if c == 1 {
            Some(CameraErrorType::NO_BATTERY_ERROR)
        } else if c == 2 {
            Some(CameraErrorType::BATTERY_TEMP_ERROR)
        } else if c == 3 {
            Some(CameraErrorType::BATTERY_CHARGE_FAULT_ERROR)
        } else if c == 7 {
            Some(CameraErrorType::MEDIA_CAPACITY_FULL)
        } else if c == 8 {
            Some(CameraErrorType::FRAME_NO_ERROR)
        } else if c == 29 {
            Some(CameraErrorType::SW_ABNORMALITY_ERROR)
        } else if c == 30 {
            Some(CameraErrorType::HW_ABNORMALITY_ERROR)
        } else if c == 31 {
            Some(CameraErrorType::MECHA_ABNORMALITY_ERROR)
        } else if c == -2 {
            Some(CameraErrorType::RESERVED_ERROR)
        } else {
            None
        }
    }
}

/// Where the camera stores pictures.
#[allow(non_camel_case_types)]
#[derive(Debug, Clone, Copy, PartialEq, Eq, Structural)]
pub enum ActiveMedia {
    SD,
    BUILT_IN_MEDIA,
    UNDEFINED,
}

pub open spec fn active_media_code(t: ActiveMedia) -> u8 {
    match t {
        ActiveMedia::SD => 0,
        ActiveMedia::BUILT_IN_MEDIA => 1,
        ActiveMedia::UNDEFINED => 255,
    }
}

impl ActiveMedia {
    pub fn code(&self) -> (r: u8)
        ensures
            r == active_media_code(*self),
    {
        match self {
            ActiveMedia::SD => 0,
            ActiveMedia::BUILT_IN_MEDIA => 1,
            ActiveMedia::UNDEFINED => 255,
        }
    }
}

/// Settings that the parameter read/write operation addresses.
#[allow(non_camel_case_types)]
#[derive(Debug, Clone, Copy, PartialEq, Eq, Structural)]
pub enum ReadWriteSettingType {
    AUTO_POWER_OFF,
    LED_AT_START_UP,
    AUTOMATIC_PICTURE_DELETION,
    VOLUME_SETTING,
    POWER_ON_SOUND_TYPE,
    VOICE_SHUTTER_SOUND_TYPE,
    BGM_SOUND_TYPE,
    DATE_PRINT_SETTING,
    DATE_PRINT_ORDER_SETTING,
    THREED_LUT_PRINT_SETTING,
    TRANSFER_FORMAT,
    FLASH_SETTING,
    EXPOSURE_SETTING,
    LONG_INTERVAL_SHOOT_TIME,
    SHORT_INTERVAL_SHOOT_TIME,
    VOICE_LANGUAGE_SETTINGS,
    DELETE_ORIGINAL_IMAGE_AFTER_TRANSFER,
}

pub open spec fn setting_type_code(t: ReadWriteSettingType) -> u8 {
    match t {
        ReadWriteSettingType::AUTO_POWER_OFF => 0,
        ReadWriteSettingType::LED_AT_START_UP => 1,
        ReadWriteSettingType::AUTOMATIC_PICTURE_DELETION => 2,
        ReadWriteSettingType::VOLUME_SETTING => 3,
        ReadWriteSettingType::POWER_ON_SOUND_TYPE => 4,
        ReadWriteSettingType::VOICE_SHUTTER_SOUND_TYPE => 5,
        ReadWriteSettingType::BGM_SOUND_TYPE => 6,
        ReadWriteSettingType::DATE_PRINT_SETTING => 7,
        ReadWriteSettingType::DATE_PRINT_ORDER_SETTING => 8,
        ReadWriteSettingType::THREED_LUT_PRINT_SETTING => 9,
        ReadWriteSettingType::TRANSFER_FORMAT => 10,
        ReadWriteSettingType::FLASH_SETTING => 11,
        ReadWriteSettingType::EXPOSURE_SETTING => 12,
        ReadWriteSettingType::LONG_INTERVAL_SHOOT_TIME => 14,
        ReadWriteSettingType::SHORT_INTERVAL_SHOOT_TIME => 16,
        ReadWriteSettingType::VOICE_LANGUAGE_SETTINGS => 17,
        ReadWriteSettingType::DELETE_ORIGINAL_IMAGE_AFTER_TRANSFER => 18,
    }
}

pub open spec fn setting_type_of_code(c: u8) -> Option<ReadWriteSettingType> {
    if c == 0 {
        Some(ReadWriteSettingType::AUTO_POWER_OFF)
    } else if c == 1 {
        Some(ReadWriteSettingType::LED_AT_START_UP)
    } else if c == 2 {
        Some(ReadWriteSettingType::AUTOMATIC_PICTURE_DELETION)
    } else if c == 3 {
        Some(ReadWriteSettingType::VOLUME_SETTING)
    } else if c == 4 {
        Some(ReadWriteSettingType::POWER_ON_SOUND_TYPE)
    } else if c == 5 {
        Some(ReadWriteSettingType::VOICE_SHUTTER_SOUND_TYPE)
    } else if c == 6 {
        Some(ReadWriteSettingType::BGM_SOUND_TYPE)
    } else if c == 7 {
        Some(ReadWriteSettingType::DATE_PRINT_SETTING)
    } else if c == 8 {
        Some(ReadWriteSettingType::DATE_PRINT_ORDER_SETTING)
    } else if c == 9 {
        Some(ReadWriteSettingType::THREED_LUT_PRINT_SETTING)
    } else if c == 10 {
        Some(ReadWriteSettingType::TRANSFER_FORMAT)
    } else if c == 11 {
        Some(ReadWriteSettingType::FLASH_SETTING)
    } else if c == 12 {
        Some(ReadWriteSettingType::EXPOSURE_SETTING)
    } else if c == 14 {
        Some(ReadWriteSettingType::LONG_INTERVAL_SHOOT_TIME)
    } else if c == 16 {
        Some(ReadWriteSettingType::SHORT_INTERVAL_SHOOT_TIME)
    } else if c == 17 {
        Some(ReadWriteSettingType::VOICE_LANGUAGE_SETTINGS)
    } else if c == 18 {
        Some(ReadWriteSettingType::DELETE_ORIGINAL_IMAGE_AFTER_TRANSFER)
    } else {
        None
    }
}

impl ReadWriteSettingType {
    pub fn code(&self) -> (r: u8)
        ensures
            r == setting_type_code(*self),
    {
        match self {
            ReadWriteSettingType::AUTO_POWER_OFF => 0,
            ReadWriteSettingType::LED_AT_START_UP => 1,
            ReadWriteSettingType::AUTOMATIC_PICTURE_DELETION => 2,
            ReadWriteSettingType::VOLUME_SETTING => 3,
            ReadWriteSettingType::POWER_ON_SOUND_TYPE => 4,
            ReadWriteSettingType::VOICE_SHUTTER_SOUND_TYPE => 5,
            ReadWriteSettingType::BGM_SOUND_TYPE => 6,
            ReadWriteSettingType::DATE_PRINT_SETTING => 7,
            ReadWriteSettingType::DATE_PRINT_ORDER_SETTING => 8,
            ReadWriteSettingType::THREED_LUT_PRINT_SETTING => 9,
            ReadWriteSettingType::TRANSFER_FORMAT => 10,
            ReadWriteSettingType::FLASH_SETTING => 11,
            ReadWriteSettingType::EXPOSURE_SETTING => 12,
            ReadWriteSettingType::LONG_INTERVAL_SHOOT_TIME => 14,
            ReadWriteSettingType::SHORT_INTERVAL_SHOOT_TIME => 16,
            ReadWriteSettingType::VOICE_LANGUAGE_SETTINGS => 17,
            ReadWriteSettingType::DELETE_ORIGINAL_IMAGE_AFTER_TRANSFER => 18,
        }
    }

    pub fn from_code(c: u8) -> (r: Option<ReadWriteSettingType>)
        ensures
            r == setting_type_of_code(c),
    {
        if c == 0 {
            Some(ReadWriteSettingType::AUTO_POWER_OFF)
        } else if c == 1 {
            Some(ReadWriteSettingType::LED_AT_START_UP)
        } else if c == 2 {
            Some(ReadWriteSettingType::AUTOMATIC_PICTURE_DELETION)
        } else if c == 3 {
            Some(ReadWriteSettingType::VOLUME_SETTING)
        } else if c == 4 {
            Some(ReadWriteSettingType::POWER_ON_SOUND_TYPE)
        } else if c == 5 {
            Some(ReadWriteSettingType::VOICE_SHUTTER_SOUND_TYPE)
        } else if c == 6 {
            Some(ReadWriteSettingType::BGM_SOUND_TYPE)
        } else if c == 7 {
            Some(ReadWriteSettingType::DATE_PRINT_SETTING)
        } else if c == 8 {
            Some(ReadWriteSettingType::DATE_PRINT_ORDER_SETTING)
        } else if c == 9 {
            Some(ReadWriteSettingType::THREED_LUT_PRINT_SETTING)
        } else if c == 10 {
            Some(ReadWriteSettingType::TRANSFER_FORMAT)
        } else if c == 11 {
            Some(ReadWriteSettingType::FLASH_SETTING)
        } else if c == 12 {
            Some(ReadWriteSettingType::EXPOSURE_SETTING)
        } else if c == 14 {
            Some(ReadWriteSettingType::LONG_INTERVAL_SHOOT_TIME)
        } else if c == 16 {
            Some(ReadWriteSettingType::SHORT_INTERVAL_SHOOT_TIME)
        } else if c == 17 {
            Some(ReadWriteSettingType::VOICE_LANGUAGE_SETTINGS)
        } else if c == 18 {
            Some(ReadWriteSettingType::DELETE_ORIGINAL_IMAGE_AFTER_TRANSFER)
        } else {
            None
        }
    }
}

/// What a parameter read/write request does with the setting.
#[allow(non_camel_case_types)]
#[derive(Debug, Clone, Copy, PartialEq, Eq, Structural)]
pub enum ReadWriteSettingMode {
    GET_CURRENT_SETTING,
    GET_FACTORY_SETTING,
    SET_FACTORY_SETTING,
}

pub open spec fn setting_mode_code(t: ReadWriteSettingMode) -> u8 {
    match t {
        ReadWriteSettingMode::GET_CURRENT_SETTING => 0,
        ReadWriteSettingMode::GET_FACTORY_SETTING => 1,
        ReadWriteSettingMode::SET_FACTORY_SETTING => 2,
    }
}

pub open spec fn setting_mode_of_code(c: u8) -> Option<ReadWriteSettingMode> {
    if c == 0 {
        Some(ReadWriteSettingMode::GET_CURRENT_SETTING)
    } else if c == 1 {
        Some(ReadWriteSettingMode::GET_FACTORY_SETTING)
    } else if c == 2 {
        Some(ReadWriteSettingMode::SET_FACTORY_SETTING)
    } else {
        None
    }
}

impl ReadWriteSettingMode {
    pub fn code(&self) -> (r: u8)
        ensures
            r == setting_mode_code(*self),
    {
        match self {
            ReadWriteSettingMode::GET_CURRENT_SETTING => 0,
            ReadWriteSettingMode::GET_FACTORY_SETTING => 1,
            ReadWriteSettingMode::SET_FACTORY_SETTING => 2,
        }
    }

    pub fn from_code(c: u8) -> (r: Option<ReadWriteSettingMode>)
        ensures
            r == setting_mode_of_code(c),
    {
        if c == 0 {
            Some(ReadWriteSettingMode::GET_CURRENT_SETTING)
        } else if c == 1 {
            Some(ReadWriteSettingMode::GET_FACTORY_SETTING)
        } else if c == 2 {
            Some(ReadWriteSettingMode::SET_FACTORY_SETTING)
        } else {
            None
        }
    }
}

} // verus!
