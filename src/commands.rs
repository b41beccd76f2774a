use vstd::prelude::*;
use vstd::string::StrSliceExecFns;
use crate::frame::{BodyView, Packet, PacketView};
use crate::registry::{
    setting_mode_code, setting_type_code, Direction, Operation, ReadWriteSettingMode,
    ReadWriteSettingType, SID,
};

verus! {

/// The data section of a parameter request: `[setting, mode, 0, 0, 0, 0]`.
pub open spec fn parameter_request_data(
    setting: ReadWriteSettingType,
    mode: ReadWriteSettingMode,
) -> Seq<u8> {
    seq![setting_type_code(setting), setting_mode_code(mode), 0u8, 0u8, 0u8, 0u8]
}

/// A request to read or write one setting.
pub fn parameter_rw_request(setting: ReadWriteSettingType, mode: ReadWriteSettingMode) -> (r:
    Packet)
    ensures
        r@ == (PacketView {
            direction: Direction::TO,
            size: 13,
            sid: Operation::Known(SID::PARAMETER_RW),
            body: BodyView::Data(parameter_request_data(setting, mode)),
        }),
{
    let data: Vec<u8> = vec![setting.code(), mode.code(), 0, 0, 0, 0];
    assert(data@ =~= parameter_request_data(setting, mode));
    Packet::with_data(SID::PARAMETER_RW, data)
}

/// Fourteen decimal digits: `YYYYMMDDHHMMSS`.
pub open spec fn is_timestamp(s: Seq<char>) -> bool {
    s.len() == 14 && forall|i: int| 0 <= i < 14 ==> '0' <= #[trigger] s[i] <= '9'
}

/// The tag byte that leads a time setting's data section.
pub const TIME_SETTING_TAG: u8 = 2;

/// The data section of a time setting: the tag, then the timestamp's ASCII
/// bytes.
pub open spec fn time_setting_data(s: Seq<char>) -> Seq<u8> {
    seq![TIME_SETTING_TAG].add(s.map_values(|c: char| c as u8))
}

/// A request that sets the camera's clock; `None` unless `timestamp` is
/// fourteen decimal digits.
pub fn time_setting_request(timestamp: &str) -> (r: Option<Packet>)
    ensures
        r is Some <==> is_timestamp(timestamp@),
        r matches Some(p) ==> p@ == (PacketView {
            direction: Direction::TO,
            size: 22,
            sid: Operation::Known(SID::TIME_SETTING),
            body: BodyView::Data(time_setting_data(timestamp@)),
        }),
{
    let n = timestamp.unicode_len();
    if n != 14 {
        return None;
    }
    let mut data: Vec<u8> = Vec::new();
    data.push(TIME_SETTING_TAG);
    let mut i: usize = 0;
    while i < n
        invariant
            n == timestamp@.len() == 14,
            i <= n,
            forall|j: int| 0 <= j < i ==> '0' <= #[trigger] timestamp@[j] <= '9',
            data@ == seq![TIME_SETTING_TAG].add(
                timestamp@.take(i as int).map_values(|c: char| c as u8),
            ),
        decreases n - i,
    {
        let c = timestamp.get_char(i);
        if c < '0' || c > '9' {
            return None;
        }
        data.push(c as u8);
        i += 1;
        assert(data@ =~= seq![TIME_SETTING_TAG].add(
            timestamp@.take(i as int).map_values(|c: char| c as u8),
        ));
    }
    assert(timestamp@.take(14) =~= timestamp@);
    Some(Packet::with_data(SID::TIME_SETTING, data))
}

} // verus!
