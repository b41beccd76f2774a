use instax_pal::frame::{Body, FrameError, Packet};
use instax_pal::registry::{Direction, Operation, SID};
use instax_pal::transfer::{
    Action, AutoUpload, Event, LiveView, LiveViewState, SequenceError, UploadState,
};

fn reply(sid: SID, data: Vec<u8>) -> Event {
    Event::Received(Packet::new(Direction::FROM, Operation::Known(sid), Body::Data(data)).pack())
}

#[test]
fn upload_with_zero_frames_completes_at_once() {
    let mut u = AutoUpload::new();
    assert_eq!(
        u.step(Event::Begin),
        Action::Send(Packet::with_sid(SID::IMAGE_AUTO_UPLOAD_INFO).pack())
    );
    assert_eq!(
        u.step(reply(SID::IMAGE_AUTO_UPLOAD_INFO, vec![0, 0])),
        Action::Send(Packet::with_data(SID::IMAGE_AUTO_UPLOAD_START, vec![0; 4]).pack())
    );
    assert_eq!(u.state, UploadState::UploadStarted);
    assert_eq!(
        u.step(reply(SID::IMAGE_AUTO_UPLOAD_START, vec![0, 0, 0, 0])),
        Action::Complete(vec![])
    );
    assert_eq!(u.state, UploadState::Complete);
}

#[test]
fn upload_with_no_photo() {
    let mut u = AutoUpload::new();
    u.step(Event::Begin);
    assert_eq!(u.step(reply(SID::IMAGE_AUTO_UPLOAD_INFO, vec![0x81, 0])), Action::NoPhotoAvailable);
    assert_eq!(u.state, UploadState::NoPhotoAvailable);
}

#[test]
fn upload_drains_three_replies_per_frame() {
    let mut u = AutoUpload::new();
    u.step(Event::Begin);
    u.step(reply(SID::IMAGE_AUTO_UPLOAD_INFO, vec![0, 0]));
    assert_eq!(
        u.step(reply(SID::IMAGE_AUTO_UPLOAD_START, vec![0, 0, 0, 2])),
        Action::Send(Packet::with_data(SID::IMAGE_AUTO_UPLOAD_DATA, vec![0, 0, 0, 0]).pack())
    );
    assert_eq!(u.step(Event::Received(vec![1])), Action::Receive);
    assert_eq!(u.step(Event::Received(vec![2])), Action::Receive);
    assert_eq!(
        u.step(Event::Received(vec![3])),
        Action::Send(Packet::with_data(SID::IMAGE_AUTO_UPLOAD_DATA, vec![0, 0, 0, 1]).pack())
    );
    assert_eq!(u.state, UploadState::TransferringFrame { index: 1, count: 2, replies: 0 });
    assert_eq!(u.step(Event::Received(vec![4])), Action::Receive);
    assert_eq!(u.step(Event::Received(vec![5, 6])), Action::Receive);
    assert_eq!(u.step(Event::Received(vec![7])), Action::Complete(vec![1, 2, 3, 4, 5, 6, 7]));
    assert_eq!(u.state, UploadState::Complete);
}

#[test]
fn upload_aborts_on_bad_checksum() {
    let mut u = AutoUpload::new();
    u.step(Event::Begin);
    let mut bytes = Packet::new(
        Direction::FROM,
        Operation::Known(SID::IMAGE_AUTO_UPLOAD_INFO),
        Body::Data(vec![0, 0]),
    )
    .pack();
    bytes[6] ^= 0x10;
    assert_eq!(
        u.step(Event::Received(bytes)),
        Action::Aborted(
            UploadState::InfoRequested,
            SequenceError::Frame(FrameError::ChecksumMismatch)
        )
    );
    assert_eq!(u.state, UploadState::Aborted);
}

#[test]
fn upload_aborts_and_drops_buffer_on_timeout() {
    let mut u = AutoUpload::new();
    u.step(Event::Begin);
    u.step(reply(SID::IMAGE_AUTO_UPLOAD_INFO, vec![0, 0]));
    u.step(reply(SID::IMAGE_AUTO_UPLOAD_START, vec![0, 0, 0, 1]));
    u.step(Event::Received(vec![9, 9]));
    assert_eq!(
        u.step(Event::TimedOut),
        Action::Aborted(
            UploadState::TransferringFrame { index: 0, count: 1, replies: 1 },
            SequenceError::Timeout
        )
    );
    assert!(u.buffer.is_empty());
}

#[test]
fn upload_rejects_short_start_reply() {
    let mut u = AutoUpload::new();
    u.step(Event::Begin);
    u.step(reply(SID::IMAGE_AUTO_UPLOAD_INFO, vec![0, 0]));
    assert_eq!(
        u.step(reply(SID::IMAGE_AUTO_UPLOAD_START, vec![0, 0, 0])),
        Action::Aborted(UploadState::UploadStarted, SequenceError::UnexpectedSequenceState)
    );
}

#[test]
fn upload_rejects_event_before_begin() {
    let mut u = AutoUpload::new();
    assert_eq!(
        u.step(Event::Received(vec![1])),
        Action::Aborted(UploadState::Idle, SequenceError::UnexpectedSequenceState)
    );
    let mut v = AutoUpload::new();
    assert_eq!(
        v.step(Event::TransportFailed),
        Action::Aborted(UploadState::Idle, SequenceError::TransportFailure)
    );
}

#[test]
fn live_view_strips_header() {
    let mut v = LiveView::new(3);
    assert_eq!(
        v.step(Event::Begin),
        Action::Send(Packet::with_type(SID::LIVE_VIEW_START, 0).pack())
    );
    assert_eq!(
        v.step(reply(SID::LIVE_VIEW_START, vec![0, 0])),
        Action::Send(Packet::with_sid(SID::LIVE_VIEW_RECEIVE).pack())
    );
    assert_eq!(v.step(Event::Received((0u8..8).collect())), Action::Receive);
    assert_eq!(v.step(Event::Received((8u8..12).collect())), Action::Receive);
    assert_eq!(v.state, LiveViewState::Streaming { chunks: 2 });
    assert_eq!(
        v.step(Event::Received(vec![0xff, 0xd8, 0xff, 0xd9])),
        Action::Complete(vec![11, 0xff, 0xd8, 0xff, 0xd9])
    );
    assert_eq!(v.state, LiveViewState::Assembled);
}

#[test]
fn live_view_ends_with_stream() {
    let mut v = LiveView::new(10);
    v.step(Event::Begin);
    v.step(reply(SID::LIVE_VIEW_START, vec![0, 0]));
    v.step(Event::Received(vec![0; 11]));
    v.step(Event::Received(vec![1, 2]));
    assert_eq!(v.step(Event::StreamEnded), Action::Complete(vec![1, 2]));
}

#[test]
fn live_view_too_short_for_header() {
    let mut v = LiveView::new(1);
    v.step(Event::Begin);
    v.step(reply(SID::LIVE_VIEW_START, vec![0, 0]));
    assert_eq!(
        v.step(Event::Received(vec![0; 10])),
        Action::Aborted(
            LiveViewState::Streaming { chunks: 0 },
            SequenceError::UnexpectedSequenceState
        )
    );
    assert_eq!(v.state, LiveViewState::Aborted);
}

#[test]
fn live_view_start_reply_must_decode() {
    let mut v = LiveView::new(2);
    v.step(Event::Begin);
    assert_eq!(
        v.step(Event::Received(vec![0x61, 0x42, 0])),
        Action::Aborted(LiveViewState::Started, SequenceError::Frame(FrameError::FrameTooShort))
    );
}
