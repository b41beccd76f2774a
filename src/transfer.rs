use vstd::prelude::*;
use crate::bytes::{be32, copy_range, push_all, push_be32};
use crate::frame::{body_bytes, decode_frame, encode_frame, BodyView, FrameError, Packet, PacketView};
use crate::registry::{Direction, Operation, SID};

verus! {

/// Why a transfer sequence stopped.
#[derive(Debug, Clone, Copy, PartialEq, Eq, Structural)]
pub enum SequenceError {
    /// A reply did not decode as a frame.
    Frame(FrameError),
    /// No notification came within the allotted time.
    Timeout,
    /// A write or the notification stream failed.
    TransportFailure,
    /// The reply or event makes no sense in the current state.
    UnexpectedSequenceState,
}

/// What the transport reports to a sequence.
#[derive(Debug, Clone, PartialEq, Eq)]
pub enum Event {
    /// Start the sequence.
    Begin,
    /// One notification arrived.
    Received(Vec<u8>),
    TimedOut,
    TransportFailed,
    /// The notification stream closed.
    StreamEnded,
}

pub enum EventView {
    Begin,
    Received(Seq<u8>),
    TimedOut,
    TransportFailed,
    StreamEnded,
}

impl View for Event {
    type V = EventView;

    open spec fn view(&self) -> EventView {
        match self {
            Event::Begin => EventView::Begin,
            Event::Received(m) => EventView::Received(m@),
            Event::TimedOut => EventView::TimedOut,
            Event::TransportFailed => EventView::TransportFailed,
            Event::StreamEnded => EventView::StreamEnded,
        }
    }
}

/// What the caller does next for a sequence in state type `S`.
#[derive(Debug, Clone, PartialEq, Eq)]
pub enum Action<S> {
    /// Write these bytes, then report the next notification.
    Send(Vec<u8>),
    /// Report the next notification.
    Receive,
    /// The camera has no picture queued; the sequence is over.
    NoPhotoAvailable,
    /// The sequence is over; these are the bytes it gathered.
    Complete(Vec<u8>),
    /// The sequence stopped in the given state; what it gathered is dropped.
    Aborted(S, SequenceError),
}

pub enum ActionView<S> {
    Send(Seq<u8>),
    Receive,
    NoPhotoAvailable,
    Complete(Seq<u8>),
    Aborted(S, SequenceError),
}

impl<S> View for Action<S> {
    type V = ActionView<S>;

    open spec fn view(&self) -> ActionView<S> {
        match self {
            Action::Send(b) => ActionView::Send(b@),
            Action::Receive => ActionView::Receive,
            Action::NoPhotoAvailable => ActionView::NoPhotoAvailable,
            Action::Complete(b) => ActionView::Complete(b@),
            Action::Aborted(s, e) => ActionView::Aborted(*s, *e),
        }
    }
}

/// The bytes of a bare command to the camera.
pub open spec fn bare_request(sid: SID) -> Seq<u8> {
    encode_frame(
        PacketView {
            direction: Direction::TO,
            size: 7,
            sid: Operation::Known(sid),
            body: BodyView::Bare,
        },
    )
}

/// The bytes of a typed command to the camera.
pub open spec fn typed_request(sid: SID, t: u8) -> Seq<u8> {
    encode_frame(
        PacketView {
            direction: Direction::TO,
            size: 8,
            sid: Operation::Known(sid),
            body: BodyView::Typed(t),
        },
    )
}

/// The bytes of a data command to the camera.
pub open spec fn data_request(sid: SID, d: Seq<u8>) -> Seq<u8> {
    encode_frame(
        PacketView {
            direction: Direction::TO,
            size: (7 + d.len()) as u16,
            sid: Operation::Known(sid),
            body: BodyView::Data(d),
        },
    )
}

/// Status byte of the upload information reply when no picture is queued.
pub const NO_PHOTO_STATUS: u8 = 0x81;

/// Offset, in the upload start reply, of the number of frames to fetch.
pub const FRAME_COUNT_OFFSET: usize = 3;

/// Notifications that the camera sends for each requested frame.
pub const REPLIES_PER_FRAME: u8 = 3;

/// Steps of the automatic picture upload.
#[derive(Debug, Clone, Copy, PartialEq, Eq, Structural)]
pub enum UploadState {
    Idle,
    InfoRequested,
    UploadStarted,
    /// Frame `index` of `count` was requested and `replies` of its
    /// notifications have arrived.
    TransferringFrame { index: u32, count: u32, replies: u8 },
    NoPhotoAvailable,
    Complete,
    Aborted,
}

pub open spec fn upload_abort(s: UploadState, e: SequenceError) -> (
    UploadState,
    Seq<u8>,
    ActionView<UploadState>,
) {
    (UploadState::Aborted, Seq::empty(), ActionView::Aborted(s, e))
}

/// The upload's transition: from a state, the bytes gathered and an event, to
/// the next state, the bytes gathered then and the caller's next action.
pub open spec fn upload_next(s: UploadState, buf: Seq<u8>, ev: EventView) -> (
    UploadState,
    Seq<u8>,
    ActionView<UploadState>,
) {
    match ev {
        EventView::TimedOut => upload_abort(s, SequenceError::Timeout),
        EventView::TransportFailed => upload_abort(s, SequenceError::TransportFailure),
        EventView::StreamEnded => upload_abort(s, SequenceError::TransportFailure),
        EventView::Begin => if s is Idle {
            (
                UploadState::InfoRequested,
                buf,
                ActionView::Send(bare_request(SID::IMAGE_AUTO_UPLOAD_INFO)),
            )
        } else {
            upload_abort(s, SequenceError::UnexpectedSequenceState)
        },
        EventView::Received(m) => match s {
            UploadState::InfoRequested => match decode_frame(m) {
                Err(e) => upload_abort(s, SequenceError::Frame(e)),
                Ok(p) => if body_bytes(p.body).len() == 0 {
                    upload_abort(s, SequenceError::UnexpectedSequenceState)
                } else if body_bytes(p.body)[0] == NO_PHOTO_STATUS {
                    (UploadState::NoPhotoAvailable, buf, ActionView::NoPhotoAvailable)
                } else {
                    (
                        UploadState::UploadStarted,
                        buf,
                        ActionView::Send(
                            data_request(SID::IMAGE_AUTO_UPLOAD_START, seq![0u8, 0u8, 0u8, 0u8]),
                        ),
                    )
                },
            },
            UploadState::UploadStarted => match decode_frame(m) {
                Err(e) => upload_abort(s, SequenceError::Frame(e)),
                Ok(p) => if body_bytes(p.body).len() <= FRAME_COUNT_OFFSET {
                    upload_abort(s, SequenceError::UnexpectedSequenceState)
                } else if body_bytes(p.body)[FRAME_COUNT_OFFSET as int] == 0 {
                    (UploadState::Complete, Seq::empty(), ActionView::Complete(buf))
                } else {
                    (
                        UploadState::TransferringFrame {
                            index: 0,
                            count: body_bytes(p.body)[FRAME_COUNT_OFFSET as int] as u32,
                            replies: 0,
                        },
                        buf,
                        ActionView::Send(data_request(SID::IMAGE_AUTO_UPLOAD_DATA, be32(0))),
                    )
                },
            },
            UploadState::TransferringFrame { index, count, replies } => if replies + 1
                < REPLIES_PER_FRAME {
                (
                    UploadState::TransferringFrame { index, count, replies: (replies + 1) as u8 },
                    buf + m,
                    ActionView::Receive,
                )
            } else if index + 1 < count {
                (
                    UploadState::TransferringFrame { index: (index + 1) as u32, count, replies: 0 },
                    buf + m,
                    ActionView::Send(
                        data_request(SID::IMAGE_AUTO_UPLOAD_DATA, be32((index + 1) as u32)),
                    ),
                )
            } else {
                (UploadState::Complete, Seq::empty(), ActionView::Complete(buf + m))
            },
            _ => upload_abort(s, SequenceError::UnexpectedSequenceState),
        },
    }
}

/// One automatic picture upload: ask whether a picture is queued, start the
/// upload, then fetch each frame by index and gather its notifications.
pub struct AutoUpload {
    pub state: UploadState,
    /// The notifications gathered so far, in order.
    pub buffer: Vec<u8>,
}

impl AutoUpload {
    pub fn new() -> (r: AutoUpload)
        ensures
            r.state == UploadState::Idle,
            r.buffer@ == Seq::<u8>::empty(),
    {
        AutoUpload { state: UploadState::Idle, buffer: Vec::new() }
    }

    fn abort(&mut self, e: SequenceError) -> (r: Action<UploadState>)
        ensures
            (final(self).state, final(self).buffer@, r@) == upload_abort(old(self).state, e),
    {
        let s = self.state;
        self.state = UploadState::Aborted;
        self.buffer = Vec::new();
        Action::Aborted(s, e)
    }

    /// Advances the upload by one event and says what to do next.
    pub fn step(&mut self, event: Event) -> (r: Action<UploadState>)
        ensures
            (final(self).state, final(self).buffer@, r@) == upload_next(
                old(self).state,
                old(self).buffer@,
                event@,
            ),
    {
        match event {
            Event::TimedOut => self.abort(SequenceError::Timeout),
            Event::TransportFailed => self.abort(SequenceError::TransportFailure),
            Event::StreamEnded => self.abort(SequenceError::TransportFailure),
            Event::Begin => {
                if let UploadState::Idle = self.state {
                    self.state = UploadState::InfoRequested;
                    Action::Send(Packet::with_sid(SID::IMAGE_AUTO_UPLOAD_INFO).pack())
                } else {
                    self.abort(SequenceError::UnexpectedSequenceState)
                }
            },
            Event::Received(m) => match self.state {
                UploadState::InfoRequested => match Packet::unpack(&m) {
                    Err(e) => self.abort(SequenceError::Frame(e)),
                    Ok(p) => {
                        let b = p.payload();
                        if b.len() == 0 {
                            self.abort(SequenceError::UnexpectedSequenceState)
                        } else if b[0] == NO_PHOTO_STATUS {
                            self.state = UploadState::NoPhotoAvailable;
                            Action::NoPhotoAvailable
                        } else {
                            self.state = UploadState::UploadStarted;
                            let start: Vec<u8> = vec![0, 0, 0, 0];
                            assert(start@ =~= seq![0u8, 0u8, 0u8, 0u8]);
                            Action::Send(
                                Packet::with_data(SID::IMAGE_AUTO_UPLOAD_START, start).pack(),
                            )
                        }
                    },
                },
                UploadState::UploadStarted => match Packet::unpack(&m) {
                    Err(e) => self.abort(SequenceError::Frame(e)),
                    Ok(p) => {
                        let b = p.payload();
                        if b.len() <= FRAME_COUNT_OFFSET {
                            self.abort(SequenceError::UnexpectedSequenceState)
                        } else if b[FRAME_COUNT_OFFSET] == 0 {
                            self.state = UploadState::Complete;
                            let mut out: Vec<u8> = Vec::new();
                            core::mem::swap(&mut out, &mut self.buffer);
                            Action::Complete(out)
                        } else {
                            self.state = UploadState::TransferringFrame {
                                index: 0,
                                count: b[FRAME_COUNT_OFFSET] as u32,
                                replies: 0,
                            };
                            Action::Send(frame_request(0))
                        }
                    },
                },
                UploadState::TransferringFrame { index, count, replies } => {
                    push_all(&mut self.buffer, &m);
                    if replies < REPLIES_PER_FRAME - 1 {
                        self.state = UploadState::TransferringFrame {
                            index,
                            count,
                            replies: replies + 1,
                        };
                        Action::Receive
                    } else if (index as u64) + 1 < count as u64 {
                        self.state = UploadState::TransferringFrame {
                            index: index + 1,
                            count,
                            replies: 0,
                        };
                        Action::Send(frame_request(index + 1))
                    } else {
                        self.state = UploadState::Complete;
                        let mut out: Vec<u8> = Vec::new();
                        core::mem::swap(&mut out, &mut self.buffer);
                        Action::Complete(out)
                    }
                },
                _ => self.abort(SequenceError::UnexpectedSequenceState),
            },
        }
    }
}

/// The request for frame `index` of an upload: the index as four bytes,
/// most significant first.
fn frame_request(index: u32) -> (r: Vec<u8>)
    ensures
        r@ == data_request(SID::IMAGE_AUTO_UPLOAD_DATA, be32(index)),
{
    let mut d: Vec<u8> = Vec::new();
    push_be32(&mut d, index);
    assert(d@ =~= be32(index));
    Packet::with_data(SID::IMAGE_AUTO_UPLOAD_DATA, d).pack()
}

/// Bytes of status and sequence data that lead a live-view image.
pub const LIVE_VIEW_HEADER_LEN: usize = 11;

/// Steps of a live-view capture.
#[derive(Debug, Clone, Copy, PartialEq, Eq, Structural)]
pub enum LiveViewState {
    Idle,
    Started,
    /// `chunks` notifications have been gathered.
    Streaming { chunks: u32 },
    Assembled,
    Aborted,
}

pub open spec fn live_view_abort(s: LiveViewState, e: SequenceError) -> (
    LiveViewState,
    Seq<u8>,
    ActionView<LiveViewState>,
) {
    (LiveViewState::Aborted, Seq::empty(), ActionView::Aborted(s, e))
}

/// The end of a capture: the gathered bytes without their header are the
/// image.
pub open spec fn live_view_assemble(s: LiveViewState, buf: Seq<u8>) -> (
    LiveViewState,
    Seq<u8>,
    ActionView<LiveViewState>,
) {
    if buf.len() < LIVE_VIEW_HEADER_LEN {
        live_view_abort(s, SequenceError::UnexpectedSequenceState)
    } else {
        (
            LiveViewState::Assembled,
            Seq::empty(),
            ActionView::Complete(buf.subrange(LIVE_VIEW_HEADER_LEN as int, buf.len() as int)),
        )
    }
}

/// The capture's transition, for a capture that ends after `max_chunks`
/// notifications or when the stream closes.
pub open spec fn live_view_next(s: LiveViewState, buf: Seq<u8>, max_chunks: u32, ev: EventView) -> (
    LiveViewState,
    Seq<u8>,
    ActionView<LiveViewState>,
) {
    match ev {
        EventView::TimedOut => live_view_abort(s, SequenceError::Timeout),
        EventView::TransportFailed => live_view_abort(s, SequenceError::TransportFailure),
        EventView::StreamEnded => if s is Streaming {
            live_view_assemble(s, buf)
        } else {
            live_view_abort(s, SequenceError::TransportFailure)
        },
        EventView::Begin => if s is Idle {
            (
                LiveViewState::Started,
                buf,
                ActionView::Send(typed_request(SID::LIVE_VIEW_START, 0)),
            )
        } else {
            live_view_abort(s, SequenceError::UnexpectedSequenceState)
        },
        EventView::Received(m) => match s {
            LiveViewState::Started => match decode_frame(m) {
                Err(e) => live_view_abort(s, SequenceError::Frame(e)),
                Ok(_) => (
                    LiveViewState::Streaming { chunks: 0 },
                    buf,
                    ActionView::Send(bare_request(SID::LIVE_VIEW_RECEIVE)),
                ),
            },
            LiveViewState::Streaming { chunks } => if chunks + 1 >= max_chunks {
                live_view_assemble(s, buf + m)
            } else {
                (
                    LiveViewState::Streaming { chunks: (chunks + 1) as u32 },
                    buf + m,
                    ActionView::Receive,
                )
            },
            _ => live_view_abort(s, SequenceError::UnexpectedSequenceState),
        },
    }
}

/// One live-view capture: start the view, ask for the stream, gather raw
/// notifications until the bound or the end of the stream, then strip the
/// header.
pub struct LiveView {
    pub state: LiveViewState,
    /// The notifications gathered so far, in order.
    pub buffer: Vec<u8>,
    /// How many notifications make one capture.
    pub max_chunks: u32,
}

impl LiveView {
    pub fn new(max_chunks: u32) -> (r: LiveView)
        ensures
            r.state == LiveViewState::Idle,
            r.buffer@ == Seq::<u8>::empty(),
            r.max_chunks == max_chunks,
    {
        LiveView { state: LiveViewState::Idle, buffer: Vec::new(), max_chunks }
    }

    fn abort(&mut self, e: SequenceError) -> (r: Action<LiveViewState>)
        ensures
            (final(self).state, final(self).buffer@, r@) == live_view_abort(old(self).state, e),
            final(self).max_chunks == old(self).max_chunks,
    {
        let s = self.state;
        self.state = LiveViewState::Aborted;
        self.buffer = Vec::new();
        Action::Aborted(s, e)
    }

    fn assemble(&mut self) -> (r: Action<LiveViewState>)
        ensures
            (final(self).state, final(self).buffer@, r@) == live_view_assemble(
                old(self).state,
                old(self).buffer@,
            ),
            final(self).max_chunks == old(self).max_chunks,
    {
        let n = self.buffer.len();
        if n < LIVE_VIEW_HEADER_LEN {
            return self.abort(SequenceError::UnexpectedSequenceState);
        }
        let image = copy_range(&self.buffer, LIVE_VIEW_HEADER_LEN, n);
        self.state = LiveViewState::Assembled;
        self.buffer = Vec::new();
        Action::Complete(image)
    }

    /// Advances the capture by one event and says what to do next.
    pub fn step(&mut self, event: Event) -> (r: Action<LiveViewState>)
        ensures
            (final(self).state, final(self).buffer@, r@) == live_view_next(
                old(self).state,
                old(self).buffer@,
                old(self).max_chunks,
                event@,
            ),
            final(self).max_chunks == old(self).max_chunks,
    {
        match event {
            Event::TimedOut => self.abort(SequenceError::Timeout),
            Event::TransportFailed => self.abort(SequenceError::TransportFailure),
            Event::StreamEnded => {
                if let LiveViewState::Streaming { .. } = self.state {
                    self.assemble()
                } else {
                    self.abort(SequenceError::TransportFailure)
                }
            },
            Event::Begin => {
                if let LiveViewState::Idle = self.state {
                    self.state = LiveViewState::Started;
                    Action::Send(Packet::with_type(SID::LIVE_VIEW_START, 0).pack())
                } else {
                    self.abort(SequenceError::UnexpectedSequenceState)
                }
            },
            Event::Received(m) => match self.state {
                LiveViewState::Started => match Packet::unpack(&m) {
                    Err(e) => self.abort(SequenceError::Frame(e)),
                    Ok(_) => {
                        self.state = LiveViewState::Streaming { chunks: 0 };
                        Action::Send(Packet::with_sid(SID::LIVE_VIEW_RECEIVE).pack())
                    },
                },
                LiveViewState::Streaming { chunks } => {
                    push_all(&mut self.buffer, &m);
                    if (chunks as u64) + 1 >= self.max_chunks as u64 {
                        self.assemble()
                    } else {
                        self.state = LiveViewState::Streaming { chunks: chunks + 1 };
                        Action::Receive
                    }
                },
                _ => self.abort(SequenceError::UnexpectedSequenceState),
            },
        }
    }
}

} // verus!
