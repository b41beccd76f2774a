use vstd::prelude::*;
use vstd::arithmetic::div_mod::{lemma_add_mod_noop, lemma_fundamental_div_mod, lemma_mod_multiples_vanish};
use crate::bytes::{be16, be16_value, copy_range, lemma_be16_value, push_all, push_be16, read_be16};
use crate::registry::{
    direction_marker, direction_of_marker, lemma_operation_round_trip, operation_code,
    operation_of_code, operation_wf, Direction, Operation, SID,
};

verus! {

/// Why a byte buffer is not a frame.
#[derive(Debug, Clone, Copy, PartialEq, Eq, Structural)]
pub enum FrameError {
    /// Fewer bytes than the smallest frame.
    FrameTooShort,
    /// The first two bytes are neither direction's marker.
    UnknownDirection,
    /// The last byte is not the checksum of the bytes before it.
    ChecksumMismatch,
}

/// What follows the operation identifier in a frame; this decides the
/// frame's shape and so its length.
#[derive(Debug, Clone, PartialEq, Eq)]
pub enum Body {
    /// Nothing: a 7-byte frame.
    Bare,
    /// One sub-type byte: an 8-byte frame.
    Typed(u8),
    /// A data section of N bytes: a frame of 7 + N bytes.
    Data(Vec<u8>),
}

pub enum BodyView {
    Bare,
    Typed(u8),
    Data(Seq<u8>),
}

impl View for Body {
    type V = BodyView;

    open spec fn view(&self) -> BodyView {
        match self {
            Body::Bare => BodyView::Bare,
            Body::Typed(t) => BodyView::Typed(*t),
            Body::Data(d) => BodyView::Data(d@),
        }
    }
}

/// One frame: direction, declared size, operation and body.
#[derive(Debug, Clone, PartialEq, Eq)]
pub struct Packet {
    pub direction: Direction,
    /// The size field as transmitted: the encoded length, checksum included.
    pub size: u16,
    pub sid: Operation,
    pub body: Body,
}

pub struct PacketView {
    pub direction: Direction,
    pub size: u16,
    pub sid: Operation,
    pub body: BodyView,
}

impl View for Packet {
    type V = PacketView;

    open spec fn view(&self) -> PacketView {
        PacketView { direction: self.direction, size: self.size, sid: self.sid, body: self.body@ }
    }
}

/// The bytes that a body puts on the wire.
pub open spec fn body_bytes(b: BodyView) -> Seq<u8> {
    match b {
        BodyView::Bare => Seq::empty(),
        BodyView::Typed(t) => seq![t],
        BodyView::Data(d) => d,
    }
}

/// The length of the encoding of a frame with body `b`.
pub open spec fn encoded_len(b: BodyView) -> int {
    7 + body_bytes(b).len() as int
}

/// Sum of the bytes of `s`.
pub open spec fn byte_sum(s: Seq<u8>) -> nat
    decreases s.len(),
{
    if s.len() == 0 {
        0
    } else {
        byte_sum(s.drop_last()) + s.last() as nat
    }
}

/// The checksum byte that follows `s`: 255 minus the sum of `s` modulo 256.
pub open spec fn checksum_of(s: Seq<u8>) -> u8 {
    (255 - byte_sum(s) % 256) as u8
}

/// Everything of a frame's encoding before its checksum.
pub open spec fn frame_content(p: PacketView) -> Seq<u8> {
    be16(direction_marker(p.direction)) + be16(p.size) + be16(operation_code(p.sid)) + body_bytes(
        p.body,
    )
}

/// The encoding of a frame: its content followed by the checksum.
pub open spec fn encode_frame(p: PacketView) -> Seq<u8> {
    frame_content(p).push(checksum_of(frame_content(p)))
}

/// The body that a frame of `m.len()` bytes carries: the shape follows from
/// the length alone.
pub open spec fn body_of_len(m: Seq<u8>) -> BodyView {
    if m.len() == 7 {
        BodyView::Bare
    } else if m.len() == 8 {
        BodyView::Typed(m[6])
    } else {
        BodyView::Data(m.subrange(6, m.len() - 1))
    }
}

/// How a byte buffer decodes: the length is checked first, then the
/// checksum, then the direction marker.
pub open spec fn decode_frame(m: Seq<u8>) -> Result<PacketView, FrameError> {
    if m.len() < 7 {
        Err(FrameError::FrameTooShort)
    } else if m.last() != checksum_of(m.drop_last()) {
        Err(FrameError::ChecksumMismatch)
    } else {
        match direction_of_marker(be16_value(m[0], m[1])) {
            None => Err(FrameError::UnknownDirection),
            Some(d) => Ok(
                PacketView {
                    direction: d,
                    size: be16_value(m[2], m[3]),
                    sid: operation_of_code(be16_value(m[4], m[5])),
                    body: body_of_len(m),
                },
            ),
        }
    }
}

/// A frame that decoding gives back unchanged: the size field is the true
/// length, the operation is classified as decoding would, and a data section
/// is long enough not to be taken for a sub-type byte.
pub open spec fn packet_wf(p: PacketView) -> bool {
    &&& operation_wf(p.sid)
    &&& p.size == encoded_len(p.body)
    &&& match p.body {
        BodyView::Data(d) => d.len() >= 2,
        _ => true,
    }
}

/// The checksum of the first `n` bytes of `bytes`.
fn checksum_prefix(bytes: &Vec<u8>, n: usize) -> (r: u8)
    requires
        n <= bytes@.len(),
    ensures
        r == checksum_of(bytes@.take(n as int)),
{
    let mut acc: u8 = 0;
    let mut i: usize = 0;
    while i < n
        invariant
            i <= n <= bytes@.len(),
            acc as nat == byte_sum(bytes@.take(i as int)) % 256,
        decreases n - i,
    {
        let b = bytes[i];
        proof {
            let t = bytes@.take(i + 1);
            assert(t.drop_last() =~= bytes@.take(i as int));
            lemma_add_mod_noop(byte_sum(bytes@.take(i as int)) as int, b as int, 256);
        }
        acc = ((acc as u16 + b as u16) % 256) as u8;
        i += 1;
    }
    255 - acc
}

impl Packet {
    /// A frame to the camera with the given operation and body.
    pub fn new(direction: Direction, sid: Operation, body: Body) -> (r: Packet)
        requires
            encoded_len(body@) <= u16::MAX,
        ensures
            r@ == (PacketView { direction, size: encoded_len(body@) as u16, sid, body: body@ }),
    {
        let size: u16 = match &body {
            Body::Bare => 7,
            Body::Typed(_) => 8,
            Body::Data(d) => 7 + d.len() as u16,
        };
        Packet { direction, size, sid, body }
    }

    /// A bare command to the camera.
    pub fn with_sid(sid: SID) -> (r: Packet)
        ensures
            r@ == (PacketView {
                direction: Direction::TO,
                size: 7,
                sid: Operation::Known(sid),
                body: BodyView::Bare,
            }),
    {
        Packet::new(Direction::TO, Operation::Known(sid), Body::Bare)
    }

    /// A typed command to the camera: the operation and one sub-type byte.
    pub fn with_type(sid: SID, msg_type: u8) -> (r: Packet)
        ensures
            r@ == (PacketView {
                direction: Direction::TO,
                size: 8,
                sid: Operation::Known(sid),
                body: BodyView::Typed(msg_type),
            }),
    {
        Packet::new(Direction::TO, Operation::Known(sid), Body::Typed(msg_type))
    }

    /// A data command to the camera.
    pub fn with_data(sid: SID, data: Vec<u8>) -> (r: Packet)
        requires
            7 + data@.len() <= u16::MAX,
        ensures
            r@ == (PacketView {
                direction: Direction::TO,
                size: (7 + data@.len()) as u16,
                sid: Operation::Known(sid),
                body: BodyView::Data(data@),
            }),
    {
        Packet::new(Direction::TO, Operation::Known(sid), Body::Data(data))
    }

    /// The bytes after the operation identifier and before the checksum,
    /// whatever the frame's shape.
    pub fn payload(&self) -> (r: Vec<u8>)
        ensures
            r@ == body_bytes(self.body@),
    {
        match &self.body {
            Body::Bare => Vec::new(),
            Body::Typed(t) => {
                let mut v: Vec<u8> = Vec::new();
                v.push(*t);
                assert(v@ =~= seq![*t]);
                v
            },
            Body::Data(d) => copy_range(d, 0, d.len()),
        }
    }

    /// The bytes of this frame, checksum last.
    pub fn pack(&self) -> (r: Vec<u8>)
        ensures
            r@ == encode_frame(self@),
    {
        let mut out: Vec<u8> = Vec::new();
        push_be16(&mut out, self.direction.marker());
        push_be16(&mut out, self.size);
        push_be16(&mut out, self.sid.code());
        match &self.body {
            Body::Bare => {},
            Body::Typed(t) => {
                out.push(*t);
            },
            Body::Data(d) => {
                push_all(&mut out, d);
            },
        }
        assert(out@ =~= frame_content(self@));
        let c = checksum_prefix(&out, out.len());
        assert(out@.take(out@.len() as int) =~= out@);
        out.push(c);
        out
    }

    /// Decodes a buffer received from the camera. The shape follows from the
    /// length: 7 bytes are a bare frame, 8 a typed one, more a data frame. An
    /// identifier that the registry does not hold is not an error.
    pub fn unpack(msg: &Vec<u8>) -> (r: Result<Packet, FrameError>)
        ensures
            match r {
                Ok(p) => decode_frame(msg@) == Ok::<PacketView, FrameError>(p@),
                Err(e) => decode_frame(msg@) == Err::<PacketView, FrameError>(e),
            },
    {
        let n = msg.len();
        if n < 7 {
            return Err(FrameError::FrameTooShort);
        }
        let c = checksum_prefix(msg, n - 1);
        assert(msg@.take(n - 1) =~= msg@.drop_last());
        if msg[n - 1] != c {
            return Err(FrameError::ChecksumMismatch);
        }
        let direction = match Direction::from_marker(read_be16(msg, 0)) {
            Some(d) => d,
            None => {
                return Err(FrameError::UnknownDirection);
            },
        };
        let size = read_be16(msg, 2);
        let sid = Operation::from_code(read_be16(msg, 4));
        let body = if n == 7 {
            Body::Bare
        } else if n == 8 {
            Body::Typed(msg[6])
        } else {
            Body::Data(copy_range(msg, 6, n - 1))
        };
        Ok(Packet { direction, size, sid, body })
    }
}

/// `m` with bit `k` of byte `j` inverted.
pub open spec fn flip_bit(m: Seq<u8>, j: int, k: u8) -> Seq<u8> {
    m.update(j, m[j] ^ (1u8 << k))
}

proof fn lemma_byte_sum_push(s: Seq<u8>, c: u8)
    ensures
        byte_sum(s.push(c)) == byte_sum(s) + c,
{
    assert(s.push(c).drop_last() =~= s);
}

proof fn lemma_byte_sum_update(s: Seq<u8>, j: int, v: u8)
    requires
        0 <= j < s.len(),
    ensures
        byte_sum(s.update(j, v)) + s[j] == byte_sum(s) + v,
    decreases s.len(),
{
    let t = s.update(j, v);
    if j == s.len() - 1 {
        assert(t.drop_last() =~= s.drop_last());
    } else {
        assert(t.drop_last() =~= s.drop_last().update(j, v));
        lemma_byte_sum_update(s.drop_last(), j, v);
    }
}

/// A byte closes a checksum exactly when the sum of everything, that byte
/// included, is 255 modulo 256.
proof fn lemma_checksum_closes(s: Seq<u8>, c: u8)
    ensures
        (c == checksum_of(s)) <==> (byte_sum(s.push(c)) % 256 == 255),
{
    lemma_byte_sum_push(s, c);
    let total = byte_sum(s) as int;
    lemma_fundamental_div_mod(total, 256);
    lemma_mod_multiples_vanish(total / 256, total % 256 + c, 256);
}

/// Every encoded frame sums to 255 modulo 256, checksum included.
pub proof fn lemma_checksum_invariant(p: PacketView)
    ensures
        byte_sum(encode_frame(p)) % 256 == 255,
{
    lemma_checksum_closes(frame_content(p), checksum_of(frame_content(p)));
}

/// An encoded frame is 7 bytes when bare, 8 when typed and 7 + N with N
/// bytes of data; decoding a well-formed frame recovers its shape.
pub proof fn lemma_encoded_shape(p: PacketView)
    ensures
        encode_frame(p).len() == encoded_len(p.body),
        p.body is Bare ==> encode_frame(p).len() == 7,
        p.body is Typed ==> encode_frame(p).len() == 8,
        p.body matches BodyView::Data(d) ==> encode_frame(p).len() == 7 + d.len(),
        packet_wf(p) ==> (decode_frame(encode_frame(p)) matches Ok(q) && q.body == p.body),
{
    if packet_wf(p) {
        lemma_round_trip(p);
    }
}

/// Decoding the encoding of a well-formed frame gives the frame back.
pub proof fn lemma_round_trip(p: PacketView)
    requires
        packet_wf(p),
    ensures
        decode_frame(encode_frame(p)) == Ok::<PacketView, FrameError>(p),
{
    let c = frame_content(p);
    let m = encode_frame(p);
    assert(m.drop_last() =~= c);
    let marker = direction_marker(p.direction);
    assert(m[0] == be16(marker)[0] && m[1] == be16(marker)[1]);
    assert(m[2] == be16(p.size)[0] && m[3] == be16(p.size)[1]);
    assert(m[4] == be16(operation_code(p.sid))[0] && m[5] == be16(operation_code(p.sid))[1]);
    lemma_be16_value(marker);
    lemma_be16_value(p.size);
    lemma_be16_value(operation_code(p.sid));
    lemma_operation_round_trip(p.sid);
    match p.body {
        BodyView::Bare => {},
        BodyView::Typed(t) => {
            assert(m[6] == t);
        },
        BodyView::Data(d) => {
            assert(m.subrange(6, m.len() - 1) =~= d);
        },
    }
}

/// Inverting any one bit of an encoded frame makes decoding fail on the
/// checksum.
pub proof fn lemma_bit_flip_detected(p: PacketView, j: int, k: u8)
    requires
        0 <= j < encode_frame(p).len(),
        k < 8,
    ensures
        decode_frame(flip_bit(encode_frame(p), j, k)) == Err::<PacketView, FrameError>(
            FrameError::ChecksumMismatch,
        ),
{
    let m = encode_frame(p);
    let x = m[j];
    let y = x ^ (1u8 << k);
    assert(y != x) by (bit_vector)
        requires
            y == x ^ (1u8 << k),
            k < 8,
    ;
    let f = flip_bit(m, j, k);
    lemma_checksum_invariant(p);
    lemma_byte_sum_update(m, j, y);
    assert(f.drop_last().push(f.last()) =~= f);
    lemma_checksum_closes(f.drop_last(), f.last());
    let total = byte_sum(m) as int;
    lemma_fundamental_div_mod(total, 256);
    lemma_mod_multiples_vanish(total / 256, 255 + y - x, 256);
}

} // verus!
