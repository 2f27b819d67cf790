//! Frame-level building blocks shared by the SETTINGS and PRIORITY frames:
//! stream identifiers, frame heads and decode errors.
use vstd::prelude::*;
use bytes::BytesMut;
use crate::buf::{buf_bytes, put_u8, put_u32, be32};

verus! {

/// The reserved high bit of a 32-bit stream identifier field.
pub const STREAM_ID_MASK: u32 = 0x8000_0000;

/// An HTTP/2 stream identifier (31 bits on the wire).
#[derive(Debug, Clone, Copy, PartialEq, Eq, Structural, Hash)]
pub struct StreamId(pub u32);

impl StreamId {
    /// The connection-level stream, 0.
    pub fn zero() -> (r: StreamId)
        ensures
            r.0 == 0,
    {
        StreamId(0)
    }

    pub fn is_zero(&self) -> (r: bool)
        ensures
            r == (self.0 == 0),
    {
        self.0 == 0
    }

    /// Reads a stream identifier and the flag bit above it from four
    /// big-endian bytes.
    pub fn parse(buf: &[u8]) -> (r: (StreamId, bool))
        requires
            buf@.len() >= 4,
        ensures
            r.0.0 == be32_value(buf@) & 0x7fff_ffff,
            r.1 == (be32_value(buf@) & 0x8000_0000 == 0x8000_0000),
    {
        let unpacked = read_u32(buf, 0);
        proof {
            assert(buf@.subrange(0, 4)[0] == buf@[0]);
            assert(buf@.subrange(0, 4)[1] == buf@[1]);
            assert(buf@.subrange(0, 4)[2] == buf@[2]);
            assert(buf@.subrange(0, 4)[3] == buf@[3]);
        }
        let flag = unpacked & STREAM_ID_MASK == STREAM_ID_MASK;
        let id = unpacked & !STREAM_ID_MASK;
        assert(id == unpacked & 0x7fff_ffff) by (bit_vector)
            requires
                id == unpacked & !0x8000_0000u32,
        ;
        (StreamId(id), flag)
    }
}

/// The big-endian value of the first two bytes of `b`.
pub open spec fn be16_value(b: Seq<u8>) -> u16 {
    ((b[0] as u16) << 8u16) | (b[1] as u16)
}

/// The big-endian value of the first four bytes of `b`.
pub open spec fn be32_value(b: Seq<u8>) -> u32 {
    ((b[0] as u32) << 24u32) | ((b[1] as u32) << 16u32) | ((b[2] as u32) << 8u32) | (b[3] as u32)
}

/// Reads a big-endian 16-bit integer at `at`.
pub fn read_u16(buf: &[u8], at: usize) -> (r: u16)
    requires
        at + 2 <= buf@.len(),
    ensures
        r == be16_value(buf@.subrange(at as int, at as int + 2)),
{
    let hi = buf[at] as u16;
    let lo = buf[at + 1] as u16;
    (hi << 8u16) | lo
}

/// Reads a big-endian 32-bit integer at `at`.
pub fn read_u32(buf: &[u8], at: usize) -> (r: u32)
    requires
        at + 4 <= buf@.len(),
    ensures
        r == be32_value(buf@.subrange(at as int, at as int + 4)),
{
    let b0 = buf[at] as u32;
    let b1 = buf[at + 1] as u32;
    let b2 = buf[at + 2] as u32;
    let b3 = buf[at + 3] as u32;
    (b0 << 24u32) | (b1 << 16u32) | (b2 << 8u32) | b3
}

/// The frame types of HTTP/2.
#[derive(Debug, Clone, Copy, PartialEq, Eq, Structural)]
pub enum Kind {
    Data,
    Headers,
    Priority,
    Reset,
    Settings,
    PushPromise,
    Ping,
    GoAway,
    WindowUpdate,
    Continuation,
}

impl Kind {
    pub open spec fn spec_code(self) -> u8 {
        match self {
            Kind::Data => 0,
            Kind::Headers => 1,
            Kind::Priority => 2,
            Kind::Reset => 3,
            Kind::Settings => 4,
            Kind::PushPromise => 5,
            Kind::Ping => 6,
            Kind::GoAway => 7,
            Kind::WindowUpdate => 8,
            Kind::Continuation => 9,
        }
    }

    /// The frame type's byte on the wire.
    pub fn code(self) -> (r: u8)
        ensures
            r == self.spec_code(),
    {
        match self {
            Kind::Data => 0,
            Kind::Headers => 1,
            Kind::Priority => 2,
            Kind::Reset => 3,
            Kind::Settings => 4,
            Kind::PushPromise => 5,
            Kind::Ping => 6,
            Kind::GoAway => 7,
            Kind::WindowUpdate => 8,
            Kind::Continuation => 9,
        }
    }
}

/// The nine-byte head of a frame, without its length.
#[derive(Debug, Clone, Copy, PartialEq, Eq, Structural)]
pub struct Head {
    pub kind: Kind,
    pub flag: u8,
    pub stream_id: StreamId,
}

/// The largest payload length that a frame head can carry (24 bits).
pub const MAX_FRAME_LEN: usize = 0xFF_FFFF;

/// The bytes of a frame head with the given payload length.
pub open spec fn head_bytes(head: Head, len: nat) -> Seq<u8> {
    seq![
        (len / 0x1_0000) as u8,
        ((len / 0x100) % 0x100) as u8,
        (len % 0x100) as u8,
        head.kind.spec_code(),
        head.flag,
    ] + be32(head.stream_id.0)
}

impl Head {
    pub fn new(kind: Kind, flag: u8, stream_id: StreamId) -> (r: Head)
        ensures
            r == (Head { kind, flag, stream_id }),
    {
        Head { kind, flag, stream_id }
    }

    pub fn kind(&self) -> (r: Kind)
        ensures
            r == self.kind,
    {
        self.kind
    }

    pub fn flag(&self) -> (r: u8)
        ensures
            r == self.flag,
    {
        self.flag
    }

    pub fn stream_id(&self) -> (r: StreamId)
        ensures
            r == self.stream_id,
    {
        self.stream_id
    }

    /// Appends the head, with `payload_len` as the frame's length, to `dst`.
    pub fn encode(&self, payload_len: usize, dst: &mut BytesMut)
        requires
            payload_len <= MAX_FRAME_LEN,
            buf_bytes(*old(dst)).len() + 9 <= usize::MAX,
        ensures
            buf_bytes(*final(dst)) == buf_bytes(*old(dst)) + head_bytes(*self, payload_len as nat),
    {
        let ghost start = buf_bytes(*dst);
        put_u8(dst, (payload_len / 0x1_0000) as u8);
        put_u8(dst, ((payload_len / 0x100) % 0x100) as u8);
        put_u8(dst, (payload_len % 0x100) as u8);
        put_u8(dst, self.kind.code());
        put_u8(dst, self.flag);
        put_u32(dst, self.stream_id.0);
        assert(buf_bytes(*dst) =~= start + head_bytes(*self, payload_len as nat));
    }
}

/// Why a received frame could not be decoded.
#[derive(Debug, Clone, Copy, PartialEq, Eq, Structural)]
pub enum Error {
    /// The frame was sent on a stream on which it is not allowed.
    InvalidStreamId,
    /// The payload has a length that the frame type does not allow.
    InvalidPayloadLength,
    /// A SETTINGS payload whose length is not a multiple of six.
    InvalidPayloadAckSettings,
    /// A setting carries a value outside its protocol range.
    InvalidSettingValue,
    /// A stream depends on itself.
    InvalidDependencyId,
}

} // verus!
