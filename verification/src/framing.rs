//! The frame-level codec and the content-header sub-format.
//!
//! A frame on the wire is a fixed seven-byte header (one frame-type byte,
//! a big-endian channel, a big-endian payload length), the payload bytes,
//! and a single terminator byte `0xCE`. A HEADERS frame's payload carries
//! the content-header record: content class, weight, body size, property
//! flags, and the raw property bytes.

use vstd::prelude::*;
use vstd::slice::{slice_subrange, slice_to_vec};
use crate::endian::{
    spec_u16_to_be_bytes, spec_u16_from_be_bytes, lemma_u16_be_round_trip, push_u16_be,
    read_u16_be, spec_u32_to_be_bytes, spec_u32_from_be_bytes, lemma_u32_be_round_trip,
    push_u32_be, read_u32_be, spec_u64_to_be_bytes, spec_u64_from_be_bytes,
    lemma_u64_be_round_trip, push_u64_be, read_u64_be,
};

verus! {

/// The terminator byte that closes every frame on the wire.
pub const FRAME_END: u8 = 0xCE;

/// The four frame types the wire protocol defines. No other wire byte is
/// representable as a `FrameType` value.
#[allow(non_camel_case_types)]
#[derive(Debug, Clone, Copy, PartialEq, Eq, Structural)]
pub enum FrameType {
    METHOD,
    HEADERS,
    BODY,
    HEARTBEAT,
}

/// The wire identifier of a frame type: METHOD is 1, HEADERS 2, BODY 3,
/// HEARTBEAT 8.
pub open spec fn spec_frame_type_byte(t: FrameType) -> u8 {
    match t {
        FrameType::METHOD => 1,
        FrameType::HEADERS => 2,
        FrameType::BODY => 3,
        FrameType::HEARTBEAT => 8,
    }
}

/// The frame type a wire byte denotes, if any: exactly 1, 2, 3 and 8 are
/// mapped, every other byte to `None`.
pub open spec fn spec_frame_type_of_byte(b: u8) -> Option<FrameType> {
    if b == 1 {
        Some(FrameType::METHOD)
    } else if b == 2 {
        Some(FrameType::HEADERS)
    } else if b == 3 {
        Some(FrameType::BODY)
    } else if b == 8 {
        Some(FrameType::HEARTBEAT)
    } else {
        None
    }
}

impl FrameType {
    /// The wire identifier of this frame type.
    pub fn as_u8(self) -> (r: u8)
        ensures
            r == spec_frame_type_byte(self),
    {
        match self {
            FrameType::METHOD => 1,
            FrameType::HEADERS => 2,
            FrameType::BODY => 3,
            FrameType::HEARTBEAT => 8,
        }
    }

    /// The frame type a wire byte denotes; `None` for every byte outside
    /// the closed enumeration.
    pub fn from_u8(b: u8) -> (r: Option<FrameType>)
        ensures
            r == spec_frame_type_of_byte(b),
    {
        if b == 1 {
            Some(FrameType::METHOD)
        } else if b == 2 {
            Some(FrameType::HEADERS)
        } else if b == 3 {
            Some(FrameType::BODY)
        } else if b == 8 {
            Some(FrameType::HEARTBEAT)
        } else {
            None
        }
    }
}

/// Mapping a frame type's wire identifier back through the enumeration
/// yields the same frame type.
pub proof fn lemma_frame_type_byte_round_trip(t: FrameType)
    ensures
        spec_frame_type_of_byte(spec_frame_type_byte(t)) == Some(t),
{
}

/// Why a decode attempt was rejected. A malformed frame is terminal for
/// the attempt: the codec performs no retries and no partial recovery.
#[derive(Debug, Clone, Copy, PartialEq, Eq, Structural)]
pub enum DecodeError {
    /// Fewer bytes were available than a fixed-size field requires.
    IncompleteHeader,
    /// The frame-type byte lies outside the closed enumeration.
    UnknownFrameType,
    /// The declared payload length was not fully satisfied by the input.
    ShortPayload,
    /// The trailing byte differs from the terminator `0xCE`.
    BadTerminator,
}

/// Why an encode attempt was rejected.
#[derive(Debug, Clone, Copy, PartialEq, Eq, Structural)]
pub enum EncodeError {
    /// The payload length does not fit the 32-bit wire length field.
    PayloadTooLarge,
}

/// One frame of the wire protocol: its type, the channel it is scoped to,
/// and its payload bytes.
#[derive(Debug, Clone, PartialEq, Eq)]
pub struct Frame {
    pub frame_type: FrameType,
    pub channel: u16,
    pub payload: Vec<u8>,
}

/// The wire encoding of a frame: the frame-type byte, the channel and the
/// payload length big-endian, the payload verbatim, and the terminator.
pub open spec fn spec_encode_frame(t: FrameType, channel: u16, payload: Seq<u8>) -> Seq<u8>
    recommends
        payload.len() <= 0xFFFF_FFFF,
{
    seq![spec_frame_type_byte(t)]
        + spec_u16_to_be_bytes(channel)
        + spec_u32_to_be_bytes(payload.len() as u32)
        + payload
        + seq![FRAME_END]
}

/// What decoding one frame from the front of `b` yields: the frame's
/// type, channel and payload on success, and for each malformed input the
/// error that rejects it. Bytes past the frame's own terminator are left
/// untouched.
pub open spec fn spec_decode_frame(b: Seq<u8>) -> Result<(FrameType, u16, Seq<u8>), DecodeError> {
    if b.len() < 7 {
        Err(DecodeError::IncompleteHeader)
    } else {
        match spec_frame_type_of_byte(b[0]) {
            None => Err(DecodeError::UnknownFrameType),
            Some(t) => {
                let channel = spec_u16_from_be_bytes(b.subrange(1, 3));
                let len = spec_u32_from_be_bytes(b.subrange(3, 7)) as int;
                if b.len() < 7 + len {
                    Err(DecodeError::ShortPayload)
                } else if b.len() == 7 + len {
                    Err(DecodeError::IncompleteHeader)
                } else if b[7 + len] != FRAME_END {
                    Err(DecodeError::BadTerminator)
                } else {
                    Ok((t, channel, b.subrange(7, 7 + len)))
                }
            },
        }
    }
}

impl Frame {
    /// Encodes this frame for the wire. Succeeds exactly when the payload
    /// length fits the 32-bit wire length field; a longer payload is
    /// rejected rather than silently truncated.
    pub fn encode(&self) -> (r: Result<Vec<u8>, EncodeError>)
        ensures
            self.payload@.len() <= 0xFFFF_FFFF ==> (r matches Ok(out) && out@
                == spec_encode_frame(self.frame_type, self.channel, self.payload@)),
            self.payload@.len() > 0xFFFF_FFFF ==> r == Err::<Vec<u8>, EncodeError>(
                EncodeError::PayloadTooLarge,
            ),
    {
        let max_len: usize = 0xFFFF_FFFF;
        if self.payload.len() > max_len {
            return Err(EncodeError::PayloadTooLarge);
        }
        let mut out: Vec<u8> = Vec::new();
        out.push(self.frame_type.as_u8());
        push_u16_be(&mut out, self.channel);
        push_u32_be(&mut out, self.payload.len() as u32);
        let ghost head = out@;
        let mut i: usize = 0;
        while i < self.payload.len()
            invariant
                i <= self.payload@.len(),
                out@ == head + self.payload@.subrange(0, i as int),
            decreases self.payload@.len() - i,
        {
            out.push(self.payload[i]);
            i = i + 1;
            assert(out@ =~= head + self.payload@.subrange(0, i as int));
        }
        out.push(FRAME_END);
        assert(out@ =~= spec_encode_frame(self.frame_type, self.channel, self.payload@));
        Ok(out)
    }

    /// Decodes one frame from the front of `bytes`, validating the header
    /// layout, the frame type, the declared payload length and the
    /// terminator byte. No byte beyond the frame's own terminator is
    /// read, and the payload is copied out of the input.
    pub fn decode(bytes: &[u8]) -> (r: Result<Frame, DecodeError>)
        ensures
            match (r, spec_decode_frame(bytes@)) {
                (Ok(f), Ok(d)) => f.frame_type == d.0 && f.channel == d.1 && f.payload@ == d.2,
                (Err(e), Err(d)) => e == d,
                _ => false,
            },
    {
        if bytes.len() < 7 {
            return Err(DecodeError::IncompleteHeader);
        }
        let t = match FrameType::from_u8(bytes[0]) {
            Some(t) => t,
            None => {
                return Err(DecodeError::UnknownFrameType);
            },
        };
        let channel = read_u16_be(bytes, 1);
        let size = read_u32_be(bytes, 3) as usize;
        if bytes.len() - 7 < size {
            return Err(DecodeError::ShortPayload);
        }
        if bytes.len() - 7 == size {
            return Err(DecodeError::IncompleteHeader);
        }
        if bytes[7 + size] != FRAME_END {
            return Err(DecodeError::BadTerminator);
        }
        let payload = slice_to_vec(slice_subrange(bytes, 7, 7 + size));
        Ok(Frame { frame_type: t, channel: channel, payload: payload })
    }
}

/// The decoded interpretation of a HEADERS frame's payload: the message
/// body's class, reserved weight, total size, property-flags bitmask, and
/// the raw property bytes, carried verbatim. Weight and the flag bits are
/// stored as transmitted and never interpreted at this layer.
#[derive(Debug, Clone, PartialEq, Eq)]
pub struct ContentHeaderFrame {
    pub content_class: u16,
    pub weight: u16,
    pub body_size: u64,
    pub properties_flags: u16,
    pub properties: Vec<u8>,
}

/// The wire encoding of a content header: class, weight, body size and
/// property flags big-endian, then the property bytes verbatim. The
/// property bytes carry no length prefix; their extent is implicit in the
/// payload size of the frame that wraps this output.
pub open spec fn spec_encode_content_header(
    content_class: u16,
    weight: u16,
    body_size: u64,
    properties_flags: u16,
    properties: Seq<u8>,
) -> Seq<u8> {
    spec_u16_to_be_bytes(content_class) + spec_u16_to_be_bytes(weight)
        + spec_u64_to_be_bytes(body_size) + spec_u16_to_be_bytes(properties_flags) + properties
}

/// What decoding a content header from a payload yields: the five fixed
/// fields read big-endian, and everything after them verbatim as the
/// property bytes. A payload shorter than the fourteen fixed bytes is
/// rejected; any remainder, the empty one included, is valid.
pub open spec fn spec_decode_content_header(b: Seq<u8>) -> Result<
    (u16, u16, u64, u16, Seq<u8>),
    DecodeError,
> {
    if b.len() < 14 {
        Err(DecodeError::IncompleteHeader)
    } else {
        Ok(
            (
                spec_u16_from_be_bytes(b.subrange(0, 2)),
                spec_u16_from_be_bytes(b.subrange(2, 4)),
                spec_u64_from_be_bytes(b.subrange(4, 12)),
                spec_u16_from_be_bytes(b.subrange(12, 14)),
                b.subrange(14, b.len() as int),
            ),
        )
    }
}

impl ContentHeaderFrame {
    /// Decodes the given frame's payload as a content header. Succeeds
    /// exactly when the payload holds the fourteen fixed bytes; the
    /// property bytes are copied out, so the frame can be discarded.
    pub fn decode(frame: Frame) -> (r: Result<ContentHeaderFrame, DecodeError>)
        ensures
            match (r, spec_decode_content_header(frame.payload@)) {
                (Ok(h), Ok(d)) => h.content_class == d.0 && h.weight == d.1 && h.body_size == d.2
                    && h.properties_flags == d.3 && h.properties@ == d.4,
                (Err(e), Err(d)) => e == d,
                _ => false,
            },
    {
        let bytes: &[u8] = frame.payload.as_slice();
        if bytes.len() < 14 {
            return Err(DecodeError::IncompleteHeader);
        }
        let content_class = read_u16_be(bytes, 0);
        let weight = read_u16_be(bytes, 2);
        let body_size = read_u64_be(bytes, 4);
        let properties_flags = read_u16_be(bytes, 12);
        let properties = slice_to_vec(slice_subrange(bytes, 14, bytes.len()));
        Ok(
            ContentHeaderFrame {
                content_class: content_class,
                weight: weight,
                body_size: body_size,
                properties_flags: properties_flags,
                properties: properties,
            },
        )
    }

    /// Encodes this content header as the payload of a HEADERS frame.
    /// Always succeeds: the property bytes need no length prefix, so no
    /// length-derived field can overflow.
    pub fn encode(&self) -> (r: Vec<u8>)
        ensures
            r@ == spec_encode_content_header(
                self.content_class,
                self.weight,
                self.body_size,
                self.properties_flags,
                self.properties@,
            ),
    {
        let mut out: Vec<u8> = Vec::new();
        push_u16_be(&mut out, self.content_class);
        push_u16_be(&mut out, self.weight);
        push_u64_be(&mut out, self.body_size);
        push_u16_be(&mut out, self.properties_flags);
        let ghost head = out@;
        let mut i: usize = 0;
        while i < self.properties.len()
            invariant
                i <= self.properties@.len(),
                out@ == head + self.properties@.subrange(0, i as int),
            decreases self.properties@.len() - i,
        {
            out.push(self.properties[i]);
            i = i + 1;
            assert(out@ =~= head + self.properties@.subrange(0, i as int));
        }
        assert(out@ =~= spec_encode_content_header(
            self.content_class,
            self.weight,
            self.body_size,
            self.properties_flags,
            self.properties@,
        ));
        out
    }
}

/// Round trip: decoding an encoded frame yields the frame's type, channel
/// and payload back, for every payload whose length fits the 32-bit wire
/// length field.
pub proof fn lemma_frame_round_trip(t: FrameType, channel: u16, payload: Seq<u8>)
    requires
        payload.len() <= 0xFFFF_FFFF,
    ensures
        spec_decode_frame(spec_encode_frame(t, channel, payload)) == Ok::<
            (FrameType, u16, Seq<u8>),
            DecodeError,
        >((t, channel, payload)),
{
    let b = spec_encode_frame(t, channel, payload);
    assert(b.len() == 8 + payload.len());
    assert(b[0] == spec_frame_type_byte(t));
    lemma_frame_type_byte_round_trip(t);
    assert(b.subrange(1, 3) =~= spec_u16_to_be_bytes(channel));
    lemma_u16_be_round_trip(channel);
    assert(b.subrange(3, 7) =~= spec_u32_to_be_bytes(payload.len() as u32));
    lemma_u32_be_round_trip(payload.len() as u32);
    assert(b[7 + payload.len() as int] == FRAME_END);
    assert(b.subrange(7, 7 + payload.len() as int) =~= payload);
}

/// Round trip: decoding an encoded content header yields the five fields
/// back, for every content header.
pub proof fn lemma_content_header_round_trip(
    content_class: u16,
    weight: u16,
    body_size: u64,
    properties_flags: u16,
    properties: Seq<u8>,
)
    ensures
        spec_decode_content_header(
            spec_encode_content_header(
                content_class,
                weight,
                body_size,
                properties_flags,
                properties,
            ),
        ) == Ok::<(u16, u16, u64, u16, Seq<u8>), DecodeError>(
            (content_class, weight, body_size, properties_flags, properties),
        ),
{
    let b = spec_encode_content_header(
        content_class,
        weight,
        body_size,
        properties_flags,
        properties,
    );
    assert(b.len() == 14 + properties.len());
    assert(b.subrange(0, 2) =~= spec_u16_to_be_bytes(content_class));
    lemma_u16_be_round_trip(content_class);
    assert(b.subrange(2, 4) =~= spec_u16_to_be_bytes(weight));
    lemma_u16_be_round_trip(weight);
    assert(b.subrange(4, 12) =~= spec_u64_to_be_bytes(body_size));
    lemma_u64_be_round_trip(body_size);
    assert(b.subrange(12, 14) =~= spec_u16_to_be_bytes(properties_flags));
    lemma_u16_be_round_trip(properties_flags);
    assert(b.subrange(14, b.len() as int) =~= properties);
}

/// Rejection: an otherwise well-formed frame whose terminator byte is
/// anything but `0xCE` is rejected as `BadTerminator`, for every frame
/// type, channel and payload.
pub proof fn lemma_bad_terminator_rejected(
    t: FrameType,
    channel: u16,
    payload: Seq<u8>,
    terminator: u8,
)
    requires
        payload.len() <= 0xFFFF_FFFF,
        terminator != 0xCE,
    ensures
        spec_decode_frame(
            spec_encode_frame(t, channel, payload).update(7 + payload.len() as int, terminator),
        ) == Err::<(FrameType, u16, Seq<u8>), DecodeError>(DecodeError::BadTerminator),
{
    let b = spec_encode_frame(t, channel, payload).update(7 + payload.len() as int, terminator);
    assert(b.len() == 8 + payload.len());
    assert(b[0] == spec_frame_type_byte(t));
    lemma_frame_type_byte_round_trip(t);
    assert(b.subrange(3, 7) =~= spec_u32_to_be_bytes(payload.len() as u32));
    lemma_u32_be_round_trip(payload.len() as u32);
    assert(b[7 + payload.len() as int] == terminator);
}

/// Rejection: a frame-type byte of 0, of 4 through 7, or of 9 and above
/// is rejected as `UnknownFrameType`, whatever the rest of the input
/// holds.
pub proof fn lemma_unknown_frame_type_rejected(b: Seq<u8>)
    requires
        b.len() >= 7,
        b[0] == 0 || (4 <= b[0] && b[0] <= 7) || b[0] >= 9,
    ensures
        spec_decode_frame(b) == Err::<(FrameType, u16, Seq<u8>), DecodeError>(
            DecodeError::UnknownFrameType,
        ),
{
}

/// Rejection: an input that declares a payload of length `L` but holds
/// fewer than `L` bytes after the header is rejected as `ShortPayload`.
pub proof fn lemma_short_payload_rejected(b: Seq<u8>)
    requires
        b.len() >= 7,
        spec_frame_type_of_byte(b[0]) is Some,
        b.len() < 7 + spec_u32_from_be_bytes(b.subrange(3, 7)),
    ensures
        spec_decode_frame(b) == Err::<(FrameType, u16, Seq<u8>), DecodeError>(
            DecodeError::ShortPayload,
        ),
{
}

/// Encoding is deterministic: two frames that hold the same frame type,
/// the same channel and the same payload bytes encode to byte-identical
/// output.
pub proof fn lemma_encode_deterministic(a: Frame, b: Frame)
    requires
        a.frame_type == b.frame_type,
        a.channel == b.channel,
        a.payload@ == b.payload@,
    ensures
        spec_encode_frame(a.frame_type, a.channel, a.payload@) == spec_encode_frame(
            b.frame_type,
            b.channel,
            b.payload@,
        ),
{
}

} // verus!
