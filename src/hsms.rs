//! The HSMS message: session id, header byte 2, the 10-byte header and the
//! length-prefixed frame, with their wire encodings.

use vstd::prelude::*;
use crate::le::{u16_le, u32_le, u16_at, u32_at, push_u16_le, push_u32_le, read_u16_le, read_u32_le};

verus! {

/// Length of the fixed header, in bytes.
pub const HEADER_LEN: u32 = 10;

/// Length of the smallest frame: the length prefix and the header.
pub const MIN_FRAME_LEN: usize = 14;

/// The message kinds of the S-Type byte.
#[derive(Debug, Clone, Copy, PartialEq, Eq, Structural)]
pub enum SessionType {
    SECS2,
    SelectReq,
    SelectRsp,
    DeselectReq,
    DeselectRsp,
    LinktestReq,
    LinktestRsp,
    RejectReq,
    SeparateReq,
}

/// An S-Type byte that names no message kind: 8, 10, or 11 and above.
#[derive(Debug, Clone, Copy, PartialEq, Eq, Structural)]
pub struct UnknownMessageKind(pub u8);

/// Why a byte sequence could not be read as a frame or a part of one.
#[derive(Debug, Clone, Copy, PartialEq, Eq, Structural)]
pub enum FramingError {
    /// Fewer bytes than the smallest frame.
    TooShort,
    /// Fewer bytes than the header or the header field being read.
    HeaderDecodeError,
}

/// The message kind whose S-Type byte is `v`, if any.
pub open spec fn kind_of_code(v: u8) -> Option<SessionType> {
    if v == 0 {
        Some(SessionType::SECS2)
    } else if v == 1 {
        Some(SessionType::SelectReq)
    } else if v == 2 {
        Some(SessionType::SelectRsp)
    } else if v == 3 {
        Some(SessionType::DeselectReq)
    } else if v == 4 {
        Some(SessionType::DeselectRsp)
    } else if v == 5 {
        Some(SessionType::LinktestReq)
    } else if v == 6 {
        Some(SessionType::LinktestRsp)
    } else if v == 7 {
        Some(SessionType::RejectReq)
    } else if v == 9 {
        Some(SessionType::SeparateReq)
    } else {
        None
    }
}

impl SessionType {
    /// The S-Type byte of this kind.
    pub open spec fn spec_code(self) -> u8 {
        match self {
            SessionType::SECS2 => 0,
            SessionType::SelectReq => 1,
            SessionType::SelectRsp => 2,
            SessionType::DeselectReq => 3,
            SessionType::DeselectRsp => 4,
            SessionType::LinktestReq => 5,
            SessionType::LinktestRsp => 6,
            SessionType::RejectReq => 7,
            SessionType::SeparateReq => 9,
        }
    }

    /// The S-Type byte of this kind.
    pub fn code(&self) -> (r: u8)
        ensures
            r == self.spec_code(),
    {
        match self {
            SessionType::SECS2 => 0,
            SessionType::SelectReq => 1,
            SessionType::SelectRsp => 2,
            SessionType::DeselectReq => 3,
            SessionType::DeselectRsp => 4,
            SessionType::LinktestReq => 5,
            SessionType::LinktestRsp => 6,
            SessionType::RejectReq => 7,
            SessionType::SeparateReq => 9,
        }
    }

    /// The kind whose S-Type byte is `v`; an error that carries `v` when no
    /// kind has it.
    pub fn from_code(v: u8) -> (r: Result<SessionType, UnknownMessageKind>)
        ensures
            r == (match kind_of_code(v) {
                Some(k) => Ok::<SessionType, UnknownMessageKind>(k),
                None => Err(UnknownMessageKind(v)),
            }),
    {
        match v {
            0 => Ok(SessionType::SECS2),
            1 => Ok(SessionType::SelectReq),
            2 => Ok(SessionType::SelectRsp),
            3 => Ok(SessionType::DeselectReq),
            4 => Ok(SessionType::DeselectRsp),
            5 => Ok(SessionType::LinktestReq),
            6 => Ok(SessionType::LinktestRsp),
            7 => Ok(SessionType::RejectReq),
            9 => Ok(SessionType::SeparateReq),
            _ => Err(UnknownMessageKind(v)),
        }
    }
}

/// The 16-bit session id: the direction in the top bit (1 toward the host,
/// 0 toward the equipment) and the device id in the low 15 bits.
#[derive(Debug, Clone, Copy, PartialEq, Eq, Structural)]
pub struct SessionID {
    pub session_id: u16,
}

impl SessionID {
    /// The direction bit, in place.
    pub open spec fn spec_direction(self) -> u16 {
        self.session_id & 0x8000
    }

    /// The device id.
    pub open spec fn spec_equip_id(self) -> u16 {
        self.session_id & 0x7FFF
    }

    /// Packs the top bit of `direction` and the low 15 bits of `equip_id`;
    /// every other bit of the inputs is dropped.
    pub fn from_direction_equip_id(direction: u16, equip_id: u16) -> (r: SessionID)
        ensures
            r.session_id == (direction & 0x8000) | (equip_id & 0x7FFF),
            r.spec_direction() == direction & 0x8000,
            r.spec_equip_id() == equip_id & 0x7FFF,
    {
        let r = SessionID { session_id: (direction & 0x8000) | (equip_id & 0x7FFF) };
        assert(((direction & 0x8000) | (equip_id & 0x7FFF)) & 0x8000 == direction & 0x8000)
            by (bit_vector);
        assert(((direction & 0x8000) | (equip_id & 0x7FFF)) & 0x7FFF == equip_id & 0x7FFF)
            by (bit_vector);
        r
    }

    /// The direction bit, in place (0x8000 or 0).
    pub fn direction(&self) -> (r: u16)
        ensures
            r == self.spec_direction(),
    {
        self.session_id & 0x8000
    }

    /// The device id.
    pub fn equip_id(&self) -> (r: u16)
        ensures
            r == self.spec_equip_id(),
    {
        self.session_id & 0x7FFF
    }

    /// The two bytes on the wire, low byte first.
    pub fn to_bytes(&self) -> (r: Vec<u8>)
        ensures
            r@ == u16_le(self.session_id),
    {
        let mut out: Vec<u8> = Vec::new();
        push_u16_le(&mut out, self.session_id);
        assert(out@ =~= u16_le(self.session_id));
        out
    }

    /// Reads a session id from the first two bytes of `b`; fails when there
    /// are fewer.
    pub fn from_bytes(b: &[u8]) -> (r: Result<SessionID, FramingError>)
        ensures
            r == (if b@.len() < 2 {
                Err::<SessionID, FramingError>(FramingError::HeaderDecodeError)
            } else {
                Ok(SessionID { session_id: u16_at(b@, 0) })
            }),
    {
        if b.len() < 2 {
            return Err(FramingError::HeaderDecodeError);
        }
        Ok(SessionID { session_id: read_u16_le(b, 0) })
    }
}

/// Header byte 2: the W-Bit in the top bit (a reply is expected) and the
/// stream in the low 7 bits. Zero for every kind but data messages.
#[derive(Debug, Clone, Copy, PartialEq, Eq, Structural)]
pub struct HeaderByte2 {
    pub header_byte2: u8,
}

impl HeaderByte2 {
    /// The W-Bit, in place.
    pub open spec fn spec_w_bit(self) -> u8 {
        self.header_byte2 & 0x80
    }

    /// The stream number.
    pub open spec fn spec_stream(self) -> u8 {
        self.header_byte2 & 0x7F
    }

    /// Packs the top bit of `w_bit` and the low 7 bits of `stream`; every
    /// other bit of the inputs is dropped.
    pub fn from_w_bit_stream(w_bit: u8, stream: u8) -> (r: HeaderByte2)
        ensures
            r.header_byte2 == (w_bit & 0x80) | (stream & 0x7F),
            r.spec_w_bit() == w_bit & 0x80,
            r.spec_stream() == stream & 0x7F,
    {
        let r = HeaderByte2 { header_byte2: (w_bit & 0x80) | (stream & 0x7F) };
        assert(((w_bit & 0x80) | (stream & 0x7F)) & 0x80 == w_bit & 0x80) by (bit_vector);
        assert(((w_bit & 0x80) | (stream & 0x7F)) & 0x7F == stream & 0x7F) by (bit_vector);
        r
    }

    /// The W-Bit, in place (0x80 or 0).
    pub fn w_bit(&self) -> (r: u8)
        ensures
            r == self.spec_w_bit(),
    {
        self.header_byte2 & 0x80
    }

    /// The stream number.
    pub fn stream(&self) -> (r: u8)
        ensures
            r == self.spec_stream(),
    {
        self.header_byte2 & 0x7F
    }

    /// The single byte on the wire.
    pub fn to_bytes(&self) -> (r: Vec<u8>)
        ensures
            r@ == seq![self.header_byte2],
    {
        let mut out: Vec<u8> = Vec::new();
        out.push(self.header_byte2);
        assert(out@ =~= seq![self.header_byte2]);
        out
    }

    /// Reads header byte 2 from the first byte of `b`; fails when `b` is
    /// empty.
    pub fn from_bytes(b: &[u8]) -> (r: Result<HeaderByte2, FramingError>)
        ensures
            r == (if b@.len() < 1 {
                Err::<HeaderByte2, FramingError>(FramingError::HeaderDecodeError)
            } else {
                Ok(HeaderByte2 { header_byte2: b@[0] })
            }),
    {
        if b.len() < 1 {
            return Err(FramingError::HeaderDecodeError);
        }
        Ok(HeaderByte2 { header_byte2: b[0] })
    }
}

/// The session id that a header of kind `kind` carries.
pub open spec fn built_session_id(kind: SessionType, session_id: u16, direction: u16, equip_id: u16) -> u16 {
    match kind {
        SessionType::SECS2 => (direction & 0x8000) | (equip_id & 0x7FFF),
        SessionType::SelectReq => 0xFFFF,
        SessionType::SelectRsp => session_id,
        SessionType::DeselectReq => 0xFFFF,
        SessionType::DeselectRsp => session_id,
        SessionType::LinktestReq => 0xFFFF,
        SessionType::LinktestRsp => 0xFFFF,
        SessionType::RejectReq => session_id,
        SessionType::SeparateReq => 0xFFFF,
    }
}

/// The header byte 2 that a header of kind `kind` carries.
pub open spec fn built_header_byte2(kind: SessionType, header_byte2: u8, w_bit: u8, stream: u8) -> u8 {
    match kind {
        SessionType::SECS2 => (w_bit & 0x80) | (stream & 0x7F),
        SessionType::SelectReq => 0,
        SessionType::SelectRsp => 0,
        SessionType::DeselectReq => 0,
        SessionType::DeselectRsp => 0,
        SessionType::LinktestReq => 0,
        SessionType::LinktestRsp => 0,
        SessionType::RejectReq => header_byte2,
        SessionType::SeparateReq => 0,
    }
}

/// The function byte (header byte 3) that a header of kind `kind` carries.
pub open spec fn built_function(kind: SessionType, header_byte3: u8) -> u8 {
    match kind {
        SessionType::SECS2 => header_byte3,
        SessionType::SelectReq => 0,
        SessionType::SelectRsp => header_byte3,
        SessionType::DeselectReq => 0,
        SessionType::DeselectRsp => header_byte3,
        SessionType::LinktestReq => 0,
        SessionType::LinktestRsp => 0,
        SessionType::RejectReq => header_byte3,
        SessionType::SeparateReq => 0,
    }
}

/// The fixed 10-byte header.
#[derive(Debug, Clone, Copy, PartialEq, Eq, Structural)]
pub struct HSMSHeader {
    pub session_id: SessionID,
    pub header_byte2: HeaderByte2,
    /// The function byte.
    pub header_byte3: u8,
    /// Always 0 for HSMS.
    pub p_type: u8,
    /// The message kind; kept as read, also where it names no kind.
    pub s_type: u8,
    /// The sender's correlation handle, echoed by the reply.
    pub system_bytes: u32,
}

impl HSMSHeader {
    /// Builds the header of a message of kind `session_type`. Which of the
    /// other arguments are used, and which fields are fixed, depends on the
    /// kind; `system_bytes` is always kept.
    pub fn new(
        session_type: SessionType,
        session_id: u16,
        direction: u16,
        equip_id: u16,
        header_byte2: u8,
        w_bit: u8,
        stream: u8,
        header_byte3: u8,
        system_bytes: u32,
    ) -> (r: HSMSHeader)
        ensures
            r.session_id.session_id == built_session_id(session_type, session_id, direction, equip_id),
            r.header_byte2.header_byte2 == built_header_byte2(session_type, header_byte2, w_bit, stream),
            r.header_byte3 == built_function(session_type, header_byte3),
            r.p_type == 0,
            r.s_type == session_type.spec_code(),
            r.system_bytes == system_bytes,
    {
        let s_type = session_type.code();
        match session_type {
            SessionType::SECS2 => HSMSHeader {
                session_id: SessionID::from_direction_equip_id(direction, equip_id),
                header_byte2: HeaderByte2::from_w_bit_stream(w_bit, stream),
                header_byte3,
                p_type: 0,
                s_type,
                system_bytes,
            },
            SessionType::SelectRsp | SessionType::DeselectRsp => HSMSHeader {
                session_id: SessionID { session_id },
                header_byte2: HeaderByte2 { header_byte2: 0 },
                header_byte3,
                p_type: 0,
                s_type,
                system_bytes,
            },
            SessionType::RejectReq => HSMSHeader {
                session_id: SessionID { session_id },
                header_byte2: HeaderByte2 { header_byte2 },
                header_byte3,
                p_type: 0,
                s_type,
                system_bytes,
            },
            SessionType::SelectReq
            | SessionType::DeselectReq
            | SessionType::LinktestReq
            | SessionType::LinktestRsp
            | SessionType::SeparateReq => HSMSHeader {
                session_id: SessionID { session_id: 0xFFFF },
                header_byte2: HeaderByte2 { header_byte2: 0 },
                header_byte3: 0,
                p_type: 0,
                s_type,
                system_bytes,
            },
        }
    }

    /// The message kind of the S-Type byte; an error that carries the byte
    /// when it names no kind.
    pub fn get_session_type(&self) -> (r: Result<SessionType, UnknownMessageKind>)
        ensures
            r == (match kind_of_code(self.s_type) {
                Some(k) => Ok::<SessionType, UnknownMessageKind>(k),
                None => Err(UnknownMessageKind(self.s_type)),
            }),
    {
        SessionType::from_code(self.s_type)
    }

    /// The ten bytes on the wire: session id (low byte first), header byte 2,
    /// function byte, P-Type, S-Type, system bytes (low byte first).
    pub open spec fn spec_bytes(self) -> Seq<u8> {
        u16_le(self.session_id.session_id)
            + seq![self.header_byte2.header_byte2, self.header_byte3, self.p_type, self.s_type]
            + u32_le(self.system_bytes)
    }

    /// The header read from the first ten bytes of `b`.
    pub open spec fn spec_parse(b: Seq<u8>) -> HSMSHeader {
        HSMSHeader {
            session_id: SessionID { session_id: u16_at(b, 0) },
            header_byte2: HeaderByte2 { header_byte2: b[2] },
            header_byte3: b[3],
            p_type: b[4],
            s_type: b[5],
            system_bytes: u32_at(b, 6),
        }
    }

    /// Appends the ten bytes of the header to `out`.
    pub fn write_to(&self, out: &mut Vec<u8>)
        ensures
            final(out)@ == old(out)@ + self.spec_bytes(),
    {
        push_u16_le(out, self.session_id.session_id);
        out.push(self.header_byte2.header_byte2);
        out.push(self.header_byte3);
        out.push(self.p_type);
        out.push(self.s_type);
        push_u32_le(out, self.system_bytes);
        assert(final(out)@ =~= old(out)@ + self.spec_bytes());
    }

    /// The ten bytes of the header.
    pub fn to_bytes(&self) -> (r: Vec<u8>)
        ensures
            r@ == self.spec_bytes(),
    {
        let mut out: Vec<u8> = Vec::new();
        self.write_to(&mut out);
        assert(out@ =~= self.spec_bytes());
        out
    }

    /// Reads a header from the first ten bytes of `b`, and no further; fails
    /// when there are fewer.
    pub fn from_bytes(b: &[u8]) -> (r: Result<HSMSHeader, FramingError>)
        ensures
            r == (if b@.len() < 10 {
                Err::<HSMSHeader, FramingError>(FramingError::HeaderDecodeError)
            } else {
                Ok(HSMSHeader::spec_parse(b@))
            }),
    {
        if b.len() < 10 {
            return Err(FramingError::HeaderDecodeError);
        }
        Ok(HSMSHeader {
            session_id: SessionID { session_id: read_u16_le(b, 0) },
            header_byte2: HeaderByte2 { header_byte2: b[2] },
            header_byte3: b[3],
            p_type: b[4],
            s_type: b[5],
            system_bytes: read_u32_le(b, 6),
        })
    }

    /// The length of the header on the wire.
    pub fn len(&self) -> (r: u32)
        ensures
            r == HEADER_LEN,
    {
        HEADER_LEN
    }
}

/// A whole frame: the declared length, the header and the body, if any.
#[derive(Debug, Clone, PartialEq, Eq)]
pub struct HSMSMessage {
    /// Header and body length in bytes, as built or as read.
    pub message_length: u32,
    pub hsms_header: HSMSHeader,
    pub message_text: Option<Vec<u8>>,
}

/// A frame with its body as a sequence of bytes.
pub struct HSMSMessageView {
    pub message_length: u32,
    pub hsms_header: HSMSHeader,
    pub message_text: Option<Seq<u8>>,
}

impl View for HSMSMessage {
    type V = HSMSMessageView;

    open spec fn view(&self) -> HSMSMessageView {
        HSMSMessageView {
            message_length: self.message_length,
            hsms_header: self.hsms_header,
            message_text: match self.message_text {
                Some(t) => Some(t@),
                None => None,
            },
        }
    }
}

/// The body bytes: none when the body is absent.
pub open spec fn body_of(text: Option<Seq<u8>>) -> Seq<u8> {
    match text {
        Some(t) => t,
        None => Seq::empty(),
    }
}

/// The bytes of a frame on the wire: length (low byte first), header, body.
pub open spec fn frame_bytes(m: HSMSMessageView) -> Seq<u8> {
    u32_le(m.message_length) + m.hsms_header.spec_bytes() + body_of(m.message_text)
}

/// The frame read from `b`: too short under 14 bytes; else the declared
/// length from the first four bytes, the header from the next ten, and the
/// rest as body, absent when nothing is left.
pub open spec fn parse_frame(b: Seq<u8>) -> Result<HSMSMessageView, FramingError> {
    if b.len() < 14 {
        Err(FramingError::TooShort)
    } else {
        Ok(HSMSMessageView {
            message_length: u32_at(b, 0),
            hsms_header: HSMSHeader::spec_parse(b.subrange(4, 14)),
            message_text: if b.len() > 14 {
                Some(b.subrange(14, b.len() as int))
            } else {
                None
            },
        })
    }
}

impl HSMSMessage {
    /// Builds a frame of `hsms_header` and a copy of `message_text`, with the
    /// length that the two make on the wire.
    pub fn new(hsms_header: HSMSHeader, message_text: &Vec<u8>) -> (r: HSMSMessage)
        requires
            HEADER_LEN + message_text@.len() <= u32::MAX,
        ensures
            r.message_length == HEADER_LEN + message_text@.len(),
            r@ == (HSMSMessageView {
                message_length: (HEADER_LEN + message_text@.len()) as u32,
                hsms_header,
                message_text: Some(message_text@),
            }),
    {
        let mut text: Vec<u8> = Vec::new();
        let mut i: usize = 0;
        while i < message_text.len()
            invariant
                i <= message_text@.len(),
                text@ == message_text@.subrange(0, i as int),
            decreases message_text@.len() - i,
        {
            text.push(message_text[i]);
            i = i + 1;
            assert(text@ =~= message_text@.subrange(0, i as int));
        }
        assert(text@ =~= message_text@);
        HSMSMessage {
            message_length: hsms_header.len() + message_text.len() as u32,
            hsms_header,
            message_text: Some(text),
        }
    }

    /// Reads a frame from `vec`; fails when it is shorter than the length
    /// prefix and the header. The declared length is kept as read and not
    /// held against the body.
    pub fn from_bytes(vec: Vec<u8>) -> (r: Result<HSMSMessage, FramingError>)
        ensures
            match r {
                Ok(m) => parse_frame(vec@) == Ok::<HSMSMessageView, FramingError>(m@),
                Err(e) => parse_frame(vec@) == Err::<HSMSMessageView, FramingError>(e),
            },
    {
        if vec.len() < MIN_FRAME_LEN {
            return Err(FramingError::TooShort);
        }
        let b = vec.as_slice();
        let message_length = read_u32_le(b, 0);
        let hsms_header = match HSMSHeader::from_bytes(&b[4..14]) {
            Ok(h) => h,
            Err(_) => return Err(FramingError::HeaderDecodeError),
        };
        let mut message_text: Option<Vec<u8>> = None;
        if vec.len() > MIN_FRAME_LEN {
            let mut text: Vec<u8> = Vec::new();
            let mut i: usize = MIN_FRAME_LEN;
            while i < vec.len()
                invariant
                    MIN_FRAME_LEN <= i <= vec@.len(),
                    text@ == vec@.subrange(14, i as int),
                decreases vec@.len() - i,
            {
                text.push(vec[i]);
                i = i + 1;
                assert(text@ =~= vec@.subrange(14, i as int));
            }
            message_text = Some(text);
        }
        let m = HSMSMessage { message_length, hsms_header, message_text };
        assert(m@.message_text == parse_frame(vec@)->Ok_0.message_text);
        Ok(m)
    }

    /// The bytes of the frame on the wire: length prefix, header, body.
    pub fn to_bytes(&self) -> (r: Vec<u8>)
        ensures
            r@ == frame_bytes(self@),
    {
        let mut out: Vec<u8> = Vec::new();
        push_u32_le(&mut out, self.message_length);
        self.hsms_header.write_to(&mut out);
        match &self.message_text {
            Some(text) => {
                let ghost start = out@;
                let mut i: usize = 0;
                while i < text.len()
                    invariant
                        i <= text@.len(),
                        out@ == start + text@.subrange(0, i as int),
                    decreases text@.len() - i,
                {
                    out.push(text[i]);
                    i = i + 1;
                    assert(out@ =~= start + text@.subrange(0, i as int));
                }
                assert(text@.subrange(0, text@.len() as int) =~= text@);
            },
            None => {},
        }
        assert(out@ =~= frame_bytes(self@));
        out
    }
}

} // verus!
