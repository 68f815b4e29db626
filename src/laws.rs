//! Properties that relate the encoders, the decoders and the builders.

use vstd::prelude::*;
use crate::le::{u16_le, u32_le, u16_at, u32_at, lemma_u16_le_round_trip, lemma_u32_le_round_trip};
use crate::hsms::{
    SessionType, SessionID, kind_of_code, HSMSHeader, HSMSMessageView, FramingError, built_session_id,
    built_header_byte2, built_function, body_of, frame_bytes, parse_frame,
};

verus! {

/// Reading back the two bytes of a session id gives the same session id.
pub proof fn lemma_session_id_round_trip(s: SessionID)
    ensures
        u16_le(s.session_id).len() == 2,
        u16_at(u16_le(s.session_id), 0) == s.session_id,
{
    lemma_u16_le_round_trip(s.session_id);
}

/// Resolving the S-Type byte of a kind gives that kind, and a byte that
/// resolves to a kind is that kind's S-Type byte.
pub proof fn lemma_kind_code_round_trip(k: SessionType, v: u8)
    ensures
        kind_of_code(k.spec_code()) == Some(k),
        kind_of_code(v) matches Some(j) ==> j.spec_code() == v,
{
}

/// Decoding the ten bytes of any header gives the same header back.
pub proof fn lemma_header_round_trip(h: HSMSHeader)
    ensures
        h.spec_bytes().len() == 10,
        HSMSHeader::spec_parse(h.spec_bytes()) == h,
{
    lemma_u16_le_round_trip(h.session_id.session_id);
    lemma_u32_le_round_trip(h.system_bytes);
    let b = h.spec_bytes();
    assert(b.subrange(6, 10) =~= u32_le(h.system_bytes));
}

/// Decoding the bytes of any frame gives its length and header back, and its
/// body whenever the body holds a byte; an empty body, which puts no byte on
/// the wire, comes back absent. So a frame whose body is absent or holds a
/// byte comes back exactly.
pub proof fn lemma_frame_round_trip(m: HSMSMessageView)
    ensures
        parse_frame(frame_bytes(m)) == Ok::<HSMSMessageView, FramingError>(
            HSMSMessageView {
                message_length: m.message_length,
                hsms_header: m.hsms_header,
                message_text: if body_of(m.message_text).len() > 0 {
                    Some(body_of(m.message_text))
                } else {
                    None
                },
            },
        ),
        m.message_text is None || body_of(m.message_text).len() > 0 ==> parse_frame(
            frame_bytes(m),
        ) == Ok::<HSMSMessageView, FramingError>(m),
{
    let b = frame_bytes(m);
    let hb = m.hsms_header.spec_bytes();
    lemma_header_round_trip(m.hsms_header);
    lemma_u32_le_round_trip(m.message_length);
    assert(b.subrange(4, 14) =~= hb);
    assert(b.subrange(14, b.len() as int) =~= body_of(m.message_text));
}

/// The kinds that open or probe a session (select, deselect and linktest
/// requests, linktest responses, separate requests) carry session id 0xFFFF,
/// header byte 2 zero and function byte zero, whatever else is passed.
pub proof fn lemma_control_fixed_fields(
    kind: SessionType,
    session_id: u16,
    direction: u16,
    equip_id: u16,
    header_byte2: u8,
    w_bit: u8,
    stream: u8,
    header_byte3: u8,
)
    requires
        kind == SessionType::SelectReq || kind == SessionType::DeselectReq || kind
            == SessionType::LinktestReq || kind == SessionType::LinktestRsp || kind
            == SessionType::SeparateReq,
    ensures
        built_session_id(kind, session_id, direction, equip_id) == 0xFFFF,
        built_header_byte2(kind, header_byte2, w_bit, stream) == 0,
        built_function(kind, header_byte3) == 0,
{
}

/// In a frame whose length is that of its header and body, the length
/// prefix counts exactly the bytes that follow it on the wire.
pub proof fn lemma_length_prefix_counts_rest(m: HSMSMessageView)
    requires
        m.message_length == 10 + body_of(m.message_text).len(),
    ensures
        frame_bytes(m).len() == 4 + m.message_length,
        u32_at(frame_bytes(m), 0) == m.message_length,
{
    lemma_u32_le_round_trip(m.message_length);
}

/// Any buffer under 14 bytes is too short; one of exactly 14 bytes reads as
/// a frame without a body.
pub proof fn lemma_frame_boundary(b: Seq<u8>)
    ensures
        b.len() < 14 ==> parse_frame(b) == Err::<HSMSMessageView, FramingError>(
            FramingError::TooShort,
        ),
        b.len() == 14 ==> parse_frame(b) is Ok && parse_frame(b)->Ok_0.message_text is None,
{
}

} // verus!
