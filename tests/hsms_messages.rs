use hsms::hsms::{
    HSMSHeader, HSMSMessage, HeaderByte2, SessionID, SessionType, UnknownMessageKind,
};

fn select_req_header() -> HSMSHeader {
    HSMSHeader {
        session_id: SessionID { session_id: 0xFFFF },
        header_byte2: HeaderByte2 { header_byte2: 0 },
        header_byte3: 0,
        p_type: 0,
        s_type: 1,
        system_bytes: 0x11111111,
    }
}

fn data_header_all_ones_session() -> HSMSHeader {
    HSMSHeader {
        session_id: SessionID { session_id: 0xFFFF },
        header_byte2: HeaderByte2 { header_byte2: 0 },
        header_byte3: 0,
        p_type: 0,
        s_type: 0,
        system_bytes: 0x11111111,
    }
}

#[test]
fn test_session_id_from_direction_stream() {
    let session_id = SessionID { session_id: 0x8001 };
    let session_id_from_direction_stream = SessionID::from_direction_equip_id(0x8000, 0x0001);
    assert_eq!(session_id, session_id_from_direction_stream);
}

#[test]
fn test_header_byte2_from_w_bit_stream() {
    let header_byte2 = HeaderByte2 { header_byte2: 0x81 };
    let header_byte2_from_w_bit_stream = HeaderByte2::from_w_bit_stream(0x80, 0x01);
    assert_eq!(header_byte2, header_byte2_from_w_bit_stream);
}

#[test]
fn test_hsms_header_new_secs2() {
    let hsms_header_secs2 = HSMSHeader {
        session_id: SessionID { session_id: 0x8001 },
        header_byte2: HeaderByte2 { header_byte2: 0x81 },
        header_byte3: 3,
        p_type: 0,
        s_type: 0,
        system_bytes: 0x11111111,
    };
    let hsms_header_secs2_new =
        HSMSHeader::new(SessionType::SECS2, 0, 0x8000, 0x0001, 0, 0x80, 0x01, 3, 0x11111111);
    assert_eq!(hsms_header_secs2, hsms_header_secs2_new);
}

#[test]
fn test_hsms_header_new_select_req() {
    let hsms_header_select_req = select_req_header();
    let hsms_header_select_req_new = HSMSHeader::new(
        SessionType::SelectReq,
        0xFFFF,
        0x8000,
        0x0001,
        0,
        0x80,
        0x01,
        0,
        0x11111111,
    );
    assert_eq!(hsms_header_select_req, hsms_header_select_req_new);
}

#[test]
fn test_get_session_type() {
    let hsms_header_secs2 = HSMSHeader {
        session_id: SessionID { session_id: 0x8001 },
        header_byte2: HeaderByte2 { header_byte2: 0x81 },
        header_byte3: 3,
        p_type: 0,
        s_type: 0,
        system_bytes: 0x11111111,
    };
    assert_eq!(hsms_header_secs2.get_session_type().unwrap(), SessionType::SECS2);

    let hsms_header_secs2 = HSMSHeader {
        session_id: SessionID { session_id: 0x8001 },
        header_byte2: HeaderByte2 { header_byte2: 0x81 },
        header_byte3: 3,
        p_type: 0,
        s_type: 8,
        system_bytes: 0x11111111,
    };
    let error = Err(UnknownMessageKind(8));
    assert_eq!(hsms_header_secs2.get_session_type(), error);
}

#[test]
fn test_serialize_session_id() {
    let session_id = SessionID { session_id: 0x8FFF };
    let session_id_bytes = session_id.to_bytes();
    assert_eq!(session_id_bytes, vec![0xFF, 0x8F]);
}

#[test]
fn test_deserialize_session_id_from_bytes() {
    let session_id = SessionID { session_id: 0x8FFF };
    let session_vec: Vec<u8> = vec![0xFF, 0x8F];
    let session_id_bytes: SessionID = SessionID::from_bytes(&session_vec).unwrap();
    assert_eq!(session_id_bytes, session_id);
}

#[test]
fn test_serialize_header_byte2() {
    let header_byte2 = HeaderByte2 { header_byte2: 0x81 };
    let header_byte2_bytes = header_byte2.to_bytes();
    assert_eq!(header_byte2_bytes, vec![0x81]);
}

#[test]
fn test_deserialize_header_byte2_from_bytes() {
    let header_byte2 = HeaderByte2 { header_byte2: 0x81 };
    let header_byte2_vec: Vec<u8> = vec![0x81];
    let header_byte2_bytes: HeaderByte2 = HeaderByte2::from_bytes(&header_byte2_vec).unwrap();
    assert_eq!(header_byte2_bytes, header_byte2);
}

#[test]
fn test_serialize_hsms_header() {
    let hsms_header = select_req_header();
    let hsms_header_bytes = hsms_header.to_bytes();
    assert_eq!(
        hsms_header_bytes,
        vec![0xFF, 0xFF, 0x00, 0x00, 0x00, 0x01, 0x11, 0x11, 0x11, 0x011]
    );
}

#[test]
fn test_deserialize_hsms_header() {
    let hsms_header_from_bytes: HSMSHeader =
        HSMSHeader::from_bytes(&vec![0xFF, 0xFF, 0x00, 0x00, 0x00, 0x01, 0x11, 0x11, 0x11, 0x011])
            .unwrap();
    let hsms_header = select_req_header();
    assert_eq!(hsms_header_from_bytes, hsms_header);
}

#[test]
fn test_hsms_message_new() {
    let hsms_header = select_req_header();
    let hsms_message = HSMSMessage {
        message_length: 10,
        hsms_header: hsms_header.clone(),
        message_text: Some(vec![]),
    };

    let hsms_message_new = HSMSMessage::new(hsms_header, &vec![]);
    assert_eq!(hsms_message, hsms_message_new);

    let hsms_header_with_text = HSMSHeader {
        session_id: SessionID { session_id: 0x8001 },
        header_byte2: HeaderByte2 { header_byte2: 0x81 },
        header_byte3: 3,
        p_type: 0,
        s_type: 0,
        system_bytes: 0x11111111,
    };
    let hsms_message_with_text = HSMSMessage {
        message_length: 12,
        hsms_header: hsms_header_with_text.clone(),
        message_text: Some(vec![0x01, 0x02]),
    };

    let hsms_message_new_with_text = HSMSMessage::new(hsms_header_with_text, &vec![0x01, 0x02]);
    assert_eq!(hsms_message_with_text, hsms_message_new_with_text);
}

#[test]
fn test_hsms_message_to_bytes() {
    let hsms_message = HSMSMessage {
        message_length: 10,
        hsms_header: select_req_header(),
        message_text: None,
    };

    let hsms_message_bytes = hsms_message.to_bytes();
    assert_eq!(
        hsms_message_bytes,
        vec![0x0A, 0x00, 0x00, 0x00, 0xFF, 0xFF, 0x00, 0x00, 0x00, 0x01, 0x11, 0x11, 0x11, 0x011]
    )
}

#[test]
fn test_hsms_message_to_bytes_with_message() {
    let hsms_message = HSMSMessage {
        message_length: 12,
        hsms_header: data_header_all_ones_session(),
        message_text: Some(vec![0x01, 0x02]),
    };

    let hsms_message_bytes = hsms_message.to_bytes();
    assert_eq!(
        hsms_message_bytes,
        vec![
            0x0C, 0x00, 0x00, 0x00, 0xFF, 0xFF, 0x00, 0x00, 0x00, 0x00, 0x11, 0x11, 0x11, 0x011,
            0x01, 0x02
        ]
    )
}

#[test]
fn test_hsms_message_from_bytes() {
    let hsms_message_from_bytes = HSMSMessage::from_bytes(vec![
        0x0A, 0x00, 0x00, 0x00, 0xFF, 0xFF, 0x00, 0x00, 0x00, 0x00, 0x11, 0x11, 0x11, 0x011,
    ]);
    let hsms_message = HSMSMessage {
        message_length: 10,
        hsms_header: data_header_all_ones_session(),
        message_text: None,
    };

    assert_eq!(hsms_message, hsms_message_from_bytes.unwrap());
}

#[test]
fn test_hsms_message_from_bytes_with_message() {
    let hsms_message_from_bytes = HSMSMessage::from_bytes(vec![
        0x0C, 0x00, 0x00, 0x00, 0xFF, 0xFF, 0x00, 0x00, 0x00, 0x00, 0x11, 0x11, 0x11, 0x011, 0x01,
        0x02,
    ]);
    let hsms_message = HSMSMessage {
        message_length: 12,
        hsms_header: data_header_all_ones_session(),
        message_text: Some(vec![0x01, 0x02]),
    };

    assert_eq!(hsms_message, hsms_message_from_bytes.unwrap());
}
