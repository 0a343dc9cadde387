use gateway_client::codec::{
    classify_envelope, decode, encode_envelope, encode_heartbeat, encode_identify, encode_resume,
    DecodeError, Envelope, EnvelopePayload, RawEnvelope, OP_DISPATCH, OP_HELLO,
};
use gateway_client::strutil::u64_to_string;

#[test]
fn decode_hello_carries_heartbeat_interval() {
    let r = decode("{\"op\":10,\"d\":{\"heartbeat_interval\":45000},\"s\":null,\"t\":null}");
    match r {
        Ok(Envelope { opcode, sequence, event_name, payload }) => {
            assert_eq!(opcode, 10);
            assert!(sequence.is_none());
            assert!(event_name.is_none());
            match payload {
                EnvelopePayload::Hello { heartbeat_interval_ms } => {
                    assert_eq!(heartbeat_interval_ms, 45000)
                }
                _ => panic!("expected a handshake payload"),
            }
        }
        _ => panic!("expected a decoded envelope"),
    }
}

#[test]
fn decode_unknown_opcode_reports_it() {
    let r = decode("{\"op\":255,\"d\":null}");
    match r {
        Err(DecodeError::UnknownOpcode(code)) => assert_eq!(code, 255),
        _ => panic!("expected an unknown opcode"),
    }
}

#[test]
fn decode_dispatch_carries_sequence_name_and_payload() {
    let r = decode("{\"op\":0,\"s\":7,\"t\":\"MESSAGE_CREATE\",\"d\":{\"x\":1}}");
    match r {
        Ok(e) => {
            assert_eq!(e.opcode, 0);
            assert_eq!(e.sequence, Some(7));
            assert_eq!(e.event_name.as_deref(), Some("MESSAGE_CREATE"));
            match e.payload {
                EnvelopePayload::Dispatch { payload_json } => {
                    assert_eq!(payload_json, "{\"x\":1}")
                }
                _ => panic!("expected a dispatch payload"),
            }
        }
        _ => panic!("expected a decoded envelope"),
    }
}

#[test]
fn decode_heartbeat_ack() {
    let r = decode("{\"op\":11}");
    match r {
        Ok(e) => {
            assert_eq!(e.opcode, 11);
            assert!(matches!(e.payload, EnvelopePayload::HeartbeatAck));
            assert!(e.sequence.is_none());
        }
        _ => panic!("expected a decoded envelope"),
    }
}

#[test]
fn decode_invalid_session_is_a_resume_rejection() {
    match decode("{\"op\":9,\"d\":false}") {
        Ok(e) => {
            assert_eq!(e.opcode, 9);
            assert!(matches!(e.payload, EnvelopePayload::ResumeRejected));
        }
        _ => panic!("expected a resume rejection"),
    }
}

#[test]
fn decode_rejects_non_json() {
    assert!(matches!(decode("not json at all"), Err(DecodeError::MalformedEnvelope)));
    assert!(matches!(decode("{\"d\":1}"), Err(DecodeError::MalformedEnvelope)));
    assert!(matches!(decode("{\"op\":\"ten\"}"), Err(DecodeError::MalformedEnvelope)));
}

#[test]
fn decode_hello_without_interval_is_malformed_payload() {
    match decode("{\"op\":10,\"d\":{}}") {
        Err(DecodeError::MalformedPayload { opcode, cause }) => {
            assert_eq!(opcode, 10);
            assert_eq!(cause, "missing heartbeat_interval");
        }
        _ => panic!("expected a malformed payload"),
    }
}

#[test]
fn decode_dispatch_without_sequence_is_malformed_payload() {
    match decode("{\"op\":0,\"d\":{}}") {
        Err(DecodeError::MalformedPayload { opcode, cause }) => {
            assert_eq!(opcode, 0);
            assert_eq!(cause, "missing sequence");
        }
        _ => panic!("expected a malformed payload"),
    }
}

#[test]
fn classify_branches_on_opcode() {
    let raw = RawEnvelope {
        opcode: OP_HELLO,
        sequence: None,
        event_name: None,
        payload_json: String::new(),
    };
    match classify_envelope(raw, Some(250)) {
        Ok(e) => match e.payload {
            EnvelopePayload::Hello { heartbeat_interval_ms } => {
                assert_eq!(heartbeat_interval_ms, 250)
            }
            _ => panic!("expected a handshake payload"),
        },
        _ => panic!("expected a decoded envelope"),
    }
    let raw = RawEnvelope {
        opcode: OP_DISPATCH,
        sequence: Some(3),
        event_name: Some(String::from("E")),
        payload_json: String::from("null"),
    };
    match classify_envelope(raw, None) {
        Ok(e) => assert_eq!(e.sequence, Some(3)),
        _ => panic!("expected a decoded envelope"),
    }
}

#[test]
fn encode_heartbeat_writes_sequence_or_null() {
    assert_eq!(encode_heartbeat(Some(42)), "{\"op\":1,\"d\":42}");
    assert_eq!(encode_heartbeat(None), "{\"op\":1,\"d\":null}");
    assert_eq!(encode_heartbeat(Some(0)), "{\"op\":1,\"d\":0}");
}

#[test]
fn encode_resume_replays_session_and_sequence() {
    assert_eq!(
        encode_resume("abc123", 42),
        "{\"op\":6,\"d\":{\"session_id\":\"abc123\",\"seq\":42}}"
    );
}

#[test]
fn encode_identify_carries_token() {
    assert_eq!(encode_identify("tok"), "{\"op\":2,\"d\":{\"token\":\"tok\"}}");
}

#[test]
fn encode_envelope_wraps_payload() {
    assert_eq!(encode_envelope(2, "{\"a\":1}"), "{\"op\":2,\"d\":{\"a\":1}}");
}

#[test]
fn encoded_heartbeat_decodes_as_heartbeat_opcode() {
    // round trip through the real JSON parser
    let frame = encode_heartbeat(Some(9));
    match decode(&frame) {
        Err(DecodeError::UnknownOpcode(code)) => assert_eq!(code, 1),
        _ => panic!("a client heartbeat is not an inbound envelope kind"),
    }
}

#[test]
fn encoders_escape_json_specials() {
    assert_eq!(
        encode_identify("to\"k"),
        "{\"op\":2,\"d\":{\"token\":\"to\\\"k\"}}"
    );
    assert_eq!(
        encode_identify("a\\b"),
        "{\"op\":2,\"d\":{\"token\":\"a\\\\b\"}}"
    );
    assert_eq!(
        encode_resume("s\nid", 1),
        "{\"op\":6,\"d\":{\"session_id\":\"s\\u000aid\",\"seq\":1}}"
    );
}

#[test]
fn escaped_identify_frame_parses_back_to_the_token() {
    // round trip through the real JSON parser
    let frame = encode_identify("quote \" and \\ and \n end");
    let v: serde_json::Value = serde_json::from_str(&frame).unwrap();
    assert_eq!(
        v.get("d").unwrap().get("token").unwrap().as_str().unwrap(),
        "quote \" and \\ and \n end"
    );
}

#[test]
fn u64_to_string_renders_decimal() {
    assert_eq!(u64_to_string(0), "0");
    assert_eq!(u64_to_string(7), "7");
    assert_eq!(u64_to_string(1234567890), "1234567890");
    assert_eq!(u64_to_string(u64::MAX), "18446744073709551615");
}
