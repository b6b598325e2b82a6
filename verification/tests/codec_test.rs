use oxicord::codec::{decode_frame, encode_command, DecodeError, DispatchEvent, GatewayFrame};
use oxicord::commands::{GatewayCommand, PresenceStatus};

#[test]
fn test_decode_hello() {
    let frame = decode_frame(r#"{"op":10,"d":{"heartbeat_interval":41250},"s":null,"t":null}"#);
    match frame {
        Ok(GatewayFrame::Hello {
            heartbeat_interval_ms,
        }) => assert_eq!(heartbeat_interval_ms, 41250),
        _ => panic!("Expected hello"),
    }
}

#[test]
fn test_decode_heartbeat_ack() {
    let frame = decode_frame(r#"{"op":11}"#);
    assert!(matches!(frame, Ok(GatewayFrame::HeartbeatAck)));
}

#[test]
fn test_decode_reconnect() {
    let frame = decode_frame(r#"{"op":7,"d":null}"#);
    assert!(matches!(frame, Ok(GatewayFrame::Reconnect)));
}

#[test]
fn test_decode_invalid_session() {
    match decode_frame(r#"{"op":9,"d":true}"#) {
        Ok(GatewayFrame::InvalidSession { resumable }) => assert!(resumable),
        _ => panic!("Expected invalid session"),
    }
    match decode_frame(r#"{"op":9,"d":false}"#) {
        Ok(GatewayFrame::InvalidSession { resumable }) => assert!(!resumable),
        _ => panic!("Expected invalid session"),
    }
}

#[test]
fn test_decode_ready_dispatch() {
    let text = r#"{"op":0,"s":1,"t":"READY","d":{"session_id":"abc","resume_gateway_url":"wss://resume.example"}}"#;
    match decode_frame(text) {
        Ok(GatewayFrame::Dispatch { seq, event }) => {
            assert_eq!(seq, 1);
            match event {
                DispatchEvent::Ready {
                    session_id,
                    resume_url,
                } => {
                    assert_eq!(session_id, "abc");
                    assert_eq!(resume_url.as_deref(), Some("wss://resume.example"));
                }
                _ => panic!("Expected ready"),
            }
        }
        _ => panic!("Expected dispatch"),
    }
}

#[test]
fn test_decode_typing_start_uses_nick() {
    let text = r#"{"op":0,"s":7,"t":"TYPING_START","d":{"channel_id":"c1","user_id":"u1","member":{"nick":"Nick"}}}"#;
    match decode_frame(text) {
        Ok(GatewayFrame::Dispatch { event, .. }) => match event {
            DispatchEvent::TypingStart {
                channel_id,
                user_id,
                display_name,
            } => {
                assert_eq!(channel_id, "c1");
                assert_eq!(user_id, "u1");
                assert_eq!(display_name, "Nick");
            }
            _ => panic!("Expected typing start"),
        },
        _ => panic!("Expected dispatch"),
    }
}

#[test]
fn test_decode_typing_start_falls_back_to_user_id() {
    let text = r#"{"op":0,"s":7,"t":"TYPING_START","d":{"channel_id":"c1","user_id":"u1"}}"#;
    match decode_frame(text) {
        Ok(GatewayFrame::Dispatch { event, .. }) => match event {
            DispatchEvent::TypingStart { display_name, .. } => {
                assert_eq!(display_name, "u1");
            }
            _ => panic!("Expected typing start"),
        },
        _ => panic!("Expected dispatch"),
    }
}

#[test]
fn test_decode_message_create() {
    let text = r#"{"op":0,"s":9,"t":"MESSAGE_CREATE","d":{"channel_id":"c2","author":{"id":"a1"}}}"#;
    match decode_frame(text) {
        Ok(GatewayFrame::Dispatch { event, .. }) => match event {
            DispatchEvent::MessageCreate {
                channel_id,
                author_id,
            } => {
                assert_eq!(channel_id, "c2");
                assert_eq!(author_id, "a1");
            }
            _ => panic!("Expected message create"),
        },
        _ => panic!("Expected dispatch"),
    }
}

#[test]
fn test_decode_unknown_event_kept_by_name() {
    let text = r#"{"op":0,"s":2,"t":"GUILD_CREATE","d":{}}"#;
    match decode_frame(text) {
        Ok(GatewayFrame::Dispatch { event, .. }) => match event {
            DispatchEvent::Other { name } => assert_eq!(name, "GUILD_CREATE"),
            _ => panic!("Expected other"),
        },
        _ => panic!("Expected dispatch"),
    }
}

#[test]
fn test_decode_malformed_frame() {
    let r = decode_frame("not json");
    assert!(matches!(r, Err(DecodeError::MalformedFrame)));
    let r = decode_frame(r#"{"d":{}}"#);
    assert!(matches!(r, Err(DecodeError::MalformedFrame)));
}

#[test]
fn test_decode_unknown_opcode() {
    let r = decode_frame(r#"{"op":4}"#);
    assert!(matches!(r, Err(DecodeError::UnknownOpcode { op: 4 })));
}

#[test]
fn test_decode_malformed_payload() {
    let r = decode_frame(r#"{"op":10,"d":{}}"#);
    assert!(matches!(r, Err(DecodeError::MalformedPayload)));
    let r = decode_frame(r#"{"op":0,"t":"READY","d":{}}"#);
    assert!(matches!(r, Err(DecodeError::MalformedPayload)));
    let r = decode_frame(r#"{"op":0,"d":{}}"#);
    assert!(matches!(r, Err(DecodeError::MalformedPayload)));
}

#[test]
fn test_encode_heartbeat() {
    let with_seq = encode_command(&GatewayCommand::Heartbeat { ack_seq: Some(42) });
    assert_eq!(with_seq, r#"{"op":1,"d":42}"#);
    let without = encode_command(&GatewayCommand::Heartbeat { ack_seq: None });
    assert_eq!(without, r#"{"op":1,"d":null}"#);
}

#[test]
fn test_encode_identify() {
    let s = encode_command(&GatewayCommand::Identify {
        token: "SECRET-REDACTED".to_string(),
        intents: 513,
    });
    assert_eq!(
        s,
        r#"{"op":2,"d":{"token":"SECRET-REDACTED","intents":513,"properties":{"os":"Linux","browser":"Chrome","device":""}}}"#
    );
}

#[test]
fn test_encode_resume() {
    let s = encode_command(&GatewayCommand::Resume {
        token: "tok".to_string(),
        session_id: "sess".to_string(),
        seq: 99,
    });
    assert_eq!(
        s,
        r#"{"op":6,"d":{"token":"tok","session_id":"sess","seq":99}}"#
    );
}

#[test]
fn test_encode_presence_and_typing() {
    let p = encode_command(&GatewayCommand::UpdatePresence {
        status: PresenceStatus::Idle,
    });
    assert_eq!(p, r#"{"op":3,"d":{"status":"idle"}}"#);
    let t = encode_command(&GatewayCommand::TypingStart {
        channel_id: "chan".to_string(),
    });
    assert_eq!(t, r#"{"op":12,"d":{"channel_id":"chan"}}"#);
}

#[test]
fn test_encode_escapes_strings() {
    let s = encode_command(&GatewayCommand::TypingStart {
        channel_id: "a\"b\\c\nd".to_string(),
    });
    assert_eq!(s, r#"{"op":12,"d":{"channel_id":"a\"b\\c\nd"}}"#);
    let parsed: serde_json::Value = serde_json::from_str(&s).expect("escaped JSON parses");
    assert_eq!(parsed["d"]["channel_id"], "a\"b\\c\nd");
}

#[test]
fn test_encode_then_decode_roundtrip_shape() {
    let hb = encode_command(&GatewayCommand::Heartbeat { ack_seq: Some(5) });
    let v: serde_json::Value = serde_json::from_str(&hb).unwrap();
    assert_eq!(v["op"], 1);
    assert_eq!(v["d"], 5);
}
