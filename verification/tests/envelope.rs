use ocpp_client::envelope::{
    decode_frame, encode_frame, Envelope, FrameError, JsonShape, Outgoing, ParsedFrame,
    MESSAGE_TYPE_CALL, MESSAGE_TYPE_ERROR, MESSAGE_TYPE_RESULT, MESSAGE_TYPE_SEND,
};
use ocpp_client::json::{parse_frame, render_frame};
use serde_json::Value;

fn parse(text: &str) -> ParsedFrame<Value> {
    parse_frame(text)
}

fn write(out: Vec<Outgoing<Value>>) -> String {
    render_frame(out)
}

#[test]
fn message_type_numbers() {
    assert_eq!(MESSAGE_TYPE_CALL, 2);
    assert_eq!(MESSAGE_TYPE_RESULT, 3);
    assert_eq!(MESSAGE_TYPE_ERROR, 4);
    assert_eq!(MESSAGE_TYPE_SEND, 6);
}

#[test]
fn a_call_decodes_into_its_parts() {
    match decode_frame(parse(r#"[2,"req-1","TriggerMessage",{"requestedMessage":"Heartbeat"}]"#)) {
        Ok(Envelope::Call { message_id, action, payload }) => {
            assert_eq!(message_id, "req-1");
            assert_eq!(action, "TriggerMessage");
            assert_eq!(payload["requestedMessage"], "Heartbeat");
        }
        other => panic!("expected a CALL, got {other:?}"),
    }
}

#[test]
fn a_result_an_error_and_a_send_decode() {
    assert!(matches!(
        decode_frame(parse(r#"[3,"m1",{"currentTime":"2024-01-01T00:00:00Z"}]"#)),
        Ok(Envelope::CallResult { message_id, .. }) if message_id == "m1"
    ));
    match decode_frame(parse(r#"[4,"m2","InternalError","boom",{}]"#)) {
        Ok(Envelope::CallError { message_id, code, description, details }) => {
            assert_eq!(message_id, "m2");
            assert_eq!(code, "InternalError");
            assert_eq!(description, "boom");
            assert!(details.as_object().unwrap().is_empty());
        }
        other => panic!("expected a CALLERROR, got {other:?}"),
    }
    assert!(matches!(
        decode_frame(parse(r#"[6,"peer-1","NotifyPeriodicEventStream",{"id":123}]"#)),
        Ok(Envelope::Send { action, .. }) if action == "NotifyPeriodicEventStream"
    ));
}

#[test]
fn malformed_frames_say_why() {
    assert_eq!(decode_frame(parse("not json")).unwrap_err(), FrameError::NotJson);
    assert_eq!(decode_frame(parse(r#"{"a":1}"#)).unwrap_err(), FrameError::NotAnArray);
    assert_eq!(decode_frame(parse("[]")).unwrap_err(), FrameError::MissingMessageType);
    assert_eq!(decode_frame(parse(r#"["2","x"]"#)).unwrap_err(), FrameError::MissingMessageType);
    assert_eq!(decode_frame(parse("[2.5]")).unwrap_err(), FrameError::MessageTypeNotInteger);
    assert_eq!(decode_frame(parse("[-1]")).unwrap_err(), FrameError::MessageTypeNotInteger);
    assert_eq!(decode_frame(parse("[9,\"x\"]")).unwrap_err(), FrameError::UnknownMessageType(9));
    assert_eq!(decode_frame(parse(r#"[2,"x","A"]"#)).unwrap_err(), FrameError::Malformed(2));
    assert_eq!(decode_frame(parse(r#"[2,"x","A",{},1]"#)).unwrap_err(), FrameError::Malformed(2));
    assert_eq!(decode_frame(parse(r#"[2,1,"A",{}]"#)).unwrap_err(), FrameError::Malformed(2));
    assert_eq!(decode_frame(parse(r#"[3,"x"]"#)).unwrap_err(), FrameError::Malformed(3));
    assert_eq!(decode_frame(parse(r#"[4,"x","c",5,{}]"#)).unwrap_err(), FrameError::Malformed(4));
    assert_eq!(decode_frame(parse(r#"[6,"x",{}]"#)).unwrap_err(), FrameError::Malformed(6));
}

#[test]
fn encoded_frames_have_the_wire_layout() {
    let call = encode_frame(Envelope::Call {
        message_id: "m1".to_string(),
        action: "Heartbeat".to_string(),
        payload: serde_json::from_str::<Value>("{}").unwrap(),
    });
    assert_eq!(write(call), r#"[2,"m1","Heartbeat",{}]"#);
    let result = encode_frame(Envelope::CallResult {
        message_id: "req-1".to_string(),
        payload: serde_json::from_str::<Value>(r#"{"status":"Accepted"}"#).unwrap(),
    });
    assert_eq!(write(result), r#"[3,"req-1",{"status":"Accepted"}]"#);
    let error = encode_frame(Envelope::CallError {
        message_id: "req-2".to_string(),
        code: "NotImplemented".to_string(),
        description: "nope".to_string(),
        details: serde_json::from_str::<Value>("{}").unwrap(),
    });
    assert_eq!(write(error), r#"[4,"req-2","NotImplemented","nope",{}]"#);
    let send = encode_frame(Envelope::Send {
        message_id: "s".to_string(),
        action: "NotifyPeriodicEventStream".to_string(),
        payload: Value::from(1u64),
    });
    assert_eq!(write(send), r#"[6,"s","NotifyPeriodicEventStream",1]"#);
}

#[test]
fn a_written_frame_reads_back_as_the_same_message() {
    let frame = write(encode_frame(Envelope::CallError {
        message_id: "id-7".to_string(),
        code: "SecurityError".to_string(),
        description: "denied".to_string(),
        details: serde_json::from_str::<Value>(r#"{"path":"id[0]"}"#).unwrap(),
    }));
    match decode_frame(parse(&frame)) {
        Ok(Envelope::CallError { message_id, code, description, details }) => {
            assert_eq!(message_id, "id-7");
            assert_eq!(code, "SecurityError");
            assert_eq!(description, "denied");
            assert_eq!(details["path"], "id[0]");
        }
        other => panic!("expected the same CALLERROR, got {other:?}"),
    }
}

#[test]
fn parsing_reads_each_element_with_its_shape() {
    match parse_frame(r#"[2, "id", -1, 1.5, null, true, [1], {"a": 1}]"#) {
        ParsedFrame::Array(items) => {
            let shapes: Vec<JsonShape> = items.into_iter().map(|e| e.shape).collect();
            assert_eq!(
                shapes,
                vec![
                    JsonShape::Unsigned(2),
                    JsonShape::Text("id".to_string()),
                    JsonShape::OtherNumber,
                    JsonShape::OtherNumber,
                    JsonShape::Null,
                    JsonShape::Bool,
                    JsonShape::Array,
                    JsonShape::Object,
                ]
            );
        }
        other => panic!("expected an array, got {other:?}"),
    }
    assert!(matches!(parse_frame("{]"), ParsedFrame::NotJson));
    assert!(matches!(parse_frame(r#""text""#), ParsedFrame::NotArray));
}

#[test]
fn an_element_keeps_its_value() {
    match parse_frame(r#"[3, "m", {"status": "Accepted"}]"#) {
        ParsedFrame::Array(items) => {
            assert_eq!(items.len(), 3);
            assert_eq!(items[2].value["status"], "Accepted");
            assert_eq!(items[0].value, Value::from(3u64));
        }
        other => panic!("expected an array, got {other:?}"),
    }
}
