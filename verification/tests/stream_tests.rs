use cursor_sdk::{
    parse_stream_event, payload_shape, CursorError, PayloadShape, RunStreamEvent, StreamPayload,
};

fn json_error() -> serde_json::Error {
    serde_json::from_str::<serde_json::Value>("{").unwrap_err()
}

#[test]
fn payload_shapes_follow_event_names() {
    assert_eq!(payload_shape("status"), PayloadShape::Status);
    assert_eq!(payload_shape("result"), PayloadShape::Status);
    assert_eq!(payload_shape("assistant"), PayloadShape::Text);
    assert_eq!(payload_shape("thinking"), PayloadShape::Text);
    assert_eq!(payload_shape("tool_call"), PayloadShape::Json);
    assert_eq!(payload_shape("heartbeat"), PayloadShape::Bare);
    assert_eq!(payload_shape("done"), PayloadShape::Bare);
    assert_eq!(payload_shape("error"), PayloadShape::ErrorReport);
    assert_eq!(payload_shape("custom"), PayloadShape::Lenient);
    assert_eq!(payload_shape("Status"), PayloadShape::Lenient);
}

#[test]
fn parse_stream_event_decodes_status() {
    let message = parse_stream_event(
        Some("evt-1".to_owned()),
        "status".to_owned(),
        r#"{"runId":"run-1","status":"RUNNING"}"#.to_owned(),
        Some(Ok(StreamPayload::Status {
            run_id: "run-1".to_owned(),
            status: "RUNNING".to_owned(),
        })),
    )
    .expect("parse status event");

    assert_eq!(message.id.as_deref(), Some("evt-1"));
    assert!(matches!(
        message.event,
        RunStreamEvent::Status { ref run_id, ref status }
            if run_id == "run-1" && status == "RUNNING"
    ));
}

#[test]
fn parse_stream_event_preserves_unknown_events() {
    let message = parse_stream_event(None, "custom".to_owned(), r#"{"x":1}"#.to_owned(), None)
        .expect("parse unknown event");

    assert!(matches!(
        message.event,
        RunStreamEvent::Unknown { ref name, .. } if name == "custom"
    ));
    match message.event {
        RunStreamEvent::Unknown { payload, .. } => assert_eq!(payload, serde_json::from_str::<serde_json::Value>(r#"{"x":1}"#).unwrap()),
        _ => unreachable!(),
    }
}

#[test]
fn unknown_events_with_plain_text_keep_the_text() {
    let message = parse_stream_event(
        Some("evt-7".to_owned()),
        "note".to_owned(),
        "not json".to_owned(),
        None,
    )
    .expect("parse unknown event");
    assert_eq!(message.id.as_deref(), Some("evt-7"));
    match message.event {
        RunStreamEvent::Unknown { name, payload } => {
            assert_eq!(name, "note");
            assert_eq!(payload, serde_json::Value::String("not json".to_owned()));
        }
        other => panic!("unexpected event: {other:?}"),
    }
}

#[test]
fn stream_run_parses_sse_messages_and_ids() {
    let events = vec![
        (
            "evt-1",
            "status",
            r#"{"runId":"run-1","status":"RUNNING"}"#,
            Some(Ok(StreamPayload::Status {
                run_id: "run-1".to_owned(),
                status: "RUNNING".to_owned(),
            })),
        ),
        (
            "evt-2",
            "assistant",
            r#"{"text":"hello"}"#,
            Some(Ok(StreamPayload::Text { text: "hello".to_owned() })),
        ),
        (
            "evt-3",
            "result",
            r#"{"runId":"run-1","status":"FINISHED"}"#,
            Some(Ok(StreamPayload::Status {
                run_id: "run-1".to_owned(),
                status: "FINISHED".to_owned(),
            })),
        ),
        ("evt-3", "done", "{}", None),
    ];
    let mut messages = Vec::new();
    for (id, event, data, decoded) in events {
        messages.push(
            parse_stream_event(Some(id.to_owned()), event.to_owned(), data.to_owned(), decoded)
                .expect("stream item"),
        );
    }

    assert_eq!(messages.len(), 4);
    assert_eq!(messages[0].id.as_deref(), Some("evt-1"));
    assert!(matches!(
        messages[1].event,
        RunStreamEvent::Assistant { ref text } if text == "hello"
    ));
    assert!(matches!(
        messages[2].event,
        RunStreamEvent::Result { ref status, .. } if status == "FINISHED"
    ));
    assert!(matches!(messages[3].event, RunStreamEvent::Done));
}

#[test]
fn thinking_heartbeat_and_error_events_decode() {
    let thinking = parse_stream_event(
        None,
        "thinking".to_owned(),
        r#"{"text":"hmm"}"#.to_owned(),
        Some(Ok(StreamPayload::Text { text: "hmm".to_owned() })),
    )
    .unwrap();
    assert!(matches!(thinking.event, RunStreamEvent::Thinking { ref text } if text == "hmm"));

    let beat = parse_stream_event(None, "heartbeat".to_owned(), String::new(), None).unwrap();
    assert!(matches!(beat.event, RunStreamEvent::Heartbeat));

    let error = parse_stream_event(
        None,
        "error".to_owned(),
        r#"{"message":"boom"}"#.to_owned(),
        Some(Ok(StreamPayload::ErrorReport { code: None, message: "boom".to_owned() })),
    )
    .unwrap();
    assert!(matches!(
        error.event,
        RunStreamEvent::Error { code: None, ref message } if message == "boom"
    ));
}

#[test]
fn tool_calls_need_json_data() {
    let ok = parse_stream_event(
        Some("evt-4".to_owned()),
        "tool_call".to_owned(),
        r#"{"tool":"grep","args":[1,2]}"#.to_owned(),
        None,
    )
    .unwrap();
    match ok.event {
        RunStreamEvent::ToolCall { payload } => {
            assert_eq!(payload["tool"], serde_json::Value::String("grep".to_owned()));
        }
        other => panic!("unexpected event: {other:?}"),
    }
    let bad = parse_stream_event(None, "tool_call".to_owned(), "{oops".to_owned(), None);
    assert!(matches!(bad, Err(CursorError::Json(_))));
}

#[test]
fn undecodable_typed_payloads_fail_as_json_errors() {
    let bad = parse_stream_event(
        Some("evt-5".to_owned()),
        "status".to_owned(),
        r#"{"runId":1}"#.to_owned(),
        Some(Err(json_error())),
    );
    assert!(matches!(bad, Err(CursorError::Json(_))));
}

#[test]
fn cloned_messages_keep_id_and_event() {
    let message = parse_stream_event(
        Some("evt-1".to_owned()),
        "status".to_owned(),
        r#"{"runId":"run-1","status":"RUNNING"}"#.to_owned(),
        Some(Ok(StreamPayload::Status {
            run_id: "run-1".to_owned(),
            status: "RUNNING".to_owned(),
        })),
    )
    .unwrap();
    let copy = message.clone();
    assert_eq!(copy.id.as_deref(), Some("evt-1"));
    assert!(matches!(
        copy.event,
        RunStreamEvent::Status { ref run_id, ref status } if run_id == "run-1" && status == "RUNNING"
    ));
    let tool = parse_stream_event(None, "tool_call".to_owned(), "[1]".to_owned(), None).unwrap();
    match tool.clone().event {
        RunStreamEvent::ToolCall { payload } => {
            assert_eq!(payload, serde_json::from_str::<serde_json::Value>("[1]").unwrap())
        }
        other => panic!("unexpected event: {other:?}"),
    }
}
