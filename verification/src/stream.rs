use vstd::prelude::*;

use crate::error::{CursorError, Result};
use crate::json::{json_parsed, json_string_of, json_string_value, json_text_accepted, parse_json_value};
use crate::types::{str_eq, RunStreamEvent, RunStreamMessage};

verus! {

/// How the data of a stream event is to be decoded, by the event's name.
#[derive(Clone, Copy, Debug, PartialEq, Eq, Structural)]
pub enum PayloadShape {
    /// `{"runId": .., "status": ..}`: `status` and `result` events.
    Status,
    /// `{"text": ..}`: `assistant` and `thinking` events.
    Text,
    /// `{"code": .., "message": ..}`: `error` events.
    ErrorReport,
    /// Any JSON document: `tool_call` events.
    Json,
    /// Nothing is read: `heartbeat` and `done` events.
    Bare,
    /// JSON if it is JSON, the raw text otherwise: events of other names.
    Lenient,
}

/// The shape of the data of an event named `event`.
pub open spec fn payload_shape_of(event: Seq<char>) -> PayloadShape {
    if event == "status"@ || event == "result"@ {
        PayloadShape::Status
    } else if event == "assistant"@ || event == "thinking"@ {
        PayloadShape::Text
    } else if event == "tool_call"@ {
        PayloadShape::Json
    } else if event == "heartbeat"@ || event == "done"@ {
        PayloadShape::Bare
    } else if event == "error"@ {
        PayloadShape::ErrorReport
    } else {
        PayloadShape::Lenient
    }
}

/// The shape of the data of an event named `event`.
pub fn payload_shape(event: &str) -> (s: PayloadShape)
    ensures
        s == payload_shape_of(event@),
{
    if str_eq(event, "status") || str_eq(event, "result") {
        PayloadShape::Status
    } else if str_eq(event, "assistant") || str_eq(event, "thinking") {
        PayloadShape::Text
    } else if str_eq(event, "tool_call") {
        PayloadShape::Json
    } else if str_eq(event, "heartbeat") || str_eq(event, "done") {
        PayloadShape::Bare
    } else if str_eq(event, "error") {
        PayloadShape::ErrorReport
    } else {
        PayloadShape::Lenient
    }
}

/// The data of an event of a typed shape, decoded.
#[derive(Clone, Debug)]
pub enum StreamPayload {
    Status { run_id: String, status: String },
    Text { text: String },
    ErrorReport { code: Option<String>, message: String },
}

/// Whether `decoded` is what decoding data of shape `shape` gives: the
/// outcome of decoding into the shape's payload where the shape is typed,
/// nothing for the other shapes.
pub open spec fn decoded_fits(
    shape: PayloadShape,
    decoded: Option<core::result::Result<StreamPayload, serde_json::Error>>,
) -> bool {
    match shape {
        PayloadShape::Status => decoded matches Some(r) && (r matches Ok(p) ==> p is Status),
        PayloadShape::Text => decoded matches Some(r) && (r matches Ok(p) ==> p is Text),
        PayloadShape::ErrorReport => decoded matches Some(r) && (r matches Ok(p) ==> p is ErrorReport),
        _ => decoded is None,
    }
}

/// What decoding the event `event` with data `data` gives, where `decoded`
/// is the typed decoding of the data that its shape asks for.
pub open spec fn parsed_event(
    id: Option<String>,
    event: Seq<char>,
    data: Seq<char>,
    decoded: Option<core::result::Result<StreamPayload, serde_json::Error>>,
    res: Result<RunStreamMessage>,
) -> bool {
    &&& res matches Ok(m) ==> m.id == id
    &&& match payload_shape_of(event) {
        PayloadShape::Status => match decoded {
            Some(Err(x)) => res == Err::<RunStreamMessage, CursorError>(CursorError::Json(x)),
            Some(Ok(StreamPayload::Status { run_id, status })) => res matches Ok(m) && if event
                == "status"@ {
                m.event == RunStreamEvent::Status { run_id, status }
            } else {
                m.event == RunStreamEvent::Result { run_id, status }
            },
            _ => false,
        },
        PayloadShape::Text => match decoded {
            Some(Err(x)) => res == Err::<RunStreamMessage, CursorError>(CursorError::Json(x)),
            Some(Ok(StreamPayload::Text { text })) => res matches Ok(m) && if event
                == "assistant"@ {
                m.event == RunStreamEvent::Assistant { text }
            } else {
                m.event == RunStreamEvent::Thinking { text }
            },
            _ => false,
        },
        PayloadShape::ErrorReport => match decoded {
            Some(Err(x)) => res == Err::<RunStreamMessage, CursorError>(CursorError::Json(x)),
            Some(Ok(StreamPayload::ErrorReport { code, message })) => res matches Ok(m)
                && m.event == RunStreamEvent::Error { code, message },
            _ => false,
        },
        PayloadShape::Json => {
            &&& res is Ok <==> json_text_accepted(data)
            &&& res matches Ok(m) ==> m.event == RunStreamEvent::ToolCall {
                payload: json_parsed(data),
            }
            &&& res matches Err(e) ==> e is Json
        },
        PayloadShape::Bare => res matches Ok(m) && if event == "heartbeat"@ {
            m.event is Heartbeat
        } else {
            m.event is Done
        },
        PayloadShape::Lenient => res matches Ok(m) && m.event matches RunStreamEvent::Unknown {
            name,
            payload,
        } && name@ == event && payload == if json_text_accepted(data) {
            json_parsed(data)
        } else {
            json_string_of(data)
        },
    }
}

/// The kind of a decoded event follows from the event's name alone, never
/// from its id or its data: `status`, `result`, `assistant`, `thinking`,
/// `tool_call`, `heartbeat`, `done` and `error` each give their own kind,
/// every other name gives an unknown event under that name, and the id is
/// kept as it came. A decoded text payload lands in the kind its name says.
pub proof fn law_event_kind_follows_name(
    id: Option<String>,
    event: Seq<char>,
    data: Seq<char>,
    decoded: Option<core::result::Result<StreamPayload, serde_json::Error>>,
    res: Result<RunStreamMessage>,
)
    requires
        parsed_event(id, event, data, decoded, res),
    ensures
        res matches Ok(m) ==> {
            &&& m.id == id
            &&& m.event is Status <==> event == "status"@
            &&& m.event is Result <==> event == "result"@
            &&& m.event is Assistant <==> event == "assistant"@
            &&& m.event is Thinking <==> event == "thinking"@
            &&& m.event is ToolCall <==> event == "tool_call"@
            &&& m.event is Heartbeat <==> event == "heartbeat"@
            &&& m.event is Done <==> event == "done"@
            &&& m.event is Error <==> event == "error"@
            &&& m.event matches RunStreamEvent::Unknown { name, .. } ==> name@ == event
        },
        decoded matches Some(Ok(StreamPayload::Text { text })) ==> {
            &&& event == "thinking"@ ==> (res matches Ok(m) && m.event
                == RunStreamEvent::Thinking { text })
            &&& event == "assistant"@ ==> (res matches Ok(m) && m.event
                == RunStreamEvent::Assistant { text })
        },
        decoded matches Some(Ok(StreamPayload::Status { run_id, status })) ==> {
            &&& event == "status"@ ==> (res matches Ok(m) && m.event == RunStreamEvent::Status {
                run_id,
                status,
            })
            &&& event == "result"@ ==> (res matches Ok(m) && m.event == RunStreamEvent::Result {
                run_id,
                status,
            })
        },
        decoded matches Some(Ok(StreamPayload::ErrorReport { code, message })) ==> (event
            == "error"@ ==> (res matches Ok(m) && m.event == RunStreamEvent::Error { code, message })),
        decoded matches Some(Err(x)) ==> (event == "status"@ || event == "result"@ || event
            == "assistant"@ || event == "thinking"@ || event == "error"@ ==> res
            == Err::<RunStreamMessage, CursorError>(CursorError::Json(x))),
        event == "heartbeat"@ || event == "done"@ ==> res is Ok,
{
    lemma_event_names_differ();
}

/// The event names that the stream knows are distinct from each other.
proof fn lemma_event_names_differ()
    ensures
        "status"@ != "result"@,
        "assistant"@ != "tool_call"@,
        "assistant"@ != "heartbeat"@,
        "tool_call"@ != "heartbeat"@,
        "status"@.len() == 6 && "result"@.len() == 6 && "assistant"@.len() == 9,
        "thinking"@.len() == 8 && "tool_call"@.len() == 9 && "heartbeat"@.len() == 9,
        "done"@.len() == 4 && "error"@.len() == 5,
{
    reveal_strlit("status");
    reveal_strlit("result");
    reveal_strlit("assistant");
    reveal_strlit("thinking");
    reveal_strlit("tool_call");
    reveal_strlit("heartbeat");
    reveal_strlit("done");
    reveal_strlit("error");
    assert("status"@[0] != "result"@[0]);
    assert("assistant"@[0] != "tool_call"@[0]);
    assert("assistant"@[0] != "heartbeat"@[0]);
    assert("tool_call"@[0] != "heartbeat"@[0]);
}

/// Decodes one server-sent event of a run's stream: its id, its name and
/// its data, with `decoded` the typed decoding of the data that
/// [`payload_shape`] asks for. Events of unknown names are kept.
pub fn parse_stream_event(
    id: Option<String>,
    event: String,
    data: String,
    decoded: Option<core::result::Result<StreamPayload, serde_json::Error>>,
) -> (res: Result<RunStreamMessage>)
    requires
        decoded_fits(payload_shape_of(event@), decoded),
    ensures
        parsed_event(id, event@, data@, decoded, res),
{
    let shape = payload_shape(event.as_str());
    let parsed = match shape {
        PayloadShape::Status => match decoded {
            Some(Ok(StreamPayload::Status { run_id, status })) => {
                if str_eq(event.as_str(), "status") {
                    RunStreamEvent::Status { run_id, status }
                } else {
                    RunStreamEvent::Result { run_id, status }
                }
            },
            Some(Err(x)) => {
                return Err(CursorError::Json(x));
            },
            _ => unreached(),
        },
        PayloadShape::Text => match decoded {
            Some(Ok(StreamPayload::Text { text })) => {
                if str_eq(event.as_str(), "assistant") {
                    RunStreamEvent::Assistant { text }
                } else {
                    RunStreamEvent::Thinking { text }
                }
            },
            Some(Err(x)) => {
                return Err(CursorError::Json(x));
            },
            _ => unreached(),
        },
        PayloadShape::ErrorReport => match decoded {
            Some(Ok(StreamPayload::ErrorReport { code, message })) => {
                RunStreamEvent::Error { code, message }
            },
            Some(Err(x)) => {
                return Err(CursorError::Json(x));
            },
            _ => unreached(),
        },
        PayloadShape::Json => match parse_json_value(data.as_str()) {
            Ok(payload) => RunStreamEvent::ToolCall { payload },
            Err(x) => {
                return Err(CursorError::Json(x));
            },
        },
        PayloadShape::Bare => {
            if str_eq(event.as_str(), "heartbeat") {
                RunStreamEvent::Heartbeat
            } else {
                RunStreamEvent::Done
            }
        },
        PayloadShape::Lenient => {
            let payload = match parse_json_value(data.as_str()) {
                Ok(v) => v,
                Err(_) => json_string_value(data),
            };
            RunStreamEvent::Unknown { name: event, payload }
        },
    };
    Ok(RunStreamMessage { id, event: parsed })
}

} // verus!
