use vstd::prelude::*;

use crate::json::{json_text_of, json_value_text};
use crate::stream::{parsed_event, StreamPayload};
use crate::types::{
    opt_view, ApiKeyInfo, Artifact, AgentSummary, CreateAgentRequest, CreateRunRequest,
    DownloadArtifactResponse, ListResponse, ModelListResponse, ModelSelection, Prompt,
    RepositoryListResponse, RepositoryRef, Run, RunStreamEvent, RunStreamMessage, WaitForRunResult,
};
use crate::text::{decimal, decimal_digits};

verus! {

/// A piece of console output.
#[derive(Clone, Debug)]
pub enum TextOutput {
    /// Text written to standard output as it is, without a line break.
    Stdout(String),
    /// A line written to standard output.
    StdoutLine(String),
    /// A line written to standard error.
    StderrLine(String),
}

/// The characters of a piece of console output.
pub enum OutputText {
    Stdout(Seq<char>),
    StdoutLine(Seq<char>),
    StderrLine(Seq<char>),
}

impl View for TextOutput {
    type V = OutputText;

    open spec fn view(&self) -> OutputText {
        match self {
            TextOutput::Stdout(s) => OutputText::Stdout(s@),
            TextOutput::StdoutLine(s) => OutputText::StdoutLine(s@),
            TextOutput::StderrLine(s) => OutputText::StderrLine(s@),
        }
    }
}

/// The characters of console output, piece by piece.
pub open spec fn outputs_view(v: Seq<TextOutput>) -> Seq<OutputText> {
    v.map_values(|o: TextOutput| o@)
}

/// Why a stream event cannot be shown as text.
#[derive(Debug)]
pub enum RenderError {
    /// The stream reported an error; the text is `"{code}: {message}"`.
    Stream(String),
    /// A JSON payload could not be written as text.
    Json(serde_json::Error),
}

fn push_out(v: &mut Vec<TextOutput>, o: TextOutput)
    ensures
        outputs_view(final(v)@) == outputs_view(old(v)@).push(o@),
{
    v.push(o);
    proof {
        assert(outputs_view(v@) =~= outputs_view(old(v)@).push(o@));
    }
}

fn empty_out() -> (v: Vec<TextOutput>)
    ensures
        outputs_view(v@) == Seq::<OutputText>::empty(),
{
    let v: Vec<TextOutput> = Vec::new();
    assert(outputs_view(v@) =~= Seq::<OutputText>::empty());
    v
}

fn one_out(o: TextOutput) -> (v: Vec<TextOutput>)
    ensures
        outputs_view(v@) == seq![o@],
{
    let mut v = empty_out();
    push_out(&mut v, o);
    assert(outputs_view(v@) =~= seq![o@]);
    v
}

/// `prefix` followed by `"{id}] "` where an id is given, by `"] "` otherwise.
pub open spec fn tagged(prefix: Seq<char>, id: Option<Seq<char>>) -> Seq<char> {
    match id {
        Some(i) => prefix + ":"@ + i + "] "@,
        None => prefix + "] "@,
    }
}

fn tag(prefix: &str, id: &Option<String>) -> (s: String)
    ensures
        s@ == tagged(prefix@, opt_view(*id)),
{
    match id {
        Some(i) => String::from_str(prefix).concat(":").concat(i.as_str()).concat("] "),
        None => String::from_str(prefix).concat("] "),
    }
}

/// The console text of a stream message, where `payload` is the JSON text
/// of its payload if it carries one; `Err` holds the text of a stream error.
pub open spec fn stream_text(
    msg: RunStreamMessage,
    payload: Seq<char>,
) -> core::result::Result<Seq<OutputText>, Seq<char>> {
    let id = opt_view(msg.id);
    match msg.event {
        RunStreamEvent::Assistant { text } => Ok(seq![OutputText::Stdout(text@)]),
        RunStreamEvent::Thinking { text } => Ok(
            seq![OutputText::StderrLine("[thinking] "@ + text@)],
        ),
        RunStreamEvent::Status { status, .. } => Ok(
            seq![OutputText::StderrLine("[status] "@ + status@)],
        ),
        RunStreamEvent::ToolCall { .. } => Ok(
            seq![OutputText::StderrLine(tagged("[tool_call"@, id) + payload)],
        ),
        RunStreamEvent::Result { status, .. } => Ok(
            seq![OutputText::StderrLine("\n"@ + tagged("[result"@, id) + status@)],
        ),
        RunStreamEvent::Error { code, message } => Err(
            match code {
                Some(c) => c@,
                None => "stream_error"@,
            } + ": "@ + message@,
        ),
        RunStreamEvent::Done => match id {
            Some(i) => Ok(seq![OutputText::StderrLine("[done:"@ + i + "]"@)]),
            None => Ok(seq![]),
        },
        RunStreamEvent::Heartbeat => Ok(seq![]),
        RunStreamEvent::Unknown { name, .. } => Ok(
            seq![OutputText::StderrLine(tagged("[unknown"@, id) + name@ + " "@ + payload)],
        ),
    }
}

/// How each stream event is shown on the console, whatever its id:
/// assistant text goes to standard output as it is; thinking, status and
/// result lines go to standard error with their prefixes and the event's
/// own text; the message id appears only in the tags of tool calls,
/// results, `done` and unknown events; heartbeats show nothing; an error
/// event shows nothing and fails with `"{code}: {message}"`.
pub proof fn law_console_text_of_events(
    msg: RunStreamMessage,
    payload: Seq<char>,
    shown: core::result::Result<Seq<OutputText>, Seq<char>>,
)
    requires
        shown == stream_text(msg, payload),
    ensures
        msg.event matches RunStreamEvent::Assistant { text } ==> shown == Ok::<
            Seq<OutputText>,
            Seq<char>,
        >(seq![OutputText::Stdout(text@)]),
        msg.event matches RunStreamEvent::Thinking { text } ==> shown == Ok::<
            Seq<OutputText>,
            Seq<char>,
        >(seq![OutputText::StderrLine("[thinking] "@ + text@)]),
        msg.event matches RunStreamEvent::Status { status, .. } ==> shown == Ok::<
            Seq<OutputText>,
            Seq<char>,
        >(seq![OutputText::StderrLine("[status] "@ + status@)]),
        msg.event matches RunStreamEvent::Result { status, .. } ==> shown == Ok::<
            Seq<OutputText>,
            Seq<char>,
        >(
            seq![
                OutputText::StderrLine(
                    "\n[result"@ + match msg.id {
                        Some(i) => ":"@ + i@,
                        None => seq![],
                    } + "] "@ + status@,
                ),
            ],
        ),
        msg.event is ToolCall ==> shown == Ok::<Seq<OutputText>, Seq<char>>(
            seq![
                OutputText::StderrLine(
                    "[tool_call"@ + match msg.id {
                        Some(i) => ":"@ + i@,
                        None => seq![],
                    } + "] "@ + payload,
                ),
            ],
        ),
        msg.event matches RunStreamEvent::Unknown { name, .. } ==> shown == Ok::<
            Seq<OutputText>,
            Seq<char>,
        >(
            seq![
                OutputText::StderrLine(
                    "[unknown"@ + match msg.id {
                        Some(i) => ":"@ + i@,
                        None => seq![],
                    } + "] "@ + name@ + " "@ + payload,
                ),
            ],
        ),
        msg.event is Heartbeat ==> shown == Ok::<Seq<OutputText>, Seq<char>>(seq![]),
        msg.event is Done ==> shown == Ok::<Seq<OutputText>, Seq<char>>(
            match msg.id {
                Some(i) => seq![OutputText::StderrLine("[done:"@ + i@ + "]"@)],
                None => seq![],
            },
        ),
        msg.event matches RunStreamEvent::Error { code, message } ==> shown == Err::<
            Seq<OutputText>,
            Seq<char>,
        >(
            match code {
                Some(c) => c@,
                None => "stream_error"@,
            } + ": "@ + message@,
        ),
{
    match msg.id {
        Some(i) => {
            assert("[tool_call"@ + ":"@ + i@ + "] "@ =~= "[tool_call"@ + (":"@ + i@) + "] "@);
            assert("[unknown"@ + ":"@ + i@ + "] "@ =~= "[unknown"@ + (":"@ + i@) + "] "@);
            assert("\n"@ + ("[result"@ + ":"@ + i@ + "] "@) =~= "\n[result"@ + (":"@ + i@) + "] "@) by {
                reveal_strlit("\n");
                reveal_strlit("[result");
                reveal_strlit("\n[result");
            }
        },
        None => {
            assert("[tool_call"@ + seq![] =~= "[tool_call"@);
            assert("[unknown"@ + seq![] =~= "[unknown"@);
            assert("\n"@ + ("[result"@ + "] "@) =~= "\n[result"@ + seq![] + "] "@) by {
                reveal_strlit("\n");
                reveal_strlit("[result");
                reveal_strlit("\n[result");
            }
        },
    }
}

/// What a run streams is what the console shows: the text of an
/// `assistant` event goes to standard output unchanged, and an `error`
/// event becomes the failure `"{code}: {message}"`.
pub proof fn lemma_stream_reaches_console(
    id: Option<String>,
    data: Seq<char>,
    text: String,
    code: Option<String>,
    message: String,
    payload: Seq<char>,
    assistant: crate::error::Result<RunStreamMessage>,
    error: crate::error::Result<RunStreamMessage>,
)
    requires
        parsed_event(id, "assistant"@, data, Some(Ok(StreamPayload::Text { text })), assistant),
        parsed_event(
            id,
            "error"@,
            data,
            Some(Ok(StreamPayload::ErrorReport { code, message })),
            error,
        ),
    ensures
        assistant matches Ok(m) && stream_text(m, payload) == Ok::<Seq<OutputText>, Seq<char>>(
            seq![OutputText::Stdout(text@)],
        ),
        error matches Ok(m) && stream_text(m, payload) == Err::<Seq<OutputText>, Seq<char>>(
            match code {
                Some(c) => c@,
                None => "stream_error"@,
            } + ": "@ + message@,
        ),
{
    reveal_strlit("assistant");
    reveal_strlit("error");
    reveal_strlit("status");
    reveal_strlit("result");
    reveal_strlit("thinking");
    reveal_strlit("tool_call");
    reveal_strlit("heartbeat");
    reveal_strlit("done");
    assert("error"@.len() == 5);
    assert("status"@.len() == 6 && "result"@.len() == 6 && "done"@.len() == 4);
    assert("thinking"@.len() == 8 && "heartbeat"@.len() == 9 && "tool_call"@.len() == 9);
    assert("assistant"@.len() == 9);
}

/// The console text of a stream message whose payload, if it has one, was
/// written as the JSON text `payload`.
pub fn render_stream_text(message: &RunStreamMessage, payload: &str) -> (res: core::result::Result<
    Vec<TextOutput>,
    RenderError,
>)
    ensures
        match stream_text(*message, payload@) {
            Ok(out) => res matches Ok(v) && outputs_view(v@) == out,
            Err(text) => res matches Err(RenderError::Stream(t)) && t@ == text,
        },
{
    match &message.event {
        RunStreamEvent::Assistant { text } => Ok(one_out(TextOutput::Stdout(text.clone()))),
        RunStreamEvent::Thinking { text } => Ok(
            one_out(TextOutput::StderrLine(String::from_str("[thinking] ").concat(text.as_str()))),
        ),
        RunStreamEvent::Status { status, .. } => Ok(
            one_out(TextOutput::StderrLine(String::from_str("[status] ").concat(status.as_str()))),
        ),
        RunStreamEvent::ToolCall { .. } => Ok(
            one_out(TextOutput::StderrLine(tag("[tool_call", &message.id).concat(payload))),
        ),
        RunStreamEvent::Result { status, .. } => Ok(
            one_out(
                TextOutput::StderrLine(
                    String::from_str("\n").concat(tag("[result", &message.id).as_str()).concat(
                        status.as_str(),
                    ),
                ),
            ),
        ),
        RunStreamEvent::Error { code, message: text } => {
            let prefix = match code {
                Some(c) => c.clone(),
                None => String::from_str("stream_error"),
            };
            Err(RenderError::Stream(prefix.concat(": ").concat(text.as_str())))
        },
        RunStreamEvent::Done => match &message.id {
            Some(i) => Ok(
                one_out(TextOutput::StderrLine(String::from_str("[done:").concat(i.as_str()).concat("]"))),
            ),
            None => Ok(empty_out()),
        },
        RunStreamEvent::Heartbeat => Ok(empty_out()),
        RunStreamEvent::Unknown { name, .. } => Ok(
            one_out(
                TextOutput::StderrLine(
                    tag("[unknown", &message.id).concat(name.as_str()).concat(" ").concat(payload),
                ),
            ),
        ),
    }
}

/// The JSON text of an event's payload, empty for events without one.
pub open spec fn payload_text(event: RunStreamEvent) -> Seq<char> {
    match event {
        RunStreamEvent::ToolCall { payload } => json_text_of(payload),
        RunStreamEvent::Unknown { payload, .. } => json_text_of(payload),
        _ => seq![],
    }
}

/// The payload shown for a tool call or an unknown event is the compact
/// JSON text of the event's own payload; other events show none.
pub proof fn law_payload_text(event: RunStreamEvent)
    ensures
        event matches RunStreamEvent::ToolCall { payload } ==> payload_text(event)
            == json_text_of(payload),
        event matches RunStreamEvent::Unknown { payload, .. } ==> payload_text(event)
            == json_text_of(payload),
        !(event is ToolCall || event is Unknown) ==> payload_text(event).len() == 0,
{
}

/// The console text of a stream message, its payload written as compact
/// JSON; it fails only on error events, with their text.
pub fn render_stream_message_text(message: &RunStreamMessage) -> (res: core::result::Result<
    Vec<TextOutput>,
    RenderError,
>)
    ensures
        match stream_text(*message, payload_text(message.event)) {
            Ok(out) => res matches Ok(v) && outputs_view(v@) == out,
            Err(text) => res matches Err(RenderError::Stream(t)) && t@ == text,
        },
{
    let payload = match &message.event {
        RunStreamEvent::ToolCall { payload } => Some(payload),
        RunStreamEvent::Unknown { payload, .. } => Some(payload),
        _ => None,
    };
    match payload {
        Some(p) => match json_value_text(p) {
            Ok(text) => render_stream_text(message, text.as_str()),
            Err(e) => Err(RenderError::Json(e)),
        },
        None => {
            proof {
                reveal_strlit("");
            }
            render_stream_text(message, "")
        },
    }
}

/// Following a run's stream on the console: whether a terminal `Result`
/// event has been seen, and whether to stop reading (after `Done`).
pub fn follow_stream_event(saw_terminal: bool, event: &RunStreamEvent) -> (r: (bool, bool))
    ensures
        r.0 == (saw_terminal || event is Result),
        r.1 == event is Done,
{
    let seen = match event {
        RunStreamEvent::Result { .. } => true,
        _ => saw_terminal,
    };
    let stop = match event {
        RunStreamEvent::Done => true,
        _ => false,
    };
    (seen, stop)
}

/// The line that reports a run's status when its stream ended without a
/// terminal event.
pub fn final_status_text(run: &Run) -> (out: Vec<TextOutput>)
    ensures
        outputs_view(out@) == seq![OutputText::StderrLine("[final-status] "@ + run.status@)],
{
    one_out(TextOutput::StderrLine(String::from_str("[final-status] ").concat(run.status.as_str())))
}

/// The lines that close the text of a finished wait: the final status, the
/// last event id if any, and a note when polling was used.
pub open spec fn wait_summary(r: WaitForRunResult) -> Seq<OutputText> {
    seq![OutputText::StderrLine("[final-status] "@ + r.run.status@)] + match opt_view(
        r.last_event_id,
    ) {
        Some(i) => seq![OutputText::StderrLine("[last-event-id] "@ + i)],
        None => seq![],
    } + if r.used_polling_fallback {
        seq![OutputText::StderrLine("[fallback] polling"@)]
    } else {
        seq![]
    }
}

/// A finished wait is summed up on standard error: first the run's final
/// status, then the event id to resume from when there is one, then a note
/// when polling was used; nothing else.
pub proof fn law_wait_summary(r: WaitForRunResult, shown: Seq<OutputText>)
    requires
        shown == wait_summary(r),
    ensures
        shown.len() == 1 + (if r.last_event_id is Some {
            1int
        } else {
            0int
        }) + (if r.used_polling_fallback {
            1int
        } else {
            0int
        }),
        shown[0] == OutputText::StderrLine("[final-status] "@ + r.run.status@),
        r.last_event_id matches Some(i) ==> shown[1] == OutputText::StderrLine(
            "[last-event-id] "@ + i@,
        ),
        r.used_polling_fallback ==> shown.last() == OutputText::StderrLine("[fallback] polling"@),
{
}

/// A new run is announced on standard output with its agent and its id,
/// and with the agent's page only when that address is known.
pub proof fn law_run_created(
    agent_id: Seq<char>,
    run_id: Seq<char>,
    agent_url: Seq<char>,
    shown: Seq<OutputText>,
)
    requires
        shown == run_created(agent_id, run_id, agent_url),
    ensures
        shown.len() == if agent_url.len() == 0 {
            2int
        } else {
            3int
        },
        shown[0] == OutputText::StdoutLine("agentId: "@ + agent_id),
        shown[1] == OutputText::StdoutLine("runId: "@ + run_id),
        agent_url.len() > 0 ==> shown[2] == OutputText::StdoutLine("agentUrl: "@ + agent_url),
{
}

/// The API key is described by its name and creation time, and by its
/// user's e-mail address when there is one.
pub proof fn law_me(me: ApiKeyInfo, shown: Seq<OutputText>)
    requires
        shown == me_lines(me),
    ensures
        shown.len() == if me.user_email is Some {
            3int
        } else {
            2int
        },
        shown[0] == OutputText::StdoutLine("apiKeyName: "@ + me.api_key_name@),
        shown[1] == OutputText::StdoutLine("createdAt: "@ + me.created_at@),
        me.user_email matches Some(e) ==> shown[2] == OutputText::StdoutLine("userEmail: "@ + e@),
{
}

pub fn wait_summary_text(result: &WaitForRunResult) -> (out: Vec<TextOutput>)
    ensures
        outputs_view(out@) == wait_summary(*result),
{
    let mut out = one_out(
        TextOutput::StderrLine(String::from_str("[final-status] ").concat(result.run.status.as_str())),
    );
    let ghost first = outputs_view(out@);
    if let Some(i) = &result.last_event_id {
        push_out(&mut out, TextOutput::StderrLine(String::from_str("[last-event-id] ").concat(i.as_str())));
    }
    let ghost second = outputs_view(out@);
    if result.used_polling_fallback {
        push_out(&mut out, TextOutput::StderrLine(String::from_str("[fallback] polling")));
    }
    assert(outputs_view(out@) =~= wait_summary(*result));
    out
}

/// The text that announces a new run: the agent, the run, and the agent's
/// page when its address is known.
pub open spec fn run_created(agent_id: Seq<char>, run_id: Seq<char>, agent_url: Seq<char>) -> Seq<
    OutputText,
> {
    seq![
        OutputText::StdoutLine("agentId: "@ + agent_id),
        OutputText::StdoutLine("runId: "@ + run_id),
    ] + if agent_url.len() == 0 {
        seq![]
    } else {
        seq![OutputText::StdoutLine("agentUrl: "@ + agent_url)]
    }
}

pub fn run_created_text(agent_id: &str, run_id: &str, agent_url: &str) -> (out: Vec<TextOutput>)
    ensures
        outputs_view(out@) == run_created(agent_id@, run_id@, agent_url@),
{
    let mut out = empty_out();
    push_out(&mut out, TextOutput::StdoutLine(String::from_str("agentId: ").concat(agent_id)));
    push_out(&mut out, TextOutput::StdoutLine(String::from_str("runId: ").concat(run_id)));
    if !agent_url.is_empty() {
        push_out(&mut out, TextOutput::StdoutLine(String::from_str("agentUrl: ").concat(agent_url)));
    }
    assert(outputs_view(out@) =~= run_created(agent_id@, run_id@, agent_url@));
    out
}

/// The text of the API key information.
pub open spec fn me_lines(me: ApiKeyInfo) -> Seq<OutputText> {
    seq![
        OutputText::StdoutLine("apiKeyName: "@ + me.api_key_name@),
        OutputText::StdoutLine("createdAt: "@ + me.created_at@),
    ] + match opt_view(me.user_email) {
        Some(e) => seq![OutputText::StdoutLine("userEmail: "@ + e)],
        None => seq![],
    }
}

pub fn me_text(me: &ApiKeyInfo) -> (out: Vec<TextOutput>)
    ensures
        outputs_view(out@) == me_lines(*me),
{
    let mut out = empty_out();
    push_out(&mut out, TextOutput::StdoutLine(String::from_str("apiKeyName: ").concat(me.api_key_name.as_str())));
    push_out(&mut out, TextOutput::StdoutLine(String::from_str("createdAt: ").concat(me.created_at.as_str())));
    if let Some(e) = &me.user_email {
        push_out(&mut out, TextOutput::StdoutLine(String::from_str("userEmail: ").concat(e.as_str())));
    }
    assert(outputs_view(out@) =~= me_lines(*me));
    out
}

/// One line per model.
pub fn models_text(models: &ModelListResponse) -> (out: Vec<TextOutput>)
    ensures
        outputs_view(out@) == models.items@.map_values(|m: String| OutputText::StdoutLine(m@)),
{
    let mut out = empty_out();
    let n = models.items.len();
    for i in 0..n
        invariant
            n == models.items@.len(),
            outputs_view(out@) == models.items@.take(i as int).map_values(
                |m: String| OutputText::StdoutLine(m@),
            ),
    {
        push_out(&mut out, TextOutput::StdoutLine(models.items[i].clone()));
        assert(models.items@.take(i + 1) =~= models.items@.take(i as int).push(models.items@[i as int]));
        assert(outputs_view(out@) =~= models.items@.take(i + 1).map_values(
            |m: String| OutputText::StdoutLine(m@),
        ));
    }
    assert(models.items@.take(n as int) =~= models.items@);
    out
}

/// One line per repository address.
pub fn repositories_text(repositories: &RepositoryListResponse) -> (out: Vec<TextOutput>)
    ensures
        outputs_view(out@) == repositories.items@.map_values(
            |r: crate::types::RepositoryItem| OutputText::StdoutLine(r.url@),
        ),
{
    let mut out = empty_out();
    let n = repositories.items.len();
    for i in 0..n
        invariant
            n == repositories.items@.len(),
            outputs_view(out@) == repositories.items@.take(i as int).map_values(
                |r: crate::types::RepositoryItem| OutputText::StdoutLine(r.url@),
            ),
    {
        push_out(&mut out, TextOutput::StdoutLine(repositories.items[i].url.clone()));
        assert(repositories.items@.take(i + 1) =~= repositories.items@.take(i as int).push(
            repositories.items@[i as int],
        ));
        assert(outputs_view(out@) =~= repositories.items@.take(i + 1).map_values(
            |r: crate::types::RepositoryItem| OutputText::StdoutLine(r.url@),
        ));
    }
    assert(repositories.items@.take(n as int) =~= repositories.items@);
    out
}

/// The line of an agent in a listing: id, status, name and address,
/// separated by tabs.
pub open spec fn agent_line(a: AgentSummary) -> Seq<char> {
    a.id@ + "\t"@ + a.status@ + "\t"@ + a.name@ + "\t"@ + a.url@
}

/// An agent listing: one line per agent, then the next page's cursor.
pub open spec fn agents_lines(list: ListResponse<AgentSummary>) -> Seq<OutputText> {
    list.items@.map_values(|a: AgentSummary| OutputText::StdoutLine(agent_line(a))) + match opt_view(
        list.next_cursor,
    ) {
        Some(c) => seq![OutputText::StdoutLine("nextCursor\t"@ + c)],
        None => seq![],
    }
}

/// An agent listing shows every agent of the page, in order, one line
/// each: its id, status, name and address separated by tabs; after them
/// comes the next page's cursor when there is one, and nothing else.
pub proof fn law_agent_listing(list: ListResponse<AgentSummary>, shown: Seq<OutputText>)
    requires
        shown == agents_lines(list),
    ensures
        shown.len() == list.items@.len() + if list.next_cursor is Some {
            1int
        } else {
            0int
        },
        forall|i: int|
            0 <= i < list.items@.len() ==> #[trigger] shown[i] == OutputText::StdoutLine(
                list.items@[i].id@ + "\t"@ + list.items@[i].status@ + "\t"@ + list.items@[i].name@
                    + "\t"@ + list.items@[i].url@,
            ),
        list.next_cursor matches Some(c) ==> shown[list.items@.len() as int]
            == OutputText::StdoutLine("nextCursor\t"@ + c@),
{
}

pub fn agents_text(list: &ListResponse<AgentSummary>) -> (out: Vec<TextOutput>)
    ensures
        outputs_view(out@) == agents_lines(*list),
{
    let mut out = empty_out();
    let n = list.items.len();
    for i in 0..n
        invariant
            n == list.items@.len(),
            outputs_view(out@) == list.items@.take(i as int).map_values(
                |a: AgentSummary| OutputText::StdoutLine(agent_line(a)),
            ),
    {
        let a = &list.items[i];
        let line = a.id.clone().concat("\t").concat(a.status.as_str()).concat("\t").concat(
            a.name.as_str(),
        ).concat("\t").concat(a.url.as_str());
        push_out(&mut out, TextOutput::StdoutLine(line));
        assert(list.items@.take(i + 1) =~= list.items@.take(i as int).push(list.items@[i as int]));
        assert(outputs_view(out@) =~= list.items@.take(i + 1).map_values(
            |a: AgentSummary| OutputText::StdoutLine(agent_line(a)),
        ));
    }
    assert(list.items@.take(n as int) =~= list.items@);
    let ghost items_part = outputs_view(out@);
    if let Some(c) = &list.next_cursor {
        push_out(&mut out, TextOutput::StdoutLine(String::from_str("nextCursor\t").concat(c.as_str())));
    }
    assert(outputs_view(out@) =~= agents_lines(*list));
    out
}

/// The line of an artifact: path, size in bytes and update time.
pub open spec fn artifact_line(a: Artifact) -> Seq<char> {
    a.path@ + "\t"@ + decimal_digits(a.size_bytes as nat) + "\t"@ + a.updated_at@
}

/// An artifact listing shows every artifact, in order, one line each: its
/// path, its size in decimal and its update time separated by tabs.
pub proof fn law_artifact_listing(list: ListResponse<Artifact>, shown: Seq<OutputText>)
    requires
        shown == list.items@.map_values(|a: Artifact| OutputText::StdoutLine(artifact_line(a))),
    ensures
        shown.len() == list.items@.len(),
        forall|i: int|
            0 <= i < list.items@.len() ==> #[trigger] shown[i] == OutputText::StdoutLine(
                list.items@[i].path@ + "\t"@ + decimal_digits(list.items@[i].size_bytes as nat)
                    + "\t"@ + list.items@[i].updated_at@,
            ),
{
}

pub fn artifacts_text(list: &ListResponse<Artifact>) -> (out: Vec<TextOutput>)
    ensures
        outputs_view(out@) == list.items@.map_values(
            |a: Artifact| OutputText::StdoutLine(artifact_line(a)),
        ),
{
    let mut out = empty_out();
    let n = list.items.len();
    for i in 0..n
        invariant
            n == list.items@.len(),
            outputs_view(out@) == list.items@.take(i as int).map_values(
                |a: Artifact| OutputText::StdoutLine(artifact_line(a)),
            ),
    {
        let a = &list.items[i];
        let line = a.path.clone().concat("\t").concat(decimal(a.size_bytes).as_str()).concat(
            "\t",
        ).concat(a.updated_at.as_str());
        push_out(&mut out, TextOutput::StdoutLine(line));
        assert(list.items@.take(i + 1) =~= list.items@.take(i as int).push(list.items@[i as int]));
        assert(outputs_view(out@) =~= list.items@.take(i + 1).map_values(
            |a: Artifact| OutputText::StdoutLine(artifact_line(a)),
        ));
    }
    assert(list.items@.take(n as int) =~= list.items@);
    out
}

pub fn artifact_url_text(artifact: &DownloadArtifactResponse) -> (out: Vec<TextOutput>)
    ensures
        outputs_view(out@) == seq![
            OutputText::StdoutLine("url: "@ + artifact.url@),
            OutputText::StdoutLine("expiresAt: "@ + artifact.expires_at@),
        ],
{
    let mut out = empty_out();
    push_out(&mut out, TextOutput::StdoutLine(String::from_str("url: ").concat(artifact.url.as_str())));
    push_out(&mut out, TextOutput::StdoutLine(String::from_str("expiresAt: ").concat(artifact.expires_at.as_str())));
    assert(outputs_view(out@) =~= seq![
        OutputText::StdoutLine("url: "@ + artifact.url@),
        OutputText::StdoutLine("expiresAt: "@ + artifact.expires_at@),
    ]);
    out
}

/// The line of a run in a listing: id, status and update time.
pub open spec fn run_line(r: Run) -> Seq<char> {
    r.id@ + "\t"@ + r.status@ + "\t"@ + r.updated_at@
}

/// A run listing shows every run, in order, one line each: its id, status
/// and update time separated by tabs.
pub proof fn law_run_listing(list: ListResponse<Run>, shown: Seq<OutputText>)
    requires
        shown == list.items@.map_values(|r: Run| OutputText::StdoutLine(run_line(r))),
    ensures
        shown.len() == list.items@.len(),
        forall|i: int|
            0 <= i < list.items@.len() ==> #[trigger] shown[i] == OutputText::StdoutLine(
                list.items@[i].id@ + "\t"@ + list.items@[i].status@ + "\t"@
                    + list.items@[i].updated_at@,
            ),
{
}

pub fn runs_text(list: &ListResponse<Run>) -> (out: Vec<TextOutput>)
    ensures
        outputs_view(out@) == list.items@.map_values(|r: Run| OutputText::StdoutLine(run_line(r))),
{
    let mut out = empty_out();
    let n = list.items.len();
    for i in 0..n
        invariant
            n == list.items@.len(),
            outputs_view(out@) == list.items@.take(i as int).map_values(
                |r: Run| OutputText::StdoutLine(run_line(r)),
            ),
    {
        let r = &list.items[i];
        let line = r.id.clone().concat("\t").concat(r.status.as_str()).concat("\t").concat(
            r.updated_at.as_str(),
        );
        push_out(&mut out, TextOutput::StdoutLine(line));
        assert(list.items@.take(i + 1) =~= list.items@.take(i as int).push(list.items@[i as int]));
        assert(outputs_view(out@) =~= list.items@.take(i + 1).map_values(
            |r: Run| OutputText::StdoutLine(run_line(r)),
        ));
    }
    assert(list.items@.take(n as int) =~= list.items@);
    out
}

/// The confirmation of an agent command: `"{verb} {agent_id}"`.
pub fn agent_done_text(verb: &str, agent_id: &str) -> (out: Vec<TextOutput>)
    ensures
        outputs_view(out@) == seq![OutputText::StdoutLine(verb@ + " "@ + agent_id@)],
{
    one_out(TextOutput::StdoutLine(String::from_str(verb).concat(" ").concat(agent_id)))
}

pub fn cancel_requested_text(run_id: &str) -> (out: Vec<TextOutput>)
    ensures
        outputs_view(out@) == seq![OutputText::StdoutLine("cancel requested for "@ + run_id@)],
{
    one_out(TextOutput::StdoutLine(String::from_str("cancel requested for ").concat(run_id)))
}

/// The request that creates an agent on one repository from a prompt
/// without images, choosing whether to open a pull request.
pub fn quickstart_request(
    prompt: String,
    repo_url: String,
    starting_ref: Option<String>,
    model: Option<String>,
    auto_create_pr: bool,
    branch_name: Option<String>,
) -> (r: CreateAgentRequest)
    ensures
        r.prompt.text == prompt,
        r.prompt.images@.len() == 0,
        match model {
            Some(id) => r.model matches Some(m) && m.id == id,
            None => r.model is None,
        },
        r.repos@.len() == 1,
        r.repos@[0].url == Some(repo_url),
        r.repos@[0].starting_ref == starting_ref,
        r.repos@[0].pr_url is None,
        r.branch_name == branch_name,
        r.auto_generate_branch is None,
        r.auto_create_pr == Some(auto_create_pr),
        r.skip_reviewer_request is None,
{
    let model = match model {
        Some(id) => Some(ModelSelection { id }),
        None => None,
    };
    let mut repos: Vec<RepositoryRef> = Vec::new();
    repos.push(RepositoryRef { url: Some(repo_url), starting_ref, pr_url: None });
    CreateAgentRequest {
        prompt: Prompt { text: prompt, images: Vec::new() },
        model,
        repos,
        branch_name,
        auto_generate_branch: None,
        auto_create_pr: Some(auto_create_pr),
        skip_reviewer_request: None,
    }
}

/// The request that sends a follow-up prompt without images.
pub fn prompt_run_request(prompt: String) -> (r: CreateRunRequest)
    ensures
        r.prompt.text == prompt,
        r.prompt.images@.len() == 0,
{
    CreateRunRequest { prompt: Prompt { text: prompt, images: Vec::new() } }
}

} // verus!
