use vstd::prelude::*;

verus! {

/// The view of an optional string: the characters it holds, if any.
pub open spec fn opt_view(o: Option<String>) -> Option<Seq<char>> {
    match o {
        Some(s) => Some(s@),
        None => None,
    }
}

/// The statuses after which a run makes no further progress.
pub open spec fn is_terminal_status(status: Seq<char>) -> bool {
    ||| status == "FINISHED"@
    ||| status == "ERROR"@
    ||| status == "CANCELLED"@
    ||| status == "EXPIRED"@
}

/// Whether `s` holds exactly the characters of `lit`.
pub fn string_is(s: &String, lit: &str) -> (b: bool)
    ensures
        b == (s@ == lit@),
{
    let other = String::from_str(lit);
    s.eq(&other)
}

/// Whether `a` and `b` hold the same characters.
pub fn str_eq(a: &str, b: &str) -> (r: bool)
    ensures
        r == (a@ == b@),
{
    let x = String::from_str(a);
    let y = String::from_str(b);
    x.eq(&y)
}

/// A copy of an optional string with the same characters.
pub fn clone_opt_string(o: &Option<String>) -> (r: Option<String>)
    ensures
        opt_view(r) == opt_view(*o),
{
    match o {
        Some(s) => Some(s.clone()),
        None => None,
    }
}

/// A span of time, counted in nanoseconds.
#[derive(Clone, Copy, Debug, PartialEq, Eq, Structural)]
pub struct Duration {
    nanos: u128,
}

/// Nanoseconds in a second and in a millisecond.
pub const NANOS_PER_SEC: u128 = 1_000_000_000;
pub const NANOS_PER_MILLI: u128 = 1_000_000;

impl View for Duration {
    type V = nat;

    closed spec fn view(&self) -> nat {
        self.nanos as nat
    }
}

impl Duration {
    /// The span of `secs` whole seconds.
    pub fn from_secs(secs: u64) -> (d: Duration)
        ensures
            d@ == secs * NANOS_PER_SEC,
    {
        Duration { nanos: (secs as u128) * NANOS_PER_SEC }
    }

    /// The span of `millis` milliseconds.
    pub fn from_millis(millis: u64) -> (d: Duration)
        ensures
            d@ == millis * NANOS_PER_MILLI,
    {
        Duration { nanos: (millis as u128) * NANOS_PER_MILLI }
    }

    /// The span of `secs` seconds and `subsec_nanos` nanoseconds.
    pub fn new(secs: u64, subsec_nanos: u32) -> (d: Duration)
        ensures
            d@ == secs * NANOS_PER_SEC + subsec_nanos,
    {
        Duration { nanos: (secs as u128) * NANOS_PER_SEC + (subsec_nanos as u128) }
    }

    /// The whole number of milliseconds in the span, rounded down.
    pub fn as_millis(&self) -> (m: u128)
        ensures
            m == self@ / (NANOS_PER_MILLI as nat),
    {
        self.nanos / NANOS_PER_MILLI
    }

    /// The number of nanoseconds in the span.
    pub fn as_nanos(&self) -> (n: u128)
        ensures
            n == self@,
    {
        self.nanos
    }

    /// Whether this span is at least as long as `other`.
    pub fn at_least(&self, other: &Duration) -> (b: bool)
        ensures
            b == (self@ >= other@),
    {
        self.nanos >= other.nanos
    }
}

/// A span given in milliseconds is reported back in the same number of
/// milliseconds: the time limit that a wait reports on timing out is the
/// one it was given.
pub proof fn lemma_millis_round_trip(millis: u64)
    ensures
        ((millis as nat) * (NANOS_PER_MILLI as nat)) / (NANOS_PER_MILLI as nat) == millis as nat,
{
    assert(((millis as nat) * (NANOS_PER_MILLI as nat)) / (NANOS_PER_MILLI as nat) == millis as nat) by (nonlinear_arith);
}

/// Exactly four statuses are terminal, compared character by character:
/// `FINISHED`, `ERROR`, `CANCELLED` and `EXPIRED`; a run in any other
/// status, such as `RUNNING` or `CREATING`, is still going.
pub proof fn law_terminal_statuses(status: Seq<char>)
    ensures
        is_terminal_status(status) <==> (status == "FINISHED"@ || status == "ERROR"@ || status
            == "CANCELLED"@ || status == "EXPIRED"@),
        !is_terminal_status("RUNNING"@),
        !is_terminal_status("CREATING"@),
{
    reveal_strlit("FINISHED");
    reveal_strlit("ERROR");
    reveal_strlit("CANCELLED");
    reveal_strlit("EXPIRED");
    reveal_strlit("RUNNING");
    reveal_strlit("CREATING");
    assert("RUNNING"@[0] != "FINISHED"@[0] && "RUNNING"@[0] != "ERROR"@[0]);
    assert("RUNNING"@.len() != "CANCELLED"@.len() && "RUNNING"@[0] != "EXPIRED"@[0]);
    assert("CREATING"@[0] != "FINISHED"@[0] && "CREATING"@[0] != "ERROR"@[0]);
    assert("CREATING"@.len() != "CANCELLED"@.len() && "CREATING"@[0] != "EXPIRED"@[0]);
}

/// What `GET /v1/me` tells about the API key in use.
#[derive(Clone, Debug)]
pub struct ApiKeyInfo {
    pub api_key_name: String,
    pub created_at: String,
    pub user_email: Option<String>,
}

/// One page of a listing, with the cursor of the next page if there is one.
#[derive(Clone, Debug)]
pub struct ListResponse<T> {
    pub items: Vec<T>,
    pub next_cursor: Option<String>,
}

/// The models that agents may use.
#[derive(Clone, Debug)]
pub struct ModelListResponse {
    pub items: Vec<String>,
}

/// The repositories that agents may work on.
#[derive(Clone, Debug)]
pub struct RepositoryListResponse {
    pub items: Vec<RepositoryItem>,
}

#[derive(Clone, Debug)]
pub struct RepositoryItem {
    pub url: String,
}

/// Where an agent runs.
#[derive(Clone, Debug)]
pub struct EnvironmentInfo {
    pub kind: String,
    pub name: Option<String>,
}

#[derive(Clone, Debug)]
pub struct RepositoryRef {
    pub url: Option<String>,
    pub starting_ref: Option<String>,
    pub pr_url: Option<String>,
}

#[derive(Clone, Debug)]
pub struct ModelSelection {
    pub id: String,
}

#[derive(Clone, Debug)]
pub struct ImageInput {
    pub data: String,
    pub mime_type: String,
}

/// The instruction handed to an agent, with optional images.
#[derive(Clone, Debug)]
pub struct Prompt {
    pub text: String,
    pub images: Vec<ImageInput>,
}

#[derive(Clone, Debug)]
pub struct AgentSummary {
    pub id: String,
    pub name: String,
    pub status: String,
    pub env: EnvironmentInfo,
    pub url: String,
    pub created_at: String,
    pub updated_at: String,
    pub latest_run_id: Option<String>,
}

#[derive(Clone, Debug)]
pub struct Agent {
    pub id: String,
    pub name: String,
    pub status: String,
    pub env: EnvironmentInfo,
    pub repos: Vec<RepositoryRef>,
    pub branch_name: Option<String>,
    pub auto_generate_branch: Option<bool>,
    pub auto_create_pr: Option<bool>,
    pub skip_reviewer_request: Option<bool>,
    pub url: String,
    pub created_at: String,
    pub updated_at: String,
    pub latest_run_id: Option<String>,
}

/// One execution of a cloud agent.
#[derive(Clone, Debug)]
pub struct Run {
    pub id: String,
    pub agent_id: String,
    pub status: String,
    pub created_at: String,
    pub updated_at: String,
}

impl Run {
    /// Whether the run has reached a status it never leaves.
    pub fn is_terminal(&self) -> (b: bool)
        ensures
            b == is_terminal_status(self.status@),
    {
        string_is(&self.status, "FINISHED") || string_is(&self.status, "ERROR")
            || string_is(&self.status, "CANCELLED") || string_is(&self.status, "EXPIRED")
    }
}

#[derive(Clone, Debug)]
pub struct CreateAgentRequest {
    pub prompt: Prompt,
    pub model: Option<ModelSelection>,
    pub repos: Vec<RepositoryRef>,
    pub branch_name: Option<String>,
    pub auto_generate_branch: Option<bool>,
    pub auto_create_pr: Option<bool>,
    pub skip_reviewer_request: Option<bool>,
}

#[derive(Clone, Debug)]
pub struct CreateRunRequest {
    pub prompt: Prompt,
}

#[derive(Clone, Debug)]
pub struct CreateAgentResponse {
    pub agent: Agent,
    pub run: Run,
}

#[derive(Clone, Debug)]
pub struct CreateRunResponse {
    pub run: Run,
}

#[derive(Clone, Debug)]
pub struct Artifact {
    pub path: String,
    pub size_bytes: u64,
    pub updated_at: String,
}

#[derive(Clone, Debug)]
pub struct DownloadArtifactResponse {
    pub url: String,
    pub expires_at: String,
}

/// One event of a run's event stream, with the id the server gave it.
#[derive(Debug)]
pub struct RunStreamMessage {
    pub id: Option<String>,
    pub event: RunStreamEvent,
}

impl Clone for RunStreamMessage {
    /// A copy with the same id and an equal event.
    fn clone(&self) -> (c: Self)
        ensures
            opt_view(c.id) == opt_view(self.id),
            same_event(c.event, self.event),
    {
        RunStreamMessage { id: clone_opt_string(&self.id), event: self.event.clone() }
    }
}

/// `a` and `b` are the same kind of event with the same texts and the
/// same payloads.
pub open spec fn same_event(a: RunStreamEvent, b: RunStreamEvent) -> bool {
    match (a, b) {
        (
            RunStreamEvent::Status { run_id: r1, status: s1 },
            RunStreamEvent::Status { run_id: r2, status: s2 },
        ) => r1@ == r2@ && s1@ == s2@,
        (RunStreamEvent::Assistant { text: t1 }, RunStreamEvent::Assistant { text: t2 }) => t1@
            == t2@,
        (RunStreamEvent::Thinking { text: t1 }, RunStreamEvent::Thinking { text: t2 }) => t1@
            == t2@,
        (RunStreamEvent::ToolCall { payload: p1 }, RunStreamEvent::ToolCall { payload: p2 }) => p1
            == p2,
        (RunStreamEvent::Heartbeat, RunStreamEvent::Heartbeat) => true,
        (
            RunStreamEvent::Result { run_id: r1, status: s1 },
            RunStreamEvent::Result { run_id: r2, status: s2 },
        ) => r1@ == r2@ && s1@ == s2@,
        (
            RunStreamEvent::Error { code: c1, message: m1 },
            RunStreamEvent::Error { code: c2, message: m2 },
        ) => opt_view(c1) == opt_view(c2) && m1@ == m2@,
        (RunStreamEvent::Done, RunStreamEvent::Done) => true,
        (
            RunStreamEvent::Unknown { name: n1, payload: p1 },
            RunStreamEvent::Unknown { name: n2, payload: p2 },
        ) => n1@ == n2@ && p1 == p2,
        _ => false,
    }
}

/// The decoded content of a stream event.
#[derive(Debug)]
pub enum RunStreamEvent {
    Status { run_id: String, status: String },
    Assistant { text: String },
    Thinking { text: String },
    ToolCall { payload: serde_json::Value },
    Heartbeat,
    Result { run_id: String, status: String },
    Error { code: Option<String>, message: String },
    Done,
    Unknown { name: String, payload: serde_json::Value },
}

impl Clone for RunStreamEvent {
    /// A copy of the same kind with the same texts and payloads.
    fn clone(&self) -> (c: Self)
        ensures
            same_event(c, *self),
    {
        match self {
            RunStreamEvent::Status { run_id, status } => RunStreamEvent::Status {
                run_id: run_id.clone(),
                status: status.clone(),
            },
            RunStreamEvent::Assistant { text } => RunStreamEvent::Assistant { text: text.clone() },
            RunStreamEvent::Thinking { text } => RunStreamEvent::Thinking { text: text.clone() },
            RunStreamEvent::ToolCall { payload } => RunStreamEvent::ToolCall {
                payload: crate::json::json_value_clone(payload),
            },
            RunStreamEvent::Heartbeat => RunStreamEvent::Heartbeat,
            RunStreamEvent::Result { run_id, status } => RunStreamEvent::Result {
                run_id: run_id.clone(),
                status: status.clone(),
            },
            RunStreamEvent::Error { code, message } => RunStreamEvent::Error {
                code: clone_opt_string(code),
                message: message.clone(),
            },
            RunStreamEvent::Done => RunStreamEvent::Done,
            RunStreamEvent::Unknown { name, payload } => RunStreamEvent::Unknown {
                name: name.clone(),
                payload: crate::json::json_value_clone(payload),
            },
        }
    }
}

/// How to wait for a run: where to resume its stream, how often and how
/// long to poll once the stream is gone.
#[derive(Clone, Debug)]
pub struct WaitForRunOptions {
    pub last_event_id: Option<String>,
    pub poll_interval: Duration,
    pub timeout: Option<Duration>,
    pub max_poll_attempts: Option<u32>,
}

impl Default for WaitForRunOptions {
    /// Resume from the start, poll every two seconds, with no limits.
    fn default() -> (o: Self)
        ensures
            o.last_event_id is None,
            o.poll_interval@ == 2 * NANOS_PER_SEC,
            o.timeout is None,
            o.max_poll_attempts is None,
    {
        WaitForRunOptions {
            last_event_id: None,
            poll_interval: Duration::from_secs(2),
            timeout: None,
            max_poll_attempts: None,
        }
    }
}

/// The outcome of waiting for a run.
#[derive(Debug)]
pub struct WaitForRunResult {
    pub run: Run,
    pub stream_messages: Vec<RunStreamMessage>,
    pub last_event_id: Option<String>,
    pub used_polling_fallback: bool,
}

impl Clone for WaitForRunResult {
    /// A copy with the same run, equal messages, id and polling flag.
    fn clone(&self) -> (c: Self)
        ensures
            c.run == self.run,
            c.stream_messages@.len() == self.stream_messages@.len(),
            forall|i: int|
                0 <= i < c.stream_messages@.len() ==> opt_view(#[trigger] c.stream_messages@[i].id)
                    == opt_view(self.stream_messages@[i].id) && same_event(
                    c.stream_messages@[i].event,
                    self.stream_messages@[i].event,
                ),
            opt_view(c.last_event_id) == opt_view(self.last_event_id),
            c.used_polling_fallback == self.used_polling_fallback,
    {
        let mut messages: Vec<RunStreamMessage> = Vec::new();
        let n = self.stream_messages.len();
        for i in 0..n
            invariant
                n == self.stream_messages@.len(),
                messages@.len() == i,
                forall|j: int|
                    0 <= j < i ==> opt_view(#[trigger] messages@[j].id) == opt_view(
                        self.stream_messages@[j].id,
                    ) && same_event(messages@[j].event, self.stream_messages@[j].event),
        {
            messages.push(self.stream_messages[i].clone());
        }
        WaitForRunResult {
            run: Run {
                id: self.run.id.clone(),
                agent_id: self.run.agent_id.clone(),
                status: self.run.status.clone(),
                created_at: self.run.created_at.clone(),
                updated_at: self.run.updated_at.clone(),
            },
            stream_messages: messages,
            last_event_id: clone_opt_string(&self.last_event_id),
            used_polling_fallback: self.used_polling_fallback,
        }
    }
}

} // verus!
