use cursor_sdk::console::{
    agent_done_text, agents_text, artifact_url_text, artifacts_text, cancel_requested_text,
    final_status_text, follow_stream_event, me_text, models_text, prompt_run_request,
    quickstart_request, render_stream_message_text, render_stream_text, repositories_text,
    run_created_text, runs_text, wait_summary_text, RenderError, TextOutput,
};
use cursor_sdk::{
    AgentSummary, ApiKeyInfo, Artifact, DownloadArtifactResponse, EnvironmentInfo, ListResponse,
    ModelListResponse, RepositoryItem, RepositoryListResponse, Run, RunStreamEvent,
    RunStreamMessage, WaitForRunResult,
};

fn shown(out: &[TextOutput]) -> Vec<String> {
    out.iter()
        .map(|o| match o {
            TextOutput::Stdout(s) => format!("out:{s}"),
            TextOutput::StdoutLine(s) => format!("outln:{s}"),
            TextOutput::StderrLine(s) => format!("errln:{s}"),
        })
        .collect()
}

fn msg(id: Option<&str>, event: RunStreamEvent) -> RunStreamMessage {
    RunStreamMessage { id: id.map(str::to_owned), event }
}

fn run(status: &str) -> Run {
    Run {
        id: "run-1".to_owned(),
        agent_id: "bc-1".to_owned(),
        status: status.to_owned(),
        created_at: "2026-04-13T18:30:00.000Z".to_owned(),
        updated_at: "2026-04-13T18:32:00.000Z".to_owned(),
    }
}

#[test]
fn stream_messages_render_as_text() {
    let text = |m: RunStreamMessage| shown(&render_stream_message_text(&m).ok().unwrap());
    assert_eq!(
        text(msg(Some("e1"), RunStreamEvent::Assistant { text: "hello".to_owned() })),
        vec!["out:hello"]
    );
    assert_eq!(
        text(msg(None, RunStreamEvent::Thinking { text: "hmm".to_owned() })),
        vec!["errln:[thinking] hmm"]
    );
    assert_eq!(
        text(msg(None, RunStreamEvent::Status {
            run_id: "run-1".to_owned(),
            status: "RUNNING".to_owned(),
        })),
        vec!["errln:[status] RUNNING"]
    );
    assert_eq!(
        text(msg(Some("e3"), RunStreamEvent::Result {
            run_id: "run-1".to_owned(),
            status: "FINISHED".to_owned(),
        })),
        vec!["errln:\n[result:e3] FINISHED"]
    );
    assert_eq!(
        text(msg(None, RunStreamEvent::Result {
            run_id: "run-1".to_owned(),
            status: "ERROR".to_owned(),
        })),
        vec!["errln:\n[result] ERROR"]
    );
    assert_eq!(text(msg(Some("e4"), RunStreamEvent::Done)), vec!["errln:[done:e4]"]);
    assert!(text(msg(None, RunStreamEvent::Done)).is_empty());
    assert!(text(msg(Some("e5"), RunStreamEvent::Heartbeat)).is_empty());
}

#[test]
fn payload_events_show_their_json() {
    let payload = serde_json::from_str::<serde_json::Value>(r#"{ "a" : [1, 2] }"#).unwrap();
    let tool = msg(Some("e6"), RunStreamEvent::ToolCall { payload: payload.clone() });
    assert_eq!(
        shown(&render_stream_message_text(&tool).ok().unwrap()),
        vec![r#"errln:[tool_call:e6] {"a":[1,2]}"#]
    );
    let unknown = msg(None, RunStreamEvent::Unknown { name: "custom".to_owned(), payload });
    assert_eq!(
        shown(&render_stream_message_text(&unknown).ok().unwrap()),
        vec![r#"errln:[unknown] custom {"a":[1,2]}"#]
    );
    let tool = msg(None, RunStreamEvent::ToolCall {
        payload: serde_json::Value::Bool(true),
    });
    assert_eq!(
        shown(&render_stream_text(&tool, "PAYLOAD").ok().unwrap()),
        vec!["errln:[tool_call] PAYLOAD"]
    );
}

#[test]
fn stream_errors_become_failures() {
    let with_code = msg(None, RunStreamEvent::Error {
        code: Some("rate_limited".to_owned()),
        message: "slow down".to_owned(),
    });
    match render_stream_message_text(&with_code) {
        Err(RenderError::Stream(text)) => assert_eq!(text, "rate_limited: slow down"),
        other => panic!("unexpected: {other:?}"),
    }
    let without_code = msg(None, RunStreamEvent::Error { code: None, message: "boom".to_owned() });
    match render_stream_message_text(&without_code) {
        Err(RenderError::Stream(text)) => assert_eq!(text, "stream_error: boom"),
        other => panic!("unexpected: {other:?}"),
    }
}

#[test]
fn following_a_stream_stops_after_done() {
    let result = RunStreamEvent::Result { run_id: "r".to_owned(), status: "FINISHED".to_owned() };
    assert_eq!(follow_stream_event(false, &result), (true, false));
    assert_eq!(follow_stream_event(true, &RunStreamEvent::Heartbeat), (true, false));
    assert_eq!(follow_stream_event(false, &RunStreamEvent::Done), (false, true));
    assert_eq!(follow_stream_event(false, &RunStreamEvent::Heartbeat), (false, false));
}

#[test]
fn final_status_line_names_the_status() {
    assert_eq!(shown(&final_status_text(&run("FINISHED"))), vec!["errln:[final-status] FINISHED"]);
}

#[test]
fn wait_summary_lists_status_id_and_fallback() {
    let result = WaitForRunResult {
        run: run("FINISHED"),
        stream_messages: vec![msg(Some("evt-9"), RunStreamEvent::Done)],
        last_event_id: Some("evt-9".to_owned()),
        used_polling_fallback: true,
    };
    assert_eq!(
        shown(&wait_summary_text(&result)),
        vec!["errln:[final-status] FINISHED", "errln:[last-event-id] evt-9", "errln:[fallback] polling"]
    );
    let quiet = WaitForRunResult {
        run: run("CANCELLED"),
        stream_messages: Vec::new(),
        last_event_id: None,
        used_polling_fallback: false,
    };
    assert_eq!(shown(&wait_summary_text(&quiet)), vec!["errln:[final-status] CANCELLED"]);
}

#[test]
fn created_runs_are_announced() {
    assert_eq!(
        shown(&run_created_text("bc-1", "run-1", "https://cursor.com/agents?id=bc-1")),
        vec!["outln:agentId: bc-1", "outln:runId: run-1", "outln:agentUrl: https://cursor.com/agents?id=bc-1"]
    );
    assert_eq!(
        shown(&run_created_text("bc-1", "run-2", "")),
        vec!["outln:agentId: bc-1", "outln:runId: run-2"]
    );
}

#[test]
fn listings_render_one_line_per_item() {
    let me = ApiKeyInfo {
        api_key_name: "ci".to_owned(),
        created_at: "2026-01-01".to_owned(),
        user_email: Some("a@b.c".to_owned()),
    };
    assert_eq!(
        shown(&me_text(&me)),
        vec!["outln:apiKeyName: ci", "outln:createdAt: 2026-01-01", "outln:userEmail: a@b.c"]
    );
    let models = ModelListResponse { items: vec!["composer-2".to_owned(), "gpt".to_owned()] };
    assert_eq!(shown(&models_text(&models)), vec!["outln:composer-2", "outln:gpt"]);
    let repos = RepositoryListResponse {
        items: vec![RepositoryItem { url: "https://github.com/cursor/cookbook".to_owned() }],
    };
    assert_eq!(shown(&repositories_text(&repos)), vec!["outln:https://github.com/cursor/cookbook"]);
    let agents = ListResponse {
        items: vec![AgentSummary {
            id: "bc-1".to_owned(),
            name: "demo".to_owned(),
            status: "ACTIVE".to_owned(),
            env: EnvironmentInfo { kind: "cloud".to_owned(), name: None },
            url: "https://cursor.com/agents?id=bc-1".to_owned(),
            created_at: "c".to_owned(),
            updated_at: "u".to_owned(),
            latest_run_id: None,
        }],
        next_cursor: Some("cursor-2".to_owned()),
    };
    assert_eq!(
        shown(&agents_text(&agents)),
        vec!["outln:bc-1\tACTIVE\tdemo\thttps://cursor.com/agents?id=bc-1", "outln:nextCursor\tcursor-2"]
    );
    let artifacts = ListResponse {
        items: vec![Artifact {
            path: "out.md".to_owned(),
            size_bytes: 1024,
            updated_at: "t".to_owned(),
        }],
        next_cursor: None,
    };
    assert_eq!(shown(&artifacts_text(&artifacts)), vec!["outln:out.md\t1024\tt"]);
    let url = DownloadArtifactResponse { url: "https://x/y".to_owned(), expires_at: "soon".to_owned() };
    assert_eq!(shown(&artifact_url_text(&url)), vec!["outln:url: https://x/y", "outln:expiresAt: soon"]);
    let runs = ListResponse { items: vec![run("RUNNING")], next_cursor: None };
    assert_eq!(shown(&runs_text(&runs)), vec!["outln:run-1\tRUNNING\t2026-04-13T18:32:00.000Z"]);
    assert_eq!(shown(&agent_done_text("archived", "bc-1")), vec!["outln:archived bc-1"]);
    assert_eq!(shown(&cancel_requested_text("run-1")), vec!["outln:cancel requested for run-1"]);
}

#[test]
fn quickstart_builds_a_single_repository_request() {
    let request = quickstart_request(
        "Summarize".to_owned(),
        "https://github.com/cursor/cookbook".to_owned(),
        Some("main".to_owned()),
        Some("composer-2".to_owned()),
        false,
        None,
    );
    assert_eq!(request.prompt.text, "Summarize");
    assert!(request.prompt.images.is_empty());
    assert_eq!(request.model.as_ref().map(|m| m.id.as_str()), Some("composer-2"));
    assert_eq!(request.repos.len(), 1);
    assert_eq!(request.repos[0].url.as_deref(), Some("https://github.com/cursor/cookbook"));
    assert_eq!(request.repos[0].starting_ref.as_deref(), Some("main"));
    assert_eq!(request.auto_create_pr, Some(false));
    assert!(request.branch_name.is_none());
    let follow_up = prompt_run_request("Also list examples".to_owned());
    assert_eq!(follow_up.prompt.text, "Also list examples");
}
