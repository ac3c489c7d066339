use cursor_sdk::console::prompt_run_request;
use cursor_sdk::{
    ApiRequest, CursorClient, CursorClientBuilder, CursorError, HttpMethod, ListAgentsParams,
    ListRunsParams,
};

fn pairs(v: &[(String, String)]) -> Vec<(&str, &str)> {
    v.iter().map(|(k, x)| (k.as_str(), x.as_str())).collect()
}

#[test]
fn builder_defaults_to_public_api() {
    let client = CursorClient::builder().api_key("test-key").build().expect("client");
    assert_eq!(client.base_url(), "https://api.cursor.com");
    assert_eq!(client.api_key(), "test-key");
    assert_eq!(client.url("/v1/me"), "https://api.cursor.com/v1/me");
}

#[test]
fn builder_without_api_key_is_refused() {
    let result = CursorClientBuilder::new().base_url("http://localhost:1").build();
    assert!(matches!(result, Err(CursorError::MissingApiKey)));
}

#[test]
fn builder_trims_trailing_slashes_of_base_url() {
    let client = CursorClient::builder()
        .api_key("test-key")
        .base_url("http://127.0.0.1:8080//")
        .user_agent("tests/1.0")
        .build()
        .expect("client");
    assert_eq!(client.base_url(), "http://127.0.0.1:8080");
    assert_eq!(client.url("/v1/agents"), "http://127.0.0.1:8080/v1/agents");
}

#[test]
fn invalid_user_agent_fails_as_http_error() {
    let result = CursorClient::builder()
        .api_key("test-key")
        .user_agent("bad\nagent")
        .build();
    assert!(matches!(result, Err(CursorError::Http(_))));
}

#[test]
fn list_agents_sends_basic_auth_and_query_params() {
    // The client authenticates with its key as the basic-auth user name.
    let client = CursorClient::builder()
        .api_key("test-key")
        .base_url("http://127.0.0.1:9")
        .build()
        .expect("client");
    assert_eq!(client.api_key(), "test-key");
    let request = ApiRequest::list_agents(&ListAgentsParams {
        limit: Some(5),
        cursor: Some("cursor-1".to_owned()),
        pr_url: Some("https://github.com/acme/repo/pull/1".to_owned()),
        include_archived: Some(false),
    });
    assert_eq!(request.method, HttpMethod::Get);
    assert_eq!(request.path, "/v1/agents");
    assert_eq!(client.url(&request.path), "http://127.0.0.1:9/v1/agents");
    assert_eq!(
        pairs(&request.query),
        vec![
            ("limit", "5"),
            ("cursor", "cursor-1"),
            ("prUrl", "https://github.com/acme/repo/pull/1"),
            ("includeArchived", "false"),
        ]
    );
    assert!(request.headers.is_empty());
}

#[test]
fn unset_list_filters_are_left_out() {
    let request = ApiRequest::list_agents(&ListAgentsParams::default());
    assert!(request.query.is_empty());
    let request = ApiRequest::list_agents(&ListAgentsParams {
        include_archived: Some(true),
        ..ListAgentsParams::default()
    });
    assert_eq!(pairs(&request.query), vec![("includeArchived", "true")]);
    let request = ApiRequest::list_runs(
        "bc-1",
        &ListRunsParams { limit: Some(20), cursor: None },
    );
    assert_eq!(request.path, "/v1/agents/bc-1/runs");
    assert_eq!(pairs(&request.query), vec![("limit", "20")]);
    assert!(ApiRequest::list_runs("bc-1", &ListRunsParams::default()).query.is_empty());
}

#[test]
fn create_run_posts_prompt_payload() {
    let request = ApiRequest::create_run("bc-1");
    assert_eq!(request.method, HttpMethod::Post);
    assert_eq!(request.path, "/v1/agents/bc-1/runs");
    let body = prompt_run_request("Hello".to_owned());
    assert_eq!(body.prompt.text, "Hello");
    assert!(body.prompt.images.is_empty());
}

#[test]
fn build_succeeds_exactly_for_valid_header_values() {
    for agent in ["cursor-sdk/0.1.0", "tab\there", "héllo", ""] {
        assert!(CursorClient::builder().api_key("k").user_agent(agent).build().is_ok(), "{agent:?}");
    }
    for agent in ["bad\nagent", "del\u{7f}", "nul\u{0}"] {
        assert!(
            matches!(
                CursorClient::builder().api_key("k").user_agent(agent).build(),
                Err(CursorError::Http(_))
            ),
            "{agent:?}"
        );
    }
}

#[test]
fn endpoints_have_the_documented_paths() {
    let cases: Vec<(ApiRequest, HttpMethod, &str)> = vec![
        (ApiRequest::me(), HttpMethod::Get, "/v1/me"),
        (ApiRequest::list_models(), HttpMethod::Get, "/v1/models"),
        (ApiRequest::list_repositories(), HttpMethod::Get, "/v1/repositories"),
        (ApiRequest::create_agent(), HttpMethod::Post, "/v1/agents"),
        (ApiRequest::get_agent("bc-1"), HttpMethod::Get, "/v1/agents/bc-1"),
        (ApiRequest::get_run("bc-1", "run-1"), HttpMethod::Get, "/v1/agents/bc-1/runs/run-1"),
        (
            ApiRequest::cancel_run("bc-1", "run-1"),
            HttpMethod::Post,
            "/v1/agents/bc-1/runs/run-1/cancel",
        ),
        (ApiRequest::list_artifacts("bc-1"), HttpMethod::Get, "/v1/agents/bc-1/artifacts"),
        (ApiRequest::archive_agent("bc-1"), HttpMethod::Post, "/v1/agents/bc-1/archive"),
        (ApiRequest::unarchive_agent("bc-1"), HttpMethod::Post, "/v1/agents/bc-1/unarchive"),
        (ApiRequest::delete_agent("bc-1"), HttpMethod::Delete, "/v1/agents/bc-1"),
    ];
    for (request, method, path) in cases {
        assert_eq!(request.method, method);
        assert_eq!(request.path, path);
        assert!(request.query.is_empty());
        assert!(request.headers.is_empty());
    }
}

#[test]
fn artifact_download_url_asks_for_the_path() {
    let request = ApiRequest::download_artifact_url("bc-1", "out/report.md");
    assert_eq!(request.method, HttpMethod::Get);
    assert_eq!(request.path, "/v1/agents/bc-1/artifacts/download");
    assert_eq!(pairs(&request.query), vec![("path", "out/report.md")]);
}

#[test]
fn stream_request_resumes_after_the_last_event_id() {
    let request = ApiRequest::stream_run("bc-1", "run-1", Some("evt-0"));
    assert_eq!(request.method, HttpMethod::Get);
    assert_eq!(request.path, "/v1/agents/bc-1/runs/run-1/stream");
    assert_eq!(
        pairs(&request.headers),
        vec![("accept", "text/event-stream"), ("Last-Event-ID", "evt-0")]
    );
    let fresh = ApiRequest::stream_run("bc-1", "run-1", None);
    assert_eq!(pairs(&fresh.headers), vec![("accept", "text/event-stream")]);
}

#[test]
fn from_http_keeps_key_and_trimmed_address() {
    let client = CursorClient::from_http(Ok(reqwest::Client::new()), "k".to_owned(), "http://h/")
        .expect("client");
    assert_eq!(client.api_key(), "k");
    assert_eq!(client.base_url(), "http://h");
    let copy = client.clone();
    assert_eq!(copy.api_key(), "k");
    assert_eq!(copy.url("/v1/me"), "http://h/v1/me");

    let failure = reqwest::Client::builder().user_agent("bad\nagent").build().unwrap_err();
    let result = CursorClient::from_http(Err(failure), "k".to_owned(), "http://h/");
    assert!(matches!(result, Err(CursorError::Http(_))));
}
