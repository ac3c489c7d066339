use vstd::prelude::*;

use crate::client::{ListAgentsParams, ListRunsParams};
use crate::text::{bool_text, bool_to_string, decimal, decimal_digits};
use crate::types::opt_view;

verus! {

/// The HTTP methods that the API uses.
#[derive(Clone, Copy, Debug, PartialEq, Eq, Structural)]
pub enum HttpMethod {
    Get,
    Post,
    Delete,
}

/// An API call described by plain values: its method, its path below the
/// client's address, its query parameters and its extra headers, in order.
/// The client adds basic authentication with its API key and, for
/// `create_agent` and `create_run`, the request value as a JSON body.
#[derive(Clone, Debug)]
pub struct ApiRequest {
    pub method: HttpMethod,
    pub path: String,
    pub query: Vec<(String, String)>,
    pub headers: Vec<(String, String)>,
}

/// The characters of name-value pairs.
pub open spec fn pairs_view(v: Seq<(String, String)>) -> Seq<(Seq<char>, Seq<char>)> {
    v.map_values(|p: (String, String)| (p.0@, p.1@))
}

/// The pair `(key, value)` where a value is given, none otherwise; a query
/// parameter without a value is left out of the URL.
pub open spec fn opt_pair(key: Seq<char>, value: Option<Seq<char>>) -> Seq<(Seq<char>, Seq<char>)> {
    match value {
        Some(v) => seq![(key, v)],
        None => seq![],
    }
}

/// The decimal text of an optional number.
pub open spec fn opt_decimal(n: Option<u32>) -> Option<Seq<char>> {
    match n {
        Some(k) => Some(decimal_digits(k as nat)),
        None => None,
    }
}

/// The text of an optional flag.
pub open spec fn opt_bool_text(b: Option<bool>) -> Option<Seq<char>> {
    match b {
        Some(x) => Some(bool_text(x)),
        None => None,
    }
}

/// The query of an agent listing.
pub open spec fn list_agents_query(p: ListAgentsParams) -> Seq<(Seq<char>, Seq<char>)> {
    opt_pair("limit"@, opt_decimal(p.limit)) + opt_pair("cursor"@, opt_view(p.cursor)) + opt_pair(
        "prUrl"@,
        opt_view(p.pr_url),
    ) + opt_pair("includeArchived"@, opt_bool_text(p.include_archived))
}

/// The query of a run listing.
pub open spec fn list_runs_query(p: ListRunsParams) -> Seq<(Seq<char>, Seq<char>)> {
    opt_pair("limit"@, opt_decimal(p.limit)) + opt_pair("cursor"@, opt_view(p.cursor))
}

/// The path of an agent.
pub open spec fn agent_path(agent_id: Seq<char>) -> Seq<char> {
    "/v1/agents/"@ + agent_id
}

/// The path of a run of an agent.
pub open spec fn run_path(agent_id: Seq<char>, run_id: Seq<char>) -> Seq<char> {
    agent_path(agent_id) + "/runs/"@ + run_id
}

/// The headers of a request for a run's event stream, resuming after
/// `last_event_id` when one is given.
pub open spec fn stream_headers(last_event_id: Option<Seq<char>>) -> Seq<(Seq<char>, Seq<char>)> {
    seq![("accept"@, "text/event-stream"@)] + opt_pair("Last-Event-ID"@, last_event_id)
}

fn push_pair(v: &mut Vec<(String, String)>, key: &str, value: String)
    ensures
        pairs_view(final(v)@) == pairs_view(old(v)@).push((key@, value@)),
{
    v.push((String::from_str(key), value));
    proof {
        assert(pairs_view(v@) =~= pairs_view(old(v)@).push((key@, value@)));
    }
}

fn push_opt_pair(v: &mut Vec<(String, String)>, key: &str, value: Option<String>)
    ensures
        pairs_view(final(v)@) == pairs_view(old(v)@) + opt_pair(key@, opt_view(value)),
{
    match value {
        Some(x) => {
            push_pair(v, key, x);
            assert(pairs_view(v@) =~= pairs_view(old(v)@) + opt_pair(key@, opt_view(value)));
        },
        None => {
            assert(pairs_view(v@) =~= pairs_view(old(v)@) + opt_pair(key@, opt_view(value)));
        },
    }
}

fn opt_decimal_string(n: Option<u32>) -> (r: Option<String>)
    ensures
        opt_view(r) == opt_decimal(n),
{
    match n {
        Some(k) => Some(decimal(k as u64)),
        None => None,
    }
}

fn opt_bool_string(b: Option<bool>) -> (r: Option<String>)
    ensures
        opt_view(r) == opt_bool_text(b),
{
    match b {
        Some(x) => Some(bool_to_string(x)),
        None => None,
    }
}

fn path_of_agent(agent_id: &str) -> (p: String)
    ensures
        p@ == agent_path(agent_id@),
{
    String::from_str("/v1/agents/").concat(agent_id)
}

fn path_of_run(agent_id: &str, run_id: &str) -> (p: String)
    ensures
        p@ == run_path(agent_id@, run_id@),
{
    path_of_agent(agent_id).concat("/runs/").concat(run_id)
}

/// Every path of an agent starts with `/v1/agents/` followed by the agent's
/// id, and every path of a run continues with `/runs/` and the run's id, so
/// different agents are never addressed by the same path. A request for a
/// run's event stream asks for `text/event-stream` and names the event to
/// resume after when one is given, and nothing else.
pub proof fn law_paths_and_stream_headers(
    agent_id: Seq<char>,
    other_agent: Seq<char>,
    run_id: Seq<char>,
    last_event_id: Option<Seq<char>>,
)
    ensures
        agent_path(agent_id) == "/v1/agents/"@ + agent_id,
        run_path(agent_id, run_id) == "/v1/agents/"@ + agent_id + "/runs/"@ + run_id,
        agent_path(agent_id) == agent_path(other_agent) ==> agent_id == other_agent,
        stream_headers(last_event_id) == match last_event_id {
            Some(i) => seq![("accept"@, "text/event-stream"@), ("Last-Event-ID"@, i)],
            None => seq![("accept"@, "text/event-stream"@)],
        },
{
    if agent_path(agent_id) == agent_path(other_agent) {
        let p = "/v1/agents/"@;
        assert(agent_id =~= agent_path(agent_id).subrange(p.len() as int, agent_path(agent_id).len() as int));
        assert(other_agent =~= agent_path(other_agent).subrange(p.len() as int, agent_path(other_agent).len() as int));
    }
    assert(stream_headers(last_event_id) =~= match last_event_id {
        Some(i) => seq![("accept"@, "text/event-stream"@), ("Last-Event-ID"@, i)],
        None => seq![("accept"@, "text/event-stream"@)],
    });
}

/// The number of values among `a`, `b`, `c` and `d` that are set.
pub open spec fn count_set(a: bool, b: bool, c: bool, d: bool) -> int {
    (if a { 1int } else { 0int }) + (if b { 1int } else { 0int }) + (if c { 1int } else { 0int })
        + (if d { 1int } else { 0int })
}

/// A run listing of an agent asks for `/v1/agents/{agent_id}/runs` with
/// exactly the paging that is set: the page size in decimal under
/// `limit`, then the cursor under `cursor`, and no other parameter.
pub proof fn law_run_listing_request(agent_id: Seq<char>, params: ListRunsParams, r: ApiRequest)
    requires
        r.is_call(HttpMethod::Get, agent_path(agent_id) + "/runs"@, list_runs_query(params), seq![]),
    ensures
        r.method == HttpMethod::Get,
        r.path@ == "/v1/agents/"@ + agent_id + "/runs"@,
        pairs_view(r.headers@).len() == 0,
        params.limit matches Some(l) ==> params.cursor matches Some(c) ==> pairs_view(r.query@)
            == seq![("limit"@, decimal_digits(l as nat)), ("cursor"@, c@)],
        params.limit matches Some(l) ==> params.cursor is None ==> pairs_view(r.query@) == seq![
            ("limit"@, decimal_digits(l as nat)),
        ],
        params.cursor matches Some(c) ==> (params.limit is None ==> pairs_view(r.query@) == seq![
            ("cursor"@, c@),
        ]),
        params.limit is None ==> params.cursor is None ==> pairs_view(r.query@).len() == 0,
{
    assert(seq![] + seq![("cursor"@, params.cursor->0@)] =~= seq![("cursor"@, params.cursor->0@)]);
}

/// An agent listing asks for `/v1/agents` with exactly the filters that
/// are set, each once under its key: the page size in decimal under
/// `limit`, the cursor under `cursor`, the pull request under `prUrl` and
/// the archive flag as `true` or `false` under `includeArchived`.
pub proof fn law_agent_listing_request(params: ListAgentsParams, r: ApiRequest)
    requires
        r.is_call(HttpMethod::Get, "/v1/agents"@, list_agents_query(params), seq![]),
    ensures
        r.method == HttpMethod::Get,
        r.path@ == "/v1/agents"@,
        pairs_view(r.query@).len() == count_set(
            params.limit is Some,
            params.cursor is Some,
            params.pr_url is Some,
            params.include_archived is Some,
        ),
        params.limit matches Some(l) ==> pairs_view(r.query@).contains(
            ("limit"@, decimal_digits(l as nat)),
        ),
        params.cursor matches Some(c) ==> pairs_view(r.query@).contains(("cursor"@, c@)),
        params.pr_url matches Some(u) ==> pairs_view(r.query@).contains(("prUrl"@, u@)),
        params.include_archived matches Some(b) ==> pairs_view(r.query@).contains(
            ("includeArchived"@, if b {
                "true"@
            } else {
                "false"@
            }),
        ),
{
    let q = pairs_view(r.query@);
    let a = opt_pair("limit"@, opt_decimal(params.limit));
    let b = opt_pair("cursor"@, opt_view(params.cursor));
    let c = opt_pair("prUrl"@, opt_view(params.pr_url));
    let d = opt_pair("includeArchived"@, opt_bool_text(params.include_archived));
    assert(q == a + b + c + d);
    if params.limit is Some {
        assert(q[0] == a[0]);
    }
    if params.cursor is Some {
        assert(q[a.len() as int] == b[0]);
    }
    if params.pr_url is Some {
        assert(q[(a.len() + b.len()) as int] == c[0]);
    }
    if params.include_archived is Some {
        assert(q[(a.len() + b.len() + c.len()) as int] == d[0]);
    }
}

impl ApiRequest {
    /// Whether this request is the call `method path?query` with `headers`.
    pub open spec fn is_call(
        self,
        method: HttpMethod,
        path: Seq<char>,
        query: Seq<(Seq<char>, Seq<char>)>,
        headers: Seq<(Seq<char>, Seq<char>)>,
    ) -> bool {
        &&& self.method == method
        &&& self.path@ == path
        &&& pairs_view(self.query@) == query
        &&& pairs_view(self.headers@) == headers
    }

    /// A call without query or extra headers.
    fn plain(method: HttpMethod, path: String) -> (r: ApiRequest)
        ensures
            r.is_call(method, path@, seq![], seq![]),
    {
        let r = ApiRequest { method, path, query: Vec::new(), headers: Vec::new() };
        assert(pairs_view(r.query@) =~= seq![]);
        assert(pairs_view(r.headers@) =~= seq![]);
        r
    }

    /// `GET /v1/me`: the API key in use.
    pub fn me() -> (r: ApiRequest)
        ensures
            r.is_call(HttpMethod::Get, "/v1/me"@, seq![], seq![]),
    {
        Self::plain(HttpMethod::Get, String::from_str("/v1/me"))
    }

    /// `GET /v1/models`.
    pub fn list_models() -> (r: ApiRequest)
        ensures
            r.is_call(HttpMethod::Get, "/v1/models"@, seq![], seq![]),
    {
        Self::plain(HttpMethod::Get, String::from_str("/v1/models"))
    }

    /// `GET /v1/repositories`.
    pub fn list_repositories() -> (r: ApiRequest)
        ensures
            r.is_call(HttpMethod::Get, "/v1/repositories"@, seq![], seq![]),
    {
        Self::plain(HttpMethod::Get, String::from_str("/v1/repositories"))
    }

    /// `POST /v1/agents`, with the agent request as body.
    pub fn create_agent() -> (r: ApiRequest)
        ensures
            r.is_call(HttpMethod::Post, "/v1/agents"@, seq![], seq![]),
    {
        Self::plain(HttpMethod::Post, String::from_str("/v1/agents"))
    }

    /// `GET /v1/agents` with the filters that are set.
    pub fn list_agents(params: &ListAgentsParams) -> (r: ApiRequest)
        ensures
            r.is_call(HttpMethod::Get, "/v1/agents"@, list_agents_query(*params), seq![]),
    {
        let mut query: Vec<(String, String)> = Vec::new();
        assert(pairs_view(query@) =~= seq![]);
        push_opt_pair(&mut query, "limit", opt_decimal_string(params.limit));
        push_opt_pair(&mut query, "cursor", crate::types::clone_opt_string(&params.cursor));
        push_opt_pair(&mut query, "prUrl", crate::types::clone_opt_string(&params.pr_url));
        push_opt_pair(&mut query, "includeArchived", opt_bool_string(params.include_archived));
        assert(pairs_view(query@) =~= list_agents_query(*params));
        let r = ApiRequest {
            method: HttpMethod::Get,
            path: String::from_str("/v1/agents"),
            query,
            headers: Vec::new(),
        };
        assert(pairs_view(r.headers@) =~= seq![]);
        r
    }

    /// `GET /v1/agents/{agent_id}`.
    pub fn get_agent(agent_id: &str) -> (r: ApiRequest)
        ensures
            r.is_call(HttpMethod::Get, agent_path(agent_id@), seq![], seq![]),
    {
        Self::plain(HttpMethod::Get, path_of_agent(agent_id))
    }

    /// `POST /v1/agents/{agent_id}/runs`, with the run request as body.
    pub fn create_run(agent_id: &str) -> (r: ApiRequest)
        ensures
            r.is_call(HttpMethod::Post, agent_path(agent_id@) + "/runs"@, seq![], seq![]),
    {
        Self::plain(HttpMethod::Post, path_of_agent(agent_id).concat("/runs"))
    }

    /// `GET /v1/agents/{agent_id}/runs` with the paging that is set.
    pub fn list_runs(agent_id: &str, params: &ListRunsParams) -> (r: ApiRequest)
        ensures
            r.is_call(
                HttpMethod::Get,
                agent_path(agent_id@) + "/runs"@,
                list_runs_query(*params),
                seq![],
            ),
    {
        let mut query: Vec<(String, String)> = Vec::new();
        assert(pairs_view(query@) =~= seq![]);
        push_opt_pair(&mut query, "limit", opt_decimal_string(params.limit));
        push_opt_pair(&mut query, "cursor", crate::types::clone_opt_string(&params.cursor));
        assert(pairs_view(query@) =~= list_runs_query(*params));
        let r = ApiRequest {
            method: HttpMethod::Get,
            path: path_of_agent(agent_id).concat("/runs"),
            query,
            headers: Vec::new(),
        };
        assert(pairs_view(r.headers@) =~= seq![]);
        r
    }

    /// `GET /v1/agents/{agent_id}/runs/{run_id}`.
    pub fn get_run(agent_id: &str, run_id: &str) -> (r: ApiRequest)
        ensures
            r.is_call(HttpMethod::Get, run_path(agent_id@, run_id@), seq![], seq![]),
    {
        Self::plain(HttpMethod::Get, path_of_run(agent_id, run_id))
    }

    /// `POST /v1/agents/{agent_id}/runs/{run_id}/cancel`.
    pub fn cancel_run(agent_id: &str, run_id: &str) -> (r: ApiRequest)
        ensures
            r.is_call(HttpMethod::Post, run_path(agent_id@, run_id@) + "/cancel"@, seq![], seq![]),
    {
        Self::plain(HttpMethod::Post, path_of_run(agent_id, run_id).concat("/cancel"))
    }

    /// `GET /v1/agents/{agent_id}/artifacts`.
    pub fn list_artifacts(agent_id: &str) -> (r: ApiRequest)
        ensures
            r.is_call(HttpMethod::Get, agent_path(agent_id@) + "/artifacts"@, seq![], seq![]),
    {
        Self::plain(HttpMethod::Get, path_of_agent(agent_id).concat("/artifacts"))
    }

    /// `GET /v1/agents/{agent_id}/artifacts/download?path={path}`.
    pub fn download_artifact_url(agent_id: &str, path: &str) -> (r: ApiRequest)
        ensures
            r.is_call(
                HttpMethod::Get,
                agent_path(agent_id@) + "/artifacts/download"@,
                seq![("path"@, path@)],
                seq![],
            ),
    {
        let mut query: Vec<(String, String)> = Vec::new();
        assert(pairs_view(query@) =~= seq![]);
        push_pair(&mut query, "path", String::from_str(path));
        assert(pairs_view(query@) =~= seq![("path"@, path@)]);
        let r = ApiRequest {
            method: HttpMethod::Get,
            path: path_of_agent(agent_id).concat("/artifacts/download"),
            query,
            headers: Vec::new(),
        };
        assert(pairs_view(r.headers@) =~= seq![]);
        r
    }

    /// `POST /v1/agents/{agent_id}/archive`.
    pub fn archive_agent(agent_id: &str) -> (r: ApiRequest)
        ensures
            r.is_call(HttpMethod::Post, agent_path(agent_id@) + "/archive"@, seq![], seq![]),
    {
        Self::plain(HttpMethod::Post, path_of_agent(agent_id).concat("/archive"))
    }

    /// `POST /v1/agents/{agent_id}/unarchive`.
    pub fn unarchive_agent(agent_id: &str) -> (r: ApiRequest)
        ensures
            r.is_call(HttpMethod::Post, agent_path(agent_id@) + "/unarchive"@, seq![], seq![]),
    {
        Self::plain(HttpMethod::Post, path_of_agent(agent_id).concat("/unarchive"))
    }

    /// `DELETE /v1/agents/{agent_id}`.
    pub fn delete_agent(agent_id: &str) -> (r: ApiRequest)
        ensures
            r.is_call(HttpMethod::Delete, agent_path(agent_id@), seq![], seq![]),
    {
        Self::plain(HttpMethod::Delete, path_of_agent(agent_id))
    }

    /// `GET /v1/agents/{agent_id}/runs/{run_id}/stream`, asking for
    /// server-sent events and resuming after `last_event_id` if given.
    pub fn stream_run(agent_id: &str, run_id: &str, last_event_id: Option<&str>) -> (r: ApiRequest)
        ensures
            r.is_call(
                HttpMethod::Get,
                run_path(agent_id@, run_id@) + "/stream"@,
                seq![],
                stream_headers(
                    match last_event_id {
                        Some(id) => Some(id@),
                        None => None,
                    },
                ),
            ),
    {
        let mut headers: Vec<(String, String)> = Vec::new();
        assert(pairs_view(headers@) =~= seq![]);
        push_pair(&mut headers, "accept", String::from_str("text/event-stream"));
        let last: Option<String> = match last_event_id {
            Some(id) => Some(String::from_str(id)),
            None => None,
        };
        push_opt_pair(&mut headers, "Last-Event-ID", last);
        assert(pairs_view(headers@) =~= stream_headers(
            match last_event_id {
                Some(id) => Some(id@),
                None => None,
            },
        ));
        let r = ApiRequest {
            method: HttpMethod::Get,
            path: path_of_run(agent_id, run_id).concat("/stream"),
            query: Vec::new(),
            headers,
        };
        assert(pairs_view(r.query@) =~= seq![]);
        r
    }
}

} // verus!
