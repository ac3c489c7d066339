use vstd::prelude::*;

use crate::error::{CursorError, Result};
use crate::text::{trim_slashes_end, trim_trailing_slashes};

verus! {

/// An HTTP client of `reqwest`, which the library holds and hands out to
/// the code that performs the requests.
#[verifier::external_type_specification]
#[verifier::external_body]
pub struct ExHttpClient(reqwest::Client);

/// The `User-Agent` header value that a `reqwest` client sends with every
/// request.
pub uninterp spec fn http_user_agent(client: reqwest::Client) -> Seq<char>;

/// Whether `s` is a valid HTTP header value: every character is a tab or
/// has a code of at least 32 other than 127 (so every byte of its UTF-8
/// encoding is too).
pub open spec fn header_value_chars(s: Seq<char>) -> bool {
    forall|i: int|
        0 <= i < s.len() ==> (#[trigger] s[i] == '\t' || (s[i] as u32 >= 32 && s[i] as u32
            != 127))
}

/// Builds a `reqwest` client with `reqwest::Client::builder()`, its
/// `user_agent` set to `user_agent`, and `build()`. With this crate's TLS
/// setup (rustls with the ring provider and the built-in root list) and
/// default settings, the build fails exactly when the user agent is not a
/// valid header value; a client that is built sends `user_agent` as its
/// `User-Agent`.
#[verifier::external_body]
fn build_http_client(user_agent: String) -> (r: core::result::Result<reqwest::Client, reqwest::Error>)
    ensures
        r is Ok <==> header_value_chars(user_agent@),
        r matches Ok(c) ==> http_user_agent(c) == user_agent@,
{
    reqwest::Client::builder().user_agent(user_agent).build()
}

/// Calls `<reqwest::Client as Clone>::clone`, which gives a handle to the
/// same connection pool and configuration, and so the same user agent.
#[verifier::external_body]
fn http_client_clone(client: &reqwest::Client) -> (r: reqwest::Client)
    ensures
        http_user_agent(r) == http_user_agent(*client),
{
    client.clone()
}

/// The API's address when none is configured.
pub const DEFAULT_BASE_URL: &'static str = "https://api.cursor.com";

/// The `User-Agent` sent when none is configured: this package's name and version.
pub const DEFAULT_USER_AGENT: &'static str = "cursor-sdk/0.1.0";

/// Filters for listing agents.
#[derive(Clone, Debug)]
pub struct ListAgentsParams {
    pub limit: Option<u32>,
    pub cursor: Option<String>,
    pub pr_url: Option<String>,
    pub include_archived: Option<bool>,
}

impl Default for ListAgentsParams {
    /// No filter at all.
    fn default() -> (p: Self)
        ensures
            p.limit is None,
            p.cursor is None,
            p.pr_url is None,
            p.include_archived is None,
    {
        ListAgentsParams { limit: None, cursor: None, pr_url: None, include_archived: None }
    }
}

/// Paging of a run listing.
#[derive(Clone, Debug)]
pub struct ListRunsParams {
    pub limit: Option<u32>,
    pub cursor: Option<String>,
}

impl Default for ListRunsParams {
    /// The first page, of the server's default size.
    fn default() -> (p: Self)
        ensures
            p.limit is None,
            p.cursor is None,
    {
        ListRunsParams { limit: None, cursor: None }
    }
}

/// The settings from which a [`CursorClient`] is built.
#[derive(Clone, Debug)]
pub struct CursorClientBuilder {
    pub(crate) api_key: Option<String>,
    pub(crate) base_url: String,
    pub(crate) user_agent: String,
}

impl CursorClientBuilder {
    /// The API key that requests will authenticate with, if set.
    pub closed spec fn api_key_view(&self) -> Option<Seq<char>> {
        crate::types::opt_view(self.api_key)
    }

    /// The address that request paths are appended to.
    pub closed spec fn base_url_view(&self) -> Seq<char> {
        self.base_url@
    }

    /// The `User-Agent` header value.
    pub closed spec fn user_agent_view(&self) -> Seq<char> {
        self.user_agent@
    }
}

impl Default for CursorClientBuilder {
    /// No API key, the public API address and this package's user agent.
    fn default() -> (b: Self)
        ensures
            b.api_key_view() is None,
            b.base_url_view() == DEFAULT_BASE_URL@,
            b.user_agent_view() == DEFAULT_USER_AGENT@,
    {
        CursorClientBuilder {
            api_key: None,
            base_url: String::from_str(DEFAULT_BASE_URL),
            user_agent: String::from_str(DEFAULT_USER_AGENT),
        }
    }
}

impl CursorClientBuilder {
    /// The default settings.
    pub fn new() -> (b: Self)
        ensures
            b.api_key_view() is None,
            b.base_url_view() == DEFAULT_BASE_URL@,
            b.user_agent_view() == DEFAULT_USER_AGENT@,
    {
        Self::default()
    }

    /// Sets the API key.
    pub fn api_key(self, api_key: &str) -> (b: Self)
        ensures
            b.api_key_view() == Some(api_key@),
            b.base_url_view() == self.base_url_view(),
            b.user_agent_view() == self.user_agent_view(),
    {
        let mut b = self;
        b.api_key = Some(String::from_str(api_key));
        b
    }

    /// Sets the address of the API.
    pub fn base_url(self, base_url: &str) -> (b: Self)
        ensures
            b.api_key_view() == self.api_key_view(),
            b.base_url_view() == base_url@,
            b.user_agent_view() == self.user_agent_view(),
    {
        let mut b = self;
        b.base_url = String::from_str(base_url);
        b
    }

    /// Sets the `User-Agent` header value.
    pub fn user_agent(self, user_agent: &str) -> (b: Self)
        ensures
            b.api_key_view() == self.api_key_view(),
            b.base_url_view() == self.base_url_view(),
            b.user_agent_view() == user_agent@,
    {
        let mut b = self;
        b.user_agent = String::from_str(user_agent);
        b
    }

    /// Builds the client: refused without an API key; otherwise it fails,
    /// with an HTTP error, exactly when the user agent is not a valid header
    /// value. The client's address loses every trailing `'/'`, and it sends
    /// the configured user agent.
    pub fn build(self) -> (res: Result<CursorClient>)
        ensures
            (res matches Err(CursorError::MissingApiKey)) <==> self.api_key_view() is None,
            res matches Err(e) ==> e is MissingApiKey || e is Http,
            self.api_key_view() is Some ==> (res is Ok <==> header_value_chars(
                self.user_agent_view(),
            )),
            res matches Ok(c) ==> {
                &&& Some(c.api_key_view()) == self.api_key_view()
                &&& c.base_url_view() == trim_trailing_slashes(self.base_url_view())
                &&& c.user_agent_view() == self.user_agent_view()
            },
    {
        match self.api_key {
            None => Err(CursorError::MissingApiKey),
            Some(api_key) => {
                let http = build_http_client(self.user_agent);
                CursorClient::from_http(http, api_key, self.base_url.as_str())
            },
        }
    }
}

/// A configured client of the API: the HTTP client, the key that requests
/// authenticate with, and the address that request paths are appended to.
#[derive(Debug)]
pub struct CursorClient {
    http: reqwest::Client,
    api_key: String,
    base_url: String,
}

impl Clone for CursorClient {
    /// A client with the same key and address, sharing the HTTP client.
    fn clone(&self) -> (c: Self)
        ensures
            c.api_key_view() == self.api_key_view(),
            c.base_url_view() == self.base_url_view(),
            c.user_agent_view() == self.user_agent_view(),
    {
        CursorClient {
            http: http_client_clone(&self.http),
            api_key: self.api_key.clone(),
            base_url: self.base_url.clone(),
        }
    }
}

impl CursorClient {
    /// The API key, sent as the user name of HTTP basic authentication.
    pub closed spec fn api_key_view(&self) -> Seq<char> {
        self.api_key@
    }

    /// The address that request paths are appended to.
    pub closed spec fn base_url_view(&self) -> Seq<char> {
        self.base_url@
    }

    /// The HTTP client.
    pub closed spec fn http_view(&self) -> reqwest::Client {
        self.http
    }

    /// The `User-Agent` that the client sends.
    pub closed spec fn user_agent_view(&self) -> Seq<char> {
        http_user_agent(self.http)
    }

    /// The builder with default settings.
    pub fn builder() -> (b: CursorClientBuilder)
        ensures
            b.api_key_view() is None,
            b.base_url_view() == DEFAULT_BASE_URL@,
            b.user_agent_view() == DEFAULT_USER_AGENT@,
    {
        CursorClientBuilder::new()
    }

    /// Assembles a client from the outcome of building the HTTP client:
    /// its error is passed on, otherwise the client keeps `api_key` and
    /// `base_url` without its trailing `'/'` characters.
    pub fn from_http(
        http: core::result::Result<reqwest::Client, reqwest::Error>,
        api_key: String,
        base_url: &str,
    ) -> (res: Result<CursorClient>)
        ensures
            http is Ok <==> res is Ok,
            http matches Err(e) ==> res == Err::<CursorClient, CursorError>(CursorError::Http(e)),
            res matches Ok(c) ==> {
                &&& c.api_key_view() == api_key@
                &&& c.base_url_view() == trim_trailing_slashes(base_url@)
                &&& c.http_view() == http->Ok_0
            },
    {
        match http {
            Err(e) => Err(CursorError::Http(e)),
            Ok(http) => Ok(CursorClient { http, api_key, base_url: trim_slashes_end(base_url) }),
        }
    }

    /// The HTTP client that performs the requests.
    pub fn http(&self) -> (h: &reqwest::Client)
        ensures
            *h == self.http_view(),
    {
        &self.http
    }

    /// The API key.
    pub fn api_key(&self) -> (k: &str)
        ensures
            k@ == self.api_key_view(),
    {
        self.api_key.as_str()
    }

    /// The address that request paths are appended to.
    pub fn base_url(&self) -> (u: &str)
        ensures
            u@ == self.base_url_view(),
    {
        self.base_url.as_str()
    }

    /// The full address of an API path.
    pub fn url(&self, path: &str) -> (u: String)
        ensures
            u@ == self.base_url_view() + path@,
    {
        self.base_url.clone().concat(path)
    }
}

} // verus!
