use vstd::prelude::*;

use crate::types::opt_view;

verus! {

/// A failure of the HTTP transport, as `reqwest` reports it.
#[verifier::external_type_specification]
#[verifier::external_body]
pub struct ExHttpError(reqwest::Error);

/// A failure to decode JSON, as `serde_json` reports it.
#[verifier::external_type_specification]
#[verifier::external_body]
pub struct ExJsonError(serde_json::Error);

/// The HTTP status with which the server signals that a run's event
/// stream is no longer retained.
pub const STATUS_GONE: u16 = 410;

/// Everything that can go wrong while talking to the API.
#[derive(Debug)]
pub enum CursorError {
    MissingApiKey,
    Http(reqwest::Error),
    Json(serde_json::Error),
    Api { status: u16, message: String, code: Option<String> },
    Stream(String),
    WaitTimeout { agent_id: String, run_id: String, timeout_ms: u128 },
    MaxPollAttemptsExceeded { agent_id: String, run_id: String, max_attempts: u32 },
}

/// The result of an API operation.
pub type Result<T> = core::result::Result<T, CursorError>;

/// Whether an error says that a run's event stream has expired: the API
/// answered `410 Gone` with the code `stream_expired`.
pub open spec fn stream_expired(e: CursorError) -> bool {
    match e {
        CursorError::Api { status, code, .. } => status == STATUS_GONE && opt_view(code)
            == Some("stream_expired"@),
        _ => false,
    }
}

impl CursorError {
    /// Whether this is the API's answer that the event stream has expired.
    pub fn is_stream_expired(&self) -> (b: bool)
        ensures
            b == stream_expired(*self),
    {
        match self {
            CursorError::Api { status, code, .. } => {
                if *status != STATUS_GONE {
                    return false;
                }
                match code {
                    Some(c) => crate::types::string_is(c, "stream_expired"),
                    None => false,
                }
            },
            _ => false,
        }
    }
}

} // verus!
