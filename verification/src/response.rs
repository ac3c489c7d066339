use vstd::prelude::*;

use crate::error::{stream_expired, CursorError, STATUS_GONE};
use crate::text::{blank, is_blank, is_white_space};
use crate::types::opt_view;

verus! {

/// Whether an HTTP status reports success (`2xx`).
pub open spec fn is_success(status: u16) -> bool {
    200 <= status < 300
}

/// Whether the API answered with success, as `StatusCode::is_success` tells.
pub fn is_success_status(status: u16) -> (b: bool)
    ensures
        b == is_success(status),
{
    200 <= status && status < 300
}

/// The message of an error answer that carries none of its own.
pub open spec fn fallback_message(status: u16) -> Seq<char> {
    if status == 401 {
        "unauthorized"@
    } else if status == 403 {
        "forbidden"@
    } else if status == 404 {
        "not found"@
    } else if status == 409 {
        "conflict"@
    } else if status == 429 {
        "rate limited"@
    } else {
        "request failed"@
    }
}

/// The message for an error answer with status `status` and no message.
pub fn fallback_status_message(status: u16) -> (m: &'static str)
    ensures
        m@ == fallback_message(status),
{
    if status == 401 {
        "unauthorized"
    } else if status == 403 {
        "forbidden"
    } else if status == 404 {
        "not found"
    } else if status == 409 {
        "conflict"
    } else if status == 429 {
        "rate limited"
    } else {
        "request failed"
    }
}

/// The JSON body of an error answer, decoded.
#[derive(Clone, Debug)]
pub struct ErrorEnvelope {
    pub error: Option<String>,
    pub code: Option<String>,
    pub message: Option<String>,
}

/// The message of an error answer: the envelope's `message`, else its
/// `error`; for a body that is no envelope, the body itself unless it is
/// blank; the status's fallback message otherwise.
pub open spec fn api_error_message(
    status: u16,
    body: Seq<char>,
    envelope: Option<ErrorEnvelope>,
) -> Seq<char> {
    match envelope {
        Some(env) => match env.message {
            Some(m) => m@,
            None => match env.error {
                Some(e) => e@,
                None => fallback_message(status),
            },
        },
        None => if is_blank(body) {
            fallback_message(status)
        } else {
            body
        },
    }
}

/// `e` is the error for an answer with status `status` and body `body`:
/// an API error with that status, the message that [`api_error_message`]
/// picks, and the envelope's code if the body was an envelope.
pub open spec fn api_error_spec(
    status: u16,
    body: Seq<char>,
    envelope: Option<ErrorEnvelope>,
    e: CursorError,
) -> bool {
    e matches CursorError::Api { status: s, message, code } && s == status && message@
        == api_error_message(status, body, envelope) && opt_view(code) == match envelope {
        Some(env) => opt_view(env.code),
        None => None,
    }
}

/// The error of an answer always carries the answer's status. Its message
/// is the envelope's `message` where there is one, else the envelope's
/// `error`; a body that is no envelope is the message itself unless it is
/// empty or white space; only otherwise does the status's fallback message
/// stand in: `unauthorized` (401), `forbidden` (403), `not found` (404),
/// `conflict` (409), `rate limited` (429), `request failed` for any other
/// status. The code is the envelope's, and there is none without one.
pub proof fn law_error_answer(
    status: u16,
    body: Seq<char>,
    envelope: Option<ErrorEnvelope>,
    e: CursorError,
)
    requires
        api_error_spec(status, body, envelope, e),
    ensures
        e matches CursorError::Api { status: s, message, code } && s == status && {
            let fallback = if status == 401 {
                "unauthorized"@
            } else if status == 403 {
                "forbidden"@
            } else if status == 404 {
                "not found"@
            } else if status == 409 {
                "conflict"@
            } else if status == 429 {
                "rate limited"@
            } else {
                "request failed"@
            };
            &&& envelope matches Some(env) ==> {
                &&& env.message matches Some(m) ==> message@ == m@
                &&& env.message is None ==> (env.error matches Some(x) ==> message@ == x@)
                &&& env.message is None && env.error is None ==> message@ == fallback
                &&& opt_view(code) == opt_view(env.code)
            }
            &&& envelope is None ==> {
                &&& code is None
                &&& (exists|i: int| 0 <= i < body.len() && !is_white_space(#[trigger] body[i]))
                    ==> message@ == body
                &&& (forall|i: int| 0 <= i < body.len() ==> is_white_space(#[trigger] body[i]))
                    ==> message@ == fallback
            }
        },
{
}

/// An error answer counts as an expired event stream exactly when its
/// status is `410 Gone` and its body is an envelope with the code
/// `stream_expired`: the case in which waiting for a run turns to polling.
pub proof fn lemma_expired_answer(
    status: u16,
    body: Seq<char>,
    envelope: Option<ErrorEnvelope>,
    e: CursorError,
)
    requires
        api_error_spec(status, body, envelope, e),
    ensures
        stream_expired(e) <==> (status == STATUS_GONE && envelope is Some && opt_view(
            envelope.unwrap().code,
        ) == Some("stream_expired"@)),
{
}

/// The error for an answer with status `status` and body `body`, where
/// `envelope` is the body decoded as an [`ErrorEnvelope`], if it is one.
pub fn api_error(status: u16, body: String, envelope: Option<ErrorEnvelope>) -> (e: CursorError)
    ensures
        api_error_spec(status, body@, envelope, e),
{
    match envelope {
        Some(env) => {
            let message = match env.message {
                Some(m) => m,
                None => match env.error {
                    Some(e) => e,
                    None => String::from_str(fallback_status_message(status)),
                },
            };
            CursorError::Api { status, message, code: env.code }
        },
        None => {
            let message = if blank(body.as_str()) {
                String::from_str(fallback_status_message(status))
            } else {
                body
            };
            CursorError::Api { status, message, code: None }
        },
    }
}

} // verus!
