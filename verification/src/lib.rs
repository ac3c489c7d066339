//! A client library for the Cursor Cloud Agents HTTP API: request
//! descriptions, response interpretation, stream-event decoding, the
//! decision logic of waiting for a run, and the console text of the
//! command-line tool, each with a verified contract.

pub mod client;
pub mod console;
pub mod error;
pub mod json;
pub mod request;
pub mod response;
pub mod stream;
pub mod text;
pub mod types;
pub mod wait;

pub use client::{CursorClient, CursorClientBuilder, ListAgentsParams, ListRunsParams};
pub use error::{CursorError, Result};
pub use request::{ApiRequest, HttpMethod};
pub use response::{api_error, fallback_status_message, is_success_status, ErrorEnvelope};
pub use stream::{parse_stream_event, payload_shape, PayloadShape, StreamPayload};
pub use types::{
    Agent, AgentSummary, ApiKeyInfo, Artifact, CreateAgentRequest, CreateAgentResponse,
    CreateRunRequest, CreateRunResponse, DownloadArtifactResponse, Duration, EnvironmentInfo,
    ImageInput, ListResponse, ModelListResponse, ModelSelection, Prompt, RepositoryItem,
    RepositoryListResponse, RepositoryRef, Run, RunStreamEvent, RunStreamMessage,
    WaitForRunOptions, WaitForRunResult,
};
pub use wait::{RunWaiter, WaitAction, WaitEvent, WaitPhase, WaitStep};
