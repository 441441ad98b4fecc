//! Backend dispatch for an inference orchestration service: a registry of
//! named backend clients, the routing of tasks to them, the HTTP/JSON adapter's
//! request preparation and response interpretation, and the shared error and
//! health vocabulary.
//!
//! The library decides; the surrounding program performs the network calls and
//! hands the outcomes back as plain values.

pub mod error;
pub mod framing;
pub mod headers;
pub mod health;
pub mod http_client;
pub mod nlp_http;
pub mod orchestrator;
pub mod registry;
pub mod stream;

pub use error::Error;
pub use framing::split_frames;
pub use headers::{Header, Headers};
pub use health::{HealthCheckResult, HealthStatus};
pub use http_client::{create_http_client, Endpoint, HttpClient, ServiceConfig};
pub use nlp_http::{
    interpret_reply, interpret_response, interpret_stream, interpret_stream_reply, Client,
    NlpClientHttp, Operation, OutboundRequest,
};
pub use orchestrator::{ChatCompletionsDetectionTask, Dispatch, NlpTask, Orchestrator, Target, Task};
pub use registry::{ClientRegistry, RegisterError};
pub use stream::{collect_frames, FrameStream};
