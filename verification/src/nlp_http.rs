//! The adapter for NLP services that speak JSON over HTTP: which URL and
//! headers a request goes out with, which connection a health probe uses, and
//! what a response means.

use crate::error::Error;
use crate::headers::{header_map_text, with_trace, Headers};
use crate::http_client::{
    base_url_text, client_for, create_http_client, HttpClient, ServiceConfig,
};
use crate::stream::{collect_frames, observed};
use vstd::prelude::*;

verus! {

/// The status of an HTTP response as the transport holds it.
#[verifier::external_type_specification]
#[verifier::external_body]
pub struct ExStatusCode(hyper::StatusCode);

/// The port of an NLP service whose configuration names none.
pub const DEFAULT_PORT: u16 = 8085;

/// The header that routes a request to a model. It is the caller's to set and
/// passes through untouched.
pub fn model_id_header_name() -> (name: &'static str)
    ensures
        name@ == "mm-model-id"@,
{
    "mm-model-id"
}

/// The status of a response that carries the expected payload.
pub const STATUS_OK: u16 = 200;

/// The operations of an NLP service.
#[derive(Debug, Clone, Copy, PartialEq, Eq, Structural)]
pub enum Operation {
    Tokenization,
    TokenClassification,
    TextGeneration,
    StreamingTextGeneration,
}

impl Operation {
    /// The path of the operation below the service's base URL.
    pub open spec fn path_spec(self) -> Seq<char> {
        match self {
            Operation::Tokenization => "/api/v1/task/tokenization"@,
            Operation::TokenClassification => "/api/v1/task/token-classification"@,
            Operation::TextGeneration => "/api/v1/task/text-generation"@,
            Operation::StreamingTextGeneration => "/api/v1/task/streaming-text-generation"@,
        }
    }

    /// The path of the operation below the service's base URL.
    pub fn path(self) -> (path: &'static str)
        ensures
            path@ == self.path_spec(),
    {
        match self {
            Operation::Tokenization => "/api/v1/task/tokenization",
            Operation::TokenClassification => "/api/v1/task/token-classification",
            Operation::TextGeneration => "/api/v1/task/text-generation",
            Operation::StreamingTextGeneration => "/api/v1/task/streaming-text-generation",
        }
    }

    /// Whether the response comes as a sequence of frames.
    pub fn is_streaming(self) -> (b: bool)
        ensures
            b == (self == Operation::StreamingTextGeneration),
    {
        match self {
            Operation::StreamingTextGeneration => true,
            _ => false,
        }
    }
}

/// What goes out for one call, but for the body.
#[derive(Debug, Clone, PartialEq, Eq)]
pub struct OutboundRequest {
    pub url: String,
    pub headers: Headers,
    /// Whether the response is to be read frame by frame.
    pub streaming: bool,
}

/// What the dispatcher and the health endpoint can ask of any client,
/// whatever protocol it speaks.
pub trait Client {
    /// The client's name in logs and metrics. It plays no part in routing.
    fn name(&self) -> &str;

    /// The connection that a health probe uses.
    fn health_connection(&self) -> &HttpClient;
}

/// The client of one NLP service.
#[derive(Debug, Clone, PartialEq, Eq)]
pub struct NlpClientHttp {
    client: HttpClient,
    health_client: Option<HttpClient>,
}

/// The message of a transport error whose response held no readable message.
pub open spec fn fallback_message() -> Seq<char> {
    "unknown error occurred"@
}

/// The message of a transport error: the backend's own, else the fallback.
pub open spec fn transport_message(envelope: Option<String>) -> Seq<char> {
    match envelope {
        Some(message) => message@,
        None => fallback_message(),
    }
}

/// What a response means. With status 200 the payload decides: a decoded one
/// is the result, an undecodable one a `Decode` error with the decoder's
/// message. With any other status it is a `Transport` error of that status.
pub open spec fn response_outcome<T>(
    status: u16,
    payload: Result<T, String>,
    envelope: Option<String>,
    outcome: Result<T, Error>,
) -> bool {
    if status == STATUS_OK {
        match payload {
            Ok(value) => outcome == Ok::<T, Error>(value),
            Err(message) => outcome == Err::<T, Error>(Error::Decode { message }),
        }
    } else {
        outcome is Err && outcome->Err_0.is_transport(status, transport_message(envelope))
    }
}

/// Interprets a response. `payload` is the body decoded as the expected
/// type, or the decoder's message; it is read only where `status` is 200.
/// `envelope` is the `message` of the body decoded as an error envelope, if
/// it could be decoded so; it is read only where `status` is not 200.
pub fn interpret_response<T>(
    status: u16,
    payload: Result<T, String>,
    envelope: Option<String>,
) -> (outcome: Result<T, Error>)
    ensures
        response_outcome(status, payload, envelope, outcome),
{
    if status == STATUS_OK {
        match payload {
            Ok(value) => Ok(value),
            Err(message) => Err(Error::Decode { message }),
        }
    } else {
        Err(transport_error(status, envelope))
    }
}

/// The number that a status code holds.
pub uninterp spec fn status_code_number(status: hyper::StatusCode) -> u16;

/// The number of a status code, by `hyper::StatusCode::as_u16`. What is
/// claimed: the number that comes back is the one that the status code
/// holds, whenever it is asked, and it lies between 100 and 999, as every
/// status code's number does.
#[verifier::external_body]
fn status_number(status: &hyper::StatusCode) -> (number: u16)
    ensures
        number == status_code_number(*status),
        100 <= number <= 999,
{
    status.as_u16()
}

/// Interprets a response whose status comes as the transport holds it:
/// what `interpret_response` gives for the number that the status holds.
pub fn interpret_reply<T>(
    status: &hyper::StatusCode,
    payload: Result<T, String>,
    envelope: Option<String>,
) -> (outcome: Result<T, Error>)
    ensures
        response_outcome(status_code_number(*status), payload, envelope, outcome),
{
    let number = status_number(status);
    interpret_response(number, payload, envelope)
}

/// What the consumer sees of a streamed response. With status 200 it is what
/// the frames give: each element up to and including the first that cannot
/// be decoded. With any other status it is one `Transport` error of that
/// status, and nothing else.
pub open spec fn stream_outcome<T>(
    status: u16,
    frames: Seq<Result<T, String>>,
    envelope: Option<String>,
    elements: Seq<Result<T, Error>>,
) -> bool {
    if status == STATUS_OK {
        elements == observed(frames)
    } else {
        elements.len() == 1 && elements[0] is Err && elements[0]->Err_0.is_transport(
            status,
            transport_message(envelope),
        )
    }
}

/// Interprets a streamed response. `frames` are the frames of the body, each
/// decoded as the expected type or with the decoder's message; they are read
/// only where `status` is 200. `envelope` is as for `interpret_response`.
pub fn interpret_stream<T>(
    status: u16,
    frames: Vec<Result<T, String>>,
    envelope: Option<String>,
) -> (elements: Vec<Result<T, Error>>)
    ensures
        stream_outcome(status, frames@, envelope, elements@),
{
    if status == STATUS_OK {
        collect_frames(frames)
    } else {
        let mut elements: Vec<Result<T, Error>> = Vec::new();
        elements.push(Err(transport_error(status, envelope)));
        elements
    }
}

/// Interprets a streamed response whose status comes as the transport holds
/// it: what `interpret_stream` gives for the number that the status holds.
pub fn interpret_stream_reply<T>(
    status: &hyper::StatusCode,
    frames: Vec<Result<T, String>>,
    envelope: Option<String>,
) -> (elements: Vec<Result<T, Error>>)
    ensures
        stream_outcome(status_code_number(*status), frames@, envelope, elements@),
{
    let number = status_number(status);
    interpret_stream(number, frames, envelope)
}

/// The error for a response whose status is not 200.
pub fn transport_error(status: u16, envelope: Option<String>) -> (e: Error)
    ensures
        e.is_transport(status, transport_message(envelope)),
{
    let message = match envelope {
        Some(message) => message,
        None => "unknown error occurred".to_owned(),
    };
    Error::Transport { status, message }
}

/// A response of status 200 never gives a `Transport` error, and one with a
/// decoded payload gives that payload.
pub proof fn lemma_ok_status_never_transport<T>(
    payload: Result<T, String>,
    envelope: Option<String>,
    outcome: Result<T, Error>,
)
    requires
        response_outcome(STATUS_OK, payload, envelope, outcome),
    ensures
        !(outcome matches Err(Error::Transport { .. })),
        payload is Ok ==> outcome == Ok::<T, Error>(payload->Ok_0),
        payload is Err ==> outcome matches Err(Error::Decode { .. }),
{
}

/// A response of any other status gives a `Transport` error that carries
/// that status, with the backend's message or else the fallback.
pub proof fn lemma_other_status_is_transport<T>(
    status: u16,
    payload: Result<T, String>,
    envelope: Option<String>,
    outcome: Result<T, Error>,
)
    requires
        status != STATUS_OK,
        response_outcome(status, payload, envelope, outcome),
    ensures
        outcome matches Err(Error::Transport { status: s, message: m }) && s == status && (
        match envelope {
            Some(text) => m@ == text@,
            None => m@ == fallback_message(),
        }),
{
}

/// A client made for a configuration with a health endpoint probes that
/// endpoint and never the service's own; one made without probes the
/// service's own. Requests go to the service's endpoint either way.
pub proof fn lemma_health_probe_target(config: ServiceConfig, client: NlpClientHttp)
    requires
        client.primary() == client_for(DEFAULT_PORT, config.service, config.request_timeout),
        client.secondary() == match config.health_service {
            Some(health) => Some(client_for(DEFAULT_PORT, health, config.request_timeout)),
            None => None,
        },
    ensures
        config.health_service matches Some(health) ==> client.health_target() == client_for(
            DEFAULT_PORT,
            health,
            config.request_timeout,
        ),
        config.health_service is None ==> client.health_target() == client.primary(),
        forall|operation: Operation| #[trigger]
            client.url_spec(operation) == base_url_text(
                config.service.tls,
                config.service.hostname@,
                match config.service.port {
                    Some(port) => port,
                    None => DEFAULT_PORT,
                },
            ) + operation.path_spec(),
{
}

impl Client for NlpClientHttp {
    fn name(&self) -> (name: &str)
        ensures
            name@ == "nlp_http"@,
    {
        "nlp_http"
    }

    fn health_connection(&self) -> (connection: &HttpClient)
        ensures
            *connection == self.health_target(),
    {
        NlpClientHttp::health_connection(self)
    }
}

impl NlpClientHttp {
    /// The connection on which requests go out.
    pub closed spec fn primary(&self) -> HttpClient {
        self.client
    }

    /// The separate connection for health probes, if the client has one.
    pub closed spec fn secondary(&self) -> Option<HttpClient> {
        self.health_client
    }

    /// The connection that a health probe uses: the separate health
    /// connection where the client has one, and only then; else the primary.
    pub open spec fn health_target(&self) -> HttpClient {
        match self.secondary() {
            Some(health) => health,
            None => self.primary(),
        }
    }

    /// The URL of an operation on this client's service.
    pub open spec fn url_spec(&self, operation: Operation) -> Seq<char> {
        self.primary().base_url_spec() + operation.path_spec()
    }

    /// The client for a configured service. Requests go to the service's
    /// endpoint; health probes go to the health endpoint where one is
    /// configured. Either listens on port 8085 unless it names another.
    pub fn new(config: &ServiceConfig) -> (client: Self)
        ensures
            client.primary() == client_for(DEFAULT_PORT, config.service, config.request_timeout),
            client.secondary() == match config.health_service {
                Some(health) => Some(client_for(DEFAULT_PORT, health, config.request_timeout)),
                None => None,
            },
    {
        let client = create_http_client(DEFAULT_PORT, &config.service, config.request_timeout);
        let health_client = match &config.health_service {
            Some(health) => Some(create_http_client(DEFAULT_PORT, health, config.request_timeout)),
            None => None,
        };
        NlpClientHttp { client, health_client }
    }

    /// The client's name in logs and metrics. It plays no part in routing.
    pub fn name(&self) -> (name: &'static str)
        ensures
            name@ == "nlp_http"@,
    {
        "nlp_http"
    }

    /// The connection on which requests go out.
    pub fn client(&self) -> (connection: &HttpClient)
        ensures
            *connection == self.primary(),
    {
        &self.client
    }

    /// The separate connection for health probes, if the client has one.
    pub fn health_client(&self) -> (connection: Option<&HttpClient>)
        ensures
            match connection {
                Some(c) => self.secondary() == Some(*c),
                None => self.secondary() is None,
            },
    {
        match &self.health_client {
            Some(c) => Some(c),
            None => None,
        }
    }

    /// The connection that a health probe uses: the separate health
    /// connection where the client has one, and only then; else the primary.
    pub fn health_connection(&self) -> (connection: &HttpClient)
        ensures
            *connection == self.health_target(),
    {
        match &self.health_client {
            Some(health) => health,
            None => &self.client,
        }
    }

    /// What goes out for `operation`: the URL of the operation on the
    /// primary connection, and the caller's headers with the trace header
    /// set from `trace_id`.
    pub fn prepare(&self, operation: Operation, headers: &Headers, trace_id: &String) -> (request:
        OutboundRequest)
        ensures
            request.url@ == self.url_spec(operation),
            request.headers@ == with_trace(headers@, trace_id@),
            request.streaming == (operation == Operation::StreamingTextGeneration),
    {
        OutboundRequest {
            url: self.client.join(operation.path()),
            headers: headers.with_trace_header(trace_id),
            streaming: operation.is_streaming(),
        }
    }

    /// What goes out for `operation` where the caller's headers come as the
    /// transport's header map: as `prepare` gives it for the map's lines, and
    /// `None` where the map holds a value that is not text.
    pub fn prepare_for_map(
        &self,
        operation: Operation,
        headers: &hyper::HeaderMap,
        trace_id: &String,
    ) -> (request: Option<OutboundRequest>)
        ensures
            match request {
                Some(r) => {
                    &&& header_map_text(*headers) matches Some(lines) && r.headers@ == with_trace(
                        lines,
                        trace_id@,
                    )
                    &&& r.url@ == self.url_spec(operation)
                    &&& r.streaming == (operation == Operation::StreamingTextGeneration)
                },
                None => header_map_text(*headers) is None,
            },
    {
        match Headers::from_map_with_trace_header(headers, trace_id) {
            Some(sent) => Some(
                OutboundRequest {
                    url: self.client.join(operation.path()),
                    headers: sent,
                    streaming: operation.is_streaming(),
                },
            ),
            None => None,
        }
    }
}

} // verus!
