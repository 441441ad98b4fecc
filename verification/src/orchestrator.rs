//! The dispatcher: which client a task goes to, and what is handed to it.
//!
//! A task is forwarded once. The dispatcher resolves the client and hands
//! back what to send; it holds nothing of the exchange that follows, and an
//! outcome travels back to the caller as the client gave it.

use crate::error::Error;
use crate::headers::Headers;
use crate::nlp_http::Operation;
use crate::registry::ClientRegistry;
use vstd::prelude::*;

verus! {

/// A task for an NLP service.
pub struct NlpTask<P> {
    pub operation: Operation,
    /// The logical name of the service that is to handle the task.
    pub client_name: String,
    pub request: P,
    pub headers: Headers,
    pub trace_id: String,
}

/// A task for the chat-completions service. Its client's name is part of
/// the orchestrator's configuration.
pub struct ChatCompletionsDetectionTask<P> {
    pub request: P,
    pub headers: Headers,
    pub trace_id: String,
}

/// What a caller wants done.
pub enum Task<P> {
    Nlp(NlpTask<P>),
    ChatCompletionsDetection(ChatCompletionsDetectionTask<P>),
}

/// What a resolved client is asked to do.
#[derive(Debug, Clone, Copy, PartialEq, Eq, Structural)]
pub enum Target {
    Nlp(Operation),
    ChatCompletions,
}

/// A resolved task: the client to call and what to hand it.
pub struct Dispatch<'a, C, P> {
    pub client: &'a C,
    /// The logical name under which the client was found.
    pub client_name: String,
    pub target: Target,
    pub request: P,
    /// The caller's headers, as the task bore them.
    pub headers: Headers,
    pub trace_id: String,
}

/// The capability kind of NLP services.
pub open spec fn nlp_kind() -> Seq<char> {
    "nlp"@
}

/// The capability kind of the chat-completions service.
pub open spec fn chat_kind() -> Seq<char> {
    "chat"@
}

/// The logical name of the chat-completions client where the configuration
/// gives no other.
pub open spec fn default_chat_client_name() -> Seq<char> {
    "chat_generation"@
}

impl Target {
    /// The capability kind of the clients that serve this target.
    pub open spec fn kind_spec(self) -> Seq<char> {
        match self {
            Target::Nlp(_) => nlp_kind(),
            Target::ChatCompletions => chat_kind(),
        }
    }

    /// The capability kind of the clients that serve this target.
    pub fn kind(self) -> (kind: &'static str)
        ensures
            kind@ == self.kind_spec(),
    {
        match self {
            Target::Nlp(_) => "nlp",
            Target::ChatCompletions => "chat",
        }
    }
}

impl<P> Task<P> {
    /// The capability kind of the client that handles the task.
    pub open spec fn kind(self) -> Seq<char> {
        match self {
            Task::Nlp(_) => nlp_kind(),
            Task::ChatCompletionsDetection(_) => chat_kind(),
        }
    }

    /// What the task asks of its client.
    pub open spec fn target(self) -> Target {
        match self {
            Task::Nlp(task) => Target::Nlp(task.operation),
            Task::ChatCompletionsDetection(_) => Target::ChatCompletions,
        }
    }

    /// The request payload.
    pub open spec fn request(self) -> P {
        match self {
            Task::Nlp(task) => task.request,
            Task::ChatCompletionsDetection(task) => task.request,
        }
    }

    /// The caller's headers.
    pub open spec fn headers(self) -> Headers {
        match self {
            Task::Nlp(task) => task.headers,
            Task::ChatCompletionsDetection(task) => task.headers,
        }
    }

    /// The trace identifier.
    pub open spec fn trace_id(self) -> String {
        match self {
            Task::Nlp(task) => task.trace_id,
            Task::ChatCompletionsDetection(task) => task.trace_id,
        }
    }

    /// The trace identifier, for a record made before the task is handed
    /// over.
    pub fn trace(&self) -> (id: &String)
        ensures
            *id == self.trace_id(),
    {
        match self {
            Task::Nlp(task) => &task.trace_id,
            Task::ChatCompletionsDetection(task) => &task.trace_id,
        }
    }

    /// Whether the task's response comes as a sequence of partial responses.
    pub fn is_streaming(&self) -> (b: bool)
        ensures
            b == (self.target() == Target::Nlp(Operation::StreamingTextGeneration)),
    {
        match self {
            Task::Nlp(task) => task.operation.is_streaming(),
            Task::ChatCompletionsDetection(_) => false,
        }
    }
}

/// Where a task stands on its way through the dispatcher.
#[derive(Debug, Clone, Copy, PartialEq, Eq, Structural)]
pub enum DispatchState {
    Received,
    Resolved,
    Dispatched,
    Completed,
    Failed,
}

/// What moves a task on.
#[derive(Debug, Clone, Copy, PartialEq, Eq, Structural)]
pub enum DispatchEvent {
    /// The registry holds the task's client.
    ClientFound,
    /// The registry holds no client for the task.
    ClientMissing,
    /// The request was handed to the client.
    Forwarded,
    /// The client gave a response.
    Succeeded,
    /// The client gave an error.
    Errored,
}

impl DispatchState {
    /// The state that follows `self` on `event`; `None` where the event has
    /// no place in that state.
    pub open spec fn next(self, event: DispatchEvent) -> Option<DispatchState> {
        match (self, event) {
            (DispatchState::Received, DispatchEvent::ClientFound) => Some(DispatchState::Resolved),
            (DispatchState::Received, DispatchEvent::ClientMissing) => Some(DispatchState::Failed),
            (DispatchState::Resolved, DispatchEvent::Forwarded) => Some(DispatchState::Dispatched),
            (DispatchState::Dispatched, DispatchEvent::Succeeded) => Some(DispatchState::Completed),
            (DispatchState::Dispatched, DispatchEvent::Errored) => Some(DispatchState::Failed),
            _ => None,
        }
    }

    /// How far a state is along the way.
    pub open spec fn progress(self) -> nat {
        match self {
            DispatchState::Received => 0,
            DispatchState::Resolved => 1,
            DispatchState::Dispatched => 2,
            DispatchState::Completed => 3,
            DispatchState::Failed => 3,
        }
    }

    /// Whether the task has reached its end.
    pub open spec fn terminal(self) -> bool {
        self == DispatchState::Completed || self == DispatchState::Failed
    }

    /// The state that follows `self` on `event`; `None` where the event has
    /// no place in that state.
    pub fn step(self, event: DispatchEvent) -> (following: Option<DispatchState>)
        ensures
            following == self.next(event),
    {
        match (self, event) {
            (DispatchState::Received, DispatchEvent::ClientFound) => Some(DispatchState::Resolved),
            (DispatchState::Received, DispatchEvent::ClientMissing) => Some(DispatchState::Failed),
            (DispatchState::Resolved, DispatchEvent::Forwarded) => Some(DispatchState::Dispatched),
            (DispatchState::Dispatched, DispatchEvent::Succeeded) => Some(DispatchState::Completed),
            (DispatchState::Dispatched, DispatchEvent::Errored) => Some(DispatchState::Failed),
            _ => None,
        }
    }

    /// Whether the task has reached its end.
    pub fn is_terminal(self) -> (b: bool)
        ensures
            b == self.terminal(),
    {
        match self {
            DispatchState::Completed | DispatchState::Failed => true,
            _ => false,
        }
    }
}

/// Every step moves a task forward, so no state is entered twice: a task is
/// forwarded at most once, and nothing follows its end.
pub proof fn lemma_dispatch_never_returns(state: DispatchState, event: DispatchEvent)
    ensures
        state.next(event) is Some ==> state.next(event)->Some_0.progress() > state.progress(),
        state.terminal() ==> state.next(event) is None,
        state.next(event) == Some(DispatchState::Dispatched) ==> state == DispatchState::Resolved,
{
}

/// A task has one outcome. Any two dispatches of it by one dispatcher give
/// the same client with the same payload, headers and trace identifier, or
/// both fail with `NotFound` for the task's kind and name: a task is never
/// dropped and never sent to another client.
pub proof fn lemma_dispatch_is_determined<C, P>(
    orchestrator: Orchestrator<C>,
    task: Task<P>,
    first: Result<Dispatch<'_, C, P>, Error>,
    second: Result<Dispatch<'_, C, P>, Error>,
)
    requires
        orchestrator.dispatch_outcome(task, first),
        orchestrator.dispatch_outcome(task, second),
    ensures
        first is Ok <==> second is Ok,
        first is Ok ==> {
            &&& *first->Ok_0.client == *second->Ok_0.client
            &&& first->Ok_0.client_name@ == second->Ok_0.client_name@
            &&& first->Ok_0.target == second->Ok_0.target
            &&& first->Ok_0.request == second->Ok_0.request
            &&& first->Ok_0.headers == second->Ok_0.headers
            &&& first->Ok_0.trace_id == second->Ok_0.trace_id
        },
        first is Err ==> first->Err_0.is_not_found(task.kind(), orchestrator.client_name_of(task))
            && second->Err_0.is_not_found(task.kind(), orchestrator.client_name_of(task)),
{
}

/// The dispatcher of one process.
pub struct Orchestrator<C> {
    clients: ClientRegistry<C>,
    chat_client_name: String,
}

impl<C> Orchestrator<C> {
    /// The registry that tasks are resolved in.
    pub closed spec fn registry(&self) -> ClientRegistry<C> {
        self.clients
    }

    /// The logical name of the chat-completions client.
    pub closed spec fn chat_name(&self) -> Seq<char> {
        self.chat_client_name@
    }

    /// The invariant: the registry's.
    pub open spec fn wf(&self) -> bool {
        self.registry().wf()
    }

    /// The logical name under which a task's client is looked up: the name
    /// that an NLP task bears, and the configured name for chat completions.
    pub open spec fn client_name_of<P>(&self, task: Task<P>) -> Seq<char> {
        match task {
            Task::Nlp(task) => task.client_name@,
            Task::ChatCompletionsDetection(_) => self.chat_name(),
        }
    }

    /// What dispatching `task` gives: on a registry hit the client found
    /// under the task's kind and name, with the task's target, payload,
    /// headers and trace identifier as they came; on a miss `NotFound` with
    /// that kind and name.
    pub open spec fn dispatch_outcome<P>(
        &self,
        task: Task<P>,
        outcome: Result<Dispatch<'_, C, P>, Error>,
    ) -> bool {
        let key = (task.kind(), self.client_name_of(task));
        match outcome {
            Ok(dispatch) => {
                &&& self.registry().clients().contains_key(key)
                &&& *dispatch.client == self.registry().clients()[key]
                &&& dispatch.client_name@ == key.1
                &&& dispatch.target == task.target()
                &&& dispatch.request == task.request()
                &&& dispatch.headers == task.headers()
                &&& dispatch.trace_id == task.trace_id()
            },
            Err(e) => !self.registry().clients().contains_key(key) && e.is_not_found(key.0, key.1),
        }
    }

    /// A dispatcher over `clients` that sends chat completions to the client
    /// named `"chat_generation"`. The registry is sealed.
    pub fn new(clients: ClientRegistry<C>) -> (orchestrator: Self)
        requires
            clients.wf(),
        ensures
            orchestrator.wf(),
            orchestrator.registry().clients() == clients.clients(),
            orchestrator.registry().sealed(),
            orchestrator.chat_name() == default_chat_client_name(),
    {
        Self::with_chat_client_name(clients, "chat_generation")
    }

    /// A dispatcher over `clients` that sends chat completions to the client
    /// named `chat_client_name`. The registry is sealed.
    pub fn with_chat_client_name(clients: ClientRegistry<C>, chat_client_name: &str) -> (orchestrator:
        Self)
        requires
            clients.wf(),
        ensures
            orchestrator.wf(),
            orchestrator.registry().clients() == clients.clients(),
            orchestrator.registry().sealed(),
            orchestrator.chat_name() == chat_client_name@,
    {
        let mut clients = clients;
        clients.seal();
        Orchestrator { clients, chat_client_name: chat_client_name.to_owned() }
    }

    /// The registry that tasks are resolved in.
    pub fn clients(&self) -> (clients: &ClientRegistry<C>)
        ensures
            *clients == self.registry(),
    {
        &self.clients
    }

    /// Resolves the client of a unary task and hands back what to forward
    /// to it. A task whose client is not registered fails at once with
    /// `NotFound`; nothing is forwarded then, and no other client is tried.
    pub fn handle<P>(&self, task: Task<P>) -> (outcome: Result<Dispatch<'_, C, P>, Error>)
        requires
            self.wf(),
        ensures
            self.dispatch_outcome(task, outcome),
    {
        match task {
            Task::Nlp(task) => {
                let NlpTask { operation, client_name, request, headers, trace_id } = task;
                match self.clients.lookup("nlp", client_name.as_str()) {
                    Ok(client) => Ok(
                        Dispatch {
                            client,
                            client_name,
                            target: Target::Nlp(operation),
                            request,
                            headers,
                            trace_id,
                        },
                    ),
                    Err(e) => Err(e),
                }
            },
            Task::ChatCompletionsDetection(task) => self.handle_chat_completions_detection(task),
        }
    }

    /// Resolves the client of a streaming task as `handle` does. The
    /// partial responses are then pulled from the client; none is held here.
    pub fn handle_streaming<P>(&self, task: Task<P>) -> (outcome: Result<Dispatch<'_, C, P>, Error>)
        requires
            self.wf(),
        ensures
            self.dispatch_outcome(task, outcome),
    {
        self.handle(task)
    }

    /// Resolves the chat-completions client, under the configured name, and
    /// hands back what to forward to it; `NotFound` where the registry holds
    /// no client of kind `"chat"` under that name.
    pub fn handle_chat_completions_detection<P>(
        &self,
        task: ChatCompletionsDetectionTask<P>,
    ) -> (outcome: Result<Dispatch<'_, C, P>, Error>)
        requires
            self.wf(),
        ensures
            self.dispatch_outcome(Task::ChatCompletionsDetection(task), outcome),
    {
        let ChatCompletionsDetectionTask { request, headers, trace_id } = task;
        match self.clients.lookup("chat", self.chat_client_name.as_str()) {
            Ok(client) => Ok(
                Dispatch {
                    client,
                    client_name: self.chat_client_name.clone(),
                    target: Target::ChatCompletions,
                    request,
                    headers,
                    trace_id,
                },
            ),
            Err(e) => Err(e),
        }
    }
}

} // verus!
