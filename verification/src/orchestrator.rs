//! The order in which a serve call starts and awaits the transports.
//!
//! A serve call is a conversation between two parties. The [`ServeSession`]
//! decides; a driver performs. Each [`ServeAction`] names one piece of outside
//! work, and the driver answers it with the [`ServeEvent`] that tells how the
//! work went. [`ServeSession::step`] takes the answer and names the next
//! piece, until the action is [`ServeAction::Finish`].
//!
//! The rules, in the order they apply:
//!
//! 1. The method registry is built only if the socket transport or the
//!    line-delimited transport is enabled, and then once.
//! 2. If the line-delimited transport is enabled it runs alone, and its
//!    outcome is the outcome of the call.
//! 3. Otherwise the socket transport is started first, then the
//!    streaming-HTTP transport, each only if enabled. A transport that fails
//!    to start ends the call with its error; one already started is left
//!    running.
//! 4. With both running the call ends when the first of them stops; with one
//!    running, when that one stops; with none, at once and successfully. The
//!    outcome is that of the transport whose end was awaited: a failure of
//!    the streaming-HTTP task is the failure of the call, while what becomes
//!    of a transport that did not stop first is not looked at.

use crate::config::{McpHttpConfig, StdioConfig, TransportConfig, WebSocketConfig};
use crate::error::TransportError;
use std::sync::Arc;
use vstd::prelude::*;

verus! {

/// `jsonrpsee::RpcModule`, the method registry, declared so that a registry
/// can be carried from the factory to the transport that takes it. Nothing is
/// said of what a registry holds.
#[verifier::external_type_specification]
#[verifier::external_body]
#[verifier::reject_recursive_types(Context)]
pub struct ExRpcModule<Context>(jsonrpsee::RpcModule<Context>);

/// What a serve call is waiting for.
#[derive(Debug, Clone, Copy, PartialEq, Eq, Structural)]
pub enum ServePhase {
    /// The factory has been asked for the registry.
    Registry,
    /// The line-delimited transport is running.
    Stdio,
    /// The socket transport is being started.
    SocketStarting,
    /// The streaming-HTTP transport is being started.
    HttpStarting,
    /// Every enabled transport is running.
    Waiting,
    /// The call is over.
    Done,
}

/// Which running transport the driver is to wait for.
#[derive(Debug, Clone, Copy, PartialEq, Eq, Structural)]
pub enum Awaited {
    /// The socket transport's stop signal.
    Socket,
    /// The streaming-HTTP task.
    Http,
    /// Whichever of the two comes first; the other is left alone.
    Either,
}

/// How the streaming-HTTP task ended.
#[derive(Debug)]
pub enum HttpExit {
    /// The server stopped of its own accord.
    Stopped,
    /// The server ended with an error; this is its text.
    ServerError(String),
    /// The task was cancelled or panicked; this is the text of why.
    TaskFailed(String),
}

impl HttpExit {
    /// What the end of the task means for a call that awaited it: success
    /// if the server stopped, an I/O failure if it ended with an error, a
    /// task failure if the task was cancelled or panicked.
    pub open spec fn spec_outcome(self) -> Result<(), TransportError> {
        match self {
            HttpExit::Stopped => Ok(()),
            HttpExit::ServerError(text) => Err(TransportError::Io(text)),
            HttpExit::TaskFailed(text) => Err(TransportError::Task(text)),
        }
    }

    /// What the end of the task means for a call that awaited it.
    pub fn outcome(self) -> (outcome: Result<(), TransportError>)
        ensures
            outcome == self.spec_outcome(),
    {
        match self {
            HttpExit::Stopped => Ok(()),
            HttpExit::ServerError(text) => Err(TransportError::Io(text)),
            HttpExit::TaskFailed(text) => Err(TransportError::Task(text)),
        }
    }
}

/// What the driver reports back.
#[derive(Debug)]
pub enum ServeEvent {
    /// The factory returned.
    RegistryBuilt(Result<jsonrpsee::RpcModule<()>, anyhow::Error>),
    /// The line-delimited transport ended.
    StdioFinished(Result<(), TransportError>),
    /// The socket transport was started, or could not be.
    SocketStarted(Result<(), TransportError>),
    /// The streaming-HTTP transport was started, or could not be.
    HttpStarted(Result<(), TransportError>),
    /// The socket transport's stop signal came.
    SocketStopped,
    /// The streaming-HTTP task ended.
    HttpFinished(HttpExit),
}

/// What the driver is to do next.
#[allow(inconsistent_fields)]
#[derive(Debug)]
pub enum ServeAction<A> {
    /// Invoke the factory on this handle to the service object.
    BuildRegistry { activation: Arc<A> },
    /// Run the line-delimited transport on the registry, and nothing else.
    RunStdio { registry: jsonrpsee::RpcModule<()>, config: StdioConfig },
    /// Start the socket transport on the registry.
    StartSocket { registry: jsonrpsee::RpcModule<()>, config: WebSocketConfig },
    /// Start the streaming-HTTP transport on this handle to the service
    /// object.
    StartHttp { activation: Arc<A>, config: McpHttpConfig },
    /// Wait until a running transport stops.
    Wait(Awaited),
    /// Return this outcome from the serve call.
    Finish(Result<(), TransportError>),
    /// The event did not answer the outstanding action; nothing has changed.
    Unexpected,
}

/// The state of one serve call.
#[derive(Debug)]
pub struct ServeSession<A> {
    pub phase: ServePhase,
    /// The shared service object.
    pub activation: Arc<A>,
    /// The registry, from the moment it is built until a transport takes it.
    pub registry: Option<jsonrpsee::RpcModule<()>>,
    /// The transports that are enabled and have not been started yet.
    pub config: TransportConfig,
    pub socket_running: bool,
    pub http_running: bool,
}

/// `Arc::clone`. Taken on trust: the result is one more handle to the object
/// that `handle` points to.
#[verifier::external_body]
pub(crate) fn clone_handle<A>(handle: &Arc<A>) -> (copy: Arc<A>)
    ensures
        copy == *handle,
{
    Arc::clone(handle)
}

impl<A> ServeSession<A> {
    /// The session with its phase set to `Done`.
    pub open spec fn closed(self) -> ServeSession<A> {
        ServeSession { phase: ServePhase::Done, ..self }
    }

    /// The first state and action of a serve call: ask for the registry if a
    /// transport needs it, fail if it is needed and there is no factory, and
    /// go on to the transports otherwise.
    pub open spec fn spec_begin(
        config: TransportConfig,
        activation: Arc<A>,
        has_converter: bool,
    ) -> (ServeSession<A>, ServeAction<A>) {
        let session = ServeSession {
            phase: ServePhase::Registry,
            activation,
            registry: None,
            config,
            socket_running: false,
            http_running: false,
        };
        if !config.needs_registry() {
            session.spec_launch()
        } else if has_converter {
            (session, ServeAction::BuildRegistry { activation })
        } else {
            (session.closed(), ServeAction::Finish(Err(TransportError::MissingConverter)))
        }
    }

    /// With the registry settled: the line-delimited transport if enabled,
    /// else the socket transport if enabled, else on to the streaming-HTTP
    /// transport.
    pub open spec fn spec_launch(self) -> (ServeSession<A>, ServeAction<A>) {
        if self.config.stdio is Some {
            (
                ServeSession {
                    phase: ServePhase::Stdio,
                    registry: None,
                    config: TransportConfig { stdio: None, ..self.config },
                    ..self
                },
                ServeAction::RunStdio {
                    registry: self.registry->0,
                    config: self.config.stdio->0,
                },
            )
        } else if self.config.websocket is Some {
            (
                ServeSession {
                    phase: ServePhase::SocketStarting,
                    registry: None,
                    config: TransportConfig { websocket: None, ..self.config },
                    ..self
                },
                ServeAction::StartSocket {
                    registry: self.registry->0,
                    config: self.config.websocket->0,
                },
            )
        } else {
            self.spec_launch_http()
        }
    }

    /// With the socket transport settled: the streaming-HTTP transport if
    /// enabled, else on to waiting.
    pub open spec fn spec_launch_http(self) -> (ServeSession<A>, ServeAction<A>) {
        if self.config.mcp_http is Some {
            (
                ServeSession {
                    phase: ServePhase::HttpStarting,
                    config: TransportConfig { mcp_http: None, ..self.config },
                    ..self
                },
                ServeAction::StartHttp {
                    activation: self.activation,
                    config: self.config.mcp_http->0,
                },
            )
        } else {
            self.spec_wait()
        }
    }

    /// With every enabled transport started: wait for what is running, or
    /// finish if nothing is.
    pub open spec fn spec_wait(self) -> (ServeSession<A>, ServeAction<A>) {
        let waiting = ServeSession { phase: ServePhase::Waiting, ..self };
        if self.socket_running && self.http_running {
            (waiting, ServeAction::Wait(Awaited::Either))
        } else if self.socket_running {
            (waiting, ServeAction::Wait(Awaited::Socket))
        } else if self.http_running {
            (waiting, ServeAction::Wait(Awaited::Http))
        } else {
            (self.closed(), ServeAction::Finish(Ok(())))
        }
    }

    /// The state and action that follow `event`.
    pub open spec fn spec_step(self, event: ServeEvent) -> (ServeSession<A>, ServeAction<A>) {
        match (self.phase, event) {
            (ServePhase::Registry, ServeEvent::RegistryBuilt(Ok(registry))) => ServeSession {
                registry: Some(registry),
                ..self
            }.spec_launch(),
            (ServePhase::Registry, ServeEvent::RegistryBuilt(Err(error))) => (
                self.closed(),
                ServeAction::Finish(Err(TransportError::Factory(error))),
            ),
            (ServePhase::Stdio, ServeEvent::StdioFinished(outcome)) => (
                self.closed(),
                ServeAction::Finish(outcome),
            ),
            (ServePhase::SocketStarting, ServeEvent::SocketStarted(Ok(_))) => ServeSession {
                socket_running: true,
                ..self
            }.spec_launch_http(),
            (ServePhase::SocketStarting, ServeEvent::SocketStarted(Err(error))) => (
                self.closed(),
                ServeAction::Finish(Err(error)),
            ),
            (ServePhase::HttpStarting, ServeEvent::HttpStarted(Ok(_))) => ServeSession {
                http_running: true,
                ..self
            }.spec_wait(),
            (ServePhase::HttpStarting, ServeEvent::HttpStarted(Err(error))) => (
                self.closed(),
                ServeAction::Finish(Err(error)),
            ),
            (ServePhase::Waiting, ServeEvent::SocketStopped) if self.socket_running => (
                self.closed(),
                ServeAction::Finish(Ok(())),
            ),
            (ServePhase::Waiting, ServeEvent::HttpFinished(exit)) if self.http_running => (
                self.closed(),
                ServeAction::Finish(exit.spec_outcome()),
            ),
            _ => (self, ServeAction::Unexpected),
        }
    }

    /// Opens a serve call on `config`. `has_converter` tells whether there is
    /// a factory to build the registry with.
    ///
    /// If a transport needs the registry, the opening action asks for it, or
    /// fails the call where there is no factory. Otherwise the opening action
    /// is the first of the transports', and the factory is left alone.
    pub fn begin(config: TransportConfig, activation: Arc<A>, has_converter: bool) -> (next: (
        ServeSession<A>,
        ServeAction<A>,
    ))
        ensures
            next == Self::spec_begin(config, activation, has_converter),
    {
        let needs_registry = config.websocket.is_some() || config.stdio.is_some();
        let session = ServeSession {
            phase: ServePhase::Registry,
            activation,
            registry: None,
            config,
            socket_running: false,
            http_running: false,
        };
        if !needs_registry {
            session.launch()
        } else if has_converter {
            let handle = clone_handle(&session.activation);
            (session, ServeAction::BuildRegistry { activation: handle })
        } else {
            (
                ServeSession { phase: ServePhase::Done, ..session },
                ServeAction::Finish(Err(TransportError::MissingConverter)),
            )
        }
    }

    fn launch(self) -> (next: (ServeSession<A>, ServeAction<A>))
        requires
            self.config.needs_registry() ==> self.registry is Some,
        ensures
            next == self.spec_launch(),
    {
        let ServeSession { phase, activation, registry, config, socket_running, http_running } =
            self;
        let TransportConfig { websocket, stdio, mcp_http } = config;
        match (stdio, websocket, registry) {
            (Some(stdio_config), websocket, Some(registry)) => (
                ServeSession {
                    phase: ServePhase::Stdio,
                    activation,
                    registry: None,
                    config: TransportConfig { websocket, stdio: None, mcp_http },
                    socket_running,
                    http_running,
                },
                ServeAction::RunStdio { registry, config: stdio_config },
            ),
            (None, Some(ws_config), Some(registry)) => (
                ServeSession {
                    phase: ServePhase::SocketStarting,
                    activation,
                    registry: None,
                    config: TransportConfig { websocket: None, stdio: None, mcp_http },
                    socket_running,
                    http_running,
                },
                ServeAction::StartSocket { registry, config: ws_config },
            ),
            (stdio, websocket, registry) => ServeSession {
                phase,
                activation,
                registry,
                config: TransportConfig { websocket, stdio, mcp_http },
                socket_running,
                http_running,
            }.launch_http(),
        }
    }

    fn launch_http(self) -> (next: (ServeSession<A>, ServeAction<A>))
        ensures
            next == self.spec_launch_http(),
    {
        let ServeSession { phase, activation, registry, config, socket_running, http_running } =
            self;
        let TransportConfig { websocket, stdio, mcp_http } = config;
        match mcp_http {
            Some(mcp_config) => {
                let handle = clone_handle(&activation);
                (
                    ServeSession {
                        phase: ServePhase::HttpStarting,
                        activation,
                        registry,
                        config: TransportConfig { websocket, stdio, mcp_http: None },
                        socket_running,
                        http_running,
                    },
                    ServeAction::StartHttp { activation: handle, config: mcp_config },
                )
            },
            None => ServeSession {
                phase,
                activation,
                registry,
                config: TransportConfig { websocket, stdio, mcp_http: None },
                socket_running,
                http_running,
            }.wait(),
        }
    }

    fn wait(self) -> (next: (ServeSession<A>, ServeAction<A>))
        ensures
            next == self.spec_wait(),
    {
        let socket_running = self.socket_running;
        let http_running = self.http_running;
        if socket_running && http_running {
            (ServeSession { phase: ServePhase::Waiting, ..self }, ServeAction::Wait(Awaited::Either))
        } else if socket_running {
            (ServeSession { phase: ServePhase::Waiting, ..self }, ServeAction::Wait(Awaited::Socket))
        } else if http_running {
            (ServeSession { phase: ServePhase::Waiting, ..self }, ServeAction::Wait(Awaited::Http))
        } else {
            (ServeSession { phase: ServePhase::Done, ..self }, ServeAction::Finish(Ok(())))
        }
    }

    /// Takes the driver's answer to the outstanding action and names the
    /// next one. An event that does not answer the outstanding action leaves
    /// the session as it is and yields [`ServeAction::Unexpected`].
    pub fn step(self, event: ServeEvent) -> (next: (ServeSession<A>, ServeAction<A>))
        ensures
            next == self.spec_step(event),
    {
        match (self.phase, event) {
            (ServePhase::Registry, ServeEvent::RegistryBuilt(Ok(registry))) => {
                ServeSession { registry: Some(registry), ..self }.launch()
            },
            (ServePhase::Registry, ServeEvent::RegistryBuilt(Err(error))) => (
                ServeSession { phase: ServePhase::Done, ..self },
                ServeAction::Finish(Err(TransportError::Factory(error))),
            ),
            (ServePhase::Stdio, ServeEvent::StdioFinished(outcome)) => (
                ServeSession { phase: ServePhase::Done, ..self },
                ServeAction::Finish(outcome),
            ),
            (ServePhase::SocketStarting, ServeEvent::SocketStarted(Ok(_))) => {
                ServeSession { socket_running: true, ..self }.launch_http()
            },
            (ServePhase::SocketStarting, ServeEvent::SocketStarted(Err(error))) => (
                ServeSession { phase: ServePhase::Done, ..self },
                ServeAction::Finish(Err(error)),
            ),
            (ServePhase::HttpStarting, ServeEvent::HttpStarted(Ok(_))) => {
                ServeSession { http_running: true, ..self }.wait()
            },
            (ServePhase::HttpStarting, ServeEvent::HttpStarted(Err(error))) => (
                ServeSession { phase: ServePhase::Done, ..self },
                ServeAction::Finish(Err(error)),
            ),
            (ServePhase::Waiting, ServeEvent::SocketStopped) => {
                if self.socket_running {
                    (ServeSession { phase: ServePhase::Done, ..self }, ServeAction::Finish(Ok(())))
                } else {
                    (self, ServeAction::Unexpected)
                }
            },
            (ServePhase::Waiting, ServeEvent::HttpFinished(exit)) => {
                if self.http_running {
                    (
                        ServeSession { phase: ServePhase::Done, ..self },
                        ServeAction::Finish(exit.outcome()),
                    )
                } else {
                    (self, ServeAction::Unexpected)
                }
            },
            _ => (self, ServeAction::Unexpected),
        }
    }
}

/// The actions a session hands out when it is fed `events` in order.
pub open spec fn spec_trace<A>(session: ServeSession<A>, events: Seq<ServeEvent>) -> Seq<
    ServeAction<A>,
>
    decreases events.len(),
{
    if events.len() == 0 {
        Seq::empty()
    } else {
        let next = session.spec_step(events.first());
        seq![next.1] + spec_trace(next.0, events.drop_first())
    }
}

/// Every action of one serve call, in order: the opening action, then the
/// answers to `events`.
pub open spec fn spec_run<A>(
    config: TransportConfig,
    activation: Arc<A>,
    has_converter: bool,
    events: Seq<ServeEvent>,
) -> Seq<ServeAction<A>> {
    let opening = ServeSession::spec_begin(config, activation, has_converter);
    seq![opening.1] + spec_trace(opening.0, events)
}

/// How often `actions` asks for the factory to be invoked.
pub open spec fn registry_builds<A>(actions: Seq<ServeAction<A>>) -> nat
    decreases actions.len(),
{
    if actions.len() == 0 {
        0
    } else if actions.first() is BuildRegistry {
        1 + registry_builds(actions.drop_first())
    } else {
        registry_builds(actions.drop_first())
    }
}

/// How often `actions` asks for the socket transport or the streaming-HTTP
/// transport to be started, which is when an address is bound.
pub open spec fn listener_starts<A>(actions: Seq<ServeAction<A>>) -> nat
    decreases actions.len(),
{
    if actions.len() == 0 {
        0
    } else if actions.first() is StartSocket || actions.first() is StartHttp {
        1 + listener_starts(actions.drop_first())
    } else {
        listener_starts(actions.drop_first())
    }
}

/// A session of a call in which the line-delimited transport is enabled: it
/// is still to run, is running, or has ended the call.
pub open spec fn stdio_owns<A>(session: ServeSession<A>) -> bool {
    ||| session.phase is Registry && session.config.stdio is Some
    ||| session.phase is Stdio
    ||| session.phase is Done
}

proof fn lemma_count_after_first<A>(first: ServeAction<A>, rest: Seq<ServeAction<A>>)
    ensures
        registry_builds(seq![first] + rest) == registry_builds(seq![first]) + registry_builds(
            rest,
        ),
        listener_starts(seq![first] + rest) == listener_starts(seq![first]) + listener_starts(
            rest,
        ),
        registry_builds(seq![first]) == (if first is BuildRegistry {
            1nat
        } else {
            0nat
        }),
        listener_starts(seq![first]) == (if first is StartSocket || first is StartHttp {
            1nat
        } else {
            0nat
        }),
{
    let all = seq![first] + rest;
    assert(all.first() == first);
    assert(all.drop_first() =~= rest);
    assert(seq![first].drop_first() =~= Seq::<ServeAction<A>>::empty());
    reveal_with_fuel(registry_builds, 2);
    reveal_with_fuel(listener_starts, 2);
}

/// No answer to an event asks for the factory: only the opening action can.
pub proof fn lemma_steps_never_build<A>(session: ServeSession<A>, events: Seq<ServeEvent>)
    ensures
        registry_builds(spec_trace(session, events)) == 0,
    decreases events.len(),
{
    if events.len() > 0 {
        let next = session.spec_step(events.first());
        lemma_steps_never_build(next.0, events.drop_first());
        lemma_count_after_first(next.1, spec_trace(next.0, events.drop_first()));
    }
}

/// Once the line-delimited transport owns the call, no listener is started.
pub proof fn lemma_stdio_keeps_call<A>(session: ServeSession<A>, events: Seq<ServeEvent>)
    requires
        stdio_owns(session),
    ensures
        listener_starts(spec_trace(session, events)) == 0,
    decreases events.len(),
{
    if events.len() > 0 {
        let next = session.spec_step(events.first());
        assert(stdio_owns(next.0));
        lemma_stdio_keeps_call(next.0, events.drop_first());
        lemma_count_after_first(next.1, spec_trace(next.0, events.drop_first()));
    }
}

/// Once a call is over, no listener is started.
proof fn lemma_done_stays_done<A>(session: ServeSession<A>, events: Seq<ServeEvent>)
    requires
        session.phase is Done,
    ensures
        listener_starts(spec_trace(session, events)) == 0,
{
    lemma_stdio_keeps_call(session, events);
}

/// Single construction: where the socket transport or the line-delimited
/// transport is enabled, or both, a serve call asks for the factory exactly
/// once, whatever the driver reports afterwards.
pub proof fn law_registry_built_once<A>(
    config: TransportConfig,
    activation: Arc<A>,
    events: Seq<ServeEvent>,
)
    requires
        config.websocket is Some || config.stdio is Some,
    ensures
        registry_builds(spec_run(config, activation, true, events)) == 1,
{
    let opening = ServeSession::spec_begin(config, activation, true);
    lemma_steps_never_build(opening.0, events);
    lemma_count_after_first(opening.1, spec_trace(opening.0, events));
}

/// Factory skip: where only the streaming-HTTP transport is enabled, a serve
/// call never asks for the factory.
pub proof fn law_registry_skipped<A>(
    config: TransportConfig,
    activation: Arc<A>,
    has_converter: bool,
    events: Seq<ServeEvent>,
)
    requires
        config.websocket is None,
        config.stdio is None,
        config.mcp_http is Some,
    ensures
        registry_builds(spec_run(config, activation, has_converter, events)) == 0,
{
    let opening = ServeSession::spec_begin(config, activation, has_converter);
    lemma_steps_never_build(opening.0, events);
    lemma_count_after_first(opening.1, spec_trace(opening.0, events));
}

/// Exclusivity: where the line-delimited transport is enabled, a serve call
/// starts neither the socket transport nor the streaming-HTTP transport,
/// whether or not they are enabled too.
pub proof fn law_stdio_exclusive<A>(
    config: TransportConfig,
    activation: Arc<A>,
    has_converter: bool,
    events: Seq<ServeEvent>,
)
    requires
        config.stdio is Some,
    ensures
        listener_starts(spec_run(config, activation, has_converter, events)) == 0,
{
    let opening = ServeSession::spec_begin(config, activation, has_converter);
    lemma_stdio_keeps_call(opening.0, events);
    lemma_count_after_first(opening.1, spec_trace(opening.0, events));
}

/// No-op: where no transport is enabled, a serve call finishes successfully
/// with its opening action, and asks neither for the factory nor for a
/// listener.
pub proof fn law_nothing_enabled<A>(
    config: TransportConfig,
    activation: Arc<A>,
    has_converter: bool,
    events: Seq<ServeEvent>,
)
    requires
        config.websocket is None,
        config.stdio is None,
        config.mcp_http is None,
    ensures
        spec_run(config, activation, has_converter, events).first() == ServeAction::<A>::Finish(
            Ok(()),
        ),
        registry_builds(spec_run(config, activation, has_converter, events)) == 0,
        listener_starts(spec_run(config, activation, has_converter, events)) == 0,
{
    let opening = ServeSession::spec_begin(config, activation, has_converter);
    lemma_steps_never_build(opening.0, events);
    lemma_done_stays_done(opening.0, events);
    lemma_count_after_first(opening.1, spec_trace(opening.0, events));
}

/// How often `actions` ends the call.
pub open spec fn outcomes<A>(actions: Seq<ServeAction<A>>) -> nat
    decreases actions.len(),
{
    if actions.len() == 0 {
        0
    } else if actions.first() is Finish {
        1 + outcomes(actions.drop_first())
    } else {
        outcomes(actions.drop_first())
    }
}

proof fn lemma_outcomes_after_first<A>(first: ServeAction<A>, rest: Seq<ServeAction<A>>)
    ensures
        outcomes(seq![first] + rest) == (if first is Finish {
            1 + outcomes(rest)
        } else {
            outcomes(rest)
        }),
{
    let all = seq![first] + rest;
    assert(all.first() == first);
    assert(all.drop_first() =~= rest);
}

/// A session hands out at most one outcome, and none once the call is over.
pub proof fn lemma_at_most_one_outcome<A>(session: ServeSession<A>, events: Seq<ServeEvent>)
    ensures
        outcomes(spec_trace(session, events)) <= 1,
        session.phase is Done ==> outcomes(spec_trace(session, events)) == 0,
    decreases events.len(),
{
    if events.len() > 0 {
        let next = session.spec_step(events.first());
        assert(next.1 is Finish ==> next.0.phase is Done);
        lemma_at_most_one_outcome(next.0, events.drop_first());
        lemma_outcomes_after_first(next.1, spec_trace(next.0, events.drop_first()));
    }
}

/// Single outcome: whatever the transports report, and in whatever order, a
/// serve call ends at most once.
pub proof fn law_single_outcome<A>(
    config: TransportConfig,
    activation: Arc<A>,
    has_converter: bool,
    events: Seq<ServeEvent>,
)
    ensures
        outcomes(spec_run(config, activation, has_converter, events)) <= 1,
{
    let opening = ServeSession::spec_begin(config, activation, has_converter);
    assert(opening.1 is Finish ==> opening.0.phase is Done);
    lemma_at_most_one_outcome(opening.0, events);
    lemma_outcomes_after_first(opening.1, spec_trace(opening.0, events));
}

/// Race completion: with the socket transport and the streaming-HTTP
/// transport both running, the driver is told to wait for either, and the
/// call finishes as soon as one of them stops, without a word of the other:
/// successfully if it is the socket transport, and with the outcome of the
/// streaming-HTTP task if it is that one.
pub proof fn law_first_stop_finishes<A>(
    config: TransportConfig,
    activation: Arc<A>,
    registry: jsonrpsee::RpcModule<()>,
    exit: HttpExit,
)
    requires
        config.websocket is Some,
        config.stdio is None,
        config.mcp_http is Some,
    ensures
        ({
            let started = seq![
                ServeEvent::RegistryBuilt(Ok(registry)),
                ServeEvent::SocketStarted(Ok(())),
                ServeEvent::HttpStarted(Ok(())),
            ];
            &&& spec_run(config, activation, true, started).last() == ServeAction::<A>::Wait(
                Awaited::Either,
            )
            &&& spec_run(config, activation, true, started.push(ServeEvent::SocketStopped)).last()
                == ServeAction::<A>::Finish(Ok(()))
            &&& spec_run(
                config,
                activation,
                true,
                started.push(ServeEvent::HttpFinished(exit)),
            ).last() == ServeAction::<A>::Finish(exit.spec_outcome())
        }),
{
    let e0 = ServeEvent::RegistryBuilt(Ok(registry));
    let e1 = ServeEvent::SocketStarted(Ok(()));
    let e2 = ServeEvent::HttpStarted(Ok(()));
    let opening = ServeSession::spec_begin(config, activation, true);
    let s1 = opening.0.spec_step(e0);
    let s2 = s1.0.spec_step(e1);
    let s3 = s2.0.spec_step(e2);
    assert(s3.1 == ServeAction::<A>::Wait(Awaited::Either));
    assert(s3.0.phase is Waiting && s3.0.socket_running && s3.0.http_running);
    lemma_trace_of_three(opening.0, e0, e1, e2);
    lemma_trace_of_four(opening.0, e0, e1, e2, ServeEvent::SocketStopped);
    lemma_trace_of_four(opening.0, e0, e1, e2, ServeEvent::HttpFinished(exit));
}

/// Awaited failure: where the streaming-HTTP transport is the only one
/// enabled, the call ends with the outcome of its task. It succeeds if the
/// server stopped, and fails if the server ended with an error or the task
/// was cancelled or panicked.
pub proof fn law_awaited_failure_surfaces<A>(
    config: TransportConfig,
    activation: Arc<A>,
    has_converter: bool,
    exit: HttpExit,
)
    requires
        config.websocket is None,
        config.stdio is None,
        config.mcp_http is Some,
    ensures
        ({
            let events = seq![ServeEvent::HttpStarted(Ok(())), ServeEvent::HttpFinished(exit)];
            let run = spec_run(config, activation, has_converter, events);
            &&& run.len() == 3
            &&& run[0] is StartHttp
            &&& run[1] == ServeAction::<A>::Wait(Awaited::Http)
            &&& run[2] == ServeAction::<A>::Finish(exit.spec_outcome())
            &&& (run[2] == ServeAction::<A>::Finish(Ok(())) <==> exit is Stopped)
        }),
{
    let e0 = ServeEvent::HttpStarted(Ok(()));
    let e1 = ServeEvent::HttpFinished(exit);
    let events = seq![e0, e1];
    let opening = ServeSession::spec_begin(config, activation, has_converter);
    let s1 = opening.0.spec_step(e0);
    let s2 = s1.0.spec_step(e1);
    assert(events.drop_first() =~= seq![e1]);
    assert(seq![e1].drop_first() =~= Seq::<ServeEvent>::empty());
    reveal_with_fuel(spec_trace, 3);
    assert(spec_trace(opening.0, events) =~= seq![s1.1, s2.1]);
    assert(spec_run(config, activation, has_converter, events) =~= seq![opening.1, s1.1, s2.1]);
}

proof fn lemma_trace_of_three<A>(
    session: ServeSession<A>,
    e0: ServeEvent,
    e1: ServeEvent,
    e2: ServeEvent,
)
    ensures
        ({
            let s1 = session.spec_step(e0);
            let s2 = s1.0.spec_step(e1);
            let s3 = s2.0.spec_step(e2);
            spec_trace(session, seq![e0, e1, e2]) == seq![s1.1, s2.1, s3.1]
        }),
{
    let events = seq![e0, e1, e2];
    assert(events.drop_first() =~= seq![e1, e2]);
    assert(seq![e1, e2].drop_first() =~= seq![e2]);
    assert(seq![e2].drop_first() =~= Seq::<ServeEvent>::empty());
    reveal_with_fuel(spec_trace, 4);
    let s1 = session.spec_step(e0);
    let s2 = s1.0.spec_step(e1);
    let s3 = s2.0.spec_step(e2);
    assert(spec_trace(session, events) =~= seq![s1.1, s2.1, s3.1]);
}

proof fn lemma_trace_of_four<A>(
    session: ServeSession<A>,
    e0: ServeEvent,
    e1: ServeEvent,
    e2: ServeEvent,
    e3: ServeEvent,
)
    ensures
        ({
            let s1 = session.spec_step(e0);
            let s2 = s1.0.spec_step(e1);
            let s3 = s2.0.spec_step(e2);
            let s4 = s3.0.spec_step(e3);
            spec_trace(session, seq![e0, e1, e2].push(e3)) == seq![s1.1, s2.1, s3.1, s4.1]
        }),
{
    let events = seq![e0, e1, e2].push(e3);
    assert(events.drop_first() =~= seq![e1, e2, e3]);
    assert(seq![e1, e2, e3].drop_first() =~= seq![e2, e3]);
    assert(seq![e2, e3].drop_first() =~= seq![e3]);
    assert(seq![e3].drop_first() =~= Seq::<ServeEvent>::empty());
    reveal_with_fuel(spec_trace, 5);
    let s1 = session.spec_step(e0);
    let s2 = s1.0.spec_step(e1);
    let s3 = s2.0.spec_step(e2);
    let s4 = s3.0.spec_step(e3);
    assert(spec_trace(session, events) =~= seq![s1.1, s2.1, s3.1, s4.1]);
}

} // verus!
