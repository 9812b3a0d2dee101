use hub_transport::config::LOOPBACK_V4;
use hub_transport::orchestrator::{
    Awaited, HttpExit, ServeAction, ServeEvent, ServePhase, ServeSession,
};
use hub_transport::{
    McpHttpConfig, SocketAddress, StdioConfig, TransportConfig, TransportError, TransportServer,
    WebSocketConfig,
};
use jsonrpsee::RpcModule;
use std::sync::atomic::{AtomicUsize, Ordering};
use std::sync::Arc;

#[derive(Debug)]
struct Service {
    name: &'static str,
}

fn service() -> Arc<Service> {
    Arc::new(Service { name: "echo" })
}

fn registry() -> RpcModule<()> {
    let mut module = RpcModule::new(());
    module.register_method("ping", |_, _, _| "pong").unwrap();
    module
}

/// A factory that counts its invocations in `calls`.
fn counting(
    calls: &Arc<AtomicUsize>,
) -> impl FnOnce(Arc<Service>) -> Result<RpcModule<()>, anyhow::Error> + Send + 'static {
    let calls = Arc::clone(calls);
    move |handle: Arc<Service>| {
        assert_eq!(handle.name, "echo");
        calls.fetch_add(1, Ordering::SeqCst);
        Ok(registry())
    }
}

fn has_ping(module: &RpcModule<()>) -> bool {
    module.method_names().any(|name| name == "ping")
}

#[test]
fn factory_runs_once_for_the_socket_transport() {
    let calls = Arc::new(AtomicUsize::new(0));
    let server =
        TransportServer::builder(service(), counting(&calls)).with_websocket(8888).build().unwrap();
    assert_eq!(calls.load(Ordering::SeqCst), 0);

    let (session, action) = server.serve();
    assert_eq!(calls.load(Ordering::SeqCst), 1);
    assert_eq!(session.phase, ServePhase::SocketStarting);
    match action {
        ServeAction::StartSocket { registry, config } => {
            assert!(has_ping(&registry));
            assert_eq!(config.addr, SocketAddress::V4 { ipv4: LOOPBACK_V4, port: 8888 });
        }
        other => panic!("expected the socket transport to be started, got {:?}", other),
    }

    let (session, action) = session.step(ServeEvent::SocketStarted(Ok(())));
    assert!(matches!(action, ServeAction::Wait(Awaited::Socket)));
    let (session, action) = session.step(ServeEvent::SocketStopped);
    assert!(matches!(action, ServeAction::Finish(Ok(()))));
    assert_eq!(session.phase, ServePhase::Done);
    assert_eq!(calls.load(Ordering::SeqCst), 1);
}

#[test]
fn factory_runs_once_for_the_line_delimited_transport() {
    let calls = Arc::new(AtomicUsize::new(0));
    let server = TransportServer::builder(service(), counting(&calls)).with_stdio().build().unwrap();

    let (session, action) = server.serve();
    assert_eq!(calls.load(Ordering::SeqCst), 1);
    assert_eq!(session.phase, ServePhase::Stdio);
    match action {
        ServeAction::RunStdio { registry, config } => {
            assert!(has_ping(&registry));
            assert_eq!(config.subscription_buffer_size, 1024);
        }
        other => panic!("expected the line-delimited transport to run, got {:?}", other),
    }
    let (_, action) = session.step(ServeEvent::StdioFinished(Ok(())));
    assert!(matches!(action, ServeAction::Finish(Ok(()))));
    assert_eq!(calls.load(Ordering::SeqCst), 1);
}

#[test]
fn factory_runs_once_when_two_transports_need_the_registry() {
    let calls = Arc::new(AtomicUsize::new(0));
    let server = TransportServer::builder(service(), counting(&calls))
        .with_websocket(8888)
        .with_stdio()
        .build()
        .unwrap();
    let (session, action) = server.serve();
    assert!(matches!(action, ServeAction::RunStdio { .. }));
    let (_, action) = session.step(ServeEvent::StdioFinished(Ok(())));
    assert!(matches!(action, ServeAction::Finish(Ok(()))));
    assert_eq!(calls.load(Ordering::SeqCst), 1);
}

#[test]
fn factory_is_skipped_for_streaming_http_alone() {
    let calls = Arc::new(AtomicUsize::new(0));
    let server =
        TransportServer::builder(service(), counting(&calls)).with_mcp_http(8889).build().unwrap();

    let (session, action) = server.serve();
    assert_eq!(session.phase, ServePhase::HttpStarting);
    assert!(session.registry.is_none());
    match action {
        ServeAction::StartHttp { activation, config } => {
            assert_eq!(activation.name, "echo");
            assert_eq!(config.addr, SocketAddress::loopback(8889));
        }
        other => panic!("expected the streaming-HTTP transport to be started, got {:?}", other),
    }
    let (session, action) = session.step(ServeEvent::HttpStarted(Ok(())));
    assert!(matches!(action, ServeAction::Wait(Awaited::Http)));
    let (_, action) = session.step(ServeEvent::HttpFinished(HttpExit::Stopped));
    assert!(matches!(action, ServeAction::Finish(Ok(()))));
    assert_eq!(calls.load(Ordering::SeqCst), 0);
}

#[test]
fn line_delimited_transport_runs_alone_when_all_three_are_enabled() {
    let calls = Arc::new(AtomicUsize::new(0));
    let server = TransportServer::builder(service(), counting(&calls))
        .with_websocket(8888)
        .with_mcp_http(8889)
        .with_stdio()
        .build()
        .unwrap();

    let (session, action) = server.serve();
    assert!(matches!(action, ServeAction::RunStdio { .. }));
    assert!(!session.socket_running);
    assert!(!session.http_running);

    // Neither of the other two can be reported as started.
    let (session, action) = session.step(ServeEvent::SocketStarted(Ok(())));
    assert!(matches!(action, ServeAction::Unexpected));
    let (session, action) = session.step(ServeEvent::HttpStarted(Ok(())));
    assert!(matches!(action, ServeAction::Unexpected));

    let failure = TransportError::Io(String::from("stdin closed unexpectedly"));
    let (session, action) = session.step(ServeEvent::StdioFinished(Err(failure)));
    match action {
        ServeAction::Finish(Err(TransportError::Io(text))) => {
            assert_eq!(text, "stdin closed unexpectedly")
        }
        other => panic!("expected the runner's own failure, got {:?}", other),
    }
    assert_eq!(session.phase, ServePhase::Done);
    assert!(!session.socket_running);
    assert!(!session.http_running);
    assert_eq!(calls.load(Ordering::SeqCst), 1);
}

#[test]
fn nothing_enabled_finishes_at_once() {
    let calls = Arc::new(AtomicUsize::new(0));
    let server = TransportServer::builder(service(), counting(&calls)).build().unwrap();
    let (session, action) = server.serve();
    assert!(matches!(action, ServeAction::Finish(Ok(()))));
    assert_eq!(session.phase, ServePhase::Done);
    assert!(!session.socket_running);
    assert!(!session.http_running);
    assert_eq!(calls.load(Ordering::SeqCst), 0);
}

fn both_running(calls: &Arc<AtomicUsize>) -> ServeSession<Service> {
    let server = TransportServer::builder(service(), counting(calls))
        .with_websocket(8888)
        .with_mcp_http(8889)
        .build()
        .unwrap();
    let (session, action) = server.serve();
    assert!(matches!(action, ServeAction::StartSocket { .. }));
    let (session, action) = session.step(ServeEvent::SocketStarted(Ok(())));
    assert!(matches!(action, ServeAction::StartHttp { .. }));
    let (session, action) = session.step(ServeEvent::HttpStarted(Ok(())));
    assert!(matches!(action, ServeAction::Wait(Awaited::Either)));
    assert_eq!(session.phase, ServePhase::Waiting);
    session
}

#[test]
fn socket_stopping_first_finishes_the_call() {
    let calls = Arc::new(AtomicUsize::new(0));
    let (session, action) = both_running(&calls).step(ServeEvent::SocketStopped);
    assert!(matches!(action, ServeAction::Finish(Ok(()))));
    assert_eq!(session.phase, ServePhase::Done);
    // The streaming-HTTP task was not waited for: it still counts as running.
    assert!(session.http_running);
    assert_eq!(calls.load(Ordering::SeqCst), 1);
}

#[test]
fn http_ending_first_finishes_the_call() {
    let calls = Arc::new(AtomicUsize::new(0));
    let (session, action) =
        both_running(&calls).step(ServeEvent::HttpFinished(HttpExit::Stopped));
    assert!(matches!(action, ServeAction::Finish(Ok(()))));
    assert_eq!(session.phase, ServePhase::Done);
    assert!(session.socket_running);
}

#[test]
fn an_http_task_that_fails_first_fails_the_call() {
    let calls = Arc::new(AtomicUsize::new(0));
    let exit = HttpExit::TaskFailed(String::from("task 7 panicked"));
    let (session, action) = both_running(&calls).step(ServeEvent::HttpFinished(exit));
    match action {
        ServeAction::Finish(Err(error)) => {
            assert!(matches!(error, TransportError::Task(_)));
            assert_eq!(error.message(), "MCP server task failed: task 7 panicked");
        }
        other => panic!("expected the task's failure, got {:?}", other),
    }
    assert_eq!(session.phase, ServePhase::Done);

    let exit = HttpExit::ServerError(String::from("connection reset"));
    let (_, action) = both_running(&calls).step(ServeEvent::HttpFinished(exit));
    match action {
        ServeAction::Finish(Err(TransportError::Io(text))) => assert_eq!(text, "connection reset"),
        other => panic!("expected the server's error, got {:?}", other),
    }
}

#[test]
fn the_only_awaited_transport_decides_the_outcome() {
    let calls = Arc::new(AtomicUsize::new(0));
    let started = || {
        let server = TransportServer::builder(service(), counting(&calls))
            .with_mcp_http(8889)
            .build()
            .unwrap();
        let (session, _) = server.serve();
        let (session, action) = session.step(ServeEvent::HttpStarted(Ok(())));
        assert!(matches!(action, ServeAction::Wait(Awaited::Http)));
        session
    };
    let (_, action) = started().step(ServeEvent::HttpFinished(HttpExit::Stopped));
    assert!(matches!(action, ServeAction::Finish(Ok(()))));
    let exit = HttpExit::ServerError(String::from("accept failed"));
    let (_, action) = started().step(ServeEvent::HttpFinished(exit));
    assert!(matches!(action, ServeAction::Finish(Err(TransportError::Io(_)))));
    let exit = HttpExit::TaskFailed(String::from("cancelled"));
    let (_, action) = started().step(ServeEvent::HttpFinished(exit));
    assert!(matches!(action, ServeAction::Finish(Err(TransportError::Task(_)))));
}

#[test]
fn the_end_of_an_http_task_maps_to_an_outcome() {
    assert!(matches!(HttpExit::Stopped.outcome(), Ok(())));
    match HttpExit::ServerError(String::from("e1")).outcome() {
        Err(TransportError::Io(text)) => assert_eq!(text, "e1"),
        other => panic!("expected an I/O failure, got {:?}", other),
    }
    match HttpExit::TaskFailed(String::from("e2")).outcome() {
        Err(TransportError::Task(text)) => assert_eq!(text, "e2"),
        other => panic!("expected a task failure, got {:?}", other),
    }
}

#[test]
fn a_socket_that_cannot_bind_ends_the_call() {
    let calls = Arc::new(AtomicUsize::new(0));
    let server = TransportServer::builder(service(), counting(&calls))
        .with_websocket(8888)
        .with_mcp_http(8889)
        .build()
        .unwrap();
    let (session, _) = server.serve();
    let failure = TransportError::Bind(String::from("address already in use"));
    let (session, action) = session.step(ServeEvent::SocketStarted(Err(failure)));
    match action {
        ServeAction::Finish(Err(TransportError::Bind(text))) => {
            assert_eq!(text, "address already in use")
        }
        other => panic!("expected the bind failure, got {:?}", other),
    }
    assert_eq!(session.phase, ServePhase::Done);
    // The streaming-HTTP transport is never started, and nothing is retried.
    assert!(session.config.mcp_http.is_some());
    let (_, action) = session.step(ServeEvent::SocketStarted(Ok(())));
    assert!(matches!(action, ServeAction::Unexpected));
}

#[test]
fn an_http_start_failure_leaves_the_socket_running() {
    let calls = Arc::new(AtomicUsize::new(0));
    let server = TransportServer::builder(service(), counting(&calls))
        .with_websocket(8888)
        .with_mcp_http(8889)
        .build()
        .unwrap();
    let (session, _) = server.serve();
    let (session, _) = session.step(ServeEvent::SocketStarted(Ok(())));
    let failure = TransportError::Bind(String::from("permission denied"));
    let (session, action) = session.step(ServeEvent::HttpStarted(Err(failure)));
    assert!(matches!(action, ServeAction::Finish(Err(TransportError::Bind(_)))));
    assert!(session.socket_running);
    assert!(!session.http_running);
}

#[test]
fn a_failing_factory_ends_the_call_with_its_error() {
    let calls = Arc::new(AtomicUsize::new(0));
    let seen = Arc::clone(&calls);
    let failing = move |_: Arc<Service>| -> Result<RpcModule<()>, anyhow::Error> {
        seen.fetch_add(1, Ordering::SeqCst);
        Err(anyhow::Error::msg("method table is inconsistent"))
    };
    let server =
        TransportServer::builder(service(), failing).with_websocket(8888).build().unwrap();
    let (session, action) = server.serve();
    match action {
        ServeAction::Finish(Err(TransportError::Factory(error))) => {
            assert_eq!(error.to_string(), "method table is inconsistent")
        }
        other => panic!("expected the factory's error, got {:?}", other),
    }
    assert_eq!(session.phase, ServePhase::Done);
    assert_eq!(calls.load(Ordering::SeqCst), 1);
}

#[test]
fn a_needed_registry_without_a_factory_is_a_missing_converter() {
    let config = TransportConfig {
        websocket: Some(WebSocketConfig::new(8888)),
        stdio: None,
        mcp_http: None,
    };
    let (session, action) = ServeSession::begin(config, service(), false);
    assert!(matches!(action, ServeAction::Finish(Err(TransportError::MissingConverter))));
    assert_eq!(session.phase, ServePhase::Done);

    let config = TransportConfig {
        websocket: None,
        stdio: Some(StdioConfig::default()),
        mcp_http: None,
    };
    let (_, action) = ServeSession::begin(config, service(), false);
    assert!(matches!(action, ServeAction::Finish(Err(TransportError::MissingConverter))));
}

#[test]
fn no_factory_is_needed_for_streaming_http_alone() {
    let config = TransportConfig {
        websocket: None,
        stdio: None,
        mcp_http: Some(McpHttpConfig::new(8889)),
    };
    let (_, action) = ServeSession::begin(config, service(), false);
    assert!(matches!(action, ServeAction::StartHttp { .. }));
}

#[test]
fn begin_asks_for_the_registry_with_a_handle_to_the_same_object() {
    let object = service();
    let config = TransportConfig {
        websocket: Some(WebSocketConfig::new(8888)),
        stdio: None,
        mcp_http: None,
    };
    let (session, action) = ServeSession::begin(config, Arc::clone(&object), true);
    assert_eq!(session.phase, ServePhase::Registry);
    match action {
        ServeAction::BuildRegistry { activation } => assert!(Arc::ptr_eq(&activation, &object)),
        other => panic!("expected the registry to be asked for, got {:?}", other),
    }
    // object, the session's handle and the action's handle (dropped above).
    assert_eq!(Arc::strong_count(&object), 2);

    let (session, action) = session.step(ServeEvent::RegistryBuilt(Ok(registry())));
    assert!(matches!(action, ServeAction::StartSocket { .. }));
    assert!(session.registry.is_none());
    assert!(session.config.websocket.is_none());
}

#[test]
fn streaming_http_gets_its_own_handle_to_the_shared_object() {
    let object = service();
    let calls = Arc::new(AtomicUsize::new(0));
    let server = TransportServer::builder(Arc::clone(&object), counting(&calls))
        .with_mcp_http(8889)
        .build()
        .unwrap();
    let (session, action) = server.serve();
    match action {
        ServeAction::StartHttp { activation, .. } => {
            assert!(Arc::ptr_eq(&activation, &object));
            assert!(Arc::ptr_eq(&session.activation, &object));
            assert_eq!(Arc::strong_count(&object), 3);
        }
        other => panic!("expected the streaming-HTTP transport to be started, got {:?}", other),
    }
}

#[test]
fn an_event_out_of_turn_changes_nothing() {
    let calls = Arc::new(AtomicUsize::new(0));
    let server =
        TransportServer::builder(service(), counting(&calls)).with_websocket(8888).build().unwrap();
    let (session, _) = server.serve();
    let (session, action) = session.step(ServeEvent::SocketStopped);
    assert!(matches!(action, ServeAction::Unexpected));
    assert_eq!(session.phase, ServePhase::SocketStarting);
    let (session, action) = session.step(ServeEvent::RegistryBuilt(Ok(registry())));
    assert!(matches!(action, ServeAction::Unexpected));
    assert!(session.registry.is_none());
    let (session, action) = session.step(ServeEvent::SocketStarted(Ok(())));
    assert!(matches!(action, ServeAction::Wait(Awaited::Socket)));
    // Only the socket runs: the end of an HTTP task cannot be what was awaited.
    let (session, action) = session.step(ServeEvent::HttpFinished(HttpExit::Stopped));
    assert!(matches!(action, ServeAction::Unexpected));
    assert_eq!(session.phase, ServePhase::Waiting);
}

#[test]
fn a_finished_call_answers_nothing_more() {
    let calls = Arc::new(AtomicUsize::new(0));
    let server = TransportServer::builder(service(), counting(&calls)).build().unwrap();
    let (session, _) = server.serve();
    let (session, action) = session.step(ServeEvent::SocketStopped);
    assert!(matches!(action, ServeAction::Unexpected));
    let (session, action) = session.step(ServeEvent::StdioFinished(Ok(())));
    assert!(matches!(action, ServeAction::Unexpected));
    assert_eq!(session.phase, ServePhase::Done);
}

#[test]
fn the_builder_keeps_the_last_setting_of_a_transport() {
    let calls = Arc::new(AtomicUsize::new(0));
    let custom = McpHttpConfig {
        addr: SocketAddress::V4 { ipv4: 0, port: 9000 },
        session_storage: hub_transport::SessionStorage::InMemory,
    };
    let server = TransportServer::builder(service(), counting(&calls))
        .with_mcp_http(8889)
        .with_mcp_http_config(custom)
        .build()
        .unwrap();
    let (_, action) = server.serve();
    match action {
        ServeAction::StartHttp { config, .. } => {
            assert_eq!(config.addr, SocketAddress::V4 { ipv4: 0, port: 9000 })
        }
        other => panic!("expected the streaming-HTTP transport to be started, got {:?}", other),
    }
}
