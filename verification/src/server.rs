//! The transport server and its builder.
//!
//! A [`TransportServerBuilder`] collects which transports to enable;
//! [`TransportServer::serve`] opens the serve call. The server owns three
//! things: a handle to the shared service object, the configuration, and the
//! factory that turns a handle into the method registry. The factory sits in
//! a slot that is emptied when it is invoked, so it can be invoked once.

use crate::config::{McpHttpConfig, StdioConfig, TransportConfig, WebSocketConfig};
use crate::error::TransportError;
use crate::orchestrator::{ServeAction, ServeEvent, ServeSession};
use std::sync::Arc;
use vstd::prelude::*;

verus! {

/// Hosts one service object on the transports its configuration enables.
pub struct TransportServer<A, F> where
    F: FnOnce(Arc<A>) -> Result<jsonrpsee::RpcModule<()>, anyhow::Error> + Send + 'static,
 {
    activation: Arc<A>,
    config: TransportConfig,
    rpc_converter: Option<F>,
}

/// Collects the configuration of a [`TransportServer`].
pub struct TransportServerBuilder<A, F> where
    F: FnOnce(Arc<A>) -> Result<jsonrpsee::RpcModule<()>, anyhow::Error> + Send + 'static,
 {
    activation: Arc<A>,
    config: TransportConfig,
    rpc_converter: Option<F>,
}

impl<A, F> TransportServer<A, F> where
    F: FnOnce(Arc<A>) -> Result<jsonrpsee::RpcModule<()>, anyhow::Error> + Send + 'static,
 {
    /// The factory, while the server holds one, can be invoked on the
    /// server's handle.
    #[verifier::type_invariant]
    spec fn callable(self) -> bool {
        self.rpc_converter matches Some(converter) ==> call_requires(
            converter,
            (self.activation,),
        )
    }

    /// The handle to the service object.
    pub closed spec fn activation(self) -> Arc<A> {
        self.activation
    }

    /// The configuration.
    pub closed spec fn config(self) -> TransportConfig {
        self.config
    }

    /// The factory, if it has not been invoked yet.
    pub closed spec fn converter(self) -> Option<F> {
        self.rpc_converter
    }

    /// What [`TransportServer::serve`] returns.
    ///
    /// Without a transport that needs the registry, or without a factory, it
    /// is the opening state and action of the session. Otherwise the factory
    /// was invoked on the server's handle, and it is the state and action
    /// that follow the factory's result.
    pub open spec fn serves(self, next: (ServeSession<A>, ServeAction<A>)) -> bool {
        let opening = ServeSession::spec_begin(
            self.config(),
            self.activation(),
            self.converter() is Some,
        );
        if opening.1 is BuildRegistry {
            exists|built: Result<jsonrpsee::RpcModule<()>, anyhow::Error>|
                call_ensures(self.converter()->0, (self.activation(),), built) && next
                    == #[trigger] opening.0.spec_step(ServeEvent::RegistryBuilt(built))
        } else {
            next == opening
        }
    }

    /// A builder for a server that hosts `activation`, with no transport
    /// enabled yet. `rpc_converter` is the factory of the method registry.
    pub fn builder(activation: Arc<A>, rpc_converter: F) -> (builder: TransportServerBuilder<A, F>)
        requires
            call_requires(rpc_converter, (activation,)),
        ensures
            builder.activation() == activation,
            builder.converter() == Some(rpc_converter),
            builder.config().websocket is None,
            builder.config().stdio is None,
            builder.config().mcp_http is None,
    {
        TransportServerBuilder::new(activation, rpc_converter)
    }

    /// Opens the serve call, which uses the server up.
    ///
    /// The registry is built here, by one invocation of the factory, if and
    /// only if the socket transport or the line-delimited transport is
    /// enabled. The result is the session together with the first action its
    /// driver is to perform; that action is never
    /// [`ServeAction::BuildRegistry`].
    pub fn serve(self) -> (next: (ServeSession<A>, ServeAction<A>))
        ensures
            self.serves(next),
            !(next.1 is BuildRegistry),
    {
        proof {
            use_type_invariant(&self);
        }
        let TransportServer { activation, config, rpc_converter } = self;
        let (session, action) = ServeSession::begin(config, activation, rpc_converter.is_some());
        match (action, rpc_converter) {
            (ServeAction::BuildRegistry { activation: handle }, Some(converter)) => {
                let built = converter(handle);
                session.step(ServeEvent::RegistryBuilt(built))
            },
            (action, _) => (session, action),
        }
    }
}

impl<A, F> TransportServerBuilder<A, F> where
    F: FnOnce(Arc<A>) -> Result<jsonrpsee::RpcModule<()>, anyhow::Error> + Send + 'static,
 {
    /// The factory can be invoked on the builder's handle.
    #[verifier::type_invariant]
    spec fn callable(self) -> bool {
        self.rpc_converter matches Some(converter) ==> call_requires(
            converter,
            (self.activation,),
        )
    }

    /// The handle to the service object.
    pub closed spec fn activation(self) -> Arc<A> {
        self.activation
    }

    /// The configuration collected so far.
    pub closed spec fn config(self) -> TransportConfig {
        self.config
    }

    /// The factory.
    pub closed spec fn converter(self) -> Option<F> {
        self.rpc_converter
    }

    /// Whether `other` is this builder with `config` in place of its
    /// configuration: the same handle and the same factory.
    pub open spec fn configured(
        self,
        other: TransportServerBuilder<A, F>,
        config: TransportConfig,
    ) -> bool {
        &&& other.activation() == self.activation()
        &&& other.converter() == self.converter()
        &&& other.config() == config
    }

    /// A builder with no transport enabled.
    pub fn new(activation: Arc<A>, rpc_converter: F) -> (builder: TransportServerBuilder<A, F>)
        requires
            call_requires(rpc_converter, (activation,)),
        ensures
            builder.activation() == activation,
            builder.converter() == Some(rpc_converter),
            builder.config().websocket is None,
            builder.config().stdio is None,
            builder.config().mcp_http is None,
    {
        TransportServerBuilder {
            activation,
            config: TransportConfig::default(),
            rpc_converter: Some(rpc_converter),
        }
    }

    /// Enables the socket transport on the loopback address at `port`.
    pub fn with_websocket(self, port: u16) -> (builder: TransportServerBuilder<A, F>)
        ensures
            self.configured(
                builder,
                TransportConfig {
                    websocket: Some(WebSocketConfig { addr: crate::config::SocketAddress::loopback(port) }),
                    ..self.config()
                },
            ),
    {
        proof {
            use_type_invariant(&self);
        }
        let mut builder = self;
        builder.config.websocket = Some(WebSocketConfig::new(port));
        builder
    }

    /// Enables the line-delimited transport with its default settings.
    pub fn with_stdio(self) -> (builder: TransportServerBuilder<A, F>)
        ensures
            self.configured(
                builder,
                TransportConfig {
                    stdio: Some(StdioConfig { subscription_buffer_size: 1024 }),
                    ..self.config()
                },
            ),
    {
        proof {
            use_type_invariant(&self);
        }
        let mut builder = self;
        builder.config.stdio = Some(StdioConfig::default());
        builder
    }

    /// Enables the streaming-HTTP transport on the loopback address at
    /// `port`, with its sessions in memory.
    pub fn with_mcp_http(self, port: u16) -> (builder: TransportServerBuilder<A, F>)
        ensures
            self.configured(
                builder,
                TransportConfig {
                    mcp_http: Some(
                        McpHttpConfig {
                            addr: crate::config::SocketAddress::loopback(port),
                            session_storage: crate::config::SessionStorage::InMemory,
                        },
                    ),
                    ..self.config()
                },
            ),
    {
        proof {
            use_type_invariant(&self);
        }
        let mut builder = self;
        builder.config.mcp_http = Some(McpHttpConfig::new(port));
        builder
    }

    /// Enables the streaming-HTTP transport with the settings given.
    pub fn with_mcp_http_config(self, config: McpHttpConfig) -> (builder: TransportServerBuilder<
        A,
        F,
    >)
        ensures
            self.configured(builder, TransportConfig { mcp_http: Some(config), ..self.config() }),
    {
        proof {
            use_type_invariant(&self);
        }
        let mut builder = self;
        builder.config.mcp_http = Some(config);
        builder
    }

    /// The server with the configuration collected. This step cannot fail.
    pub fn build(self) -> (server: Result<TransportServer<A, F>, TransportError>)
        ensures
            server matches Ok(built) && built.activation() == self.activation() && built.config()
                == self.config() && built.converter() == self.converter(),
    {
        proof {
            use_type_invariant(&self);
        }
        Ok(
            TransportServer {
                activation: self.activation,
                config: self.config,
                rpc_converter: self.rpc_converter,
            },
        )
    }
}

} // verus!
