//! The decisions of a server: whom to let in, which connections there
//! are, and what to tell them when the server shuts down.
//!
//! A [`Server`] accepts no stream and reads no byte. The loop that does
//! asks it what to do: [`Server::decide_admission`] when a peer connects,
//! [`crate::server::http::read_step`] while the request arrives,
//! [`crate::server::upgrade::perform_handshake`] or
//! [`crate::server::http::route_http`] when the request is there,
//! [`Server::open`] and [`Server::close`] around the life of a connection,
//! and [`Server::shutdown`] at the end.

use crate::connection::machine::Connection;
use crate::connection::model::{carried, ConnectionView, frame_out, send_answer};
use crate::error::Error;
use crate::frame::{FrameView, Role};
use crate::frame::wire::wire_bytes;
use crate::handshake::opt_text;
use crate::headers::texts;
use crate::message::{Message, MessageView};
use crate::server::config::{server_fault, validation_is, ServerConfig};
use crate::server::manager::{CloseReason, ConnectionManager, Delivery, index_of, RegistryView};
use crate::server::rate_limit::{LimiterView, RateLimitConfig};
use crate::server::rate_limit::limiter::RateLimitMiddleware;
use crate::server::upgrade::Upgrade;
use crate::transport::{IpAddress, SocketAddress};
use vstd::prelude::*;

verus! {

/// What becomes of a peer that connects.
#[derive(Debug, Clone, Copy, PartialEq, Eq, Structural)]
pub enum Admission {
    /// The handshake may begin.
    Accept,
    /// The peer is over its limits: the stream is to be closed.
    RateLimited,
    /// The server is full: the stream is to be closed.
    Full,
}

/// WebSocket server
#[derive(Debug)]
pub struct Server {
    /// The configuration
    pub config: ServerConfig,
    /// The rate limiter, if peers are limited
    pub rate_limiter: Option<RateLimitMiddleware>,
    /// The registry of the connections
    pub manager: ConnectionManager,
}

/// The limits on peers that a server configuration asks for.
pub open spec fn rate_limit_of(config: &ServerConfig) -> RateLimitConfig {
    RateLimitConfig {
        max_requests: config.backpressure.max_requests_per_minute,
        window: 60_000,
        max_connections: config.backpressure.max_concurrent_per_peer,
        connection_timeout: config.idle_timeout,
    }
}

impl Server {
    /// The invariant of a server: its registry and its rate limiter are
    /// well formed, and the registry holds as many connections as the
    /// configuration allows.
    pub open spec fn wf(&self) -> bool {
        &&& self.manager.wf()
        &&& self.manager@.max_connections == self.config.max_connections
        &&& self.rate_limiter matches Some(l) ==> l@.wf()
    }

    /// A server as it is made from `config`: it holds the configuration
    /// and no connection, and limits its peers if the configuration asks
    /// for that, with nothing counted yet.
    pub open spec fn is_fresh(&self, config: ServerConfig) -> bool {
        &&& self.config == config
        &&& self.manager@ == crate::server::manager::empty_registry(config.max_connections)
        &&& match self.rate_limiter {
            Some(l) => config.backpressure.enabled && l@ == (LimiterView {
                config: rate_limit_of(&config),
                requests: Map::empty(),
                connections: Map::empty(),
            }),
            None => !config.backpressure.enabled,
        }
    }

    /// Create a new server with the given config
    pub fn new(config: ServerConfig) -> (s: Server)
        ensures
            s.wf(),
            s.is_fresh(config),
    {
        let rate_limiter = if config.backpressure.enabled {
            Some(
                RateLimitMiddleware::new(
                    RateLimitConfig {
                        max_requests: config.backpressure.max_requests_per_minute,
                        window: 60_000,
                        max_connections: config.backpressure.max_concurrent_per_peer,
                        connection_timeout: config.idle_timeout,
                    },
                ),
            )
        } else {
            None
        };
        let manager = ConnectionManager::new(config.max_connections);
        Server { config, rate_limiter, manager }
    }

    /// Create a server builder
    pub fn builder() -> (b: ServerBuilder)
        ensures
            server_fault(b.config.limits()) is None,
    {
        ServerBuilder::new()
    }

    /// Decides what becomes of a peer that connects at time `now`: a peer
    /// over its limits is turned away, and so is any peer while the server
    /// is full. A peer that is turned away for the server being full is
    /// not counted as connected.
    pub fn decide_admission(&mut self, peer: IpAddress, now: u64) -> (a: Admission)
        requires
            old(self).wf(),
        ensures
            final(self).wf(),
            final(self).config == old(self).config,
            final(self).manager@ == old(self).manager@,
            match old(self).rate_limiter {
                None => final(self).rate_limiter is None && a == (if old(self).manager@.ids.len()
                    >= old(self).config.max_connections {
                    Admission::Full
                } else {
                    Admission::Accept
                }),
                Some(l) => final(self).rate_limiter matches Some(after) && {
                    let (admitted, ok) = l@.admitted(peer.spec_key(), now);
                    if !ok {
                        a == Admission::RateLimited && after@ == admitted
                    } else if old(self).manager@.ids.len() >= old(self).config.max_connections {
                        a == Admission::Full && after@ == admitted.released(peer.spec_key())
                    } else {
                        a == Admission::Accept && after@ == admitted
                    }
                },
            },
    {
        let full = self.manager.is_full();
        match &mut self.rate_limiter {
            Some(limiter) => {
                if !limiter.check_connection(peer.key(), now) {
                    return Admission::RateLimited;
                }
                if full {
                    limiter.connection_closed(peer.key());
                    return Admission::Full;
                }
                Admission::Accept
            },
            None => {
                if full {
                    Admission::Full
                } else {
                    Admission::Accept
                }
            },
        }
    }

    /// Registers the connection that a handshake made at time `now`
    pub fn open(
        &mut self,
        remote_addr: SocketAddress,
        local_addr: SocketAddress,
        upgrade: Upgrade,
        now: u64,
    ) -> (r: Result<u64, Error>)
        requires
            old(self).wf(),
        ensures
            final(self).wf(),
            final(self).config == old(self).config,
            final(self).rate_limiter == old(self).rate_limiter,
            match r {
                Ok(id) => old(self).manager@.ids.len() < old(self).config.max_connections && id
                    == old(self).manager@.next_id && final(self).manager@ == (RegistryView {
                    ids: old(self).manager@.ids.push(id),
                    connections: old(self).manager@.connections.push(
                        opened(old(self).config, remote_addr, local_addr, upgrade, now),
                    ),
                    next_id: (id + 1) as u64,
                    stats: old(self).manager@.stats.opened(
                        (old(self).manager@.ids.len() + 1) as usize,
                    ),
                    ..old(self).manager@
                }),
                Err(e) => e is CapacityExceeded && final(self).manager@ == old(self).manager@ && (
                old(self).manager@.ids.len() >= old(self).config.max_connections
                    || old(self).manager@.next_id == u64::MAX),
            },
    {
        let mut connection = Connection::with_timeout(
            remote_addr,
            local_addr,
            Some(self.config.idle_timeout),
            now,
        );
        connection.set_limits(self.config.max_frame_size, self.config.max_message_size);
        connection.set_negotiated(upgrade.subprotocol, upgrade.extensions, upgrade.compression);
        self.manager.add_connection(connection)
    }

    /// Send `message` on the connection `id`. A server with compression
    /// switched on compresses the message on a connection on which
    /// compression was negotiated. The bytes that come back are to be
    /// written to the stream of that connection.
    pub fn send(&mut self, id: u64, message: Message, now: u64) -> (r: Result<Vec<u8>, Error>)
        requires
            old(self).wf(),
        ensures
            final(self).wf(),
            final(self).config == old(self).config,
            final(self).rate_limiter == old(self).rate_limiter,
            !old(self).manager@.contains(id) ==> final(self).manager@ == old(self).manager@
                && r matches Err(Error::Connection(_)),
            old(self).manager@.contains(id) ==> exists|key: [u8; 4]|
                final(self).manager@ == old(self).manager@.with_connection(
                    id,
                    #[trigger] old(self).manager@.connection(id).after_frame_sent(
                        sent_frame(old(self).config, old(self).manager@.connection(id), message@),
                        key,
                        now,
                    ),
                ) && send_answer(
                    r,
                    old(self).manager@.connection(id).frame_fault(
                        sent_frame(old(self).config, old(self).manager@.connection(id), message@),
                        key,
                    ),
                    wire_bytes(
                        frame_out(
                            sent_frame(
                                old(self).config,
                                old(self).manager@.connection(id),
                                message@,
                            ),
                            old(self).manager@.connection(id).role,
                            key,
                        ),
                    ),
                ),
    {
        if self.config.compression.enabled {
            self.manager.send_compressed(id, message, self.config.compression.level, now)
        } else {
            self.manager.send(id, message, now)
        }
    }

    /// Forgets the connection `id` of the peer `peer`: it leaves the
    /// registry, and the peer has one connection less
    pub fn close(&mut self, id: u64, peer: IpAddress, reason: CloseReason)
        requires
            old(self).wf(),
        ensures
            final(self).wf(),
            final(self).config == old(self).config,
            old(self).manager@.contains(id) ==> final(self).manager@ == (RegistryView {
                stats: old(self).manager@.stats.closed(
                    reason,
                    1,
                    (old(self).manager@.ids.len() - 1) as usize,
                ),
                ..old(self).manager@.without(index_of(old(self).manager@.ids, id, 0))
            }),
            !old(self).manager@.contains(id) ==> final(self).manager@ == old(self).manager@,
            match old(self).rate_limiter {
                None => final(self).rate_limiter is None,
                Some(l) => final(self).rate_limiter matches Some(after) && after@ == l@.released(
                    peer.spec_key(),
                ),
            },
    {
        let _ = self.manager.remove_connection(id, reason);
        match &mut self.rate_limiter {
            Some(limiter) => {
                limiter.connection_closed(peer.key());
            },
            None => {},
        }
    }

    /// Shuts the server down: every connection is told that the server is
    /// going away, and the registry is emptied
    pub fn shutdown(&mut self, now: u64) -> (d: Vec<Delivery>)
        requires
            old(self).wf(),
        ensures
            final(self).wf(),
            final(self).config == old(self).config,
            final(self).rate_limiter == old(self).rate_limiter,
            final(self).manager@ == (RegistryView {
                ids: Seq::empty(),
                connections: Seq::empty(),
                stats: old(self).manager@.stats.closed(
                    CloseReason::Normal,
                    old(self).manager@.ids.len(),
                    0,
                ),
                ..old(self).manager@
            }),
            exists|keys: Seq<[u8; 4]>|
                keys.len() == old(self).manager@.ids.len()
                    && crate::server::manager::broadcast::deliveries_are(
                    d@,
                    #[trigger] crate::server::manager::broadcast::deliveries_to(
                        old(self).manager@,
                        crate::server::manager::broadcast::shutdown_message(),
                        None,
                        keys,
                        old(self).manager@.ids.len() as int,
                    ),
                ),
    {
        self.manager.close_all_connections(now)
    }
}

/// The frame in which a server configured as `config` sends `m` on the
/// connection `c`: compressed, if the server compresses and the connection
/// allows it.
pub open spec fn sent_frame(config: ServerConfig, c: ConnectionView, m: MessageView) -> FrameView {
    if config.compression.enabled {
        carried(m, c.compression_negotiated, config.compression.level)
    } else {
        m.frame()
    }
}

/// The connection that a server configured as `config` registers after the
/// handshake that settled `upgrade`.
pub open spec fn opened(
    config: ServerConfig,
    remote_addr: SocketAddress,
    local_addr: SocketAddress,
    upgrade: Upgrade,
    now: u64,
) -> ConnectionView {
    ConnectionView {
        max_frame_size: config.max_frame_size,
        assembler: crate::message::assembler::fresh_assembler(config.max_message_size as nat),
        subprotocol: opt_text(upgrade.subprotocol),
        extensions: texts(upgrade.extensions@),
        compression_negotiated: upgrade.compression,
        ..crate::connection::model::fresh_connection(
            remote_addr,
            local_addr,
            Role::Server,
            crate::connection::ConnectionState::Connected,
            Some(config.idle_timeout),
            now,
        )
    }
}

/// Server builder
#[derive(Debug, Clone)]
pub struct ServerBuilder {
    /// The configuration that is being put together
    pub config: ServerConfig,
}

impl ServerBuilder {
    /// Create a new server builder
    pub fn new() -> (b: Self)
        ensures
            server_fault(b.config.limits()) is None,
    {
        ServerBuilder { config: ServerConfig::default() }
    }

    /// Bind to the given address
    pub fn bind(self, addr: SocketAddress) -> (r: Result<Self, Error>)
        ensures
            r matches Ok(b) && b.config == (ServerConfig { bind_address: addr, ..self.config }),
    {
        let mut b = self;
        b.config.bind_address = addr;
        Ok(b)
    }

    /// Set maximum connections
    pub fn max_connections(self, max: usize) -> (b: Self)
        ensures
            b.config == (ServerConfig { max_connections: max, ..self.config }),
    {
        let mut b = self;
        b.config.max_connections = max;
        b
    }

    /// Set maximum frame size
    pub fn max_frame_size(self, size: usize) -> (b: Self)
        ensures
            b.config == (ServerConfig { max_frame_size: size, ..self.config }),
    {
        let mut b = self;
        b.config.max_frame_size = size;
        b
    }

    /// Set maximum message size
    pub fn max_message_size(self, size: usize) -> (b: Self)
        ensures
            b.config == (ServerConfig { max_message_size: size, ..self.config }),
    {
        let mut b = self;
        b.config.max_message_size = size;
        b
    }

    /// Set handshake timeout
    pub fn handshake_timeout(self, timeout: u64) -> (b: Self)
        ensures
            b.config == (ServerConfig { handshake_timeout: timeout, ..self.config }),
    {
        let mut b = self;
        b.config.handshake_timeout = timeout;
        b
    }

    /// Set idle timeout
    pub fn idle_timeout(self, timeout: u64) -> (b: Self)
        ensures
            b.config == (ServerConfig { idle_timeout: timeout, ..self.config }),
    {
        let mut b = self;
        b.config.idle_timeout = timeout;
        b
    }

    /// Enable/disable compression
    pub fn compression(self, enabled: bool) -> (b: Self)
        ensures
            b.config == (ServerConfig {
                compression: crate::server::config::CompressionConfig {
                    enabled,
                    ..self.config.compression
                },
                ..self.config
            }),
    {
        let mut b = self;
        b.config.compression.enabled = enabled;
        b
    }

    /// Set backpressure strategy
    pub fn backpressure(self, strategy: crate::server::config::BackpressureStrategy) -> (b: Self)
        ensures
            b.config == (ServerConfig {
                backpressure: crate::server::config::BackpressureConfig {
                    strategy,
                    ..self.config.backpressure
                },
                ..self.config
            }),
    {
        let mut b = self;
        b.config.backpressure.strategy = strategy;
        b
    }

    /// Configure TLS using certificate and key files
    pub fn tls(self, cert_file: String, key_file: String) -> (b: Self)
        ensures
            b.config == (ServerConfig {
                tls: Some(
                    crate::server::config::TlsConfig {
                        cert_file,
                        key_file,
                        cert_chain_file: None,
                        client_auth: false,
                        ca_file: None,
                    },
                ),
                ..self.config
            }),
    {
        let mut b = self;
        b.config.tls = Some(crate::server::config::TlsConfig::new(cert_file, key_file));
        b
    }

    /// Use TLS transport instead of TCP
    pub fn transport_tls(self) -> (b: Self)
        ensures
            b.config == (ServerConfig {
                transport_type: crate::server::config::TransportType::Tls,
                ..self.config
            }),
    {
        let mut b = self;
        b.config.transport_type = crate::server::config::TransportType::Tls;
        b
    }

    /// Build the server: the configuration must be valid
    pub fn build(self) -> (r: Result<Server, Error>)
        ensures
            match r {
                Ok(s) => server_fault(self.config.limits()) is None && s.wf() && s.is_fresh(
                    self.config,
                ),
                Err(e) => validation_is(Err(e), server_fault(self.config.limits())),
            },
    {
        match self.config.validate() {
            Ok(()) => Ok(Server::new(self.config)),
            Err(e) => Err(e),
        }
    }
}

impl Default for ServerBuilder {
    fn default() -> (b: Self)
        ensures
            server_fault(b.config.limits()) is None,
    {
        ServerBuilder::new()
    }
}

} // verus!
