//! The I2P transport.
//!
//! No I2P router is driven yet. The transport has the shape of a finished
//! one, and every attempt to use it fails at once and says why, so that a
//! node with I2P enabled starts without it instead of hanging.

use core::time::Duration;
use vstd::prelude::*;
use crate::garlic_addr::GarlicAddr;

verus! {

/// The I2P transport.
#[derive(Debug, Clone, Copy, Default)]
pub struct I2pTransport;

/// How to reach the router for outbound connections.
#[derive(Debug, Default)]
pub struct I2pClientConfig {
    /// Address of the I2P router.
    pub router_address: String,
    /// How long to wait for a connection to come up.
    pub connect_timeout: Duration,
    /// How long a destination lease is kept.
    pub lease_duration: Duration,
}

impl Clone for I2pClientConfig {
    fn clone(&self) -> (copy: Self)
        ensures
            copy == *self,
    {
        Self {
            router_address: self.router_address.clone(),
            connect_timeout: self.connect_timeout,
            lease_duration: self.lease_duration,
        }
    }
}

/// How to listen for inbound connections.
#[derive(Debug, Clone)]
pub struct I2pServerConfig {
    /// The destination to listen on, where one exists already.
    pub destination: Option<GarlicAddr>,
    /// The key material of that destination.
    pub private_key: Option<Vec<u8>>,
    /// Number of tunnels to build.
    pub tunnel_count: u8,
    /// Number of hops of each tunnel.
    pub tunnel_length: u8,
}

impl Default for I2pServerConfig {
    /// No destination yet, three tunnels of three hops.
    fn default() -> (config: Self)
        ensures
            config.destination is None,
            config.private_key is None,
            config.tunnel_count == 3,
            config.tunnel_length == 3,
    {
        Self { destination: None, private_key: None, tunnel_count: 3, tunnel_length: 3 }
    }
}

/// What the transport answers to every attempt to use it.
pub const NOT_SUPPORTED: &'static str =
    "I2P transport not yet implemented - needs actual I2P client library integration";

/// Why the transport could not be used.
#[derive(Debug, Clone, Copy, PartialEq, Eq, Structural)]
pub enum TransportError {
    /// The transport does not drive a router yet.
    NotSupported,
}

impl TransportError {
    /// The error in words.
    pub fn message(&self) -> (text: &'static str)
        ensures
            text@ == NOT_SUPPORTED@,
    {
        match self {
            TransportError::NotSupported => NOT_SUPPORTED,
        }
    }
}

/// Whether something polled for is there.
#[derive(Debug, Clone, Copy, PartialEq, Eq)]
pub enum Readiness<T> {
    /// It is there.
    Ready(T),
    /// It is not there yet; ask again later.
    Pending,
}

/// The source of decoded messages of an I2P connection.
pub struct I2pStream {
    _inner: (),
}

/// The destination of encoded messages of an I2P connection.
pub struct I2pSink {
    _inner: (),
}

/// The source of inbound I2P connections.
pub struct I2pListener {
    _inner: (),
}

impl I2pTransport {
    /// Connects to the peer at `addr`: fails as not supported.
    pub fn connect_to_peer(addr: GarlicAddr, config: &I2pClientConfig) -> (outcome: Result<
        (I2pStream, I2pSink),
        TransportError,
    >)
        ensures
            outcome == Err::<(I2pStream, I2pSink), TransportError>(TransportError::NotSupported),
    {
        Err(TransportError::NotSupported)
    }

    /// Sets up the listener for inbound connections: fails as not supported.
    pub fn incoming_connection_listener(config: I2pServerConfig) -> (outcome: Result<
        I2pListener,
        TransportError,
    >)
        ensures
            outcome == Err::<I2pListener, TransportError>(TransportError::NotSupported),
    {
        Err(TransportError::NotSupported)
    }
}

impl I2pStream {
    /// Polls for the next message; `None` would end the stream. No message
    /// ever arrives, and the stream does not end.
    pub fn poll_next<M>(&mut self) -> (polled: Readiness<Option<M>>)
        ensures
            polled is Pending,
    {
        Readiness::Pending
    }
}

impl I2pSink {
    /// Polls whether a message can be handed over: always.
    pub fn poll_ready<E>(&mut self) -> (polled: Readiness<Result<(), E>>)
        ensures
            polled == Readiness::Ready(Ok::<(), E>(())),
    {
        Readiness::Ready(Ok(()))
    }

    /// Takes a message for sending.
    pub fn start_send<M, E>(&mut self, item: M) -> (outcome: Result<(), E>)
        ensures
            outcome is Ok,
    {
        Ok(())
    }

    /// Polls whether everything taken has been written out: always.
    pub fn poll_flush<E>(&mut self) -> (polled: Readiness<Result<(), E>>)
        ensures
            polled == Readiness::Ready(Ok::<(), E>(())),
    {
        Readiness::Ready(Ok(()))
    }

    /// Polls whether the sink is closed: always, however often it is asked.
    pub fn poll_close<E>(&mut self) -> (polled: Readiness<Result<(), E>>)
        ensures
            polled == Readiness::Ready(Ok::<(), E>(())),
    {
        Readiness::Ready(Ok(()))
    }
}

impl I2pListener {
    /// Polls for the next inbound connection; `None` would end the
    /// listener. No connection ever arrives.
    pub fn poll_next<C>(&mut self) -> (polled: Readiness<Option<C>>)
        ensures
            polled is Pending,
    {
        Readiness::Pending
    }
}

} // verus!
