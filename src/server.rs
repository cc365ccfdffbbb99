//! The server: which transport it serves on, and the life of one accepted
//! connection, from handshake to serving to being dropped.
use vstd::prelude::*;
use core::marker::PhantomData;

verus! {

/// The request handler, for requests that carry a context of type `C`.
pub struct Server<C> {
    marker: PhantomData<C>,
}

impl<C> Server<C> {
    /// A handler; it keeps no state between requests.
    pub fn new() -> (r: Self) {
        Server { marker: PhantomData }
    }
}

/// How connections are carried: plain HTTP, or HTTP inside TLS.
#[derive(Clone, Copy, Debug, PartialEq, Eq, Structural)]
pub enum Transport {
    Plain,
    Tls,
}

/// A configuration the server refuses to start with.
#[derive(Clone, Copy, Debug, PartialEq, Eq, Structural)]
pub enum StartupError {
    /// TLS was asked for on a host that does not offer it.
    TlsUnsupported,
}

/// Chooses the transport from the TLS switch and whether the host offers
/// TLS. Asking for TLS where there is none is an error, never a fallback.
pub fn select_transport(https: bool, tls_supported: bool) -> (r: Result<Transport, StartupError>)
    ensures
        !https ==> r == Ok::<Transport, StartupError>(Transport::Plain),
        https && tls_supported ==> r == Ok::<Transport, StartupError>(Transport::Tls),
        https && !tls_supported ==> r == Err::<Transport, StartupError>(
            StartupError::TlsUnsupported,
        ),
{
    if !https {
        Ok(Transport::Plain)
    } else if tls_supported {
        Ok(Transport::Tls)
    } else {
        Err(StartupError::TlsUnsupported)
    }
}

/// Where one accepted connection stands.
#[derive(Clone, Copy, Debug, PartialEq, Eq, Structural)]
pub enum ConnState {
    Handshaking,
    Active,
    Closed,
}

/// What happened on a connection.
#[derive(Clone, Copy, Debug, PartialEq, Eq, Structural)]
pub enum ConnEvent {
    HandshakeSucceeded,
    HandshakeFailed,
    ConnectionEnded,
}

/// What the connection's task does next.
#[derive(Clone, Copy, Debug, PartialEq, Eq, Structural)]
pub enum ConnAction {
    /// Run the TLS handshake.
    Handshake,
    /// Serve HTTP requests through the request handler.
    Serve,
    /// Drop the connection, reporting nothing.
    Drop,
}

/// The accepting side of the server. It is fixed once built: nothing that
/// happens on a connection changes it.
#[derive(Clone, Copy, Debug)]
pub struct Listener {
    pub transport: Transport,
}

/// The first state and action of a newly accepted connection.
pub open spec fn accept_step(t: Transport) -> (ConnState, ConnAction) {
    match t {
        Transport::Plain => (ConnState::Active, ConnAction::Serve),
        Transport::Tls => (ConnState::Handshaking, ConnAction::Handshake),
    }
}

/// The next state and action of a connection after an event. A failure
/// closes the connection and nothing else; any event that does not fit the
/// state closes it too.
pub open spec fn next_step(s: ConnState, e: ConnEvent) -> (ConnState, ConnAction) {
    match (s, e) {
        (ConnState::Handshaking, ConnEvent::HandshakeSucceeded) => (
            ConnState::Active,
            ConnAction::Serve,
        ),
        _ => (ConnState::Closed, ConnAction::Drop),
    }
}

impl Listener {
    /// A listener for the chosen transport.
    pub fn new(transport: Transport) -> (r: Listener)
        ensures
            r.transport == transport,
    {
        Listener { transport }
    }

    /// Starts a newly accepted connection.
    pub fn accept(&self) -> (r: (ConnState, ConnAction))
        ensures
            r == accept_step(self.transport),
    {
        match self.transport {
            Transport::Plain => (ConnState::Active, ConnAction::Serve),
            Transport::Tls => (ConnState::Handshaking, ConnAction::Handshake),
        }
    }
}

/// Advances one connection on an event.
pub fn step(state: ConnState, event: ConnEvent) -> (r: (ConnState, ConnAction))
    ensures
        r == next_step(state, event),
{
    match (state, event) {
        (ConnState::Handshaking, ConnEvent::HandshakeSucceeded) => (
            ConnState::Active,
            ConnAction::Serve,
        ),
        _ => (ConnState::Closed, ConnAction::Drop),
    }
}

/// A connection whose handshake fails is dropped, and the listener it came
/// from still accepts the next connection, which is served once its own
/// handshake succeeds.
pub proof fn lemma_handshake_failure_isolated(l: Listener)
    requires
        l.transport == Transport::Tls,
    ensures
        next_step(accept_step(l.transport).0, ConnEvent::HandshakeFailed) == (
            ConnState::Closed,
            ConnAction::Drop,
        ),
        accept_step(l.transport) == (ConnState::Handshaking, ConnAction::Handshake),
        next_step(accept_step(l.transport).0, ConnEvent::HandshakeSucceeded) == (
            ConnState::Active,
            ConnAction::Serve,
        ),
{
}

/// Once its handshake succeeds, a TLS connection stands where a plain one
/// stands on being accepted: both are served by the same request handler.
pub proof fn lemma_transport_independent(plain: Listener, tls: Listener)
    requires
        plain.transport == Transport::Plain,
        tls.transport == Transport::Tls,
    ensures
        next_step(accept_step(tls.transport).0, ConnEvent::HandshakeSucceeded) == accept_step(
            plain.transport,
        ),
{
}

} // verus!
