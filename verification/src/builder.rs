//! Building a transport and bootstrapping its execution host.
//!
//! A builder carries an injectable client factory and an optional per-request
//! time limit. The host runs the execution loop either on a dedicated
//! context of its own ("standalone") or on a caller-supplied one ("shared");
//! in both modes a ready transport or a construction error is handed back
//! synchronously, and a failing factory yields `ClientConstructionFailed`
//! with nothing left running.

use vstd::prelude::*;

use crate::errors::Error;
use crate::transport::HttpTransport;
use std::time::Duration;

verus! {

/// The factory of the default plaintext network client.
pub struct DefaultClient;

/// What the execution host observed while coming up, before any request
/// was processed.
#[derive(Debug, Clone, Copy, PartialEq, Eq, Structural)]
pub enum HostSetup {
    /// The client was constructed and the loop is wired to the queue.
    Ready,
    /// The injected client factory failed.
    FactoryFailed,
    /// The dedicated execution context itself could not be brought up.
    LoopUnavailable,
}

/// Builder for a transport: a client factory plus an optional time limit
/// applied uniformly to every request of the transport.
pub struct HttpTransportBuilder<C> {
    client_creator: C,
    timeout: Option<Duration>,
}

impl<C> HttpTransportBuilder<C> {
    /// The injected client factory.
    pub closed spec fn creator_spec(self) -> C {
        self.client_creator
    }

    /// The configured per-request time limit.
    pub closed spec fn timeout_spec(self) -> Option<Duration> {
        self.timeout
    }

    /// A builder using the provided client factory, with no time limit
    /// configured.
    pub fn with_client(client_creator: C) -> (b: HttpTransportBuilder<C>)
        ensures
            b.creator_spec() == client_creator,
            b.timeout_spec() is None,
    {
        HttpTransportBuilder { client_creator, timeout: None }
    }

    /// Configures the time limit for requests.
    pub fn timeout(self, duration: Duration) -> (b: Self)
        ensures
            b.creator_spec() == self.creator_spec(),
            b.timeout_spec() == Some(duration),
    {
        HttpTransportBuilder { client_creator: self.client_creator, timeout: Some(duration) }
    }

    /// Takes the builder apart for the runtime that constructs the actual
    /// client and spawns the loop.
    pub fn into_parts(self) -> (r: (C, Option<Duration>))
        ensures
            r.0 == self.creator_spec(),
            r.1 == self.timeout_spec(),
    {
        (self.client_creator, self.timeout)
    }

    /// The transport handed to the caller once a host is up: a fresh front
    /// end whose first identifier is 1.
    pub fn build(self) -> (t: HttpTransport)
        ensures
            t.is_fresh(),
    {
        HttpTransport::fresh()
    }

    /// What the standalone bootstrap hands back, given what the dedicated
    /// execution context observed while coming up: a ready transport, or
    /// the construction error — synchronously, and a failing factory yields
    /// `ClientConstructionFailed` (the spawned context observes the failure
    /// and exits after signaling it, so nothing is left running).
    pub fn standalone(self, setup: HostSetup) -> (r: Result<HttpTransport, Error>)
        ensures
            setup is Ready ==> r is Ok && r->Ok_0.is_fresh(),
            setup is FactoryFailed ==> r == Err::<HttpTransport, Error>(
                Error::ClientConstructionFailed,
            ),
            setup is LoopUnavailable ==> r == Err::<HttpTransport, Error>(
                Error::ExecutorTerminated,
            ),
    {
        match setup {
            HostSetup::Ready => Ok(self.build()),
            HostSetup::FactoryFailed => Err(Error::ClientConstructionFailed),
            HostSetup::LoopUnavailable => Err(Error::ExecutorTerminated),
        }
    }

    /// What the shared-loop bootstrap hands back: the client is constructed
    /// synchronously on the calling thread, so a failing factory yields
    /// `ClientConstructionFailed` at once and nothing is scheduled on the
    /// shared loop; otherwise the caller receives a fresh transport.
    pub fn shared(self, client_created: bool) -> (r: Result<HttpTransport, Error>)
        ensures
            client_created ==> r is Ok && r->Ok_0.is_fresh(),
            !client_created ==> r == Err::<HttpTransport, Error>(Error::ClientConstructionFailed),
    {
        if client_created {
            Ok(self.build())
        } else {
            Err(Error::ClientConstructionFailed)
        }
    }
}

} // verus!
