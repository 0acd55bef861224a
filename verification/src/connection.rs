//! The connection lifecycle.
//!
//! A producer owns at most one live connection to the service endpoint. The
//! connection is opened lazily and idempotently, is authorized per
//! destination path before any session under that path is used, and is torn
//! down exactly once however many times closing is requested. The transport
//! handshake and the claims-based-security exchange themselves are network
//! work done by the protocol engine and the credential collaborator; this
//! type tracks the state those steps establish and the obligations owed
//! around them.

use vstd::prelude::*;

use crate::error::{ErrorKind, EventHubsError};

verus! {

/// Where the connection stands in its life: never opened yet, live, or torn
/// down for good.
#[derive(Clone, Copy, Debug, PartialEq, Eq, Structural)]
pub enum ConnectionState {
    Absent,
    Open,
    Closed,
}

/// Tracks the producer's single connection and the paths authorized on it.
pub struct ConnectionManager {
    state: ConnectionState,
    authorized_paths: Vec<String>,
}

impl ConnectionManager {
    /// The connection's place in its lifecycle.
    pub closed spec fn spec_state(&self) -> ConnectionState {
        self.state
    }

    /// The paths for which a token was requested and installed, in request
    /// order. A path appears once per authorization performed: tokens are
    /// re-requested for every new path-scoped session, never cached here.
    pub closed spec fn spec_authorized(&self) -> Seq<Seq<char>> {
        self.authorized_paths@.map_values(|p: String| p@)
    }

    /// Creates a manager with no connection yet.
    pub fn new() -> (m: Self)
        ensures
            m.spec_state() == ConnectionState::Absent,
            m.spec_authorized() == Seq::<Seq<char>>::empty(),
    {
        let m = ConnectionManager { state: ConnectionState::Absent, authorized_paths: Vec::new() };
        proof {
            assert(m.spec_authorized() =~= Seq::<Seq<char>>::empty());
        }
        m
    }

    /// Opens the connection if absent; a no-op if already open. Returns
    /// whether this call opened it. A connection that was closed stays
    /// closed: using it again is an error, and nothing changes.
    pub fn ensure_connection(&mut self) -> (r: Result<bool, EventHubsError>)
        ensures
            final(self).spec_authorized() == old(self).spec_authorized(),
            match old(self).spec_state() {
                ConnectionState::Absent => {
                    &&& r == Ok::<bool, EventHubsError>(true)
                    &&& final(self).spec_state() == ConnectionState::Open
                },
                ConnectionState::Open => {
                    &&& r == Ok::<bool, EventHubsError>(false)
                    &&& final(self).spec_state() == ConnectionState::Open
                },
                ConnectionState::Closed => {
                    &&& r == Err::<bool, EventHubsError>(EventHubsError {
                        kind: ErrorKind::ConnectionClosed,
                    })
                    &&& final(self).spec_state() == ConnectionState::Closed
                },
            },
    {
        match self.state {
            ConnectionState::Absent => {
                self.state = ConnectionState::Open;
                Ok(true)
            },
            ConnectionState::Open => Ok(false),
            ConnectionState::Closed => Err(EventHubsError { kind: ErrorKind::ConnectionClosed }),
        }
    }

    /// Whether a connection handle can be had right now. Callers must have
    /// ensured the connection before taking its handle.
    pub fn connection_ready(&self) -> (r: bool)
        ensures
            r == (self.spec_state() == ConnectionState::Open),
    {
        match self.state {
            ConnectionState::Open => true,
            _ => false,
        }
    }

    /// Records that a token scoped to `path` was requested and installed on
    /// the connection. Owed once before any session whose resource lives
    /// under `path` is created, and again for every new path.
    pub fn authorize_path(&mut self, path: &String) -> (r: Result<(), EventHubsError>)
        ensures
            final(self).spec_state() == old(self).spec_state(),
            match old(self).spec_state() {
                ConnectionState::Open => {
                    &&& r == Ok::<(), EventHubsError>(())
                    &&& final(self).spec_authorized() == old(self).spec_authorized().push(path@)
                },
                _ => {
                    &&& r == Err::<(), EventHubsError>(EventHubsError {
                        kind: ErrorKind::ConnectionClosed,
                    })
                    &&& final(self).spec_authorized() == old(self).spec_authorized()
                },
            },
    {
        match self.state {
            ConnectionState::Open => {
                self.authorized_paths.push(path.clone());
                proof {
                    assert(final(self).spec_authorized() =~= old(self).spec_authorized().push(
                        path@,
                    ));
                }
                Ok(())
            },
            _ => Err(EventHubsError { kind: ErrorKind::ConnectionClosed }),
        }
    }

    /// Tears the connection down. Idempotent: closing an already-closed or
    /// never-opened connection is safe and leaves it closed.
    pub fn close_connection(&mut self)
        ensures
            final(self).spec_state() == ConnectionState::Closed,
            final(self).spec_authorized() == old(self).spec_authorized(),
    {
        self.state = ConnectionState::Closed;
    }
}

} // verus!
