//! The life cycle of the relay server: where it listens, and how it is
//! stopped once.
use crate::decimal::{digits, render_unsigned};
use vstd::prelude::*;
use vstd::string::*;

verus! {

/// The address that a server on `host` and `port` binds.
pub open spec fn bind_text(host: Seq<char>, port: u16) -> Seq<char> {
    host + ":"@ + digits(port as nat)
}

/// Writes the address that a server on `host` and `port` binds.
pub fn bind_address(host: &str, port: u16) -> (address: String)
    ensures
        address@ == bind_text(host@, port),
{
    let mut address = String::from_str(host);
    address.append(":");
    let number = render_unsigned(port as u64);
    address.append(number.as_str());
    address
}

/// What is done when a guard lets go of its server.
#[derive(Debug, Clone, Copy, PartialEq, Eq, Structural)]
pub enum Shutdown {
    /// Stop the server; `graceful` lets the sessions in flight drain.
    Stop { graceful: bool },
    /// The server cannot be stopped in order, since no runtime is at hand.
    Abandon,
    /// The guard held no server.
    Nothing,
}

/// Holds a running server until it is released, and stops it once.
#[derive(Debug, Clone, Copy, PartialEq, Eq, Structural)]
pub struct ServerGuard {
    pub holds_server: bool,
}

impl ServerGuard {
    /// What releasing a guard does: a guard that holds a server stops it
    /// gracefully where a runtime is at hand and abandons it where none is;
    /// one that holds none does nothing.
    pub open spec fn released(self, runtime_at_hand: bool) -> Shutdown {
        if !self.holds_server {
            Shutdown::Nothing
        } else if runtime_at_hand {
            Shutdown::Stop { graceful: true }
        } else {
            Shutdown::Abandon
        }
    }

    /// The guard after a release: it holds no server.
    pub open spec fn let_go(self) -> ServerGuard {
        ServerGuard { holds_server: false }
    }

    /// What stopping through a guard does: a guard that holds a server stops
    /// it, gracefully or by force as asked; one that holds none does nothing.
    pub open spec fn stopped(self, graceful: bool) -> Shutdown {
        if self.holds_server {
            Shutdown::Stop { graceful }
        } else {
            Shutdown::Nothing
        }
    }

    /// The guard of a server that has just been started.
    pub fn new() -> (guard: ServerGuard)
        ensures
            guard.holds_server,
    {
        ServerGuard { holds_server: true }
    }

    /// Stops the server on request: `graceful` lets the sessions in flight
    /// drain, otherwise they are closed by force. After the first stop the
    /// guard holds nothing, so stopping again does nothing.
    pub fn stop(&mut self, graceful: bool) -> (shutdown: Shutdown)
        ensures
            shutdown == old(self).stopped(graceful),
            *final(self) == old(self).let_go(),
    {
        if self.holds_server {
            self.holds_server = false;
            Shutdown::Stop { graceful }
        } else {
            Shutdown::Nothing
        }
    }

    /// Lets go of the server and says what to do with it. After the first
    /// release the guard holds nothing, so releasing again does nothing.
    pub fn release(&mut self, runtime_at_hand: bool) -> (shutdown: Shutdown)
        ensures
            shutdown == old(self).released(runtime_at_hand),
            *final(self) == old(self).let_go(),
    {
        if !self.holds_server {
            Shutdown::Nothing
        } else {
            self.holds_server = false;
            if runtime_at_hand {
                Shutdown::Stop { graceful: true }
            } else {
                Shutdown::Abandon
            }
        }
    }
}

/// Stopping is idempotent: whatever the first stop or release did, every
/// later one on the same guard does nothing and leaves the guard as it is.
pub proof fn stop_is_idempotent(guard: ServerGuard, graceful: bool, runtime_at_hand: bool)
    ensures
        guard.let_go().stopped(graceful) == Shutdown::Nothing,
        guard.let_go().released(runtime_at_hand) == Shutdown::Nothing,
        guard.let_go().let_go() == guard.let_go(),
{
}

} // verus!
