//! The server lifecycle: an idempotent start/stop/status state machine.
//!
//! The listening server runs on a dedicated worker owned by the host; this
//! module decides the transitions.  A start request on a stopped server
//! asks the host to bind a listener; once the bind succeeds the state turns
//! to running.  A start request on a running server asks for nothing: no
//! second listener is ever spawned.  A stop request signals the worker and
//! turns the state to stopped at once, fire and forget; stopping a stopped
//! server is a no-op.  The host guards the machine with one mutual
//! exclusion lock held only for the duration of a transition.

use vstd::prelude::*;

verus! {

/// The port the control-plane server listens on when none is given.
pub const DEFAULT_PORT: u16 = 10769;

/// Whether the listening server is running, and on which port.
pub enum ServerState {
    Stopped,
    Running { port: u16 },
}

/// What the host must do to carry out a start request.
pub enum StartAction {
    /// Bind a listener on this port and spawn it on a dedicated worker;
    /// confirm the start once the bind succeeded, and surface a bind
    /// failure to the caller as a start failure.
    Bind { port: u16 },
    /// Nothing: the server is already running and stays as it is.
    AlreadyRunning,
}

/// What the host must do to carry out a stop request.
pub enum StopAction {
    /// Send the stop signal to the worker and drop the stored handles.
    SignalStop,
    /// Nothing: the server is already stopped.
    NoOp,
}

/// The port a start request asks for: the given one, or the default.
pub open spec fn effective_port(port: Option<u16>) -> u16 {
    match port {
        Some(p) => p,
        None => DEFAULT_PORT,
    }
}

/// What a start request decides in a given state.
pub open spec fn start_decision(s: ServerState, port: Option<u16>) -> StartAction {
    match s {
        ServerState::Running { .. } => StartAction::AlreadyRunning,
        ServerState::Stopped => StartAction::Bind { port: effective_port(port) },
    }
}

/// The state after a confirmed bind on `port`.
pub open spec fn started(port: u16) -> ServerState {
    ServerState::Running { port }
}

/// What a stop request decides in a given state.
pub open spec fn stop_decision(s: ServerState) -> StopAction {
    match s {
        ServerState::Running { .. } => StopAction::SignalStop,
        ServerState::Stopped => StopAction::NoOp,
    }
}

/// The state after a stop request: always stopped.
pub open spec fn stopped() -> ServerState {
    ServerState::Stopped
}

/// The lifecycle state machine of the listening server.
pub struct Lifecycle {
    state: ServerState,
}

impl Lifecycle {
    /// The current state.
    pub closed spec fn state(&self) -> ServerState {
        self.state
    }

    /// Whether the server is running.
    pub open spec fn is_running(&self) -> bool {
        self.state() is Running
    }

    /// A fresh lifecycle: stopped.
    pub fn new() -> (r: Lifecycle)
        ensures
            r.state() == ServerState::Stopped,
    {
        Lifecycle { state: ServerState::Stopped }
    }

    /// Decides a start request: bind on the effective port when stopped,
    /// nothing when already running.  The state does not change until the
    /// host confirms a successful bind.
    pub fn request_start(&self, port: Option<u16>) -> (a: StartAction)
        ensures
            a == start_decision(self.state(), port),
    {
        match self.state {
            ServerState::Running { .. } => StartAction::AlreadyRunning,
            ServerState::Stopped => {
                let p: u16 = match port {
                    Some(p) => p,
                    None => DEFAULT_PORT,
                };
                StartAction::Bind { port: p }
            },
        }
    }

    /// Records that the listener bound on `port` and its worker was
    /// spawned: the server is now running.
    pub fn confirm_start(&mut self, port: u16)
        requires
            !old(self).is_running(),
        ensures
            final(self).state() == started(port),
    {
        self.state = ServerState::Running { port };
    }

    /// Decides and applies a stop request: signal the worker when running,
    /// nothing when already stopped.  The state turns to stopped at once,
    /// without waiting for the worker to unwind.
    pub fn stop(&mut self) -> (a: StopAction)
        ensures
            a == stop_decision(old(self).state()),
            final(self).state() == stopped(),
    {
        let a = match self.state {
            ServerState::Running { .. } => StopAction::SignalStop,
            ServerState::Stopped => StopAction::NoOp,
        };
        self.state = ServerState::Stopped;
        a
    }

    /// Whether the server is currently running.
    pub fn status(&self) -> (r: bool)
        ensures
            r == self.is_running(),
    {
        match self.state {
            ServerState::Running { .. } => true,
            ServerState::Stopped => false,
        }
    }
}

/// Idempotent start: from a stopped server the first request binds a
/// listener and, once confirmed, the server runs; a second request decides
/// nothing to do, binds no second listener, and the server stays running.
pub proof fn lemma_start_idempotent(port1: Option<u16>, port2: Option<u16>)
    ensures
        start_decision(ServerState::Stopped, port1) == (StartAction::Bind {
            port: effective_port(port1),
        }),
        started(effective_port(port1)) is Running,
        start_decision(started(effective_port(port1)), port2) == StartAction::AlreadyRunning,
{
}

/// Idempotent stop: stopping a stopped server signals nothing and leaves
/// the server stopped.
pub proof fn lemma_stop_idempotent()
    ensures
        stop_decision(ServerState::Stopped) == StopAction::NoOp,
        stopped() == ServerState::Stopped,
{
}

} // verus!
