//! The server's start/stop lifecycle state machine.
//!
//! The host's runtime drives this machine: each transition method returns
//! the action the host must perform (bind and serve the listener, or signal
//! a running listener to stop through its one-shot cancellation signal).
//! The listener itself — binding, serving and draining — is asynchronous
//! host work outside this crate; when it exits, for whatever reason, the
//! host reports that back through [`Server::listener_exited`].

use crate::auth::ServerBasic;
use vstd::prelude::*;

verus! {

/// Whether the server is listening.
#[derive(Clone, Copy, PartialEq, Eq, Structural, Debug)]
pub enum LifecycleState {
    Stopped,
    Running,
}

/// What the host must do after a start request.
#[derive(Clone, Copy, PartialEq, Eq, Structural, Debug)]
pub enum StartAction {
    /// The server was already running: bind no second listener.
    AlreadyRunning,
    /// Bind the configured address and serve until the stop signal fires.
    BindListener,
}

/// What the host must do after a shutdown request.
#[derive(Clone, Copy, PartialEq, Eq, Structural, Debug)]
pub enum ShutdownAction {
    /// The server was already stopped: nothing to do.
    AlreadyStopped,
    /// Fire the running listener's one-shot stop signal and wait for it to
    /// drain and exit.
    SignalStop,
}

/// What the host must do after a toggle request.
#[derive(Clone, Copy, PartialEq, Eq, Structural, Debug)]
pub enum ToggleAction {
    /// The server was stopped: bind the listener, as for a start request.
    BindListener,
    /// The server was running: signal it to stop, as for a shutdown request.
    SignalStop,
}

/// The lifecycle state after one toggle.
pub open spec fn toggled(s: LifecycleState) -> LifecycleState {
    match s {
        LifecycleState::Stopped => LifecycleState::Running,
        LifecycleState::Running => LifecycleState::Stopped,
    }
}

/// Toggling twice from `Stopped` passes through `Running` and ends back in
/// `Stopped`.
pub proof fn toggle_twice_from_stopped(s: LifecycleState)
    requires
        s is Stopped,
    ensures
        toggled(s) is Running,
        toggled(toggled(s)) is Stopped,
{
}

/// A session server: its listen address, the admission service it hosts
/// (which owns the user registry), and the lifecycle state.
pub struct Server {
    pub address: String,
    pub service: ServerBasic,
    pub state: LifecycleState,
}

impl Server {
    /// A stopped server with an empty registry, configured with the listen
    /// address and the credentials joins are validated against.
    pub fn new(address: String, password: String, version: String) -> (r: Server)
        ensures
            r.address == address,
            r.service.password == password,
            r.service.version == version,
            r.service.users@ == Map::<u128, crate::user::User>::empty(),
            r.state is Stopped,
    {
        Server { address, service: ServerBasic::new(password, version), state: LifecycleState::Stopped }
    }

    /// The current lifecycle state; safe to poll around start and shutdown.
    pub fn is_running(&self) -> (r: bool)
        ensures
            r == (self.state is Running),
    {
        match self.state {
            LifecycleState::Running => true,
            LifecycleState::Stopped => false,
        }
    }

    /// Requests a start. Idempotent: a running server stays as it is and no
    /// second listener is bound; a stopped server becomes running and the
    /// host must bind and serve the listener.
    pub fn start(&mut self) -> (r: StartAction)
        ensures
            old(self).state is Running ==> *final(self) == *old(self) && r is AlreadyRunning,
            old(self).state is Stopped ==> final(self).state is Running && r is BindListener,
            final(self).address == old(self).address,
            final(self).service == old(self).service,
    {
        match self.state {
            LifecycleState::Running => StartAction::AlreadyRunning,
            LifecycleState::Stopped => {
                self.state = LifecycleState::Running;
                StartAction::BindListener
            },
        }
    }

    /// The host reports that the listener exited: either its bind failed,
    /// or it was signalled to stop and has drained. The state rolls back to
    /// stopped; the registry and configuration are untouched.
    pub fn listener_exited(&mut self)
        ensures
            final(self).state is Stopped,
            final(self).address == old(self).address,
            final(self).service == old(self).service,
    {
        self.state = LifecycleState::Stopped;
    }

    /// Requests a shutdown. Idempotent: a stopped server is left exactly as
    /// it is — registry untouched; a running server becomes stopped and the
    /// host must fire the listener's stop signal.
    pub fn shutdown(&mut self) -> (r: ShutdownAction)
        ensures
            old(self).state is Stopped ==> *final(self) == *old(self) && r is AlreadyStopped,
            old(self).state is Running ==> final(self).state is Stopped && r is SignalStop,
            final(self).address == old(self).address,
            final(self).service == old(self).service,
    {
        match self.state {
            LifecycleState::Stopped => ShutdownAction::AlreadyStopped,
            LifecycleState::Running => {
                self.state = LifecycleState::Stopped;
                ShutdownAction::SignalStop
            },
        }
    }

    /// The convenience toggle: shuts down a running server, starts a
    /// stopped one.
    pub fn start_or_shutdown(&mut self) -> (r: ToggleAction)
        ensures
            final(self).state == toggled(old(self).state),
            final(self).address == old(self).address,
            final(self).service == old(self).service,
            r is BindListener <==> old(self).state is Stopped,
            r is SignalStop <==> old(self).state is Running,
    {
        if self.is_running() {
            self.shutdown();
            ToggleAction::SignalStop
        } else {
            self.start();
            ToggleAction::BindListener
        }
    }
}

} // verus!
