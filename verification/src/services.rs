use vstd::prelude::*;

verus! {

/// What the caller has to do after a change of the background services.
#[derive(Debug, Clone, Copy, PartialEq, Eq, Structural)]
pub enum ServiceTransition {
    /// Start the socket and clipboard tasks and announce `services://changed` true.
    Start,
    /// Signal shutdown, let the tasks finish in the background without
    /// waiting for them, and announce `services://changed` false.
    Stop,
    /// Nothing changed.
    Unchanged,
}

/// Whether the background services (socket listener and clipboard watcher)
/// may run, and whether they do.
pub struct ServicesState {
    enabled: bool,
    running: bool,
}

/// The change that making the services follow the sign-in state brings.
pub open spec fn sync_transition(enabled: bool, running: bool, logged_in: bool) -> ServiceTransition {
    if should_run(enabled, logged_in) {
        if running { ServiceTransition::Unchanged } else { ServiceTransition::Start }
    } else {
        if running { ServiceTransition::Stop } else { ServiceTransition::Unchanged }
    }
}

/// The services are to run: they are enabled and someone is signed in.
pub open spec fn should_run(enabled: bool, logged_in: bool) -> bool {
    enabled && logged_in
}

impl ServicesState {
    /// Enabled, not running.
    pub fn new() -> (r: Self)
        ensures
            r.is_enabled(),
            !r.is_running(),
    {
        ServicesState { enabled: true, running: false }
    }

    pub closed spec fn is_enabled(&self) -> bool {
        self.enabled
    }

    pub closed spec fn is_running(&self) -> bool {
        self.running
    }

    /// Whether the services run now.
    pub fn running(&self) -> (r: bool)
        ensures
            r == self.is_running(),
    {
        self.running
    }

    /// Starts the services unless they run already.
    pub fn start(&mut self) -> (r: ServiceTransition)
        ensures
            final(self).is_running(),
            final(self).is_enabled() == old(self).is_enabled(),
            r == (if old(self).is_running() { ServiceTransition::Unchanged } else { ServiceTransition::Start }),
    {
        if self.running {
            return ServiceTransition::Unchanged;
        }
        self.running = true;
        ServiceTransition::Start
    }

    /// Stops the services if they run.
    pub fn stop(&mut self) -> (r: ServiceTransition)
        ensures
            !final(self).is_running(),
            final(self).is_enabled() == old(self).is_enabled(),
            r == (if old(self).is_running() { ServiceTransition::Stop } else { ServiceTransition::Unchanged }),
    {
        if !self.running {
            return ServiceTransition::Unchanged;
        }
        self.running = false;
        ServiceTransition::Stop
    }

    /// Makes the services follow the sign-in state: they run exactly when
    /// they are enabled and someone is signed in.
    pub fn sync_with_auth(&mut self, logged_in: bool) -> (r: ServiceTransition)
        ensures
            final(self).is_enabled() == old(self).is_enabled(),
            final(self).is_running() == should_run(old(self).is_enabled(), logged_in),
            r == sync_transition(old(self).is_enabled(), old(self).is_running(), logged_in),
    {
        if self.enabled && logged_in {
            self.start()
        } else {
            self.stop()
        }
    }

    /// Switches the services on or off, then follows the sign-in state.
    pub fn set_enabled(&mut self, enabled: bool, logged_in: bool) -> (r: ServiceTransition)
        ensures
            final(self).is_enabled() == enabled,
            final(self).is_running() == should_run(enabled, logged_in),
            r == sync_transition(enabled, old(self).is_running(), logged_in),
    {
        self.enabled = enabled;
        self.sync_with_auth(logged_in)
    }
}

/// What to do with the services when the application exits: stop them if
/// they are managed.
pub fn stop_on_exit(services: Option<&mut ServicesState>) -> (r: ServiceTransition)
    ensures
        r == (match services {
            Some(s) => if s.is_running() { ServiceTransition::Stop } else { ServiceTransition::Unchanged },
            None => ServiceTransition::Unchanged,
        }),
        services matches Some(s) ==> !final(s).is_running() && final(s).is_enabled() == s.is_enabled(),
{
    match services {
        Some(s) => s.stop(),
        None => ServiceTransition::Unchanged,
    }
}

/// Following the sign-in state twice in a row changes nothing the second
/// time: the services are started or stopped at most once.
pub proof fn law_sync_is_idempotent(enabled: bool, running: bool, logged_in: bool)
    ensures
        sync_transition(enabled, should_run(enabled, logged_in), logged_in) == ServiceTransition::Unchanged,
{
}

/// A start is announced only for services that did not run, a stop only for
/// services that ran: the announcements alternate.
pub proof fn law_transitions_alternate(enabled: bool, running: bool, logged_in: bool)
    ensures
        sync_transition(enabled, running, logged_in) == ServiceTransition::Start ==> !running,
        sync_transition(enabled, running, logged_in) == ServiceTransition::Stop ==> running,
{
}

/// Signing out, or switching the services off, stops running services.
pub proof fn law_sign_out_stops(enabled: bool)
    ensures
        sync_transition(enabled, true, false) == ServiceTransition::Stop,
        sync_transition(false, true, true) == ServiceTransition::Stop,
{
}

} // verus!
