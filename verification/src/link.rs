//! The link manager: the state machine that owns the WiFi association
//! lifecycle. It brings the radio up, associates with the access point, and
//! recovers from disconnects, waiting a fixed delay before every retry so
//! that a flapping link does not turn into a reconnect storm.
//!
//! The machine is driven from outside: each state is a named suspension
//! point, the driver performs the returned [`LinkAction`] and feeds the
//! outcome back as a [`LinkEvent`].

use vstd::prelude::*;

use crate::config::RetryPolicy;

verus! {

/// Where the link manager stands. Exactly one terminal-success state exists
/// (`Connected`); every failure path routes through `Disconnected` before a
/// retry.
#[derive(Clone, Copy, PartialEq, Eq, Structural, Debug)]
pub enum LinkState {
    /// The radio subsystem has not been started.
    Down,
    /// Credentials are configured and a radio start is in flight.
    Starting,
    /// An association attempt is in flight.
    Connecting,
    /// Associated with the access point.
    Connected,
    /// The link was lost or an attempt failed; a retry timer is running.
    Disconnected,
}

/// Outcome of the I/O the driver performed at the current suspension point.
#[derive(Clone, Copy, PartialEq, Eq, Structural, Debug)]
pub enum LinkEvent {
    /// The radio started.
    StartOk,
    /// The radio refused to start (credential rejection, hardware fault).
    StartFailed,
    /// The association attempt succeeded.
    ConnectOk,
    /// The association attempt failed.
    ConnectFailed,
    /// The radio reported a disconnect while associated.
    Disconnect,
    /// The running retry timer elapsed.
    TimerElapsed,
}

/// What the driver must do next on behalf of the link manager.
#[derive(Clone, Copy, PartialEq, Eq, Structural, Debug)]
pub enum LinkAction {
    /// Configure station credentials and start the radio subsystem.
    ConfigureAndStart,
    /// Begin one association attempt.
    Connect,
    /// Suspend until the radio reports a disconnect.
    AwaitDisconnect,
    /// Start a timer for this many milliseconds and wait for it.
    Wait(u64),
}

/// The WiFi link manager. It owns the link state exclusively; other tasks
/// only observe it.
pub struct LinkManager {
    /// The current state; readable by other tasks, written only here.
    pub state: LinkState,
    /// Whether the radio subsystem has been started.
    pub radio_started: bool,
    /// The fixed retry delays this manager was built with.
    pub policy: RetryPolicy,
}

impl LinkManager {
    /// Internal consistency: an association exists, or is attempted, only on
    /// a started radio, and a radio start is only attempted from scratch.
    pub open spec fn wf(self) -> bool {
        &&& (self.state == LinkState::Connecting || self.state == LinkState::Connected)
            ==> self.radio_started
        &&& (self.state == LinkState::Down || self.state == LinkState::Starting)
            ==> !self.radio_started
    }

    /// Which event can arrive at the current suspension point. In `Down`
    /// nothing is awaited: the manager moves only by [`ensure_started`].
    ///
    /// [`ensure_started`]: LinkManager::ensure_started
    pub open spec fn accepts(self, ev: LinkEvent) -> bool {
        match self.state {
            LinkState::Down => false,
            LinkState::Starting => ev == LinkEvent::StartOk || ev == LinkEvent::StartFailed,
            LinkState::Connecting => ev == LinkEvent::ConnectOk || ev == LinkEvent::ConnectFailed,
            LinkState::Connected => ev == LinkEvent::Disconnect,
            LinkState::Disconnected => ev == LinkEvent::TimerElapsed,
        }
    }

    /// The transition relation of [`LinkManager::step`], as a function.
    pub open spec fn step_spec(pre: LinkManager, ev: LinkEvent) -> (LinkManager, LinkAction) {
        let policy = pre.policy;
        match ev {
            LinkEvent::StartOk => (
                LinkManager { state: LinkState::Connecting, radio_started: true, policy },
                LinkAction::Connect,
            ),
            LinkEvent::StartFailed => (
                LinkManager { state: LinkState::Disconnected, radio_started: false, policy },
                LinkAction::Wait(policy.initial_backoff),
            ),
            LinkEvent::ConnectOk => (
                LinkManager { state: LinkState::Connected, radio_started: true, policy },
                LinkAction::AwaitDisconnect,
            ),
            LinkEvent::ConnectFailed => (
                LinkManager { state: LinkState::Disconnected, radio_started: true, policy },
                LinkAction::Wait(policy.initial_backoff),
            ),
            LinkEvent::Disconnect => (
                LinkManager { state: LinkState::Disconnected, radio_started: true, policy },
                LinkAction::Wait(policy.disconnect_backoff),
            ),
            LinkEvent::TimerElapsed => {
                if pre.radio_started {
                    (
                        LinkManager { state: LinkState::Connecting, radio_started: true, policy },
                        LinkAction::Connect,
                    )
                } else {
                    (
                        LinkManager { state: LinkState::Starting, radio_started: false, policy },
                        LinkAction::ConfigureAndStart,
                    )
                }
            },
        }
    }

    /// What [`LinkManager::ensure_started`] does, as a function: a no-op on
    /// a started radio, else a move to `Starting`.
    pub open spec fn ensure_started_spec(pre: LinkManager) -> (LinkManager, Option<LinkAction>) {
        if pre.radio_started {
            (pre, None)
        } else {
            (
                LinkManager {
                    state: LinkState::Starting,
                    radio_started: false,
                    policy: pre.policy,
                },
                Some(LinkAction::ConfigureAndStart),
            )
        }
    }

    /// A fresh manager: radio down, nothing attempted yet.
    pub fn new(policy: RetryPolicy) -> (m: LinkManager)
        ensures
            m.wf(),
            m.state == LinkState::Down,
            !m.radio_started,
            m.policy == policy,
    {
        LinkManager { state: LinkState::Down, radio_started: false, policy }
    }

    /// The current state, for observers such as the bring-up monitor.
    pub fn state(&self) -> (s: LinkState)
        ensures
            s == self.state,
    {
        self.state
    }

    /// If the radio subsystem is not started, moves to `Starting` and asks
    /// the driver to configure credentials and start it. On a started radio
    /// this is a no-op: in particular it never resets a live connection.
    pub fn ensure_started(&mut self) -> (a: Option<LinkAction>)
        requires
            old(self).wf(),
        ensures
            final(self).wf(),
            (*final(self), a) == LinkManager::ensure_started_spec(*old(self)),
            old(self).radio_started ==> *final(self) == *old(self) && a is None,
            !old(self).radio_started ==> {
                &&& final(self).state == LinkState::Starting
                &&& a == Some(LinkAction::ConfigureAndStart)
            },
    {
        if self.radio_started {
            None
        } else {
            self.state = LinkState::Starting;
            Some(LinkAction::ConfigureAndStart)
        }
    }

    /// Applies the outcome of the pending action and returns the next one.
    ///
    /// Every failure (a refused start, a failed association, a disconnect)
    /// routes through `Disconnected` and a fixed-delay wait before the next
    /// attempt; nothing is propagated as fatal.
    pub fn step(&mut self, ev: LinkEvent) -> (a: LinkAction)
        requires
            old(self).wf(),
            old(self).accepts(ev),
        ensures
            final(self).wf(),
            (*final(self), a) == LinkManager::step_spec(*old(self), ev),
            final(self).policy == old(self).policy,
    {
        match ev {
            LinkEvent::StartOk => {
                self.radio_started = true;
                self.state = LinkState::Connecting;
                LinkAction::Connect
            },
            LinkEvent::StartFailed => {
                self.radio_started = false;
                self.state = LinkState::Disconnected;
                LinkAction::Wait(self.policy.initial_backoff)
            },
            LinkEvent::ConnectOk => {
                self.state = LinkState::Connected;
                LinkAction::AwaitDisconnect
            },
            LinkEvent::ConnectFailed => {
                self.state = LinkState::Disconnected;
                LinkAction::Wait(self.policy.initial_backoff)
            },
            LinkEvent::Disconnect => {
                self.state = LinkState::Disconnected;
                LinkAction::Wait(self.policy.disconnect_backoff)
            },
            LinkEvent::TimerElapsed => {
                if self.radio_started {
                    self.state = LinkState::Connecting;
                    LinkAction::Connect
                } else {
                    self.state = LinkState::Starting;
                    LinkAction::ConfigureAndStart
                }
            },
        }
    }
}

/// Law: a disconnect while `Connected` moves the manager to `Disconnected`
/// and starts the fixed disconnect delay; from there the only accepted event
/// is the timer, and only after it elapses is an association attempted
/// again. No `Connect` action can be emitted before the delay has run.
pub proof fn lemma_disconnect_waits_before_reconnect(m: LinkManager)
    requires
        m.wf(),
        m.state == LinkState::Connected,
    ensures
        forall|ev: LinkEvent| m.accepts(ev) ==> ev == LinkEvent::Disconnect,
        ({
            let (after, a) = LinkManager::step_spec(m, LinkEvent::Disconnect);
            &&& after.state == LinkState::Disconnected
            &&& a == LinkAction::Wait(m.policy.disconnect_backoff)
            &&& forall|ev: LinkEvent| after.accepts(ev) ==> ev == LinkEvent::TimerElapsed
            &&& LinkManager::step_spec(after, LinkEvent::TimerElapsed).1 == LinkAction::Connect
            &&& LinkManager::step_spec(after, LinkEvent::TimerElapsed).0.state
                == LinkState::Connecting
        }),
{
}

/// Law: every failure path — a refused start, a failed association, a lost
/// link — routes through `Disconnected` and a fixed-delay wait before
/// anything is retried; no failure leads straight back into an attempt.
pub proof fn lemma_failures_route_through_disconnected(m: LinkManager, ev: LinkEvent)
    requires
        m.wf(),
        m.accepts(ev),
        ev == LinkEvent::StartFailed || ev == LinkEvent::ConnectFailed || ev
            == LinkEvent::Disconnect,
    ensures
        ({
            let (after, a) = LinkManager::step_spec(m, ev);
            &&& after.state == LinkState::Disconnected
            &&& a is Wait
            &&& (ev == LinkEvent::Disconnect ==> a == LinkAction::Wait(
                m.policy.disconnect_backoff,
            ))
            &&& (ev != LinkEvent::Disconnect ==> a == LinkAction::Wait(m.policy.initial_backoff))
        }),
{
}

/// Law: while the radio is started — so in particular while `Connected` —
/// `ensure_started` is a no-op, however often it is repeated: the manager is
/// returned unchanged, no action is requested, and a live connection is not
/// reset.
pub proof fn lemma_ensure_started_idempotent_while_started(m: LinkManager)
    requires
        m.wf(),
        m.radio_started,
    ensures
        LinkManager::ensure_started_spec(m) == (m, None::<LinkAction>),
        LinkManager::ensure_started_spec(LinkManager::ensure_started_spec(m).0)
            == (m, None::<LinkAction>),
{
}

} // verus!
