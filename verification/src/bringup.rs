//! The network bring-up monitor: it gates dependent work until the link
//! layer reports up and a DHCP lease is assigned. Both waits are
//! poll-with-yield loops at a fixed interval; they run once at startup, so
//! spinning is acceptable, and no timeout is imposed — without a network
//! the dependents stall, which is the intended behaviour.

use vstd::prelude::*;

use crate::config::POLL_INTERVAL_MS;
use crate::net::Ipv4Config;

verus! {

/// Where the monitor stands.
#[derive(Clone, Copy, PartialEq, Eq, Structural, Debug)]
pub enum BringupPhase {
    /// Polling until the link layer reports up.
    WaitingLink,
    /// Polling until an IPv4 lease is assigned.
    WaitingAddress,
    /// Both conditions observed; the dependents have been released.
    Ready,
}

/// What the driver must do next on behalf of the monitor.
#[derive(Clone, Copy, PartialEq, Eq, Structural, Debug)]
pub enum BringupAction {
    /// Wait this many milliseconds, then report the link status.
    PollLinkAfter(u64),
    /// Wait this many milliseconds, then report the current address.
    PollAddressAfter(u64),
    /// Release the dependent tasks: start the telemetry publisher.
    Release,
}

/// The bring-up monitor. It observes the link state read-only and owns its
/// own view of the assigned address.
pub struct BringupMonitor {
    /// The current state.
    pub phase: BringupPhase,
    /// The lease observed, once one was; cleared on link loss.
    pub address: Option<Ipv4Config>,
    /// Whether the link layer was ever observed up since the last loss.
    pub link_seen_up: bool,
}

impl BringupMonitor {
    /// Internal consistency: an address is only held after the link was
    /// observed up, and `Ready` holds both observations.
    pub open spec fn wf(self) -> bool {
        &&& self.phase == BringupPhase::WaitingLink ==> !self.link_seen_up && self.address
            is None
        &&& self.phase == BringupPhase::WaitingAddress ==> self.link_seen_up && self.address
            is None
        &&& self.phase == BringupPhase::Ready ==> self.link_seen_up && self.address is Some
    }

    /// What [`BringupMonitor::on_link_status`] does, as a function.
    pub open spec fn on_link_status_spec(pre: BringupMonitor, up: bool) -> (
        BringupMonitor,
        BringupAction,
    ) {
        if up {
            (
                BringupMonitor {
                    phase: BringupPhase::WaitingAddress,
                    address: None,
                    link_seen_up: true,
                },
                BringupAction::PollAddressAfter(0),
            )
        } else {
            (pre, BringupAction::PollLinkAfter(POLL_INTERVAL_MS))
        }
    }

    /// What [`BringupMonitor::on_address`] does, as a function.
    pub open spec fn on_address_spec(pre: BringupMonitor, lease: Option<Ipv4Config>) -> (
        BringupMonitor,
        BringupAction,
    ) {
        match lease {
            Some(cfg) => (
                BringupMonitor {
                    phase: BringupPhase::Ready,
                    address: Some(cfg),
                    link_seen_up: true,
                },
                BringupAction::Release,
            ),
            None => (pre, BringupAction::PollAddressAfter(POLL_INTERVAL_MS)),
        }
    }

    /// A fresh monitor, together with its first action: check the link at
    /// once.
    pub fn new() -> (r: (BringupMonitor, BringupAction))
        ensures
            r.0.wf(),
            r.0.phase == BringupPhase::WaitingLink,
            r.0.address is None,
            !r.0.link_seen_up,
            r.1 == BringupAction::PollLinkAfter(0),
    {
        (
            BringupMonitor { phase: BringupPhase::WaitingLink, address: None, link_seen_up: false },
            BringupAction::PollLinkAfter(0),
        )
    }

    /// Applies one observation of the link status. While the link is down
    /// the monitor keeps polling at the fixed interval; once it is up, it
    /// moves on to waiting for an address.
    pub fn on_link_status(&mut self, up: bool) -> (a: BringupAction)
        requires
            old(self).wf(),
            old(self).phase == BringupPhase::WaitingLink,
        ensures
            final(self).wf(),
            (*final(self), a) == BringupMonitor::on_link_status_spec(*old(self), up),
    {
        if up {
            self.phase = BringupPhase::WaitingAddress;
            self.link_seen_up = true;
            BringupAction::PollAddressAfter(0)
        } else {
            BringupAction::PollLinkAfter(POLL_INTERVAL_MS)
        }
    }

    /// Applies one observation of the address configuration. While no lease
    /// is assigned the monitor keeps polling at the fixed interval; once one
    /// is, it records it and releases the dependent tasks.
    pub fn on_address(&mut self, lease: Option<Ipv4Config>) -> (a: BringupAction)
        requires
            old(self).wf(),
            old(self).phase == BringupPhase::WaitingAddress,
        ensures
            final(self).wf(),
            (*final(self), a) == BringupMonitor::on_address_spec(*old(self), lease),
    {
        match lease {
            Some(cfg) => {
                self.phase = BringupPhase::Ready;
                self.address = Some(cfg);
                BringupAction::Release
            },
            None => BringupAction::PollAddressAfter(POLL_INTERVAL_MS),
        }
    }

    /// Records a link loss: the observed address is cleared and both waits
    /// start over.
    pub fn note_link_lost(&mut self)
        ensures
            final(self).wf(),
            final(self).phase == BringupPhase::WaitingLink,
            final(self).address is None,
            !final(self).link_seen_up,
    {
        self.phase = BringupPhase::WaitingLink;
        self.address = None;
        self.link_seen_up = false;
    }

    /// The lease observed, once the monitor is ready.
    pub fn address(&self) -> (r: Option<Ipv4Config>)
        ensures
            r == self.address,
    {
        self.address
    }
}

/// Law: the dependent tasks are released only when both bring-up conditions
/// have been observed — `Release` comes exactly with a lease in hand, and
/// then the monitor is `Ready` with the link seen up and that lease held.
/// The publisher therefore never starts before link-up and address
/// assignment.
pub proof fn lemma_release_only_when_ready(m: BringupMonitor, lease: Option<Ipv4Config>)
    requires
        m.wf(),
        m.phase == BringupPhase::WaitingAddress,
    ensures
        ({
            let (after, a) = BringupMonitor::on_address_spec(m, lease);
            &&& (a == BringupAction::Release <==> lease is Some)
            &&& (a == BringupAction::Release ==> after.phase == BringupPhase::Ready
                && after.link_seen_up && after.address == lease)
        }),
{
}

} // verus!
