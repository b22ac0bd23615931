//! The telemetry publisher: a self-healing connect-and-publish loop.
//!
//! The outer loop resolves the broker, opens the transport with a bounded
//! idle timeout, and performs the protocol handshake; the inner loop samples
//! the sensor on a fixed period and publishes each reading. Every fallible
//! step is classified: resolution failure retries at once, transport,
//! handshake and publish failures tear the whole connection attempt down
//! and re-run the outer loop after a fixed backoff, and a sensor failure
//! only skips one cycle without touching the connection.
//!
//! As in the link manager, each state is a named suspension point: the
//! driver performs the returned [`PublishAction`] and feeds the outcome
//! back as a [`PublishEvent`].

use vstd::prelude::*;

use crate::config::BROKER_PORT;
use crate::config::CONNECT_BACKOFF_MS;
use crate::config::SAMPLE_PERIOD_MS;
use crate::config::TRANSPORT_TIMEOUT_MS;
use crate::net::Ipv4Addr;
use crate::telemetry::TelemetrySample;

verus! {

/// Where the publisher stands. `Resolving` through `Handshaking` belong to
/// the outer connect loop; `Sampling` through `Sleeping` to the inner
/// sampling loop of one live connection; `Backoff` is the fixed wait before
/// the outer loop re-runs.
#[derive(Clone, Copy, PartialEq, Eq, Structural, Debug)]
pub enum PublishPhase {
    /// A DNS query for the broker host is in flight.
    Resolving,
    /// A transport connect to the resolved address is in flight.
    Connecting,
    /// The protocol connect handshake is in flight.
    Handshaking,
    /// A sensor measurement is in flight.
    Sampling,
    /// A publish of the latest reading is in flight.
    Publishing,
    /// The sampling-period timer is running; the connection stays up.
    Sleeping,
    /// The backoff timer after a failed connection attempt is running.
    Backoff,
}

/// One sensor measurement as the driver reports it, in tenths of a unit.
#[derive(Clone, Copy, PartialEq, Eq, Structural, Debug)]
pub struct SensorReading {
    /// Temperature in tenths of a degree Celsius.
    pub temperature_tenths: i16,
    /// Relative humidity in tenths of a percent.
    pub humidity_tenths: u16,
}

/// Outcome of the I/O the driver performed at the current suspension point.
#[derive(Clone, Copy, PartialEq, Eq, Structural, Debug)]
pub enum PublishEvent {
    /// DNS resolution yielded this address.
    ResolveOk(Ipv4Addr),
    /// DNS resolution failed.
    ResolveFailed,
    /// The transport connection is open.
    TransportOk,
    /// The transport connection could not be opened.
    TransportFailed,
    /// The broker accepted the connect handshake.
    HandshakeOk,
    /// The broker refused the handshake, or it timed out.
    HandshakeFailed,
    /// The sensor produced a reading.
    SampleOk(SensorReading),
    /// The sensor read failed.
    SampleFailed,
    /// The publish went out.
    PublishOk,
    /// The publish failed.
    PublishFailed,
    /// The running timer elapsed.
    TimerElapsed,
}

/// What the driver must do next on behalf of the publisher.
#[derive(Clone, Copy, PartialEq, Eq, Structural, Debug)]
pub enum PublishAction {
    /// Resolve the broker hostname to an address.
    Resolve,
    /// Open the transport to this address and port, with this idle timeout
    /// in ms applied to the transport itself.
    OpenTransport(Ipv4Addr, u16, u64),
    /// Construct a fresh protocol session and perform the connect
    /// handshake.
    Handshake,
    /// Ask the sensor for a measurement.
    Sample,
    /// Publish this sample on the fixed topic, at-least-once, retain clear.
    Publish(TelemetrySample),
    /// Start a timer for this many milliseconds and wait for it.
    Wait(u64),
}

/// The telemetry publisher. The resolved address is the surviving part of
/// the current connection attempt: present exactly while a connection is
/// being set up or used, destroyed wholesale on every failure.
pub struct Publisher {
    /// The current state.
    pub phase: PublishPhase,
    /// The address of the current connection attempt.
    pub broker_addr: Option<Ipv4Addr>,
}

impl Publisher {
    /// Internal consistency: an address is held exactly while a connection
    /// attempt is alive.
    pub open spec fn wf(self) -> bool {
        match self.phase {
            PublishPhase::Resolving => self.broker_addr is None,
            PublishPhase::Backoff => self.broker_addr is None,
            _ => self.broker_addr is Some,
        }
    }

    /// Which event can arrive at the current suspension point.
    pub open spec fn accepts(self, ev: PublishEvent) -> bool {
        match self.phase {
            PublishPhase::Resolving => ev is ResolveOk || ev is ResolveFailed,
            PublishPhase::Connecting => ev is TransportOk || ev is TransportFailed,
            PublishPhase::Handshaking => ev is HandshakeOk || ev is HandshakeFailed,
            PublishPhase::Sampling => ev is SampleOk || ev is SampleFailed,
            PublishPhase::Publishing => ev is PublishOk || ev is PublishFailed,
            PublishPhase::Sleeping => ev is TimerElapsed,
            PublishPhase::Backoff => ev is TimerElapsed,
        }
    }

    /// The transition relation of [`Publisher::step`], as a function.
    pub open spec fn step_spec(pre: Publisher, ev: PublishEvent) -> (Publisher, PublishAction) {
        match ev {
            PublishEvent::ResolveOk(addr) => (
                Publisher { phase: PublishPhase::Connecting, broker_addr: Some(addr) },
                PublishAction::OpenTransport(addr, BROKER_PORT, TRANSPORT_TIMEOUT_MS),
            ),
            PublishEvent::ResolveFailed => (
                Publisher { phase: PublishPhase::Resolving, broker_addr: None },
                PublishAction::Resolve,
            ),
            PublishEvent::TransportOk => (
                Publisher { phase: PublishPhase::Handshaking, broker_addr: pre.broker_addr },
                PublishAction::Handshake,
            ),
            PublishEvent::TransportFailed => (
                Publisher { phase: PublishPhase::Backoff, broker_addr: None },
                PublishAction::Wait(CONNECT_BACKOFF_MS),
            ),
            PublishEvent::HandshakeOk => (
                Publisher { phase: PublishPhase::Sampling, broker_addr: pre.broker_addr },
                PublishAction::Sample,
            ),
            PublishEvent::HandshakeFailed => (
                Publisher { phase: PublishPhase::Backoff, broker_addr: None },
                PublishAction::Wait(CONNECT_BACKOFF_MS),
            ),
            PublishEvent::SampleOk(r) => (
                Publisher { phase: PublishPhase::Publishing, broker_addr: pre.broker_addr },
                PublishAction::Publish(
                    TelemetrySample {
                        temperature_tenths: r.temperature_tenths,
                        humidity_tenths: r.humidity_tenths,
                        seq: None,
                    },
                ),
            ),
            PublishEvent::SampleFailed => (
                Publisher { phase: PublishPhase::Sleeping, broker_addr: pre.broker_addr },
                PublishAction::Wait(SAMPLE_PERIOD_MS),
            ),
            PublishEvent::PublishOk => (
                Publisher { phase: PublishPhase::Sleeping, broker_addr: pre.broker_addr },
                PublishAction::Wait(SAMPLE_PERIOD_MS),
            ),
            PublishEvent::PublishFailed => (
                Publisher { phase: PublishPhase::Backoff, broker_addr: None },
                PublishAction::Wait(CONNECT_BACKOFF_MS),
            ),
            PublishEvent::TimerElapsed => {
                if pre.phase is Sleeping {
                    (
                        Publisher { phase: PublishPhase::Sampling, broker_addr: pre.broker_addr },
                        PublishAction::Sample,
                    )
                } else {
                    (
                        Publisher { phase: PublishPhase::Resolving, broker_addr: None },
                        PublishAction::Resolve,
                    )
                }
            },
        }
    }

    /// A fresh publisher about to make its first resolution attempt,
    /// together with that first action. It is only started once the link is
    /// up and an address is assigned.
    pub fn new() -> (r: (Publisher, PublishAction))
        ensures
            r.0.wf(),
            r.0.phase == PublishPhase::Resolving,
            r.0.broker_addr is None,
            r.1 == PublishAction::Resolve,
    {
        (
            Publisher { phase: PublishPhase::Resolving, broker_addr: None },
            PublishAction::Resolve,
        )
    }

    /// Applies the outcome of the pending action and returns the next one.
    ///
    /// Resolution failure retries at once, with no artificial delay.
    /// Transport, handshake and publish failures destroy the connection
    /// attempt wholesale and re-run the outer loop after the fixed backoff;
    /// nothing is swallowed. A sensor failure skips one publish cycle and
    /// leaves the connection alone.
    pub fn step(&mut self, ev: PublishEvent) -> (a: PublishAction)
        requires
            old(self).wf(),
            old(self).accepts(ev),
        ensures
            final(self).wf(),
            (*final(self), a) == Publisher::step_spec(*old(self), ev),
    {
        match ev {
            PublishEvent::ResolveOk(addr) => {
                self.phase = PublishPhase::Connecting;
                self.broker_addr = Some(addr);
                PublishAction::OpenTransport(addr, BROKER_PORT, TRANSPORT_TIMEOUT_MS)
            },
            PublishEvent::ResolveFailed => {
                self.phase = PublishPhase::Resolving;
                self.broker_addr = None;
                PublishAction::Resolve
            },
            PublishEvent::TransportOk => {
                self.phase = PublishPhase::Handshaking;
                PublishAction::Handshake
            },
            PublishEvent::TransportFailed => {
                self.phase = PublishPhase::Backoff;
                self.broker_addr = None;
                PublishAction::Wait(CONNECT_BACKOFF_MS)
            },
            PublishEvent::HandshakeOk => {
                self.phase = PublishPhase::Sampling;
                PublishAction::Sample
            },
            PublishEvent::HandshakeFailed => {
                self.phase = PublishPhase::Backoff;
                self.broker_addr = None;
                PublishAction::Wait(CONNECT_BACKOFF_MS)
            },
            PublishEvent::SampleOk(r) => {
                self.phase = PublishPhase::Publishing;
                PublishAction::Publish(
                    TelemetrySample::new(r.temperature_tenths, r.humidity_tenths, None),
                )
            },
            PublishEvent::SampleFailed => {
                self.phase = PublishPhase::Sleeping;
                PublishAction::Wait(SAMPLE_PERIOD_MS)
            },
            PublishEvent::PublishOk => {
                self.phase = PublishPhase::Sleeping;
                PublishAction::Wait(SAMPLE_PERIOD_MS)
            },
            PublishEvent::PublishFailed => {
                self.phase = PublishPhase::Backoff;
                self.broker_addr = None;
                PublishAction::Wait(CONNECT_BACKOFF_MS)
            },
            PublishEvent::TimerElapsed => {
                if self.phase == PublishPhase::Sleeping {
                    self.phase = PublishPhase::Sampling;
                    PublishAction::Sample
                } else {
                    self.phase = PublishPhase::Resolving;
                    self.broker_addr = None;
                    PublishAction::Resolve
                }
            },
        }
    }
}

/// Law: a DNS resolution failure leaves the publisher exactly where it was,
/// about to resolve again — the task never terminates on it, and no wait is
/// inserted between resolution retries.
pub proof fn lemma_resolve_failure_retries(p: Publisher)
    requires
        p.wf(),
        p.phase == PublishPhase::Resolving,
    ensures
        Publisher::step_spec(p, PublishEvent::ResolveFailed) == (p, PublishAction::Resolve),
{
}

/// Law: every connection-level failure — transport, handshake or publish —
/// destroys the connection attempt wholesale and inserts the fixed backoff
/// before anything else happens: the next action is the backoff wait, the
/// address is gone, and only after the timer elapses does the outer loop
/// run again, starting over at resolution. Successive connect attempts are
/// therefore always separated by at least the backoff delay.
pub proof fn lemma_connection_failure_backs_off(p: Publisher, ev: PublishEvent)
    requires
        p.wf(),
        p.accepts(ev),
        ev == PublishEvent::TransportFailed || ev == PublishEvent::HandshakeFailed || ev
            == PublishEvent::PublishFailed,
    ensures
        ({
            let (after, a) = Publisher::step_spec(p, ev);
            &&& after.phase == PublishPhase::Backoff
            &&& after.broker_addr is None
            &&& a == PublishAction::Wait(CONNECT_BACKOFF_MS)
            &&& forall|e2: PublishEvent| after.accepts(e2) ==> e2 == PublishEvent::TimerElapsed
            &&& Publisher::step_spec(after, PublishEvent::TimerElapsed) == (
                Publisher { phase: PublishPhase::Resolving, broker_addr: None },
                PublishAction::Resolve,
            )
        }),
{
}

/// Law: a sensor read failure publishes nothing that cycle and does not
/// touch the connection: the attempt's address survives, the emitted action
/// is the plain sampling-period wait, and the next timer tick goes straight
/// back to sampling on the same connection.
pub proof fn lemma_sensor_failure_skips_cycle(p: Publisher)
    requires
        p.wf(),
        p.phase == PublishPhase::Sampling,
    ensures
        ({
            let (after, a) = Publisher::step_spec(p, PublishEvent::SampleFailed);
            &&& after.phase == PublishPhase::Sleeping
            &&& after.broker_addr == p.broker_addr
            &&& a == PublishAction::Wait(SAMPLE_PERIOD_MS)
            &&& !(a is Publish)
            &&& forall|ev: PublishEvent| after.accepts(ev) ==> ev == PublishEvent::TimerElapsed
            &&& Publisher::step_spec(after, PublishEvent::TimerElapsed) == (
                Publisher { phase: PublishPhase::Sampling, broker_addr: p.broker_addr },
                PublishAction::Sample,
            )
        }),
{
}

} // verus!
