use telemetry_link::Ipv4Addr;
use telemetry_link::LinkAction;
use telemetry_link::LinkEvent;
use telemetry_link::LinkManager;
use telemetry_link::LinkState;
use telemetry_link::PublishAction;
use telemetry_link::PublishEvent;
use telemetry_link::PublishPhase;
use telemetry_link::Publisher;
use telemetry_link::RetryPolicy;
use telemetry_link::SensorReading;
use telemetry_link::TelemetrySample;

fn broker() -> Ipv4Addr {
    Ipv4Addr { o0: 192, o1: 168, o2: 31, o3: 125 }
}

/// Drives a fresh publisher to the inner sampling loop.
fn sampling_publisher() -> Publisher {
    let (mut p, a) = Publisher::new();
    assert_eq!(a, PublishAction::Resolve);
    let a = p.step(PublishEvent::ResolveOk(broker()));
    assert_eq!(a, PublishAction::OpenTransport(broker(), 1883, 10000));
    let a = p.step(PublishEvent::TransportOk);
    assert_eq!(a, PublishAction::Handshake);
    let a = p.step(PublishEvent::HandshakeOk);
    assert_eq!(a, PublishAction::Sample);
    assert_eq!(p.phase, PublishPhase::Sampling);
    p
}

#[test]
fn dns_failure_retries_resolution_immediately() {
    let (mut p, a) = Publisher::new();
    assert_eq!(a, PublishAction::Resolve);
    for _ in 0..3 {
        // No wait is inserted between resolution retries, and the task lives on.
        let a = p.step(PublishEvent::ResolveFailed);
        assert_eq!(a, PublishAction::Resolve);
        assert_eq!(p.phase, PublishPhase::Resolving);
    }
}

#[test]
fn sensor_failure_skips_cycle_and_keeps_connection() {
    let mut p = sampling_publisher();
    let addr_before = p.broker_addr;
    let a = p.step(PublishEvent::SampleFailed);
    // No publish this cycle: the machine only waits out the sampling period.
    assert_eq!(a, PublishAction::Wait(5000));
    assert_eq!(p.phase, PublishPhase::Sleeping);
    assert_eq!(p.broker_addr, addr_before);
    // The inner loop continues on the same connection.
    let a = p.step(PublishEvent::TimerElapsed);
    assert_eq!(a, PublishAction::Sample);
    assert_eq!(p.broker_addr, addr_before);
}

#[test]
fn successful_sample_publishes_then_sleeps() {
    let mut p = sampling_publisher();
    let reading = SensorReading { temperature_tenths: 149, humidity_tenths: 0 };
    let a = p.step(PublishEvent::SampleOk(reading));
    assert_eq!(a, PublishAction::Publish(TelemetrySample::new(149, 0, None)));
    let a = p.step(PublishEvent::PublishOk);
    assert_eq!(a, PublishAction::Wait(5000));
    let a = p.step(PublishEvent::TimerElapsed);
    assert_eq!(a, PublishAction::Sample);
}

#[test]
fn handshake_failure_tears_down_and_backs_off() {
    let (mut p, _) = Publisher::new();
    p.step(PublishEvent::ResolveOk(broker()));
    p.step(PublishEvent::TransportOk);
    let a = p.step(PublishEvent::HandshakeFailed);
    assert_eq!(a, PublishAction::Wait(5000));
    assert_eq!(p.phase, PublishPhase::Backoff);
    assert_eq!(p.broker_addr, None);
    let a = p.step(PublishEvent::TimerElapsed);
    assert_eq!(a, PublishAction::Resolve);
}

#[test]
fn publish_failure_tears_down_and_backs_off() {
    let mut p = sampling_publisher();
    p.step(PublishEvent::SampleOk(SensorReading { temperature_tenths: 10, humidity_tenths: 20 }));
    let a = p.step(PublishEvent::PublishFailed);
    assert_eq!(a, PublishAction::Wait(5000));
    assert_eq!(p.phase, PublishPhase::Backoff);
    assert_eq!(p.broker_addr, None);
}

#[test]
fn three_unreachable_iterations_make_three_spaced_attempts() {
    let (mut p, first) = Publisher::new();
    let mut trace: Vec<PublishAction> = vec![first];
    for _ in 0..3 {
        let a = p.step(PublishEvent::ResolveOk(broker()));
        trace.push(a);
        let a = p.step(PublishEvent::TransportFailed);
        trace.push(a);
        let a = p.step(PublishEvent::TimerElapsed);
        trace.push(a);
    }
    // Exactly three connect attempts, each preceded by exactly one
    // resolution, each pair of attempts separated by the 5 s backoff.
    let open = PublishAction::OpenTransport(broker(), 1883, 10000);
    assert_eq!(
        trace,
        vec![
            PublishAction::Resolve,
            open,
            PublishAction::Wait(5000),
            PublishAction::Resolve,
            open,
            PublishAction::Wait(5000),
            PublishAction::Resolve,
            open,
            PublishAction::Wait(5000),
            PublishAction::Resolve,
        ]
    );
    let connects = trace
        .iter()
        .filter(|a| matches!(a, PublishAction::OpenTransport(_, _, _)))
        .count();
    assert_eq!(connects, 3);
}

#[test]
fn link_loss_mid_publish_recovers_independently() {
    // The link manager sits in Connected while the publisher is mid-cycle.
    let mut m = LinkManager::new(RetryPolicy::default());
    m.ensure_started();
    m.step(LinkEvent::StartOk);
    m.step(LinkEvent::ConnectOk);
    assert_eq!(m.state(), LinkState::Connected);

    let mut p = sampling_publisher();
    p.step(PublishEvent::SampleOk(SensorReading { temperature_tenths: 215, humidity_tenths: 487 }));

    // The link drops mid-publish: the publisher sees a transport error and
    // tears its connection down.
    let a = m.step(LinkEvent::Disconnect);
    assert_eq!(a, LinkAction::Wait(5000));
    let a = p.step(PublishEvent::PublishFailed);
    assert_eq!(a, PublishAction::Wait(5000));
    assert_eq!(p.phase, PublishPhase::Backoff);

    // The link manager re-enters Connecting after its 5 s delay and reaches
    // Connected again without any outside help.
    let a = m.step(LinkEvent::TimerElapsed);
    assert_eq!(a, LinkAction::Connect);
    assert_eq!(m.state(), LinkState::Connecting);
    m.step(LinkEvent::ConnectOk);
    assert_eq!(m.state(), LinkState::Connected);

    // The publisher independently re-runs its outer loop.
    let a = p.step(PublishEvent::TimerElapsed);
    assert_eq!(a, PublishAction::Resolve);
    let a = p.step(PublishEvent::ResolveOk(broker()));
    assert_eq!(a, PublishAction::OpenTransport(broker(), 1883, 10000));
}
