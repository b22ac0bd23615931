use telemetry_link::LinkAction;
use telemetry_link::LinkEvent;
use telemetry_link::LinkManager;
use telemetry_link::LinkState;
use telemetry_link::RetryPolicy;

fn connected_manager() -> LinkManager {
    let mut m = LinkManager::new(RetryPolicy::default());
    let a = m.ensure_started();
    assert_eq!(a, Some(LinkAction::ConfigureAndStart));
    assert_eq!(m.state(), LinkState::Starting);
    let a = m.step(LinkEvent::StartOk);
    assert_eq!(a, LinkAction::Connect);
    assert_eq!(m.state(), LinkState::Connecting);
    let a = m.step(LinkEvent::ConnectOk);
    assert_eq!(a, LinkAction::AwaitDisconnect);
    assert_eq!(m.state(), LinkState::Connected);
    m
}

#[test]
fn bring_up_happy_path_reaches_connected() {
    connected_manager();
}

#[test]
fn disconnect_while_connected_waits_before_reconnect() {
    let mut m = connected_manager();
    let a = m.step(LinkEvent::Disconnect);
    assert_eq!(m.state(), LinkState::Disconnected);
    assert_eq!(a, LinkAction::Wait(5000));
    // No association attempt is made before the timer fires.
    let a = m.step(LinkEvent::TimerElapsed);
    assert_eq!(a, LinkAction::Connect);
    assert_eq!(m.state(), LinkState::Connecting);
}

#[test]
fn ensure_started_is_a_noop_while_connected() {
    let mut m = connected_manager();
    assert_eq!(m.ensure_started(), None);
    assert_eq!(m.state(), LinkState::Connected);
    // Repeating it changes nothing either: the connection is not reset.
    assert_eq!(m.ensure_started(), None);
    assert_eq!(m.state(), LinkState::Connected);
}

#[test]
fn start_failure_retries_with_fixed_delay() {
    let mut m = LinkManager::new(RetryPolicy::default());
    m.ensure_started();
    let a = m.step(LinkEvent::StartFailed);
    assert_eq!(m.state(), LinkState::Disconnected);
    assert_eq!(a, LinkAction::Wait(5000));
    // The radio never started, so the retry goes back to configure-and-start.
    let a = m.step(LinkEvent::TimerElapsed);
    assert_eq!(a, LinkAction::ConfigureAndStart);
    assert_eq!(m.state(), LinkState::Starting);
}

#[test]
fn connect_failure_retries_with_fixed_delay() {
    let mut m = LinkManager::new(RetryPolicy::default());
    m.ensure_started();
    m.step(LinkEvent::StartOk);
    let a = m.step(LinkEvent::ConnectFailed);
    assert_eq!(m.state(), LinkState::Disconnected);
    assert_eq!(a, LinkAction::Wait(5000));
    // The radio stayed started: the retry is a plain association attempt.
    let a = m.step(LinkEvent::TimerElapsed);
    assert_eq!(a, LinkAction::Connect);
    assert_eq!(m.state(), LinkState::Connecting);
}

#[test]
fn custom_policy_delays_are_used() {
    let policy = RetryPolicy { initial_backoff: 1200, disconnect_backoff: 3400 };
    let mut m = LinkManager::new(policy);
    m.ensure_started();
    assert_eq!(m.step(LinkEvent::StartFailed), LinkAction::Wait(1200));
    m.step(LinkEvent::TimerElapsed);
    m.step(LinkEvent::StartOk);
    m.step(LinkEvent::ConnectOk);
    assert_eq!(m.step(LinkEvent::Disconnect), LinkAction::Wait(3400));
}
