use telemetry_link::BROKER_PORT;
use telemetry_link::CONNECT_BACKOFF_MS;
use telemetry_link::ConfigError;
use telemetry_link::Credentials;
use telemetry_link::DISCONNECT_DELAY_MS;
use telemetry_link::MAX_PACKET_SIZE;
use telemetry_link::POLL_INTERVAL_MS;
use telemetry_link::QualityOfService;
use telemetry_link::RETRY_DELAY_MS;
use telemetry_link::RetryPolicy;
use telemetry_link::SAMPLE_PERIOD_MS;
use telemetry_link::TRANSPORT_TIMEOUT_MS;
use telemetry_link::client_id;
use telemetry_link::max_subscribe_qos;
use telemetry_link::publish_qos;
use telemetry_link::publish_retain;
use telemetry_link::telemetry_topic;

#[test]
fn fixed_delays_match_the_design() {
    assert_eq!(RETRY_DELAY_MS, 5000);
    assert_eq!(DISCONNECT_DELAY_MS, 5000);
    assert_eq!(POLL_INTERVAL_MS, 500);
    assert_eq!(SAMPLE_PERIOD_MS, 5000);
    assert_eq!(CONNECT_BACKOFF_MS, 5000);
    assert_eq!(TRANSPORT_TIMEOUT_MS, 10000);
    assert_eq!(BROKER_PORT, 1883);
    assert_eq!(MAX_PACKET_SIZE, 100);
}

#[test]
fn default_policy_uses_the_fixed_delays() {
    let p = RetryPolicy::default();
    assert_eq!(p.initial_backoff, 5000);
    assert_eq!(p.disconnect_backoff, 5000);
}

#[test]
fn session_parameters_are_fixed() {
    assert_eq!(telemetry_topic(), "testtopic/pjq/dht11");
    assert_eq!(client_id(), "demo-mqtt-no-std");
    assert_eq!(publish_qos(), QualityOfService::AtLeastOnce);
    assert_eq!(max_subscribe_qos(), QualityOfService::AtLeastOnce);
    assert!(!publish_retain());
}

#[test]
fn good_credentials_are_accepted() {
    let c = Credentials::new(b"home-network".to_vec(), b"hunter2hunter2".to_vec()).unwrap();
    assert_eq!(c.ssid(), &b"home-network".to_vec());
    assert_eq!(c.password(), &b"hunter2hunter2".to_vec());
}

#[test]
fn boundary_lengths_are_accepted() {
    let ssid = vec![b'a'; 32];
    let password = vec![b'b'; 64];
    assert!(Credentials::new(ssid, password).is_ok());
    assert!(Credentials::new(vec![b'x'], Vec::new()).is_ok());
}

#[test]
fn empty_ssid_is_rejected() {
    assert_eq!(
        Credentials::new(Vec::new(), b"password".to_vec()).unwrap_err(),
        ConfigError::SsidLength
    );
}

#[test]
fn overlong_ssid_is_rejected() {
    assert_eq!(
        Credentials::new(vec![b'a'; 33], b"password".to_vec()).unwrap_err(),
        ConfigError::SsidLength
    );
}

#[test]
fn overlong_password_is_rejected() {
    assert_eq!(
        Credentials::new(b"net".to_vec(), vec![b'b'; 65]).unwrap_err(),
        ConfigError::PasswordLength
    );
}

#[test]
fn ssid_fault_is_reported_before_password_fault() {
    assert_eq!(
        Credentials::new(Vec::new(), vec![b'b'; 65]).unwrap_err(),
        ConfigError::SsidLength
    );
}
