//! Connectivity and telemetry-publishing core for a WiFi/MQTT sensor node.
//!
//! The library models each long-running task of the device as an explicit
//! state machine with named suspension points: the link manager that keeps
//! the station-mode WiFi association alive, the bring-up monitor that gates
//! dependent work on link and address readiness, and the telemetry publisher
//! that resolves the broker, connects, and samples and publishes on a fixed
//! period. A thin driver performs the I/O actions the machines request and
//! feeds the outcomes back as events.

mod bringup;
mod config;
mod link;
mod net;
mod publisher;
mod scheduler;
mod telemetry;

pub use bringup::BringupAction;
pub use bringup::BringupMonitor;
pub use bringup::BringupPhase;
pub use bringup::lemma_release_only_when_ready;
pub use config::BROKER_PORT;
pub use config::CONNECT_BACKOFF_MS;
pub use config::ConfigError;
pub use config::Credentials;
pub use config::DISCONNECT_DELAY_MS;
pub use config::MAX_PACKET_SIZE;
pub use config::MAX_PASSWORD_LEN;
pub use config::MAX_SSID_LEN;
pub use config::POLL_INTERVAL_MS;
pub use config::RETRY_DELAY_MS;
pub use config::RetryPolicy;
pub use config::SAMPLE_PERIOD_MS;
pub use config::QualityOfService;
pub use config::TRANSPORT_TIMEOUT_MS;
pub use config::client_id;
pub use config::credentials_ok;
pub use config::max_subscribe_qos;
pub use config::publish_qos;
pub use config::publish_retain;
pub use config::telemetry_topic;
pub use link::LinkAction;
pub use link::LinkEvent;
pub use link::LinkManager;
pub use link::LinkState;
pub use link::lemma_disconnect_waits_before_reconnect;
pub use link::lemma_ensure_started_idempotent_while_started;
pub use link::lemma_failures_route_through_disconnected;
pub use net::Ipv4Addr;
pub use net::Ipv4Config;
pub use net::all_digits;
pub use net::digits_value;
pub use net::is_octet_text;
pub use net::parse_ipv4;
pub use net::parse_quad;
pub use net::split_dots;
pub use publisher::PublishAction;
pub use publisher::PublishEvent;
pub use publisher::PublishPhase;
pub use publisher::Publisher;
pub use publisher::SensorReading;
pub use publisher::lemma_connection_failure_backs_off;
pub use publisher::lemma_resolve_failure_retries;
pub use publisher::lemma_sensor_failure_skips_cycle;
pub use scheduler::Scheduler;
pub use telemetry::TelemetrySample;
pub use telemetry::counter_value;
pub use telemetry::dec_digits;
pub use telemetry::payload_spec;
pub use telemetry::tenths_digits;
