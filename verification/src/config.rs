//! Fixed configuration of the connectivity core: retry delays, the broker
//! endpoint parameters, and startup-time credential validation.

use vstd::prelude::*;

verus! {

/// Delay before retrying a failed radio start or association attempt, in ms.
pub const RETRY_DELAY_MS: u64 = 5000;

/// Delay between a disconnect event and the next association attempt, in ms.
pub const DISCONNECT_DELAY_MS: u64 = 5000;

/// Interval between bring-up polls of link status or address assignment, in ms.
pub const POLL_INTERVAL_MS: u64 = 500;

/// Period between two sensor samples while a connection is live, in ms.
pub const SAMPLE_PERIOD_MS: u64 = 5000;

/// Delay before re-running the outer connect loop after a transport,
/// handshake or publish failure, in ms.
pub const CONNECT_BACKOFF_MS: u64 = 5000;

/// Idle timeout applied to the transport for the whole connection, in ms.
pub const TRANSPORT_TIMEOUT_MS: u64 = 10000;

/// TCP port of the broker.
pub const BROKER_PORT: u16 = 1883;

/// Upper bound on a single protocol packet, in bytes.
pub const MAX_PACKET_SIZE: u32 = 100;

/// Longest accepted SSID, in bytes.
pub const MAX_SSID_LEN: usize = 32;

/// Longest accepted passphrase, in bytes.
pub const MAX_PASSWORD_LEN: usize = 64;

/// Delivery guarantee of one published message.
#[derive(Clone, Copy, PartialEq, Eq, Structural, Debug)]
pub enum QualityOfService {
    /// Fire and forget.
    AtMostOnce,
    /// Delivered at least once; duplicates possible.
    AtLeastOnce,
    /// Delivered exactly once.
    ExactlyOnce,
}

/// The fixed topic every reading is published on.
pub fn telemetry_topic() -> (r: &'static str)
    ensures
        r@ == "testtopic/pjq/dht11"@,
{
    "testtopic/pjq/dht11"
}

/// The fixed client identity a fresh protocol session presents.
pub fn client_id() -> (r: &'static str)
    ensures
        r@ == "demo-mqtt-no-std"@,
{
    "demo-mqtt-no-std"
}

/// The quality-of-service level every reading is published at:
/// at-least-once.
pub fn publish_qos() -> (q: QualityOfService)
    ensures
        q == QualityOfService::AtLeastOnce,
{
    QualityOfService::AtLeastOnce
}

/// The subscription quality-of-service ceiling of a fresh session:
/// at-least-once.
pub fn max_subscribe_qos() -> (q: QualityOfService)
    ensures
        q == QualityOfService::AtLeastOnce,
{
    QualityOfService::AtLeastOnce
}

/// Whether published readings carry the retain flag: they never do.
pub fn publish_retain() -> (r: bool)
    ensures
        !r,
{
    false
}

/// Fixed retry delays of the link manager. Pure configuration: never mutated
/// at runtime.
#[derive(Clone, Copy, PartialEq, Eq, Structural, Debug)]
pub struct RetryPolicy {
    /// Delay after a failed radio start or association attempt, in ms.
    pub initial_backoff: u64,
    /// Delay after a disconnect event before re-associating, in ms.
    pub disconnect_backoff: u64,
}

impl Default for RetryPolicy {
    /// The delays the device ships with: 5 s for both paths.
    fn default() -> (p: RetryPolicy)
        ensures
            p.initial_backoff == RETRY_DELAY_MS,
            p.disconnect_backoff == DISCONNECT_DELAY_MS,
    {
        RetryPolicy { initial_backoff: RETRY_DELAY_MS, disconnect_backoff: DISCONNECT_DELAY_MS }
    }
}

/// Why a credential pair was rejected at startup.
#[derive(Clone, Copy, PartialEq, Eq, Structural, Debug)]
pub enum ConfigError {
    /// The SSID is empty or longer than `MAX_SSID_LEN` bytes.
    SsidLength,
    /// The passphrase is longer than `MAX_PASSWORD_LEN` bytes.
    PasswordLength,
}

/// Station credentials, validated at construction. A malformed SSID or
/// passphrase length is a startup-time hard failure, never a runtime concern.
#[derive(Debug)]
pub struct Credentials {
    ssid: Vec<u8>,
    password: Vec<u8>,
}

/// Whether a credential pair has acceptable lengths.
pub open spec fn credentials_ok(ssid: Seq<u8>, password: Seq<u8>) -> bool {
    &&& 1 <= ssid.len() <= MAX_SSID_LEN
    &&& password.len() <= MAX_PASSWORD_LEN
}

impl Credentials {
    /// The SSID bytes held.
    pub closed spec fn ssid_spec(self) -> Seq<u8> {
        self.ssid@
    }

    /// The passphrase bytes held.
    pub closed spec fn password_spec(self) -> Seq<u8> {
        self.password@
    }

    /// Every value of the type was validated at construction.
    pub closed spec fn wf(self) -> bool {
        credentials_ok(self.ssid@, self.password@)
    }

    /// Validates and takes ownership of a credential pair. Returns the exact
    /// reason on rejection: an SSID length fault is reported before a
    /// passphrase length fault.
    pub fn new(ssid: Vec<u8>, password: Vec<u8>) -> (r: Result<Credentials, ConfigError>)
        ensures
            match r {
                Ok(c) => {
                    &&& credentials_ok(ssid@, password@)
                    &&& c.wf()
                    &&& c.ssid_spec() == ssid@
                    &&& c.password_spec() == password@
                },
                Err(e) => {
                    &&& !credentials_ok(ssid@, password@)
                    &&& (e == ConfigError::SsidLength <==> !(1 <= ssid@.len() <= MAX_SSID_LEN))
                    &&& (e == ConfigError::PasswordLength <==> (
                        1 <= ssid@.len() <= MAX_SSID_LEN && password@.len() > MAX_PASSWORD_LEN
                    ))
                },
            },
    {
        if ssid.len() == 0 || ssid.len() > MAX_SSID_LEN {
            Err(ConfigError::SsidLength)
        } else if password.len() > MAX_PASSWORD_LEN {
            Err(ConfigError::PasswordLength)
        } else {
            Ok(Credentials { ssid, password })
        }
    }

    /// Read access to the SSID bytes.
    pub fn ssid(&self) -> (r: &Vec<u8>)
        ensures
            r@ == self.ssid_spec(),
    {
        &self.ssid
    }

    /// Read access to the passphrase bytes.
    pub fn password(&self) -> (r: &Vec<u8>)
        ensures
            r@ == self.password_spec(),
    {
        &self.password
    }
}

} // verus!
