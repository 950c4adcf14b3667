//! Build-time defaults and the resolved session configuration.
use vstd::prelude::*;
use vstd::string::*;
use crate::error::{Error, Result};

verus! {

/// Name of the broker host.
pub const BROKER_HOST: &'static str = "broker.losant.com";

/// Keep-alive interval of a session, in seconds.
pub const KEEP_ALIVE_SECS: u64 = 90;

/// Application settings read at build time.
pub struct Config {
    pub mqtt: MqttConfig,
    pub wifi: WifiConfig,
}

/// Credentials of an MQTT broker.
pub struct MqttConfig {
    pub username: &'static str,
    pub password: &'static str,
}

/// Credentials of a wireless network.
pub struct WifiConfig {
    pub ssid: &'static str,
    pub psk: &'static str,
}

impl Default for MqttConfig {
    fn default() -> (r: Self)
        ensures
            r.username@.len() == 0,
            r.password@.len() == 0,
    {
        proof {
            reveal_strlit("");
        }
        MqttConfig { username: "", password: "" }
    }
}

impl Default for WifiConfig {
    fn default() -> (r: Self)
        ensures
            r.ssid@.len() == 0,
            r.psk@.len() == 0,
    {
        proof {
            reveal_strlit("");
        }
        WifiConfig { ssid: "", psk: "" }
    }
}

impl Default for Config {
    fn default() -> (r: Self)
        ensures
            r.mqtt.username@.len() == 0,
            r.mqtt.password@.len() == 0,
            r.wifi.ssid@.len() == 0,
            r.wifi.psk@.len() == 0,
    {
        Config { mqtt: MqttConfig::default(), wifi: WifiConfig::default() }
    }
}

/// Device settings fixed at build time; an empty string stands for a key
/// that was not given.
pub struct DeviceDefaults {
    pub key: String,
    pub secret: String,
    pub device_id: String,
}

/// MQTT protocol revision spoken on a session.
#[derive(Debug, Clone, Copy, PartialEq, Eq, Structural)]
pub enum ProtocolVersion {
    V3_1,
    V3_1_1,
}

/// The finalized configuration of one session.
pub struct SessionConfig {
    pub protocol_version: ProtocolVersion,
    pub keep_alive_secs: u64,
    pub username: String,
    pub password: String,
    /// Whether the connection is secured with TLS against the bundled root
    /// certificate.
    pub tls: bool,
    pub client_id: String,
}

impl SessionConfig {
    /// The configuration of a session with credentials `defaults` and the
    /// resolved identifier `client_id`.
    pub open spec fn settled(&self, defaults: &DeviceDefaults, secure: bool, client_id: Seq<char>) -> bool {
        &&& self.protocol_version == ProtocolVersion::V3_1_1
        &&& self.keep_alive_secs == KEEP_ALIVE_SECS
        &&& self.username@ == defaults.key@
        &&& self.password@ == defaults.secret@
        &&& self.tls == secure
        &&& self.client_id@ == client_id
    }

    pub fn new(defaults: &DeviceDefaults, secure: bool, client_id: String) -> (r: SessionConfig)
        ensures
            r.settled(defaults, secure, client_id@),
    {
        SessionConfig {
            protocol_version: ProtocolVersion::V3_1_1,
            keep_alive_secs: KEEP_ALIVE_SECS,
            username: defaults.key.clone(),
            password: defaults.secret.clone(),
            tls: secure,
            client_id,
        }
    }
}

/// The identifier a device ends up with: an explicit non-empty identifier
/// first, then a non-empty build-time default, else none.
pub open spec fn resolved_identifier(explicit: Option<Seq<char>>, default_id: Seq<char>) -> Option<Seq<char>> {
    match explicit {
        Some(id) if id.len() > 0 => Some(id),
        _ => if default_id.len() > 0 {
            Some(default_id)
        } else {
            None
        },
    }
}

pub open spec fn option_view(o: Option<String>) -> Option<Seq<char>> {
    match o {
        Some(s) => Some(s@),
        None => None,
    }
}

/// Picks the device identifier by precedence.
pub fn resolve_identifier(explicit: &Option<String>, default_id: &str) -> (r: Result<String>)
    ensures
        match resolved_identifier(option_view(*explicit), default_id@) {
            Some(id) => r is Ok && r->Ok_0@ == id,
            None => r == Err::<String, Error>(Error::MissingIdentifier),
        },
{
    if let Some(id) = explicit {
        if !id.as_str().is_empty() {
            return Ok(id.clone());
        }
    }
    if !default_id.is_empty() {
        Ok(String::from_str(default_id))
    } else {
        Err(Error::MissingIdentifier)
    }
}

/// Without an explicit identifier and without a build-time default no
/// identifier resolves.
pub proof fn lemma_no_identifier(explicit: Option<Seq<char>>, default_id: Seq<char>)
    requires
        explicit is None || explicit->0.len() == 0,
        default_id.len() == 0,
    ensures
        resolved_identifier(explicit, default_id) is None,
{
}

/// An explicit identifier takes precedence over a build-time default.
pub proof fn lemma_explicit_identifier_wins(explicit: Seq<char>, default_id: Seq<char>)
    requires
        explicit.len() > 0,
        default_id.len() > 0,
    ensures
        resolved_identifier(Some(explicit), default_id) == Some(explicit),
{
}

/// `mqtts://<host>` for a secured session, `mqtt://<host>` otherwise.
pub open spec fn broker_url_of(secure: bool) -> Seq<char> {
    (if secure {
        "mqtts://"@
    } else {
        "mqtt://"@
    }) + BROKER_HOST@
}

/// The endpoint of the broker.
pub fn broker_url(secure: bool) -> (r: String)
    ensures
        r@ == broker_url_of(secure),
{
    let scheme = if secure {
        String::from_str("mqtts://")
    } else {
        String::from_str("mqtt://")
    };
    scheme.concat(BROKER_HOST)
}

} // verus!
