//! Session layer for devices that talk to the Losant MQTT broker: topic
//! derivation, publish policy, identifier resolution and inbound routing.

pub mod builder;
pub mod config;
pub mod error;
pub mod guard;
pub mod router;
pub mod state;
pub mod topics;

pub use crate::builder::{Builder, Setup};
pub use crate::config::{
    broker_url, resolve_identifier, Config, DeviceDefaults, MqttConfig, ProtocolVersion, SessionConfig,
    WifiConfig,
};
pub use crate::error::{Error, Result};
pub use crate::guard::{check_publish, QoS, MAX_PAYLOAD_SIZE};
pub use crate::router::{
    CommandHandler, Dispatch, EventHandler, EventRouter, Ignore, InboundEvent, Route,
};
pub use crate::state::{encode_state, Command, State};
pub use crate::topics::{topic_forms, Topics};
