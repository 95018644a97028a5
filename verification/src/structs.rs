//! Process-wide configuration and connection state, and the tagged messages
//! carried by the queues between the connection worker and the supervisor.

use vstd::prelude::*;
use crate::frames::{FromRadioMsg, ToRadioMsg};

verus! {

/// A host and port, as plain values.
#[derive(Clone, Debug)]
pub struct NetAddr {
    pub host: String,
    pub port: u16,
}

/// Startup configuration, loaded once.
#[derive(Clone, Debug)]
pub struct AppConfig {
    pub metrics_port: u16,
    pub meshtastic_addr: NetAddr,
    pub namespace: String,
}

impl Default for AppConfig {
    fn default() -> (r: Self)
        ensures
            r.metrics_port == 9941,
            r.meshtastic_addr.host@ == "127.0.0.1"@,
            r.meshtastic_addr.port == 4403,
            r.namespace@ == "meshtastic"@,
    {
        AppConfig {
            metrics_port: 9941,
            meshtastic_addr: NetAddr { host: "127.0.0.1".to_owned(), port: 4403 },
            namespace: "meshtastic".to_owned(),
        }
    }
}

/// The transport the connection worker owns for its lifetime.
#[derive(Clone, Debug)]
pub enum Connection {
    TCP(String, u16),
    Serial(String),
    Unconfigured,
}

impl Default for Connection {
    fn default() -> (r: Self)
        ensures
            r is Unconfigured,
    {
        Connection::Unconfigured
    }
}

impl Connection {
    /// Whether a transport was actually selected.  The worker refuses to
    /// start on an unconfigured connection.
    pub fn is_configured(&self) -> (r: bool)
        ensures
            r == !(self is Unconfigured),
    {
        match self {
            Connection::Unconfigured => false,
            _ => true,
        }
    }

    /// The connection the configured device address selects.
    pub fn from_config(cfg: &AppConfig) -> (r: Connection)
        ensures
            r matches Connection::TCP(host, port) && host@ == cfg.meshtastic_addr.host@
                && port == cfg.meshtastic_addr.port,
    {
        Connection::TCP(cfg.meshtastic_addr.host.clone(), cfg.meshtastic_addr.port)
    }
}

/// The cached local node identifier: written once when the node-identity
/// announcement arrives, read to label subsequent metrics.  Zero means the
/// announcement has not arrived yet.
#[derive(Clone, Copy, Debug, PartialEq, Eq, Structural)]
pub struct DeviceIdentity {
    pub node_id: u32,
}

impl DeviceIdentity {
    pub fn new() -> (r: Self)
        ensures
            r.node_id == 0,
    {
        DeviceIdentity { node_id: 0 }
    }
}

/// A tagged message carried by one of the two directional queues between the
/// connection worker and the supervisor.
#[derive(Clone, Debug)]
pub enum IPCMessage {
    FromRadio(FromRadioMsg),
    ToRadio(ToRadioMsg),
}

} // verus!
