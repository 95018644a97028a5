//! Plain-value models of the decoded envelopes the device emits.
//!
//! The device-protocol library hands the process already-decoded protobuf
//! messages.  The bridge only reads a few fields of each; those fields are
//! mirrored here as plain values so the dispatch logic can be verified.
//! Fields that the protocol carries as 32-bit floats are held as their IEEE
//! 754 bit patterns, which preserves the exact value without any rounding.

use vstd::prelude::*;

verus! {

/// The bit pattern of an IEEE 754 single-precision value.
pub type F32Bits = u32;

/// Whether the single-precision value with this bit pattern is strictly
/// greater than zero.
///
/// In the IEEE 754 single-precision layout the patterns `0x0000_0001`
/// through `0x7f80_0000` are exactly the positive values (the largest being
/// positive infinity); `0` is positive zero, and everything above
/// `0x7f80_0000` is either a NaN or has the sign bit set.
pub open spec fn f32_bits_gt_zero(bits: F32Bits) -> bool {
    0 < bits <= 0x7f80_0000
}

/// Exec counterpart of [`f32_bits_gt_zero`].
pub fn f32_gt_zero(bits: F32Bits) -> (r: bool)
    ensures
        r == f32_bits_gt_zero(bits),
{
    0 < bits && bits <= 0x7f80_0000
}

/// Node-identity announcement: tells the bridge its own node number.
#[derive(Clone, Copy, Debug)]
pub struct MyNodeInfoMsg {
    pub my_node_num: u32,
}

/// Device-metadata announcement, with enum fields already rendered to their
/// protocol names.
#[derive(Clone, Debug)]
pub struct DeviceMetadataMsg {
    pub firmware_version: String,
    pub hw_model: String,
    pub role: String,
}

/// Embedded device metrics, shared by cached node records and telemetry.
#[derive(Clone, Copy, Debug)]
pub struct DeviceMetricsMsg {
    pub battery_level: u32,
    pub voltage: F32Bits,
    pub channel_utilization: F32Bits,
    pub air_util_tx: F32Bits,
    pub uptime_seconds: u32,
}

/// Cached node record announced by the device.
#[derive(Clone, Copy, Debug)]
pub struct NodeInfoMsg {
    pub num: u32,
    pub snr: F32Bits,
    pub hops_away: u32,
    pub last_heard: u32,
    pub device_metrics: Option<DeviceMetricsMsg>,
}

/// Position payload fields consumed by the bridge.  The coordinates are the
/// protocol's fixed-point encoding: degrees scaled by `1e7`.
#[derive(Clone, Copy, Debug)]
pub struct PositionMsg {
    pub latitude_i: i32,
    pub longitude_i: i32,
    pub sats_in_view: u32,
}

/// User-identity payload fields consumed by the bridge, with enum fields
/// already rendered to their protocol names.
#[derive(Clone, Debug)]
pub struct UserMsg {
    pub id: String,
    pub hw_model: String,
    pub role: String,
    pub is_licensed: bool,
    pub short_name: String,
    pub long_name: String,
}

/// Spec-level image of a [`UserMsg`].
pub ghost struct UserView {
    pub id: Seq<char>,
    pub hw_model: Seq<char>,
    pub role: Seq<char>,
    pub is_licensed: bool,
    pub short_name: Seq<char>,
    pub long_name: Seq<char>,
}

impl View for UserMsg {
    type V = UserView;

    open spec fn view(&self) -> UserView {
        UserView {
            id: self.id@,
            hw_model: self.hw_model@,
            role: self.role@,
            is_licensed: self.is_licensed,
            short_name: self.short_name@,
            long_name: self.long_name@,
        }
    }
}

/// Environment-metrics telemetry fields consumed by the bridge.
#[derive(Clone, Copy, Debug)]
pub struct EnvironmentMetricsMsg {
    pub temperature: F32Bits,
    pub relative_humidity: F32Bits,
    pub barometric_pressure: F32Bits,
    pub gas_resistance: F32Bits,
    pub iaq: u32,
}

/// Air-quality telemetry fields consumed by the bridge.
#[derive(Clone, Copy, Debug)]
pub struct AirQualityMetricsMsg {
    pub particles_03um: u32,
    pub particles_05um: u32,
    pub particles_10um: u32,
    pub particles_25um: u32,
    pub particles_50um: u32,
    pub particles_100um: u32,
    pub pm10_standard: u32,
    pub pm25_standard: u32,
    pub pm100_standard: u32,
    pub pm10_environmental: u32,
    pub pm25_environmental: u32,
    pub pm100_environmental: u32,
}

/// Power-metrics telemetry fields consumed by the bridge: three sensor
/// channels of voltage and current.
#[derive(Clone, Copy, Debug)]
pub struct PowerMetricsMsg {
    pub ch1_voltage: F32Bits,
    pub ch1_current: F32Bits,
    pub ch2_voltage: F32Bits,
    pub ch2_current: F32Bits,
    pub ch3_voltage: F32Bits,
    pub ch3_current: F32Bits,
}

/// Application port of a routed packet.
#[derive(Clone, Copy, Debug, PartialEq, Eq, Structural)]
pub enum PortKind {
    PositionApp,
    NodeinfoApp,
    TelemetryApp,
    NeighborinfoApp,
    /// Any other port, carrying its protocol number for diagnostics.
    Other(u32),
}

/// The port-addressed sub-message of a routed packet whose transport-level
/// decode succeeded.
#[derive(Clone, Debug)]
pub struct DataMsg {
    pub portnum: PortKind,
    pub source: u32,
    pub payload: Vec<u8>,
}

/// Payload of a routed packet: either a successfully decoded sub-message or
/// one the transport could not decrypt or decode.
#[derive(Clone, Debug)]
pub enum PacketPayload {
    Decoded(DataMsg),
    Encrypted,
}

/// A routed application packet.
#[derive(Clone, Debug)]
pub struct MeshPacketMsg {
    pub from: u32,
    pub payload_variant: Option<PacketPayload>,
}

/// One inbound envelope, reduced to the payload kinds the bridge consumes.
#[derive(Clone, Debug)]
pub enum FromRadioVariant {
    Packet(MeshPacketMsg),
    MyInfo(MyNodeInfoMsg),
    NodeInfo(NodeInfoMsg),
    Metadata(DeviceMetadataMsg),
    /// Any envelope kind the bridge does not consume.
    Other,
}

/// An inbound envelope from the device.
#[derive(Clone, Debug)]
pub struct FromRadioMsg {
    pub payload_variant: Option<FromRadioVariant>,
}

/// The payload kinds the bridge ever sends to the device.
#[derive(Clone, Copy, Debug, PartialEq, Eq, Structural)]
pub enum ToRadioVariant {
    Heartbeat,
}

/// An outbound envelope to the device.
#[derive(Clone, Copy, Debug, PartialEq, Eq, Structural)]
pub struct ToRadioMsg {
    pub payload_variant: Option<ToRadioVariant>,
}

} // verus!
