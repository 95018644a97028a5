//! Trusted boundary to the device-protocol and geocoding crates.
//!
//! Routed packets carry their port-addressed sub-message as raw protobuf
//! bytes; the device-protocol crate decodes them.  Each decode is a pure
//! function of the payload bytes, so its result is given a name that the
//! callers' contracts are stated over.  A decode that fails, and a telemetry
//! message carrying a variant the bridge does not consume, come back as
//! `None`.

use vstd::prelude::*;
use meshtastic::Message;
use meshtastic::protobufs as pb;
use meshtastic::protobufs::telemetry::Variant as TelemetryOneof;
use crate::frames::{
    AirQualityMetricsMsg, DeviceMetricsMsg, EnvironmentMetricsMsg, PositionMsg, PowerMetricsMsg,
    UserMsg, UserView,
};

verus! {

pub uninterp spec fn position_decode_of(payload: Seq<u8>) -> Option<PositionMsg>;

/// Relies on the prost-generated `Position::decode` of the device-protocol
/// crate: decoding is a pure function of the payload bytes, and fails only on
/// malformed bytes.
#[verifier::external_body]
pub(crate) fn decode_position(payload: &Vec<u8>) -> (r: Option<PositionMsg>)
    ensures
        r == position_decode_of(payload@),
{
    match pb::Position::decode(payload.as_slice()) {
        Ok(p) => Some(PositionMsg {
            latitude_i: p.latitude_i.unwrap_or_default(),
            longitude_i: p.longitude_i.unwrap_or_default(),
            sats_in_view: p.sats_in_view,
        }),
        Err(_) => None,
    }
}

pub uninterp spec fn user_decode_of(payload: Seq<u8>) -> Option<UserView>;

/// Relies on the prost-generated `User::decode` of the device-protocol
/// crate, and on its enum accessors' `as_str_name` for the hardware-model
/// and role names: all pure functions of the payload bytes.
#[verifier::external_body]
pub(crate) fn decode_user(payload: &Vec<u8>) -> (r: Option<UserMsg>)
    ensures
        r is Some <==> user_decode_of(payload@) is Some,
        r matches Some(u) ==> user_decode_of(payload@) == Some(u@),
{
    match pb::User::decode(payload.as_slice()) {
        Ok(u) => {
            let hw_model = u.hw_model().as_str_name().to_string();
            let role = u.role().as_str_name().to_string();
            Some(UserMsg {
                id: u.id, hw_model, role, is_licensed: u.is_licensed,
                short_name: u.short_name, long_name: u.long_name,
            })
        },
        Err(_) => None,
    }
}

pub uninterp spec fn device_metrics_decode_of(payload: Seq<u8>) -> Option<DeviceMetricsMsg>;

/// Relies on the prost-generated `Telemetry::decode` of the device-protocol
/// crate, restricted to the device-metrics variant of its oneof; float
/// readings are carried as their exact bit patterns.
#[verifier::external_body]
pub(crate) fn decode_device_metrics(payload: &Vec<u8>) -> (r: Option<DeviceMetricsMsg>)
    ensures
        r == device_metrics_decode_of(payload@),
{
    match pb::Telemetry::decode(payload.as_slice()) {
        Ok(t) => match t.variant {
            Some(TelemetryOneof::DeviceMetrics(dm)) => Some(DeviceMetricsMsg {
                battery_level: dm.battery_level.unwrap_or_default(),
                voltage: dm.voltage.unwrap_or_default().to_bits(),
                channel_utilization: dm.channel_utilization.unwrap_or_default().to_bits(),
                air_util_tx: dm.air_util_tx.unwrap_or_default().to_bits(),
                uptime_seconds: dm.uptime_seconds.unwrap_or_default() }),
            _ => None,
        },
        Err(_) => None,
    }
}

pub uninterp spec fn environment_metrics_decode_of(payload: Seq<u8>) -> Option<
    EnvironmentMetricsMsg,
>;

/// Relies on the prost-generated `Telemetry::decode` of the device-protocol
/// crate, restricted to the environment-metrics variant of its oneof; float
/// readings are carried as their exact bit patterns.
#[verifier::external_body]
pub(crate) fn decode_environment_metrics(payload: &Vec<u8>) -> (r: Option<EnvironmentMetricsMsg>)
    ensures
        r == environment_metrics_decode_of(payload@),
{
    match pb::Telemetry::decode(payload.as_slice()) {
        Ok(t) => match t.variant {
            Some(TelemetryOneof::EnvironmentMetrics(em)) => Some(EnvironmentMetricsMsg {
                temperature: em.temperature.unwrap_or_default().to_bits(),
                relative_humidity: em.relative_humidity.unwrap_or_default().to_bits(),
                barometric_pressure: em.barometric_pressure.unwrap_or_default().to_bits(),
                gas_resistance: em.gas_resistance.unwrap_or_default().to_bits(),
                iaq: em.iaq.unwrap_or_default() }),
            _ => None,
        },
        Err(_) => None,
    }
}

pub uninterp spec fn air_quality_decode_of(payload: Seq<u8>) -> Option<AirQualityMetricsMsg>;

/// Relies on the prost-generated `Telemetry::decode` of the device-protocol
/// crate, restricted to the air-quality variant of its oneof.
#[verifier::external_body]
pub(crate) fn decode_air_quality(payload: &Vec<u8>) -> (r: Option<AirQualityMetricsMsg>)
    ensures
        r == air_quality_decode_of(payload@),
{
    let t = match pb::Telemetry::decode(payload.as_slice()) { Ok(t) => t, Err(_) => return None };
    match t.variant {
        Some(TelemetryOneof::AirQualityMetrics(q)) => Some(AirQualityMetricsMsg {
            particles_03um: q.particles_03um.unwrap_or_default(), particles_05um: q.particles_05um.unwrap_or_default(),
            particles_10um: q.particles_10um.unwrap_or_default(), particles_25um: q.particles_25um.unwrap_or_default(),
            particles_50um: q.particles_50um.unwrap_or_default(), particles_100um: q.particles_100um.unwrap_or_default(),
            pm10_standard: q.pm10_standard.unwrap_or_default(), pm25_standard: q.pm25_standard.unwrap_or_default(),
            pm100_standard: q.pm100_standard.unwrap_or_default(), pm10_environmental: q.pm10_environmental.unwrap_or_default(),
            pm25_environmental: q.pm25_environmental.unwrap_or_default(), pm100_environmental: q.pm100_environmental.unwrap_or_default() }),
        _ => None,
    }
}

pub uninterp spec fn power_metrics_decode_of(payload: Seq<u8>) -> Option<PowerMetricsMsg>;

/// Relies on the prost-generated `Telemetry::decode` of the device-protocol
/// crate, restricted to the power-metrics variant of its oneof; float
/// readings are carried as their exact bit patterns.
#[verifier::external_body]
pub(crate) fn decode_power_metrics(payload: &Vec<u8>) -> (r: Option<PowerMetricsMsg>)
    ensures
        r == power_metrics_decode_of(payload@),
{
    match pb::Telemetry::decode(payload.as_slice()) {
        Ok(t) => match t.variant {
            Some(TelemetryOneof::PowerMetrics(pm)) => Some(PowerMetricsMsg {
                ch1_voltage: pm.ch1_voltage.unwrap_or_default().to_bits(),
                ch1_current: pm.ch1_current.unwrap_or_default().to_bits(),
                ch2_voltage: pm.ch2_voltage.unwrap_or_default().to_bits(),
                ch2_current: pm.ch2_current.unwrap_or_default().to_bits(),
                ch3_voltage: pm.ch3_voltage.unwrap_or_default().to_bits(),
                ch3_current: pm.ch3_current.unwrap_or_default().to_bits() }),
            _ => None,
        },
        Err(_) => None,
    }
}

pub uninterp spec fn geohash_of(lat_i: i32, lon_i: i32, len: usize) -> Option<Seq<char>>;

/// Relies on `geohash::encode`: the geocode is a pure function of the
/// coordinates and requested length, errs exactly on out-of-range coordinates
/// or a length outside 1 to 12, and returns a string of the requested length.
/// The fixed-point coordinates are first converted to degrees by dividing by
/// the protocol's scale of ten million.
#[verifier::external_body]
pub(crate) fn encode_geohash(lat_i: i32, lon_i: i32, len: usize) -> (r: Option<String>)
    ensures
        r is Some <==> geohash_of(lat_i, lon_i, len) is Some,
        r matches Some(s) ==> geohash_of(lat_i, lon_i, len) == Some(s@),
        r matches Some(s) ==> s@.len() == len,
{
    let cs: [geohash::Coord; 2] = [
        geohash::Coord { x: lon_i.into(), y: lat_i.into() },
        geohash::Coord { x: 10000000i32.into(), y: 10000000i32.into() },
    ];
    let coord = geohash::Coord { x: cs[0].x / cs[1].x, y: cs[0].y / cs[1].y };
    geohash::encode(coord, len).ok()
}

} // verus!
