//! The frame decoder and dispatcher: given one inbound envelope, identify
//! its kind and, for routed packets, decode the nested payload by
//! application port; the result is the exact list of metric updates to
//! perform.
//!
//! Decode failures are treated as skip events: a routed packet whose nested
//! payload does not decode produces no port-specific updates, and a packet
//! whose transport-level decode failed produces nothing at all.

use vstd::prelude::*;
use vstd::pervasive::unreached;
use crate::codec::{
    air_quality_decode_of, decode_air_quality, decode_device_metrics, decode_environment_metrics,
    decode_position, decode_power_metrics, decode_user, device_metrics_decode_of, encode_geohash,
    environment_metrics_decode_of, geohash_of, position_decode_of, power_metrics_decode_of,
    user_decode_of,
};
use crate::consts::GEOHASH_LENGTH;
use crate::frames::{
    AirQualityMetricsMsg, DeviceMetadataMsg, DeviceMetricsMsg, EnvironmentMetricsMsg, F32Bits,
    FromRadioMsg, FromRadioVariant, MeshPacketMsg, MyNodeInfoMsg, NodeInfoMsg, PacketPayload,
    PortKind, UserView, f32_bits_gt_zero, f32_gt_zero,
};
use crate::hexfmt::{device_id_seq, device_id_label, packet_device_id, packet_device_id_seq};
use crate::frames::{DataMsg, PositionMsg, PowerMetricsMsg};
use crate::metrics::{
    MetricName, MetricUpdate, MetricValue, SeriesKey, UpdateV, all_gauge_sets_excluding,
    apply_update_spec, apply_updates_spec, count_incs, has_series_labels, labels_view,
    lemma_all_gauge_concat, lemma_apply_updates_concat, lemma_count_incs_zero,
    lemma_gauge_sets_preserve_key, spec_counter_value, update_labels, update_name, updates_view,
};
use crate::structs::DeviceIdentity;

verus! {

// ---------------------------------------------------------------------------
// Label shapes.
// ---------------------------------------------------------------------------

/// The one-label set `{device_id}`.
pub open spec fn device_labels_v(id: Seq<char>) -> Seq<(Seq<char>, Seq<char>)> {
    seq![("device_id"@, id)]
}

/// The label set `{device_id, sensor_channel}` of a power-metrics channel.
pub open spec fn channel_labels_v(id: Seq<char>, ch: Seq<char>) -> Seq<(Seq<char>, Seq<char>)> {
    seq![("device_id"@, id), ("sensor_channel"@, ch)]
}

/// The label set of the device-info gauge set from a metadata announcement.
pub open spec fn metadata_labels_v(id: Seq<char>, fw: Seq<char>, hw: Seq<char>, role: Seq<char>)
    -> Seq<(Seq<char>, Seq<char>)> {
    seq![
        ("device_id"@, id),
        ("firmware_version"@, fw),
        ("hardware_model"@, hw),
        ("device_role"@, role),
    ]
}

/// The label set of the device-info gauge set from a user-identity payload.
pub open spec fn user_labels_v(u: UserView) -> Seq<(Seq<char>, Seq<char>)> {
    seq![
        ("device_id"@, u.id),
        ("hardware_model"@, u.hw_model),
        ("device_role"@, u.role),
        ("is_licensed"@, if u.is_licensed { "true"@ } else { "false"@ }),
        ("short_name"@, u.short_name),
        ("long_name"@, u.long_name),
    ]
}

fn device_labels(id: String) -> (r: Vec<(String, String)>)
    ensures
        labels_view(r@) == device_labels_v(id@),
{
    let ghost gid = id@;
    let mut r: Vec<(String, String)> = Vec::new();
    r.push(("device_id".to_owned(), id));
    proof {
        assert(labels_view(r@) =~= device_labels_v(gid));
    }
    r
}

fn channel_labels(id: String, ch: &str) -> (r: Vec<(String, String)>)
    ensures
        labels_view(r@) == channel_labels_v(id@, ch@),
{
    let ghost gid = id@;
    let mut r: Vec<(String, String)> = Vec::new();
    r.push(("device_id".to_owned(), id));
    r.push(("sensor_channel".to_owned(), ch.to_owned()));
    proof {
        assert(labels_view(r@) =~= channel_labels_v(gid, ch@));
    }
    r
}

fn bool_label(b: bool) -> (r: String)
    ensures
        r@ == (if b { "true"@ } else { "false"@ }),
{
    if b {
        "true".to_owned()
    } else {
        "false".to_owned()
    }
}

// ---------------------------------------------------------------------------
// The updates each envelope kind produces.
// ---------------------------------------------------------------------------

/// Updates for a device-metadata announcement: one device-info gauge sample
/// whose value is the current unix time, as a freshness marker.
pub open spec fn metadata_updates(m: DeviceMetadataMsg, node_id: u32, now: u64) -> Seq<UpdateV> {
    seq![
        UpdateV::SetGauge {
            name: MetricName::DeviceInfo,
            labels: metadata_labels_v(device_id_seq(node_id), m.firmware_version@, m.hw_model@, m.role@),
            value: MetricValue::Unsigned(now),
        },
    ]
}

/// The five gauges of an embedded device-metrics reading.
pub open spec fn device_metrics_updates(dm: DeviceMetricsMsg, id: Seq<char>) -> Seq<UpdateV> {
    seq![
        UpdateV::SetGauge {
            name: MetricName::ChanUtil,
            labels: device_labels_v(id),
            value: MetricValue::Float32(dm.channel_utilization),
        },
        UpdateV::SetGauge {
            name: MetricName::AirUtil,
            labels: device_labels_v(id),
            value: MetricValue::Float32(dm.air_util_tx),
        },
        UpdateV::SetGauge {
            name: MetricName::Battery,
            labels: device_labels_v(id),
            value: MetricValue::Unsigned(dm.battery_level as u64),
        },
        UpdateV::SetGauge {
            name: MetricName::Voltage,
            labels: device_labels_v(id),
            value: MetricValue::Float32(dm.voltage),
        },
        UpdateV::SetGauge {
            name: MetricName::Uptime,
            labels: device_labels_v(id),
            value: MetricValue::Unsigned(dm.uptime_seconds as u64),
        },
    ]
}

/// Updates for a cached node record: link-quality gauges, one
/// received-message count, and the embedded device metrics when present.
pub open spec fn node_info_updates(n: NodeInfoMsg) -> Seq<UpdateV> {
    let id = device_id_seq(n.num);
    let head = seq![
        UpdateV::SetGauge {
            name: MetricName::Snr,
            labels: device_labels_v(id),
            value: MetricValue::Float32(n.snr),
        },
        UpdateV::SetGauge {
            name: MetricName::HopsAway,
            labels: device_labels_v(id),
            value: MetricValue::Unsigned(n.hops_away as u64),
        },
        UpdateV::IncCounter {
            name: MetricName::RxMsgCount,
            labels: device_labels_v(id),
            delta: 1,
        },
        UpdateV::SetGauge {
            name: MetricName::LastHeardSecs,
            labels: device_labels_v(id),
            value: MetricValue::Unsigned(n.last_heard as u64),
        },
    ];
    match n.device_metrics {
        Some(dm) => head + device_metrics_updates(dm, id),
        None => head,
    }
}

/// The five gauges of an environment-metrics reading.
pub open spec fn environment_updates(em: EnvironmentMetricsMsg, id: Seq<char>) -> Seq<UpdateV> {
    seq![
        UpdateV::SetGauge {
            name: MetricName::Temperature,
            labels: device_labels_v(id),
            value: MetricValue::Float32(em.temperature),
        },
        UpdateV::SetGauge {
            name: MetricName::Humidity,
            labels: device_labels_v(id),
            value: MetricValue::Float32(em.relative_humidity),
        },
        UpdateV::SetGauge {
            name: MetricName::BarometricPressure,
            labels: device_labels_v(id),
            value: MetricValue::Float32(em.barometric_pressure),
        },
        UpdateV::SetGauge {
            name: MetricName::Iaq,
            labels: device_labels_v(id),
            value: MetricValue::Unsigned(em.iaq as u64),
        },
        UpdateV::SetGauge {
            name: MetricName::GasResistance,
            labels: device_labels_v(id),
            value: MetricValue::Float32(em.gas_resistance),
        },
    ]
}

/// The twelve particulate gauges of an air-quality reading.
pub open spec fn air_quality_updates(aq: AirQualityMetricsMsg, id: Seq<char>) -> Seq<UpdateV> {
    seq![
        UpdateV::SetGauge {
            name: MetricName::Particles03um,
            labels: device_labels_v(id),
            value: MetricValue::Unsigned(aq.particles_03um as u64),
        },
        UpdateV::SetGauge {
            name: MetricName::Particles05um,
            labels: device_labels_v(id),
            value: MetricValue::Unsigned(aq.particles_05um as u64),
        },
        UpdateV::SetGauge {
            name: MetricName::Particles10um,
            labels: device_labels_v(id),
            value: MetricValue::Unsigned(aq.particles_10um as u64),
        },
        UpdateV::SetGauge {
            name: MetricName::Particles25um,
            labels: device_labels_v(id),
            value: MetricValue::Unsigned(aq.particles_25um as u64),
        },
        UpdateV::SetGauge {
            name: MetricName::Particles50um,
            labels: device_labels_v(id),
            value: MetricValue::Unsigned(aq.particles_50um as u64),
        },
        UpdateV::SetGauge {
            name: MetricName::Particles100um,
            labels: device_labels_v(id),
            value: MetricValue::Unsigned(aq.particles_100um as u64),
        },
        UpdateV::SetGauge {
            name: MetricName::Pm10Standard,
            labels: device_labels_v(id),
            value: MetricValue::Unsigned(aq.pm10_standard as u64),
        },
        UpdateV::SetGauge {
            name: MetricName::Pm25Standard,
            labels: device_labels_v(id),
            value: MetricValue::Unsigned(aq.pm25_standard as u64),
        },
        UpdateV::SetGauge {
            name: MetricName::Pm100Standard,
            labels: device_labels_v(id),
            value: MetricValue::Unsigned(aq.pm100_standard as u64),
        },
        UpdateV::SetGauge {
            name: MetricName::Pm10Environmental,
            labels: device_labels_v(id),
            value: MetricValue::Unsigned(aq.pm10_environmental as u64),
        },
        UpdateV::SetGauge {
            name: MetricName::Pm25Environmental,
            labels: device_labels_v(id),
            value: MetricValue::Unsigned(aq.pm25_environmental as u64),
        },
        UpdateV::SetGauge {
            name: MetricName::Pm100Environmental,
            labels: device_labels_v(id),
            value: MetricValue::Unsigned(aq.pm100_environmental as u64),
        },
    ]
}

/// The voltage and current gauges of one power-metrics channel, present
/// exactly when the channel's reported voltage is strictly greater than
/// zero.
pub open spec fn power_channel_updates(id: Seq<char>, ch: Seq<char>, volt: F32Bits, curr: F32Bits)
    -> Seq<UpdateV> {
    if f32_bits_gt_zero(volt) {
        seq![
            UpdateV::SetGauge {
                name: MetricName::Voltage,
                labels: channel_labels_v(id, ch),
                value: MetricValue::Float32(volt),
            },
            UpdateV::SetGauge {
                name: MetricName::Current,
                labels: channel_labels_v(id, ch),
                value: MetricValue::Float32(curr),
            },
        ]
    } else {
        Seq::empty()
    }
}

/// Updates for a power-metrics reading: up to three channels, each gated on
/// its voltage.
pub open spec fn power_updates(pm: crate::frames::PowerMetricsMsg, id: Seq<char>) -> Seq<UpdateV> {
    power_channel_updates(id, "ch1"@, pm.ch1_voltage, pm.ch1_current)
        + power_channel_updates(id, "ch2"@, pm.ch2_voltage, pm.ch2_current)
        + power_channel_updates(id, "ch3"@, pm.ch3_voltage, pm.ch3_current)
}

/// Updates for a position payload: one satellites-in-view gauge labeled with
/// the device id and the geocode of the reported coordinates.  A payload
/// that does not decode, or coordinates the geocoder rejects, produce
/// nothing.
pub open spec fn position_app_updates(source: u32, from: u32, payload: Seq<u8>) -> Seq<UpdateV> {
    match position_decode_of(payload) {
        Some(p) => match geohash_of(p.latitude_i, p.longitude_i, GEOHASH_LENGTH) {
            Some(g) => seq![
                UpdateV::SetGauge {
                    name: MetricName::PosSatsInView,
                    labels: seq![
                        ("device_id"@, packet_device_id_seq(source, from)),
                        ("geohash"@, g),
                    ],
                    value: MetricValue::Unsigned(p.sats_in_view as u64),
                },
            ],
            None => Seq::empty(),
        },
        None => Seq::empty(),
    }
}

/// Updates for a user-identity payload: one device-info gauge sample whose
/// value is the current unix time.
pub open spec fn nodeinfo_app_updates(payload: Seq<u8>, now: u64) -> Seq<UpdateV> {
    match user_decode_of(payload) {
        Some(u) => seq![
            UpdateV::SetGauge {
                name: MetricName::DeviceInfo,
                labels: user_labels_v(u),
                value: MetricValue::Unsigned(now),
            },
        ],
        None => Seq::empty(),
    }
}

/// Updates for a telemetry payload, by its variant.  A payload that does not
/// decode, or whose variant the bridge does not consume, produces nothing.
pub open spec fn telemetry_app_updates(source: u32, from: u32, payload: Seq<u8>) -> Seq<UpdateV> {
    let id = packet_device_id_seq(source, from);
    match device_metrics_decode_of(payload) {
        Some(dm) => device_metrics_updates(dm, id),
        None => match environment_metrics_decode_of(payload) {
            Some(em) => environment_updates(em, id),
            None => match air_quality_decode_of(payload) {
                Some(aq) => air_quality_updates(aq, id),
                None => match power_metrics_decode_of(payload) {
                    Some(pm) => power_updates(pm, id),
                    None => Seq::empty(),
                },
            },
        },
    }
}

/// The port-specific updates of a decoded routed packet.
pub open spec fn port_updates(d: crate::frames::DataMsg, from: u32, now: u64) -> Seq<UpdateV> {
    match d.portnum {
        PortKind::PositionApp => position_app_updates(d.source, from, d.payload@),
        PortKind::NodeinfoApp => nodeinfo_app_updates(d.payload@, now),
        PortKind::TelemetryApp => telemetry_app_updates(d.source, from, d.payload@),
        PortKind::NeighborinfoApp => Seq::empty(),
        PortKind::Other(_) => Seq::empty(),
    }
}

/// Updates for a routed packet: the port-specific updates, then exactly one
/// received-message count for the packet's device id.  A packet whose
/// transport-level decode failed produces nothing.
pub open spec fn mesh_packet_updates(p: MeshPacketMsg, now: u64) -> Seq<UpdateV> {
    match p.payload_variant {
        Some(PacketPayload::Decoded(d)) => port_updates(d, p.from, now) + seq![
            UpdateV::IncCounter {
                name: MetricName::RxMsgCount,
                labels: device_labels_v(packet_device_id_seq(d.source, p.from)),
                delta: 1,
            },
        ],
        _ => Seq::empty(),
    }
}

// ---------------------------------------------------------------------------
// Executable dispatch.
// ---------------------------------------------------------------------------

/// Records the local node number announced by the device.
pub fn process_my_info(packet: &MyNodeInfoMsg, identity: &mut DeviceIdentity)
    ensures
        final(identity).node_id == packet.my_node_num,
{
    identity.node_id = packet.my_node_num;
}

/// Builds the device-info gauge update for a metadata announcement, labeled
/// with the cached local device id.
pub fn process_metadata(metadata: &DeviceMetadataMsg, identity: &DeviceIdentity, now_secs: u64)
    -> (ups: Vec<MetricUpdate>)
    ensures
        updates_view(ups@) == metadata_updates(*metadata, identity.node_id, now_secs),
{
    let id = device_id_label(identity.node_id);
    let mut labels: Vec<(String, String)> = Vec::new();
    labels.push(("device_id".to_owned(), id));
    labels.push(("firmware_version".to_owned(), metadata.firmware_version.clone()));
    labels.push(("hardware_model".to_owned(), metadata.hw_model.clone()));
    labels.push(("device_role".to_owned(), metadata.role.clone()));
    proof {
        assert(labels_view(labels@) =~= metadata_labels_v(device_id_seq(identity.node_id),
            metadata.firmware_version@, metadata.hw_model@, metadata.role@));
    }
    let mut ups: Vec<MetricUpdate> = Vec::new();
    ups.push(MetricUpdate::SetGauge {
        name: MetricName::DeviceInfo,
        labels,
        value: MetricValue::Unsigned(now_secs),
    });
    proof {
        assert(updates_view(ups@) =~= metadata_updates(*metadata, identity.node_id, now_secs));
    }
    ups
}

/// Appends the five device-metrics gauges for `id` to `ups`.
fn push_device_metrics(ups: &mut Vec<MetricUpdate>, dm: &DeviceMetricsMsg, id: String)
    ensures
        updates_view(final(ups)@) == updates_view(old(ups)@) + device_metrics_updates(*dm, id@),
{
    let ghost gid = id@;
    ups.push(MetricUpdate::SetGauge {
        name: MetricName::ChanUtil,
        labels: device_labels(id.clone()),
        value: MetricValue::Float32(dm.channel_utilization),
    });
    ups.push(MetricUpdate::SetGauge {
        name: MetricName::AirUtil,
        labels: device_labels(id.clone()),
        value: MetricValue::Float32(dm.air_util_tx),
    });
    ups.push(MetricUpdate::SetGauge {
        name: MetricName::Battery,
        labels: device_labels(id.clone()),
        value: MetricValue::Unsigned(dm.battery_level as u64),
    });
    ups.push(MetricUpdate::SetGauge {
        name: MetricName::Voltage,
        labels: device_labels(id.clone()),
        value: MetricValue::Float32(dm.voltage),
    });
    ups.push(MetricUpdate::SetGauge {
        name: MetricName::Uptime,
        labels: device_labels(id),
        value: MetricValue::Unsigned(dm.uptime_seconds as u64),
    });
    proof {
        assert(updates_view(ups@) =~= updates_view(old(ups)@) + device_metrics_updates(*dm, gid));
    }
}

/// Builds the updates for a cached node record.
pub fn process_node_info(node_info: &NodeInfoMsg) -> (ups: Vec<MetricUpdate>)
    ensures
        updates_view(ups@) == node_info_updates(*node_info),
{
    let id = device_id_label(node_info.num);
    let mut ups: Vec<MetricUpdate> = Vec::new();
    ups.push(MetricUpdate::SetGauge {
        name: MetricName::Snr,
        labels: device_labels(id.clone()),
        value: MetricValue::Float32(node_info.snr),
    });
    ups.push(MetricUpdate::SetGauge {
        name: MetricName::HopsAway,
        labels: device_labels(id.clone()),
        value: MetricValue::Unsigned(node_info.hops_away as u64),
    });
    ups.push(MetricUpdate::IncCounter {
        name: MetricName::RxMsgCount,
        labels: device_labels(id.clone()),
        delta: 1,
    });
    ups.push(MetricUpdate::SetGauge {
        name: MetricName::LastHeardSecs,
        labels: device_labels(id.clone()),
        value: MetricValue::Unsigned(node_info.last_heard as u64),
    });
    proof {
        assert(updates_view(ups@) =~= node_info_updates(*node_info).take(4));
    }
    if let Some(dm) = &node_info.device_metrics {
        push_device_metrics(&mut ups, dm, id);
    }
    proof {
        assert(updates_view(ups@) =~= node_info_updates(*node_info));
    }
    ups
}

/// Builds the updates for a position payload.
pub fn process_position_app(packet: &MeshPacketMsg) -> (ups: Vec<MetricUpdate>)
    requires
        packet.payload_variant matches Some(PacketPayload::Decoded(_)),
    ensures
        packet.payload_variant matches Some(PacketPayload::Decoded(d)) ==> updates_view(ups@)
            == position_app_updates(d.source, packet.from, d.payload@),
{
    let data = match &packet.payload_variant {
        Some(PacketPayload::Decoded(d)) => d,
        _ => unreached(),
    };
    let mut ups: Vec<MetricUpdate> = Vec::new();
    if let Some(p) = decode_position(&data.payload) {
        if let Some(g) = encode_geohash(p.latitude_i, p.longitude_i, GEOHASH_LENGTH) {
            let ghost gg = g@;
            let id = packet_device_id(data.source, packet.from);
            let mut labels: Vec<(String, String)> = Vec::new();
            labels.push(("device_id".to_owned(), id));
            labels.push(("geohash".to_owned(), g));
            proof {
                assert(labels_view(labels@) =~= seq![
                    ("device_id"@, packet_device_id_seq(data.source, packet.from)),
                    ("geohash"@, gg),
                ]);
            }
            ups.push(MetricUpdate::SetGauge {
                name: MetricName::PosSatsInView,
                labels,
                value: MetricValue::Unsigned(p.sats_in_view as u64),
            });
        }
    }
    proof {
        assert(updates_view(ups@) =~= position_app_updates(data.source, packet.from,
            data.payload@));
    }
    ups
}

/// Builds the updates for a user-identity payload.
pub fn process_nodeinfo_app(packet: &MeshPacketMsg, now_secs: u64) -> (ups: Vec<MetricUpdate>)
    requires
        packet.payload_variant matches Some(PacketPayload::Decoded(_)),
    ensures
        packet.payload_variant matches Some(PacketPayload::Decoded(d)) ==> updates_view(ups@)
            == nodeinfo_app_updates(d.payload@, now_secs),
{
    let data = match &packet.payload_variant {
        Some(PacketPayload::Decoded(d)) => d,
        _ => unreached(),
    };
    let mut ups: Vec<MetricUpdate> = Vec::new();
    if let Some(user) = decode_user(&data.payload) {
        let ghost uv = user@;
        let mut labels: Vec<(String, String)> = Vec::new();
        labels.push(("device_id".to_owned(), user.id));
        labels.push(("hardware_model".to_owned(), user.hw_model));
        labels.push(("device_role".to_owned(), user.role));
        labels.push(("is_licensed".to_owned(), bool_label(user.is_licensed)));
        labels.push(("short_name".to_owned(), user.short_name));
        labels.push(("long_name".to_owned(), user.long_name));
        proof {
            assert(labels_view(labels@) =~= user_labels_v(uv));
        }
        ups.push(MetricUpdate::SetGauge {
            name: MetricName::DeviceInfo,
            labels,
            value: MetricValue::Unsigned(now_secs),
        });
    }
    proof {
        assert(updates_view(ups@) =~= nodeinfo_app_updates(data.payload@, now_secs));
    }
    ups
}

/// Appends the gauges of one power-metrics channel, gated on its voltage.
fn push_power_channel(ups: &mut Vec<MetricUpdate>, id: &String, ch: &str, volt: F32Bits,
    curr: F32Bits)
    ensures
        updates_view(final(ups)@) == updates_view(old(ups)@) + power_channel_updates(id@, ch@,
            volt, curr),
{
    if f32_gt_zero(volt) {
        ups.push(MetricUpdate::SetGauge {
            name: MetricName::Voltage,
            labels: channel_labels(id.clone(), ch),
            value: MetricValue::Float32(volt),
        });
        ups.push(MetricUpdate::SetGauge {
            name: MetricName::Current,
            labels: channel_labels(id.clone(), ch),
            value: MetricValue::Float32(curr),
        });
    }
    proof {
        assert(updates_view(ups@) =~= updates_view(old(ups)@) + power_channel_updates(id@, ch@,
            volt, curr));
    }
}

/// Builds the updates for a telemetry payload.
pub fn process_telemetry_app(packet: &MeshPacketMsg) -> (ups: Vec<MetricUpdate>)
    requires
        packet.payload_variant matches Some(PacketPayload::Decoded(_)),
    ensures
        packet.payload_variant matches Some(PacketPayload::Decoded(d)) ==> updates_view(ups@)
            == telemetry_app_updates(d.source, packet.from, d.payload@),
{
    let data = match &packet.payload_variant {
        Some(PacketPayload::Decoded(d)) => d,
        _ => unreached(),
    };
    let id = packet_device_id(data.source, packet.from);
    let mut ups: Vec<MetricUpdate> = Vec::new();
    if let Some(dm) = decode_device_metrics(&data.payload) {
        push_device_metrics(&mut ups, &dm, id);
    } else if let Some(em) = decode_environment_metrics(&data.payload) {
        ups.push(MetricUpdate::SetGauge {
            name: MetricName::Temperature,
            labels: device_labels(id.clone()),
            value: MetricValue::Float32(em.temperature),
        });
        ups.push(MetricUpdate::SetGauge {
            name: MetricName::Humidity,
            labels: device_labels(id.clone()),
            value: MetricValue::Float32(em.relative_humidity),
        });
        ups.push(MetricUpdate::SetGauge {
            name: MetricName::BarometricPressure,
            labels: device_labels(id.clone()),
            value: MetricValue::Float32(em.barometric_pressure),
        });
        ups.push(MetricUpdate::SetGauge {
            name: MetricName::Iaq,
            labels: device_labels(id.clone()),
            value: MetricValue::Unsigned(em.iaq as u64),
        });
        ups.push(MetricUpdate::SetGauge {
            name: MetricName::GasResistance,
            labels: device_labels(id),
            value: MetricValue::Float32(em.gas_resistance),
        });
    } else if let Some(aq) = decode_air_quality(&data.payload) {
        ups.push(MetricUpdate::SetGauge {
            name: MetricName::Particles03um,
            labels: device_labels(id.clone()),
            value: MetricValue::Unsigned(aq.particles_03um as u64),
        });
        ups.push(MetricUpdate::SetGauge {
            name: MetricName::Particles05um,
            labels: device_labels(id.clone()),
            value: MetricValue::Unsigned(aq.particles_05um as u64),
        });
        ups.push(MetricUpdate::SetGauge {
            name: MetricName::Particles10um,
            labels: device_labels(id.clone()),
            value: MetricValue::Unsigned(aq.particles_10um as u64),
        });
        ups.push(MetricUpdate::SetGauge {
            name: MetricName::Particles25um,
            labels: device_labels(id.clone()),
            value: MetricValue::Unsigned(aq.particles_25um as u64),
        });
        ups.push(MetricUpdate::SetGauge {
            name: MetricName::Particles50um,
            labels: device_labels(id.clone()),
            value: MetricValue::Unsigned(aq.particles_50um as u64),
        });
        ups.push(MetricUpdate::SetGauge {
            name: MetricName::Particles100um,
            labels: device_labels(id.clone()),
            value: MetricValue::Unsigned(aq.particles_100um as u64),
        });
        ups.push(MetricUpdate::SetGauge {
            name: MetricName::Pm10Standard,
            labels: device_labels(id.clone()),
            value: MetricValue::Unsigned(aq.pm10_standard as u64),
        });
        ups.push(MetricUpdate::SetGauge {
            name: MetricName::Pm25Standard,
            labels: device_labels(id.clone()),
            value: MetricValue::Unsigned(aq.pm25_standard as u64),
        });
        ups.push(MetricUpdate::SetGauge {
            name: MetricName::Pm100Standard,
            labels: device_labels(id.clone()),
            value: MetricValue::Unsigned(aq.pm100_standard as u64),
        });
        ups.push(MetricUpdate::SetGauge {
            name: MetricName::Pm10Environmental,
            labels: device_labels(id.clone()),
            value: MetricValue::Unsigned(aq.pm10_environmental as u64),
        });
        ups.push(MetricUpdate::SetGauge {
            name: MetricName::Pm25Environmental,
            labels: device_labels(id.clone()),
            value: MetricValue::Unsigned(aq.pm25_environmental as u64),
        });
        ups.push(MetricUpdate::SetGauge {
            name: MetricName::Pm100Environmental,
            labels: device_labels(id),
            value: MetricValue::Unsigned(aq.pm100_environmental as u64),
        });
    } else if let Some(pm) = decode_power_metrics(&data.payload) {
        push_power_channel(&mut ups, &id, "ch1", pm.ch1_voltage, pm.ch1_current);
        push_power_channel(&mut ups, &id, "ch2", pm.ch2_voltage, pm.ch2_current);
        push_power_channel(&mut ups, &id, "ch3", pm.ch3_voltage, pm.ch3_current);
    }
    proof {
        assert(updates_view(ups@) =~= telemetry_app_updates(data.source, packet.from,
            data.payload@));
    }
    ups
}

/// Dispatches one routed packet: the consumed ports update their metrics,
/// and every packet whose transport-level decode succeeded increments the
/// received-message counter for its device id exactly once.
pub fn process_mesh_packet(mesh_packet: &MeshPacketMsg, now_secs: u64) -> (ups: Vec<MetricUpdate>)
    ensures
        updates_view(ups@) == mesh_packet_updates(*mesh_packet, now_secs),
{
    match &mesh_packet.payload_variant {
        Some(PacketPayload::Decoded(content)) => {
            let mut ups = match content.portnum {
                PortKind::PositionApp => process_position_app(mesh_packet),
                PortKind::NodeinfoApp => process_nodeinfo_app(mesh_packet, now_secs),
                PortKind::TelemetryApp => process_telemetry_app(mesh_packet),
                PortKind::NeighborinfoApp => Vec::new(),
                PortKind::Other(_) => Vec::new(),
            };
            let id = packet_device_id(content.source, mesh_packet.from);
            ups.push(MetricUpdate::IncCounter {
                name: MetricName::RxMsgCount,
                labels: device_labels(id),
                delta: 1,
            });
            proof {
                assert(updates_view(ups@) =~= mesh_packet_updates(*mesh_packet, now_secs));
            }
            ups
        },
        _ => {
            let ups: Vec<MetricUpdate> = Vec::new();
            proof {
                assert(updates_view(ups@) =~= mesh_packet_updates(*mesh_packet, now_secs));
            }
            ups
        },
    }
}

/// The identity after one envelope: a node-identity announcement overwrites
/// the cached node number, everything else leaves it alone.
pub open spec fn dispatch_identity_spec(m: FromRadioMsg, id: DeviceIdentity) -> DeviceIdentity {
    match m.payload_variant {
        Some(FromRadioVariant::MyInfo(mi)) => DeviceIdentity { node_id: mi.my_node_num },
        _ => id,
    }
}

/// The updates one envelope produces, given the cached node number at the
/// time it arrives.
pub open spec fn dispatch_updates_spec(m: FromRadioMsg, node_id: u32, now: u64) -> Seq<UpdateV> {
    match m.payload_variant {
        Some(FromRadioVariant::Packet(p)) => mesh_packet_updates(p, now),
        Some(FromRadioVariant::NodeInfo(n)) => node_info_updates(n),
        Some(FromRadioVariant::Metadata(md)) => metadata_updates(md, node_id, now),
        _ => Seq::empty(),
    }
}

/// Dispatches one inbound envelope by its payload kind, updating the cached
/// device identity and returning the metric updates to perform.
pub fn dispatch_from_radio(msg: &FromRadioMsg, identity: &mut DeviceIdentity, now_secs: u64)
    -> (ups: Vec<MetricUpdate>)
    ensures
        *final(identity) == dispatch_identity_spec(*msg, *old(identity)),
        updates_view(ups@) == dispatch_updates_spec(*msg, old(identity).node_id, now_secs),
{
    let ups = match &msg.payload_variant {
        Some(FromRadioVariant::Packet(p)) => process_mesh_packet(p, now_secs),
        Some(FromRadioVariant::MyInfo(mi)) => {
            process_my_info(mi, identity);
            Vec::new()
        },
        Some(FromRadioVariant::NodeInfo(n)) => process_node_info(n),
        Some(FromRadioVariant::Metadata(md)) => process_metadata(md, identity, now_secs),
        _ => Vec::new(),
    };
    proof {
        assert(updates_view(ups@) =~= dispatch_updates_spec(*msg, old(identity).node_id,
            now_secs));
    }
    ups
}

// ---------------------------------------------------------------------------
// Laws of the dispatch.
// ---------------------------------------------------------------------------

/// The geocode of a position's coordinates, at the configured length: the
/// public entry to the geocoder.
pub fn position_geohash(lat_i: i32, lon_i: i32) -> (r: Option<String>)
    ensures
        r is Some <==> geohash_of(lat_i, lon_i, GEOHASH_LENGTH) is Some,
        r matches Some(s) ==> geohash_of(lat_i, lon_i, GEOHASH_LENGTH) == Some(s@)
            && s@.len() == GEOHASH_LENGTH,
{
    encode_geohash(lat_i, lon_i, GEOHASH_LENGTH)
}

/// The device-id tie break of routed packets: a zero inner `source` defers
/// to the outer `from` field, any other `source` wins.
pub proof fn lemma_packet_device_id_tie_break(source: u32, from: u32)
    ensures
        source == 0 ==> packet_device_id_seq(source, from) == device_id_seq(from),
        source != 0 ==> packet_device_id_seq(source, from) == device_id_seq(source),
{
}

/// Geocoding is deterministic: two positions reporting the same coordinate
/// pair carry the same geocode.
pub proof fn lemma_geocode_deterministic(p: PositionMsg, q: PositionMsg)
    requires
        p.latitude_i == q.latitude_i,
        p.longitude_i == q.longitude_i,
    ensures
        geohash_of(p.latitude_i, p.longitude_i, GEOHASH_LENGTH) == geohash_of(q.latitude_i,
            q.longitude_i, GEOHASH_LENGTH),
{
}

/// The key of the received-message counter series a routed packet
/// increments.
pub open spec fn packet_rx_key(p: MeshPacketMsg) -> SeriesKey {
    match p.payload_variant {
        Some(PacketPayload::Decoded(d)) => (
            MetricName::RxMsgCount,
            device_labels_v(packet_device_id_seq(d.source, p.from)),
        ),
        _ => (MetricName::RxMsgCount, Seq::empty()),
    }
}

proof fn lemma_device_metrics_gauges(dm: DeviceMetricsMsg, id: Seq<char>)
    ensures
        all_gauge_sets_excluding(device_metrics_updates(dm, id), MetricName::RxMsgCount),
{
    let us = device_metrics_updates(dm, id);
    assert forall|i: int|
        0 <= i < us.len() implies (#[trigger] us[i]) is SetGauge && update_name(us[i])
        != MetricName::RxMsgCount by {
        if i == 0 {
            assert(update_name(us[0]) == MetricName::ChanUtil);
        } else if i == 1 {
            assert(update_name(us[1]) == MetricName::AirUtil);
        } else if i == 2 {
            assert(update_name(us[2]) == MetricName::Battery);
        } else if i == 3 {
            assert(update_name(us[3]) == MetricName::Voltage);
        } else {
            assert(update_name(us[4]) == MetricName::Uptime);
        }
    }
}

proof fn lemma_power_channel_segment(id: Seq<char>, ch: Seq<char>, volt: F32Bits, curr: F32Bits)
    ensures
        f32_bits_gt_zero(volt) ==> power_channel_updates(id, ch, volt, curr).len() == 2,
        !f32_bits_gt_zero(volt) ==> power_channel_updates(id, ch, volt, curr).len() == 0,
        forall|j: int|
            0 <= j < power_channel_updates(id, ch, volt, curr).len() ==> update_labels(
                #[trigger] power_channel_updates(id, ch, volt, curr)[j]) == channel_labels_v(id,
                ch),
        all_gauge_sets_excluding(power_channel_updates(id, ch, volt, curr),
            MetricName::RxMsgCount),
{
    let seg = power_channel_updates(id, ch, volt, curr);
    if f32_bits_gt_zero(volt) {
        assert(update_labels(seg[0]) == channel_labels_v(id, ch));
        assert(update_labels(seg[1]) == channel_labels_v(id, ch));
        assert(update_name(seg[0]) == MetricName::Voltage);
        assert(update_name(seg[1]) == MetricName::Current);
    }
}

proof fn lemma_power_gauges(pm: PowerMetricsMsg, id: Seq<char>)
    ensures
        all_gauge_sets_excluding(power_updates(pm, id), MetricName::RxMsgCount),
{
    let a = power_channel_updates(id, "ch1"@, pm.ch1_voltage, pm.ch1_current);
    let b = power_channel_updates(id, "ch2"@, pm.ch2_voltage, pm.ch2_current);
    let c = power_channel_updates(id, "ch3"@, pm.ch3_voltage, pm.ch3_current);
    lemma_power_channel_segment(id, "ch1"@, pm.ch1_voltage, pm.ch1_current);
    lemma_power_channel_segment(id, "ch2"@, pm.ch2_voltage, pm.ch2_current);
    lemma_power_channel_segment(id, "ch3"@, pm.ch3_voltage, pm.ch3_current);
    lemma_all_gauge_concat(a, b, MetricName::RxMsgCount);
    lemma_all_gauge_concat(a + b, c, MetricName::RxMsgCount);
}

proof fn lemma_environment_gauges(em: EnvironmentMetricsMsg, id: Seq<char>)
    ensures
        all_gauge_sets_excluding(environment_updates(em, id), MetricName::RxMsgCount),
{
    let us = environment_updates(em, id);
    assert forall|i: int|
        0 <= i < us.len() implies (#[trigger] us[i]) is SetGauge && update_name(us[i])
        != MetricName::RxMsgCount by {
        if i == 0 {
            assert(update_name(us[0]) == MetricName::Temperature);
        } else if i == 1 {
            assert(update_name(us[1]) == MetricName::Humidity);
        } else if i == 2 {
            assert(update_name(us[2]) == MetricName::BarometricPressure);
        } else if i == 3 {
            assert(update_name(us[3]) == MetricName::Iaq);
        } else {
            assert(update_name(us[4]) == MetricName::GasResistance);
        }
    }
}

proof fn lemma_air_quality_gauges(aq: AirQualityMetricsMsg, id: Seq<char>)
    ensures
        all_gauge_sets_excluding(air_quality_updates(aq, id), MetricName::RxMsgCount),
{
    let us = air_quality_updates(aq, id);
    assert forall|i: int|
        0 <= i < us.len() implies (#[trigger] us[i]) is SetGauge && update_name(us[i])
        != MetricName::RxMsgCount by {
        if i == 0 {
            assert(update_name(us[0]) == MetricName::Particles03um);
        } else if i == 1 {
            assert(update_name(us[1]) == MetricName::Particles05um);
        } else if i == 2 {
            assert(update_name(us[2]) == MetricName::Particles10um);
        } else if i == 3 {
            assert(update_name(us[3]) == MetricName::Particles25um);
        } else if i == 4 {
            assert(update_name(us[4]) == MetricName::Particles50um);
        } else if i == 5 {
            assert(update_name(us[5]) == MetricName::Particles100um);
        } else if i == 6 {
            assert(update_name(us[6]) == MetricName::Pm10Standard);
        } else if i == 7 {
            assert(update_name(us[7]) == MetricName::Pm25Standard);
        } else if i == 8 {
            assert(update_name(us[8]) == MetricName::Pm100Standard);
        } else if i == 9 {
            assert(update_name(us[9]) == MetricName::Pm10Environmental);
        } else if i == 10 {
            assert(update_name(us[10]) == MetricName::Pm25Environmental);
        } else {
            assert(update_name(us[11]) == MetricName::Pm100Environmental);
        }
    }
}

/// The port-specific updates of a routed packet are all gauge sets: the
/// received-message counter is touched nowhere but by the final increment.
proof fn lemma_port_updates_gauges_only(d: DataMsg, from: u32, now: u64)
    ensures
        all_gauge_sets_excluding(port_updates(d, from, now), MetricName::RxMsgCount),
{
    match d.portnum {
        PortKind::PositionApp => {
            let pd = position_decode_of(d.payload@);
            match pd {
                Some(p) => {
                    let g = geohash_of(p.latitude_i, p.longitude_i, GEOHASH_LENGTH);
                    match g {
                        Some(_) => {
                            let us = port_updates(d, from, now);
                            assert(update_name(us[0]) == MetricName::PosSatsInView);
                        },
                        None => {},
                    }
                },
                None => {},
            }
        },
        PortKind::NodeinfoApp => {
            let ud = user_decode_of(d.payload@);
            match ud {
                Some(_) => {
                    let us = port_updates(d, from, now);
                    assert(update_name(us[0]) == MetricName::DeviceInfo);
                },
                None => {},
            }
        },
        PortKind::TelemetryApp => {
            let id = packet_device_id_seq(d.source, from);
            match device_metrics_decode_of(d.payload@) {
                Some(dm) => {
                    lemma_device_metrics_gauges(dm, id);
                },
                None => match environment_metrics_decode_of(d.payload@) {
                    Some(em) => {
                        lemma_environment_gauges(em, id);
                    },
                    None => match air_quality_decode_of(d.payload@) {
                        Some(aq) => {
                            lemma_air_quality_gauges(aq, id);
                        },
                        None => match power_metrics_decode_of(d.payload@) {
                            Some(pm) => {
                                lemma_power_gauges(pm, id);
                            },
                            None => {},
                        },
                    },
                },
            }
        },
        PortKind::NeighborinfoApp => {},
        PortKind::Other(_) => {},
    }
}

/// Every routed packet whose transport-level decode succeeded increments
/// the received-message counter exactly once, as its final update, whatever
/// application port it targeted.
pub proof fn lemma_rx_count_exactly_once(p: MeshPacketMsg, now: u64)
    requires
        p.payload_variant matches Some(PacketPayload::Decoded(_)),
    ensures
        count_incs(mesh_packet_updates(p, now)) == 1,
        mesh_packet_updates(p, now).last() == (UpdateV::IncCounter {
            name: MetricName::RxMsgCount,
            labels: packet_rx_key(p).1,
            delta: 1,
        }),
{
    match p.payload_variant {
        Some(PacketPayload::Decoded(d)) => {
            let port = port_updates(d, p.from, now);
            let inc = UpdateV::IncCounter {
                name: MetricName::RxMsgCount,
                labels: device_labels_v(packet_device_id_seq(d.source, p.from)),
                delta: 1,
            };
            let us = mesh_packet_updates(p, now);
            assert(us == port + seq![inc]);
            lemma_port_updates_gauges_only(d, p.from, now);
            lemma_count_incs_zero(port, MetricName::RxMsgCount);
            assert(us.drop_last() =~= port);
            assert(us.last() == inc);
        },
        _ => {},
    }
}

/// Applying the updates of a decoded routed packet grows the
/// received-message counter for the packet's device id by exactly one,
/// whatever port the packet targeted.  The counter series, if it already
/// exists, holds an unsigned count below the wrap-around boundary.
pub proof fn lemma_rx_counter_increments_by_one(m: Map<SeriesKey, MetricValue>, p: MeshPacketMsg,
    now: u64)
    requires
        p.payload_variant matches Some(PacketPayload::Decoded(_)),
        spec_counter_value(m, packet_rx_key(p)) < u64::MAX,
        m.contains_key(packet_rx_key(p)) ==> m[packet_rx_key(p)] is Unsigned,
    ensures
        spec_counter_value(apply_updates_spec(m, mesh_packet_updates(p, now)), packet_rx_key(p))
            == spec_counter_value(m, packet_rx_key(p)) + 1,
{
    match p.payload_variant {
        Some(PacketPayload::Decoded(d)) => {
            let k = packet_rx_key(p);
            assert(k == (
                MetricName::RxMsgCount,
                device_labels_v(packet_device_id_seq(d.source, p.from)),
            ));
            let port = port_updates(d, p.from, now);
            let inc = UpdateV::IncCounter { name: MetricName::RxMsgCount, labels: k.1, delta: 1 };
            let incs = seq![inc];
            assert(mesh_packet_updates(p, now) == port + incs);
            lemma_apply_updates_concat(m, port, incs);
            lemma_port_updates_gauges_only(d, p.from, now);
            lemma_gauge_sets_preserve_key(m, port, k);
            let m2 = apply_updates_spec(m, port);
            assert(incs.drop_first() =~= Seq::<UpdateV>::empty());
            assert(incs[0] == inc);
            let m3 = apply_update_spec(m2, inc);
            assert(incs.len() == 1);
            assert(apply_updates_spec(m2, incs) == apply_updates_spec(m3, incs.drop_first()));
            assert(apply_updates_spec(m3, incs.drop_first()) == m3);
        },
        _ => {},
    }
}

proof fn lemma_channel_labels_ne(id: Seq<char>, c1: Seq<char>, c2: Seq<char>)
    requires
        c1 != c2,
    ensures
        channel_labels_v(id, c1) != channel_labels_v(id, c2),
{
    assert(channel_labels_v(id, c1)[1] == ("sensor_channel"@, c1));
    assert(channel_labels_v(id, c2)[1] == ("sensor_channel"@, c2));
}

/// A power-metrics reading updates a channel's voltage and current gauges
/// exactly when that channel reports a voltage strictly greater than zero;
/// a channel at or below zero produces no series at all.
pub proof fn lemma_power_channel_gating(pm: PowerMetricsMsg, id: Seq<char>)
    ensures
        has_series_labels(power_updates(pm, id), channel_labels_v(id, "ch1"@))
            == f32_bits_gt_zero(pm.ch1_voltage),
        has_series_labels(power_updates(pm, id), channel_labels_v(id, "ch2"@))
            == f32_bits_gt_zero(pm.ch2_voltage),
        has_series_labels(power_updates(pm, id), channel_labels_v(id, "ch3"@))
            == f32_bits_gt_zero(pm.ch3_voltage),
{
    reveal_strlit("ch1");
    reveal_strlit("ch2");
    reveal_strlit("ch3");
    assert("ch1"@ != "ch2"@) by {
        assert("ch1"@[2] == '1' && "ch2"@[2] == '2');
    }
    assert("ch1"@ != "ch3"@) by {
        assert("ch1"@[2] == '1' && "ch3"@[2] == '3');
    }
    assert("ch2"@ != "ch3"@) by {
        assert("ch2"@[2] == '2' && "ch3"@[2] == '3');
    }
    lemma_channel_labels_ne(id, "ch1"@, "ch2"@);
    lemma_channel_labels_ne(id, "ch1"@, "ch3"@);
    lemma_channel_labels_ne(id, "ch2"@, "ch3"@);
    lemma_channel_labels_ne(id, "ch2"@, "ch1"@);
    lemma_channel_labels_ne(id, "ch3"@, "ch1"@);
    lemma_channel_labels_ne(id, "ch3"@, "ch2"@);
    let a = power_channel_updates(id, "ch1"@, pm.ch1_voltage, pm.ch1_current);
    let b = power_channel_updates(id, "ch2"@, pm.ch2_voltage, pm.ch2_current);
    let c = power_channel_updates(id, "ch3"@, pm.ch3_voltage, pm.ch3_current);
    lemma_power_channel_segment(id, "ch1"@, pm.ch1_voltage, pm.ch1_current);
    lemma_power_channel_segment(id, "ch2"@, pm.ch2_voltage, pm.ch2_current);
    lemma_power_channel_segment(id, "ch3"@, pm.ch3_voltage, pm.ch3_current);
    let us = power_updates(pm, id);
    assert(us == a + b + c);
    assert(us.len() == a.len() + b.len() + c.len());
    assert forall|i: int| 0 <= i < us.len() implies update_labels(#[trigger] us[i])
        == channel_labels_v(id, "ch1"@) || update_labels(us[i]) == channel_labels_v(id, "ch2"@)
        || update_labels(us[i]) == channel_labels_v(id, "ch3"@) by {
        if i < a.len() {
            assert(us[i] == a[i]);
        } else if i < a.len() + b.len() {
            assert(us[i] == b[i - a.len()]);
        } else {
            assert(us[i] == c[i - a.len() - b.len()]);
        }
    }
    if f32_bits_gt_zero(pm.ch1_voltage) {
        assert(us[0] == a[0]);
        assert(update_labels(us[0]) == channel_labels_v(id, "ch1"@));
    } else {
        assert forall|i: int| 0 <= i < us.len() implies update_labels(#[trigger] us[i])
            != channel_labels_v(id, "ch1"@) by {
            if i < a.len() + b.len() {
                assert(us[i] == b[i - a.len()]);
            } else {
                assert(us[i] == c[i - a.len() - b.len()]);
            }
        }
    }
    if f32_bits_gt_zero(pm.ch2_voltage) {
        assert(us[a.len() as int] == b[0]);
        assert(update_labels(us[a.len() as int]) == channel_labels_v(id, "ch2"@));
    } else {
        assert forall|i: int| 0 <= i < us.len() implies update_labels(#[trigger] us[i])
            != channel_labels_v(id, "ch2"@) by {
            if i < a.len() {
                assert(us[i] == a[i]);
            } else {
                assert(us[i] == c[i - a.len() - b.len()]);
            }
        }
    }
    if f32_bits_gt_zero(pm.ch3_voltage) {
        assert(us[(a.len() + b.len()) as int] == c[0]);
        assert(update_labels(us[(a.len() + b.len()) as int]) == channel_labels_v(id, "ch3"@));
    } else {
        assert forall|i: int| 0 <= i < us.len() implies update_labels(#[trigger] us[i])
            != channel_labels_v(id, "ch3"@) by {
            if i < a.len() {
                assert(us[i] == a[i]);
            } else {
                assert(us[i] == b[i - a.len()]);
            }
        }
    }
}

} // verus!
