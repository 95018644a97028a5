//! End-to-end dispatch scenarios: envelopes in, registry contents out.

use mesh_exporter::frames::{
    DataMsg, DeviceMetadataMsg, FromRadioMsg, FromRadioVariant, MeshPacketMsg, MyNodeInfoMsg,
    NodeInfoMsg, PacketPayload, PortKind,
};
use mesh_exporter::hexfmt::{device_id_label, packet_device_id};
use mesh_exporter::metrics::{MetricName, MetricRegistry, MetricValue};
use mesh_exporter::processing::{
    dispatch_from_radio, process_mesh_packet, process_metadata, process_my_info,
    process_node_info,
};
use mesh_exporter::structs::DeviceIdentity;
use meshtastic::Message;
use meshtastic::protobufs as pb;

fn device_labels(id: &str) -> Vec<(String, String)> {
    vec![("device_id".to_string(), id.to_string())]
}

#[test]
fn device_id_rendering() {
    assert_eq!(device_id_label(0x1234), "!1234");
    assert_eq!(device_id_label(0), "!0");
    assert_eq!(device_id_label(0xdeadbeef), "!deadbeef");
    assert_eq!(device_id_label(u32::MAX), "!ffffffff");
}

#[test]
fn device_id_tie_break() {
    assert_eq!(packet_device_id(0, 0xABCD), "!abcd");
    assert_eq!(packet_device_id(5, 0xABCD), "!5");
    assert_eq!(packet_device_id(0, 0), "!0");
}

#[test]
fn routed_packet_source_zero_uses_outer_from() {
    // An unconsumed port still increments the counter, labeled by `from`
    // because the inner source is zero.
    let packet = MeshPacketMsg {
        from: 0xABCD,
        payload_variant: Some(PacketPayload::Decoded(DataMsg {
            portnum: PortKind::Other(256),
            source: 0,
            payload: vec![],
        })),
    };
    let mut reg = MetricRegistry::new();
    reg.apply_all(process_mesh_packet(&packet, 0));
    assert_eq!(reg.counter_value(MetricName::RxMsgCount, &device_labels("!abcd")), 1);
    assert_eq!(reg.counter_value(MetricName::RxMsgCount, &device_labels("!0")), 0);
}

#[test]
fn routed_packet_nonzero_source_wins() {
    let packet = MeshPacketMsg {
        from: 0xABCD,
        payload_variant: Some(PacketPayload::Decoded(DataMsg {
            portnum: PortKind::Other(256),
            source: 0x77,
            payload: vec![],
        })),
    };
    let mut reg = MetricRegistry::new();
    reg.apply_all(process_mesh_packet(&packet, 0));
    assert_eq!(reg.counter_value(MetricName::RxMsgCount, &device_labels("!77")), 1);
    assert_eq!(reg.counter_value(MetricName::RxMsgCount, &device_labels("!abcd")), 0);
}

#[test]
fn node_identity_then_metadata_yields_device_info() {
    // A node-identity announcement with node number 0x1234, then a metadata
    // announcement with firmware "1.2.3": the device-info gauge appears under
    // device id "!1234" with the update-time value.
    let mut identity = DeviceIdentity::new();
    assert_eq!(identity.node_id, 0);
    process_my_info(&MyNodeInfoMsg { my_node_num: 0x1234 }, &mut identity);
    assert_eq!(identity.node_id, 0x1234);

    let metadata = DeviceMetadataMsg {
        firmware_version: "1.2.3".to_string(),
        hw_model: "TBEAM".to_string(),
        role: "CLIENT".to_string(),
    };
    let now = 1_700_000_000u64;
    let ups = process_metadata(&metadata, &identity, now);
    let mut reg = MetricRegistry::new();
    reg.apply_all(ups);
    let labels = vec![
        ("device_id".to_string(), "!1234".to_string()),
        ("firmware_version".to_string(), "1.2.3".to_string()),
        ("hardware_model".to_string(), "TBEAM".to_string()),
        ("device_role".to_string(), "CLIENT".to_string()),
    ];
    assert_eq!(reg.sample(MetricName::DeviceInfo, &labels), Some(MetricValue::Unsigned(now)));
}

#[test]
fn telemetry_device_metrics_battery_and_counter() {
    // A routed telemetry packet with source 0 and outer from 0xABCD carrying
    // device metrics with battery level 87: battery gauge 87 under "!abcd",
    // and the received-message counter for "!abcd" goes up by one.
    let telemetry = pb::Telemetry {
        time: 0,
        variant: Some(pb::telemetry::Variant::DeviceMetrics(pb::DeviceMetrics {
            battery_level: Some(87),
            voltage: Some(3.7),
            channel_utilization: Some(12.5),
            air_util_tx: Some(2.25),
            uptime_seconds: Some(4000),
        })),
    };
    let packet = MeshPacketMsg {
        from: 0xABCD,
        payload_variant: Some(PacketPayload::Decoded(DataMsg {
            portnum: PortKind::TelemetryApp,
            source: 0,
            payload: telemetry.encode_to_vec(),
        })),
    };
    let mut reg = MetricRegistry::new();
    reg.apply_all(process_mesh_packet(&packet, 0));
    let labels = device_labels("!abcd");
    assert_eq!(reg.sample(MetricName::Battery, &labels), Some(MetricValue::Unsigned(87)));
    assert_eq!(
        reg.sample(MetricName::Voltage, &labels),
        Some(MetricValue::Float32(3.7f32.to_bits()))
    );
    assert_eq!(
        reg.sample(MetricName::ChanUtil, &labels),
        Some(MetricValue::Float32(12.5f32.to_bits()))
    );
    assert_eq!(
        reg.sample(MetricName::AirUtil, &labels),
        Some(MetricValue::Float32(2.25f32.to_bits()))
    );
    assert_eq!(reg.sample(MetricName::Uptime, &labels), Some(MetricValue::Unsigned(4000)));
    assert_eq!(reg.counter_value(MetricName::RxMsgCount, &labels), 1);
}

#[test]
fn undecoded_packet_produces_nothing() {
    // A routed packet whose transport-level decode failed: no update, no
    // counter, and dispatch carries on.
    let packet = MeshPacketMsg { from: 0xABCD, payload_variant: Some(PacketPayload::Encrypted) };
    let ups = process_mesh_packet(&packet, 0);
    assert!(ups.is_empty());

    let no_payload = MeshPacketMsg { from: 0xABCD, payload_variant: None };
    assert!(process_mesh_packet(&no_payload, 0).is_empty());
}

#[test]
fn malformed_nested_payload_skips_port_updates() {
    // Nested payload bytes that decode as no telemetry variant: the port's
    // gauges are skipped, while the packet itself still counts as received.
    let packet = MeshPacketMsg {
        from: 0x42,
        payload_variant: Some(PacketPayload::Decoded(DataMsg {
            portnum: PortKind::TelemetryApp,
            source: 0,
            payload: vec![0xff, 0xff, 0xff, 0xff],
        })),
    };
    let mut reg = MetricRegistry::new();
    reg.apply_all(process_mesh_packet(&packet, 0));
    let labels = device_labels("!42");
    assert_eq!(reg.sample(MetricName::Battery, &labels), None);
    assert_eq!(reg.sample(MetricName::Temperature, &labels), None);
    assert_eq!(reg.counter_value(MetricName::RxMsgCount, &labels), 1);
}

#[test]
fn counter_increments_once_per_packet_regardless_of_port() {
    let mut reg = MetricRegistry::new();
    let telemetry = pb::Telemetry {
        time: 0,
        variant: Some(pb::telemetry::Variant::DeviceMetrics(pb::DeviceMetrics {
            battery_level: Some(50),
            voltage: None,
            channel_utilization: None,
            air_util_tx: None,
            uptime_seconds: None,
        })),
    };
    let telemetry_packet = MeshPacketMsg {
        from: 0x9,
        payload_variant: Some(PacketPayload::Decoded(DataMsg {
            portnum: PortKind::TelemetryApp,
            source: 0,
            payload: telemetry.encode_to_vec(),
        })),
    };
    let other_packet = MeshPacketMsg {
        from: 0x9,
        payload_variant: Some(PacketPayload::Decoded(DataMsg {
            portnum: PortKind::NeighborinfoApp,
            source: 0,
            payload: vec![],
        })),
    };
    reg.apply_all(process_mesh_packet(&telemetry_packet, 0));
    reg.apply_all(process_mesh_packet(&other_packet, 0));
    assert_eq!(reg.counter_value(MetricName::RxMsgCount, &device_labels("!9")), 2);
}

#[test]
fn cached_node_record_updates_link_gauges() {
    let record = NodeInfoMsg {
        num: 0x55,
        snr: 6.5f32.to_bits(),
        hops_away: 2,
        last_heard: 12345,
        device_metrics: Some(mesh_exporter::frames::DeviceMetricsMsg {
            battery_level: 99,
            voltage: 4.1f32.to_bits(),
            channel_utilization: 7.0f32.to_bits(),
            air_util_tx: 1.0f32.to_bits(),
            uptime_seconds: 777,
        }),
    };
    let mut reg = MetricRegistry::new();
    reg.apply_all(process_node_info(&record));
    let labels = device_labels("!55");
    assert_eq!(reg.sample(MetricName::Snr, &labels), Some(MetricValue::Float32(6.5f32.to_bits())));
    assert_eq!(reg.sample(MetricName::HopsAway, &labels), Some(MetricValue::Unsigned(2)));
    assert_eq!(reg.sample(MetricName::LastHeardSecs, &labels), Some(MetricValue::Unsigned(12345)));
    assert_eq!(reg.sample(MetricName::Battery, &labels), Some(MetricValue::Unsigned(99)));
    assert_eq!(reg.sample(MetricName::Uptime, &labels), Some(MetricValue::Unsigned(777)));
    assert_eq!(reg.counter_value(MetricName::RxMsgCount, &labels), 1);
}

#[test]
fn cached_node_record_without_metrics_sets_no_battery() {
    let record = NodeInfoMsg {
        num: 0x56,
        snr: 0.0f32.to_bits(),
        hops_away: 0,
        last_heard: 0,
        device_metrics: None,
    };
    let mut reg = MetricRegistry::new();
    reg.apply_all(process_node_info(&record));
    let labels = device_labels("!56");
    assert_eq!(reg.sample(MetricName::Battery, &labels), None);
    assert_eq!(reg.counter_value(MetricName::RxMsgCount, &labels), 1);
}

#[test]
fn dispatch_from_radio_by_envelope_kind() {
    let mut identity = DeviceIdentity::new();
    let my_info = FromRadioMsg {
        payload_variant: Some(FromRadioVariant::MyInfo(MyNodeInfoMsg { my_node_num: 0x77 })),
    };
    let ups = dispatch_from_radio(&my_info, &mut identity, 0);
    assert!(ups.is_empty());
    assert_eq!(identity.node_id, 0x77);

    let other = FromRadioMsg { payload_variant: Some(FromRadioVariant::Other) };
    assert!(dispatch_from_radio(&other, &mut identity, 0).is_empty());
    let empty = FromRadioMsg { payload_variant: None };
    assert!(dispatch_from_radio(&empty, &mut identity, 0).is_empty());
    assert_eq!(identity.node_id, 0x77);

    let packet = FromRadioMsg {
        payload_variant: Some(FromRadioVariant::Packet(MeshPacketMsg {
            from: 3,
            payload_variant: Some(PacketPayload::Decoded(DataMsg {
                portnum: PortKind::Other(1),
                source: 0,
                payload: vec![],
            })),
        })),
    };
    let mut reg = MetricRegistry::new();
    reg.apply_all(dispatch_from_radio(&packet, &mut identity, 0));
    assert_eq!(reg.counter_value(MetricName::RxMsgCount, &device_labels("!3")), 1);
}
