//! Telemetry variants: environment, air-quality, and the power-metrics
//! channel gating.

use mesh_exporter::frames::{DataMsg, MeshPacketMsg, PacketPayload, PortKind};
use mesh_exporter::metrics::{MetricName, MetricRegistry, MetricValue};
use mesh_exporter::processing::process_mesh_packet;
use meshtastic::Message;
use meshtastic::protobufs as pb;

fn telemetry_packet(from: u32, source: u32, variant: pb::telemetry::Variant) -> MeshPacketMsg {
    let telemetry = pb::Telemetry { time: 0, variant: Some(variant) };
    MeshPacketMsg {
        from,
        payload_variant: Some(PacketPayload::Decoded(DataMsg {
            portnum: PortKind::TelemetryApp,
            source,
            payload: telemetry.encode_to_vec(),
        })),
    }
}

fn device_labels(id: &str) -> Vec<(String, String)> {
    vec![("device_id".to_string(), id.to_string())]
}

fn channel_labels(id: &str, ch: &str) -> Vec<(String, String)> {
    vec![
        ("device_id".to_string(), id.to_string()),
        ("sensor_channel".to_string(), ch.to_string()),
    ]
}

fn default_environment() -> pb::EnvironmentMetrics {
    pb::EnvironmentMetrics {
        temperature: Some(21.5),
        relative_humidity: Some(40.0),
        barometric_pressure: Some(1013.25),
        gas_resistance: Some(120.0),
        iaq: Some(55),
        ..Default::default()
    }
}

#[test]
fn environment_metrics_gauges() {
    let packet = telemetry_packet(0x21, 0, pb::telemetry::Variant::EnvironmentMetrics(
        default_environment(),
    ));
    let mut reg = MetricRegistry::new();
    reg.apply_all(process_mesh_packet(&packet, 0));
    let labels = device_labels("!21");
    assert_eq!(
        reg.sample(MetricName::Temperature, &labels),
        Some(MetricValue::Float32(21.5f32.to_bits()))
    );
    assert_eq!(
        reg.sample(MetricName::Humidity, &labels),
        Some(MetricValue::Float32(40.0f32.to_bits()))
    );
    assert_eq!(
        reg.sample(MetricName::BarometricPressure, &labels),
        Some(MetricValue::Float32(1013.25f32.to_bits()))
    );
    assert_eq!(reg.sample(MetricName::Iaq, &labels), Some(MetricValue::Unsigned(55)));
    assert_eq!(
        reg.sample(MetricName::GasResistance, &labels),
        Some(MetricValue::Float32(120.0f32.to_bits()))
    );
    assert_eq!(reg.counter_value(MetricName::RxMsgCount, &labels), 1);
}

#[test]
fn air_quality_metrics_gauges() {
    let aq = pb::AirQualityMetrics {
        pm10_standard: Some(1),
        pm25_standard: Some(2),
        pm100_standard: Some(3),
        pm10_environmental: Some(4),
        pm25_environmental: Some(5),
        pm100_environmental: Some(6),
        particles_03um: Some(7),
        particles_05um: Some(8),
        particles_10um: Some(9),
        particles_25um: Some(10),
        particles_50um: Some(11),
        particles_100um: Some(12),
        ..Default::default()
    };
    let packet = telemetry_packet(0x31, 0, pb::telemetry::Variant::AirQualityMetrics(aq));
    let mut reg = MetricRegistry::new();
    reg.apply_all(process_mesh_packet(&packet, 0));
    let labels = device_labels("!31");
    assert_eq!(reg.sample(MetricName::Pm10Standard, &labels), Some(MetricValue::Unsigned(1)));
    assert_eq!(reg.sample(MetricName::Pm25Standard, &labels), Some(MetricValue::Unsigned(2)));
    assert_eq!(reg.sample(MetricName::Pm100Standard, &labels), Some(MetricValue::Unsigned(3)));
    assert_eq!(reg.sample(MetricName::Pm10Environmental, &labels), Some(MetricValue::Unsigned(4)));
    assert_eq!(reg.sample(MetricName::Pm25Environmental, &labels), Some(MetricValue::Unsigned(5)));
    assert_eq!(
        reg.sample(MetricName::Pm100Environmental, &labels),
        Some(MetricValue::Unsigned(6))
    );
    assert_eq!(reg.sample(MetricName::Particles03um, &labels), Some(MetricValue::Unsigned(7)));
    assert_eq!(reg.sample(MetricName::Particles05um, &labels), Some(MetricValue::Unsigned(8)));
    assert_eq!(reg.sample(MetricName::Particles10um, &labels), Some(MetricValue::Unsigned(9)));
    assert_eq!(reg.sample(MetricName::Particles25um, &labels), Some(MetricValue::Unsigned(10)));
    assert_eq!(reg.sample(MetricName::Particles50um, &labels), Some(MetricValue::Unsigned(11)));
    assert_eq!(reg.sample(MetricName::Particles100um, &labels), Some(MetricValue::Unsigned(12)));
}

fn power(ch1_v: f32, ch1_c: f32, ch2_v: f32, ch2_c: f32, ch3_v: f32, ch3_c: f32)
    -> pb::PowerMetrics {
    pb::PowerMetrics {
        ch1_voltage: Some(ch1_v),
        ch1_current: Some(ch1_c),
        ch2_voltage: Some(ch2_v),
        ch2_current: Some(ch2_c),
        ch3_voltage: Some(ch3_v),
        ch3_current: Some(ch3_c),
        ..Default::default()
    }
}

#[test]
fn power_metrics_updates_only_positive_voltage_channels() {
    // ch1 reports a positive voltage, ch2 reports zero, ch3 negative: only
    // ch1's voltage and current series may exist.
    let packet = telemetry_packet(0x61, 0, pb::telemetry::Variant::PowerMetrics(
        power(12.5, 0.35, 0.0, 1.0, -1.0, 2.0),
    ));
    let mut reg = MetricRegistry::new();
    reg.apply_all(process_mesh_packet(&packet, 0));
    let ch1 = channel_labels("!61", "ch1");
    let ch2 = channel_labels("!61", "ch2");
    let ch3 = channel_labels("!61", "ch3");
    assert_eq!(
        reg.sample(MetricName::Voltage, &ch1),
        Some(MetricValue::Float32(12.5f32.to_bits()))
    );
    assert_eq!(
        reg.sample(MetricName::Current, &ch1),
        Some(MetricValue::Float32(0.35f32.to_bits()))
    );
    assert_eq!(reg.sample(MetricName::Voltage, &ch2), None);
    assert_eq!(reg.sample(MetricName::Current, &ch2), None);
    assert_eq!(reg.sample(MetricName::Voltage, &ch3), None);
    assert_eq!(reg.sample(MetricName::Current, &ch3), None);
    assert_eq!(reg.counter_value(MetricName::RxMsgCount, &device_labels("!61")), 1);
}

#[test]
fn power_metrics_all_channels_positive() {
    let packet = telemetry_packet(0x62, 0, pb::telemetry::Variant::PowerMetrics(
        power(1.0, 0.1, 2.0, 0.2, 3.0, 0.3),
    ));
    let mut reg = MetricRegistry::new();
    reg.apply_all(process_mesh_packet(&packet, 0));
    for (ch, v, c) in [("ch1", 1.0f32, 0.1f32), ("ch2", 2.0, 0.2), ("ch3", 3.0, 0.3)] {
        let labels = channel_labels("!62", ch);
        assert_eq!(
            reg.sample(MetricName::Voltage, &labels),
            Some(MetricValue::Float32(v.to_bits()))
        );
        assert_eq!(
            reg.sample(MetricName::Current, &labels),
            Some(MetricValue::Float32(c.to_bits()))
        );
    }
}

#[test]
fn user_identity_payload_sets_device_info() {
    let user = pb::User {
        id: "!cafef00d".to_string(),
        long_name: "Test Node".to_string(),
        short_name: "TN".to_string(),
        hw_model: pb::HardwareModel::Tbeam as i32,
        is_licensed: false,
        role: 0,
        ..Default::default()
    };
    let packet = MeshPacketMsg {
        from: 0x8,
        payload_variant: Some(PacketPayload::Decoded(DataMsg {
            portnum: PortKind::NodeinfoApp,
            source: 0,
            payload: user.encode_to_vec(),
        })),
    };
    let now = 1_650_000_000u64;
    let mut reg = MetricRegistry::new();
    reg.apply_all(process_mesh_packet(&packet, now));
    let labels = vec![
        ("device_id".to_string(), "!cafef00d".to_string()),
        ("hardware_model".to_string(), "TBEAM".to_string()),
        ("device_role".to_string(), "CLIENT".to_string()),
        ("is_licensed".to_string(), "false".to_string()),
        ("short_name".to_string(), "TN".to_string()),
        ("long_name".to_string(), "Test Node".to_string()),
    ];
    assert_eq!(reg.sample(MetricName::DeviceInfo, &labels), Some(MetricValue::Unsigned(now)));
    // The counter still goes to the tie-break id, not the payload's id.
    assert_eq!(reg.counter_value(MetricName::RxMsgCount, &device_labels("!8")), 1);
}
