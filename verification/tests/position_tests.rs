//! Position payloads and the geocode label.

use mesh_exporter::frames::{DataMsg, MeshPacketMsg, PacketPayload, PortKind};
use mesh_exporter::metrics::{MetricName, MetricRegistry, MetricValue};
use mesh_exporter::processing::{position_geohash, process_mesh_packet};
use meshtastic::Message;
use meshtastic::protobufs as pb;

// Seattle-ish coordinates in the protocol's fixed-point encoding: degrees
// scaled by ten million.
const LAT_I: i32 = 476_062_000;
const LON_I: i32 = -1_223_321_000;

#[test]
fn geocode_matches_reference_encoder() {
    let got = position_geohash(LAT_I, LON_I).expect("in-range coordinates must encode");
    let expected = geohash::encode(
        geohash::Coord { x: LON_I as f64 / 10_000_000f64, y: LAT_I as f64 / 10_000_000f64 },
        10,
    )
    .unwrap();
    assert_eq!(got, expected);
    assert_eq!(got.len(), 10);
}

#[test]
fn geocode_is_deterministic() {
    // Encoding the same coordinate pair twice yields the same geocode.
    let first = position_geohash(LAT_I, LON_I);
    let second = position_geohash(LAT_I, LON_I);
    assert_eq!(first, second);
    assert!(first.is_some());
}

#[test]
fn geocode_rejects_out_of_range() {
    // Latitudes beyond 90 degrees cannot be encoded.
    assert_eq!(position_geohash(950_000_000, 0), None);
    assert_eq!(position_geohash(0, -1_850_000_000), None);
}

#[test]
fn position_payload_sets_satellites_gauge() {
    let position = pb::Position {
        latitude_i: Some(LAT_I),
        longitude_i: Some(LON_I),
        sats_in_view: 7,
        ..Default::default()
    };
    let packet = MeshPacketMsg {
        from: 0x11,
        payload_variant: Some(PacketPayload::Decoded(DataMsg {
            portnum: PortKind::PositionApp,
            source: 0,
            payload: position.encode_to_vec(),
        })),
    };
    let mut reg = MetricRegistry::new();
    reg.apply_all(process_mesh_packet(&packet, 0));
    let geocode = position_geohash(LAT_I, LON_I).unwrap();
    let labels = vec![
        ("device_id".to_string(), "!11".to_string()),
        ("geohash".to_string(), geocode),
    ];
    assert_eq!(reg.sample(MetricName::PosSatsInView, &labels), Some(MetricValue::Unsigned(7)));
    assert_eq!(
        reg.counter_value(
            MetricName::RxMsgCount,
            &vec![("device_id".to_string(), "!11".to_string())],
        ),
        1
    );
}

#[test]
fn out_of_range_position_still_counts_the_packet() {
    let position = pb::Position {
        latitude_i: Some(950_000_000),
        longitude_i: Some(0),
        sats_in_view: 3,
        ..Default::default()
    };
    let packet = MeshPacketMsg {
        from: 0x12,
        payload_variant: Some(PacketPayload::Decoded(DataMsg {
            portnum: PortKind::PositionApp,
            source: 0,
            payload: position.encode_to_vec(),
        })),
    };
    let mut reg = MetricRegistry::new();
    let ups = process_mesh_packet(&packet, 0);
    // Only the received-message counter: the geocoder refused the point.
    assert_eq!(ups.len(), 1);
    reg.apply_all(ups);
    assert_eq!(
        reg.counter_value(
            MetricName::RxMsgCount,
            &vec![("device_id".to_string(), "!12".to_string())],
        ),
        1
    );
}
