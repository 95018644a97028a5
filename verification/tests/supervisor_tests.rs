//! The supervisor tick, the deadman timer, the IPC queues, the registry, and
//! the metric declarations.

use mesh_exporter::consts::{DEADMAN_TIMEOUT, HEARTBEAT_INTERVAL, MPSC_BUFFER_SIZE};
use mesh_exporter::frames::{FromRadioMsg, ToRadioMsg, ToRadioVariant};
use mesh_exporter::ipc::IpcQueue;
use mesh_exporter::metrics::{
    metric_help, metric_name, register_metrics, MetricKind, MetricName, MetricRegistry,
    MetricValue,
};
use mesh_exporter::structs::{AppConfig, Connection, DeviceIdentity, IPCMessage};
use mesh_exporter::supervisor::{
    get_secs, make_heartbeat, Phase, StepVerdict, SupervisorState,
};
use mesh_exporter::worker::{route_outbound, WorkerAction};

#[test]
fn deadman_fires_after_timeout_and_not_before() {
    // The supervisor keeps running through the last tick inside the timeout,
    // and shuts down cleanly on the first tick beyond it.
    let start = 1_000u64;
    let mut s = SupervisorState::new(start);
    let at_limit = s.supervisor_step(start + DEADMAN_TIMEOUT, false, true, false,
        HEARTBEAT_INTERVAL, DEADMAN_TIMEOUT);
    assert_eq!(at_limit, StepVerdict::Continue);
    assert_eq!(s.phase, Phase::Running);
    let past_limit = s.supervisor_step(start + DEADMAN_TIMEOUT + 1, false, true, false,
        HEARTBEAT_INTERVAL, DEADMAN_TIMEOUT);
    assert_eq!(past_limit, StepVerdict::CleanExit);
    assert_eq!(s.phase, Phase::ShuttingDown);
}

#[test]
fn inbound_frame_resets_deadman() {
    let start = 1_000u64;
    let mut s = SupervisorState::new(start);
    // A frame arrives on the tick that would otherwise have shut down.
    let v = s.supervisor_step(start + DEADMAN_TIMEOUT + 1, true, true, false,
        HEARTBEAT_INTERVAL, DEADMAN_TIMEOUT);
    assert_eq!(v, StepVerdict::Continue);
    assert_eq!(s.last_seen, start + DEADMAN_TIMEOUT + 1);
    assert_eq!(s.phase, Phase::Running);
}

#[test]
fn heartbeat_schedule_and_failure() {
    let mut s = SupervisorState::new(0);
    assert!(!s.heartbeat_due(HEARTBEAT_INTERVAL, HEARTBEAT_INTERVAL));
    assert!(s.heartbeat_due(HEARTBEAT_INTERVAL + 1, HEARTBEAT_INTERVAL));
    // A successful send re-arms the schedule.
    let v = s.supervisor_step(HEARTBEAT_INTERVAL + 1, false, true, false, HEARTBEAT_INTERVAL,
        DEADMAN_TIMEOUT);
    assert_eq!(v, StepVerdict::Continue);
    assert_eq!(s.last_heartbeat, HEARTBEAT_INTERVAL + 1);
    // A failed send is a shutdown trigger.
    let mut t = SupervisorState::new(0);
    let v = t.supervisor_step(HEARTBEAT_INTERVAL + 1, false, false, false, HEARTBEAT_INTERVAL,
        DEADMAN_TIMEOUT);
    assert_eq!(v, StepVerdict::CleanExit);
    assert_eq!(t.phase, Phase::ShuttingDown);
}

#[test]
fn worker_termination_exits_hard_with_status_two() {
    // Whatever else happened this tick, a finished worker means losing the
    // device link: exit status 2.
    let mut s = SupervisorState::new(0);
    let v = s.supervisor_step(1, true, true, true, HEARTBEAT_INTERVAL, DEADMAN_TIMEOUT);
    assert_eq!(v, StepVerdict::HardExit(2));
}

#[test]
fn heartbeat_envelope_shape() {
    match make_heartbeat() {
        IPCMessage::ToRadio(t) => {
            assert_eq!(t.payload_variant, Some(ToRadioVariant::Heartbeat));
        }
        IPCMessage::FromRadio(_) => panic!("heartbeat must be an outbound envelope"),
    }
}

#[test]
fn worker_routes_outbound_and_ignores_stray_inbound() {
    let out = IPCMessage::ToRadio(ToRadioMsg { payload_variant: Some(ToRadioVariant::Heartbeat) });
    match route_outbound(out) {
        WorkerAction::WriteToRadio(t) => {
            assert_eq!(t.payload_variant, Some(ToRadioVariant::Heartbeat))
        }
        WorkerAction::Ignore => panic!("outbound envelope must reach the radio"),
    }
    let stray = IPCMessage::FromRadio(FromRadioMsg { payload_variant: None });
    assert_eq!(route_outbound(stray), WorkerAction::Ignore);
}

#[test]
fn ipc_queue_is_fifo_and_bounded() {
    let mut q = IpcQueue::with_capacity(2);
    assert_eq!(q.len(), 0);
    assert!(q.try_recv().is_none());
    assert!(q.try_send(make_heartbeat()).is_ok());
    assert!(q
        .try_send(IPCMessage::FromRadio(FromRadioMsg { payload_variant: None }))
        .is_ok());
    // Full: the message comes back instead of being dropped.
    match q.try_send(make_heartbeat()) {
        Err(IPCMessage::ToRadio(_)) => {}
        _ => panic!("a full queue must refuse the message"),
    }
    // Delivery in send order.
    match q.try_recv() {
        Some(IPCMessage::ToRadio(_)) => {}
        _ => panic!("first out must be the first sent"),
    }
    match q.try_recv() {
        Some(IPCMessage::FromRadio(_)) => {}
        _ => panic!("second out must be the second sent"),
    }
    assert!(q.try_recv().is_none());

    let standard = IpcQueue::new();
    assert_eq!(standard.len(), 0);
    assert!(MPSC_BUFFER_SIZE == 128);
}

#[test]
fn registry_overwrites_gauges_and_accumulates_counters() {
    let mut reg = MetricRegistry::new();
    let labels = vec![("device_id".to_string(), "!1".to_string())];
    reg.set_gauge(MetricName::Battery, labels.clone(), MetricValue::Unsigned(10));
    reg.set_gauge(MetricName::Battery, labels.clone(), MetricValue::Unsigned(20));
    assert_eq!(reg.sample(MetricName::Battery, &labels), Some(MetricValue::Unsigned(20)));
    reg.increment_counter(MetricName::RxMsgCount, labels.clone(), 1);
    reg.increment_counter(MetricName::RxMsgCount, labels.clone(), 1);
    reg.increment_counter(MetricName::RxMsgCount, labels.clone(), 3);
    assert_eq!(reg.counter_value(MetricName::RxMsgCount, &labels), 5);
    // Distinct label sets are independent series.
    let other = vec![("device_id".to_string(), "!2".to_string())];
    assert_eq!(reg.sample(MetricName::Battery, &other), None);
    assert_eq!(reg.counter_value(MetricName::RxMsgCount, &other), 0);
}

#[test]
fn metric_declarations_cover_the_set() {
    let descs = register_metrics();
    assert_eq!(descs.len(), 30);
    assert_eq!(descs[0].name, MetricName::DeviceInfo);
    assert_eq!(descs[0].kind, MetricKind::Gauge);
    let counters: Vec<_> = descs.iter().filter(|d| d.kind == MetricKind::Counter).collect();
    assert_eq!(counters.len(), 1);
    assert_eq!(counters[0].name, MetricName::RxMsgCount);
    assert_eq!(metric_name(MetricName::Battery), "meshtastic_battery");
    assert_eq!(metric_name(MetricName::RxMsgCount), "meshtastic_received_message_count");
    assert_eq!(metric_name(MetricName::PosSatsInView), "meshtastic_satellites_in_view");
    for d in &descs {
        assert!(!metric_name(d.name).is_empty());
        assert!(!metric_help(d.name).is_empty());
    }
}

#[test]
fn config_defaults_and_connection() {
    let cfg = AppConfig::default();
    assert_eq!(cfg.metrics_port, 9941);
    assert_eq!(cfg.meshtastic_addr.host, "127.0.0.1");
    assert_eq!(cfg.meshtastic_addr.port, 4403);
    assert_eq!(cfg.namespace, "meshtastic");
    let conn = Connection::from_config(&cfg);
    assert!(conn.is_configured());
    match conn {
        Connection::TCP(host, port) => {
            assert_eq!(host, "127.0.0.1");
            assert_eq!(port, 4403);
        }
        _ => panic!("the configured device address selects TCP"),
    }
    assert!(!Connection::default().is_configured());
    assert_eq!(DeviceIdentity::new().node_id, 0);
}

#[test]
fn clock_reads_a_plausible_time() {
    let now = get_secs();
    // After 2020, as any live system clock will be.
    assert!(now > 1_577_836_800);
}
