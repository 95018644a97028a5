//! The metric set: every metric the bridge exposes, its kind and help text,
//! the updates the dispatcher emits, and a registry holding the latest value
//! of every series.

use vstd::prelude::*;
use crate::frames::F32Bits;

verus! {

/// Every metric the bridge exposes.
#[derive(Clone, Copy, Debug, PartialEq, Eq, Structural)]
pub enum MetricName {
    DeviceInfo,
    HopsAway,
    Temperature,
    Humidity,
    BarometricPressure,
    Voltage,
    Current,
    Battery,
    Snr,
    Rssi,
    RxMsgCount,
    LastHeardSecs,
    ChanUtil,
    AirUtil,
    Uptime,
    PosSatsInView,
    Iaq,
    GasResistance,
    Pm10Standard,
    Pm25Standard,
    Pm100Standard,
    Pm10Environmental,
    Pm25Environmental,
    Pm100Environmental,
    Particles03um,
    Particles05um,
    Particles10um,
    Particles25um,
    Particles50um,
    Particles100um,
}

/// Whether a metric is a gauge (set to the latest value) or a counter
/// (monotonically incremented).
#[derive(Clone, Copy, Debug, PartialEq, Eq, Structural)]
pub enum MetricKind {
    Gauge,
    Counter,
}

/// A metric sample value: either an unsigned integer reading or the bit
/// pattern of a single-precision float reading.
#[derive(Clone, Copy, Debug, PartialEq, Eq, Structural)]
pub enum MetricValue {
    Unsigned(u64),
    Float32(F32Bits),
}

/// The declaration of one metric: its name and kind.  The exposition name
/// and help text are functions of the name, [`metric_name`] and
/// [`metric_help`].
#[derive(Clone, Copy, Debug, PartialEq, Eq, Structural)]
pub struct MetricDesc {
    pub name: MetricName,
    pub kind: MetricKind,
}

/// Spec-level image of an ordered label list.
pub open spec fn labels_view(l: Seq<(String, String)>) -> Seq<(Seq<char>, Seq<char>)> {
    l.map_values(|p: (String, String)| (p.0@, p.1@))
}

/// Spec-level image of one metric update.
pub ghost enum UpdateV {
    SetGauge { name: MetricName, labels: Seq<(Seq<char>, Seq<char>)>, value: MetricValue },
    IncCounter { name: MetricName, labels: Seq<(Seq<char>, Seq<char>)>, delta: u64 },
}

/// One update the dispatcher asks the registry (and the exposition endpoint)
/// to perform.
#[derive(Clone, Debug)]
pub enum MetricUpdate {
    SetGauge { name: MetricName, labels: Vec<(String, String)>, value: MetricValue },
    IncCounter { name: MetricName, labels: Vec<(String, String)>, delta: u64 },
}

impl View for MetricUpdate {
    type V = UpdateV;

    open spec fn view(&self) -> UpdateV {
        match self {
            MetricUpdate::SetGauge { name, labels, value } => UpdateV::SetGauge {
                name: *name,
                labels: labels_view(labels@),
                value: *value,
            },
            MetricUpdate::IncCounter { name, labels, delta } => UpdateV::IncCounter {
                name: *name,
                labels: labels_view(labels@),
                delta: *delta,
            },
        }
    }
}

/// Spec-level image of a list of updates.
pub open spec fn updates_view(us: Seq<MetricUpdate>) -> Seq<UpdateV> {
    us.map_values(|u: MetricUpdate| u@)
}

/// The declaration order of the metric set.
pub open spec fn all_metric_names() -> Seq<MetricName> {
    seq![
        MetricName::DeviceInfo,
        MetricName::HopsAway,
        MetricName::Temperature,
        MetricName::Humidity,
        MetricName::BarometricPressure,
        MetricName::Voltage,
        MetricName::Current,
        MetricName::Battery,
        MetricName::Snr,
        MetricName::Rssi,
        MetricName::RxMsgCount,
        MetricName::LastHeardSecs,
        MetricName::ChanUtil,
        MetricName::AirUtil,
        MetricName::Uptime,
        MetricName::PosSatsInView,
        MetricName::Iaq,
        MetricName::GasResistance,
        MetricName::Pm10Standard,
        MetricName::Pm25Standard,
        MetricName::Pm100Standard,
        MetricName::Pm10Environmental,
        MetricName::Pm25Environmental,
        MetricName::Pm100Environmental,
        MetricName::Particles03um,
        MetricName::Particles05um,
        MetricName::Particles10um,
        MetricName::Particles25um,
        MetricName::Particles50um,
        MetricName::Particles100um,
    ]
}

/// The kind of each metric: one counter, everything else a gauge.
pub open spec fn metric_kind(n: MetricName) -> MetricKind {
    if n is RxMsgCount {
        MetricKind::Counter
    } else {
        MetricKind::Gauge
    }
}

/// The exposition name of each metric.
pub open spec fn metric_name_seq(n: MetricName) -> Seq<char> {
    match n {
        MetricName::DeviceInfo => "meshtastic_device_info"@,
        MetricName::HopsAway => "meshtastic_hops_away"@,
        MetricName::Temperature => "meshtastic_temperature"@,
        MetricName::Humidity => "meshtastic_humidity"@,
        MetricName::BarometricPressure => "meshtastic_barometric_pressure"@,
        MetricName::Voltage => "meshtastic_voltage"@,
        MetricName::Current => "meshtastic_current"@,
        MetricName::Battery => "meshtastic_battery"@,
        MetricName::Snr => "meshtastic_snr"@,
        MetricName::Rssi => "meshtastic_rssi"@,
        MetricName::RxMsgCount => "meshtastic_received_message_count"@,
        MetricName::LastHeardSecs => "meshtastic_last_heard_seconds"@,
        MetricName::ChanUtil => "meshtastic_channel_utilization"@,
        MetricName::AirUtil => "meshtastic_air_utilization"@,
        MetricName::Uptime => "meshtastic_device_uptime_seconds"@,
        MetricName::PosSatsInView => "meshtastic_satellites_in_view"@,
        MetricName::Iaq => "meshtastic_indoor_air_quality"@,
        MetricName::GasResistance => "meshtastic_gas_resistance"@,
        MetricName::Pm10Standard => "meshtastic_air_pm10_standard"@,
        MetricName::Pm25Standard => "meshtastic_air_pm25_standard"@,
        MetricName::Pm100Standard => "meshtastic_air_pm100_standard"@,
        MetricName::Pm10Environmental => "meshtastic_air_pm10_environmental"@,
        MetricName::Pm25Environmental => "meshtastic_air_pm25_environmental"@,
        MetricName::Pm100Environmental => "meshtastic_air_pm100_environmental"@,
        MetricName::Particles03um => "meshtastic_air_particles_03um"@,
        MetricName::Particles05um => "meshtastic_air_particles_05um"@,
        MetricName::Particles10um => "meshtastic_air_particles_10um"@,
        MetricName::Particles25um => "meshtastic_air_particles_25um"@,
        MetricName::Particles50um => "meshtastic_air_particles_50um"@,
        MetricName::Particles100um => "meshtastic_air_particles_100um"@,
    }
}

/// Renders the exposition name of a metric.
pub fn metric_name(n: MetricName) -> (r: &'static str)
    ensures
        r@ == metric_name_seq(n),
{
    match n {
        MetricName::DeviceInfo => "meshtastic_device_info",
        MetricName::HopsAway => "meshtastic_hops_away",
        MetricName::Temperature => "meshtastic_temperature",
        MetricName::Humidity => "meshtastic_humidity",
        MetricName::BarometricPressure => "meshtastic_barometric_pressure",
        MetricName::Voltage => "meshtastic_voltage",
        MetricName::Current => "meshtastic_current",
        MetricName::Battery => "meshtastic_battery",
        MetricName::Snr => "meshtastic_snr",
        MetricName::Rssi => "meshtastic_rssi",
        MetricName::RxMsgCount => "meshtastic_received_message_count",
        MetricName::LastHeardSecs => "meshtastic_last_heard_seconds",
        MetricName::ChanUtil => "meshtastic_channel_utilization",
        MetricName::AirUtil => "meshtastic_air_utilization",
        MetricName::Uptime => "meshtastic_device_uptime_seconds",
        MetricName::PosSatsInView => "meshtastic_satellites_in_view",
        MetricName::Iaq => "meshtastic_indoor_air_quality",
        MetricName::GasResistance => "meshtastic_gas_resistance",
        MetricName::Pm10Standard => "meshtastic_air_pm10_standard",
        MetricName::Pm25Standard => "meshtastic_air_pm25_standard",
        MetricName::Pm100Standard => "meshtastic_air_pm100_standard",
        MetricName::Pm10Environmental => "meshtastic_air_pm10_environmental",
        MetricName::Pm25Environmental => "meshtastic_air_pm25_environmental",
        MetricName::Pm100Environmental => "meshtastic_air_pm100_environmental",
        MetricName::Particles03um => "meshtastic_air_particles_03um",
        MetricName::Particles05um => "meshtastic_air_particles_05um",
        MetricName::Particles10um => "meshtastic_air_particles_10um",
        MetricName::Particles25um => "meshtastic_air_particles_25um",
        MetricName::Particles50um => "meshtastic_air_particles_50um",
        MetricName::Particles100um => "meshtastic_air_particles_100um",
    }
}

/// The help text of each metric.
pub open spec fn metric_help_seq(n: MetricName) -> Seq<char> {
    match n {
        MetricName::DeviceInfo => "information about device"@,
        MetricName::HopsAway => "The reported number of hops away the client is."@,
        MetricName::Temperature => "The reported temperature from telemetry module"@,
        MetricName::Humidity => "The relative humidity from telemetry module"@,
        MetricName::BarometricPressure => "the barometric pressure reported from telemetry module"@,
        MetricName::Voltage => "The reported device voltage"@,
        MetricName::Current => "The reported device current"@,
        MetricName::Battery => "The reported device battery remaining"@,
        MetricName::Snr => "Signal to noise ratio for node"@,
        MetricName::Rssi => "RSSI for node"@,
        MetricName::RxMsgCount => "The number of messages received from the node"@,
        MetricName::LastHeardSecs => "The number of seconds last heard"@,
        MetricName::ChanUtil => "The channel's utilization"@,
        MetricName::AirUtil => "The amount of total utilization"@,
        MetricName::Uptime => "The total seconds the device has been energized."@,
        MetricName::PosSatsInView => "The number of satellites in view for this node."@,
        MetricName::Iaq => "relative scale of VOC content measured from 0-500"@,
        MetricName::GasResistance => "Gas resistance in MOhms"@,
        _ => "not sure how to describe this"@,
    }
}

/// Renders the help text of a metric.
pub fn metric_help(n: MetricName) -> (r: &'static str)
    ensures
        r@ == metric_help_seq(n),
{
    match n {
        MetricName::DeviceInfo => "information about device",
        MetricName::HopsAway => "The reported number of hops away the client is.",
        MetricName::Temperature => "The reported temperature from telemetry module",
        MetricName::Humidity => "The relative humidity from telemetry module",
        MetricName::BarometricPressure => "the barometric pressure reported from telemetry module",
        MetricName::Voltage => "The reported device voltage",
        MetricName::Current => "The reported device current",
        MetricName::Battery => "The reported device battery remaining",
        MetricName::Snr => "Signal to noise ratio for node",
        MetricName::Rssi => "RSSI for node",
        MetricName::RxMsgCount => "The number of messages received from the node",
        MetricName::LastHeardSecs => "The number of seconds last heard",
        MetricName::ChanUtil => "The channel's utilization",
        MetricName::AirUtil => "The amount of total utilization",
        MetricName::Uptime => "The total seconds the device has been energized.",
        MetricName::PosSatsInView => "The number of satellites in view for this node.",
        MetricName::Iaq => "relative scale of VOC content measured from 0-500",
        MetricName::GasResistance => "Gas resistance in MOhms",
        _ => "not sure how to describe this",
    }
}

/// Exec counterpart of [`metric_kind`].
pub fn metric_kind_of(n: MetricName) -> (k: MetricKind)
    ensures
        k == metric_kind(n),
{
    match n {
        MetricName::RxMsgCount => MetricKind::Counter,
        _ => MetricKind::Gauge,
    }
}

/// Declares the whole metric set, in declaration order: one entry per metric,
/// with its kind.  Registration happens once at startup, before any frame is
/// processed.
pub fn register_metrics() -> (r: Vec<MetricDesc>)
    ensures
        r@.map_values(|d: MetricDesc| d.name) =~= all_metric_names(),
        forall|i: int| 0 <= i < r@.len() ==> (#[trigger] r@[i]).kind == metric_kind(r@[i].name),
{
    let mut r: Vec<MetricDesc> = Vec::new();
    let names: [MetricName; 30] = [
        MetricName::DeviceInfo,
        MetricName::HopsAway,
        MetricName::Temperature,
        MetricName::Humidity,
        MetricName::BarometricPressure,
        MetricName::Voltage,
        MetricName::Current,
        MetricName::Battery,
        MetricName::Snr,
        MetricName::Rssi,
        MetricName::RxMsgCount,
        MetricName::LastHeardSecs,
        MetricName::ChanUtil,
        MetricName::AirUtil,
        MetricName::Uptime,
        MetricName::PosSatsInView,
        MetricName::Iaq,
        MetricName::GasResistance,
        MetricName::Pm10Standard,
        MetricName::Pm25Standard,
        MetricName::Pm100Standard,
        MetricName::Pm10Environmental,
        MetricName::Pm25Environmental,
        MetricName::Pm100Environmental,
        MetricName::Particles03um,
        MetricName::Particles05um,
        MetricName::Particles10um,
        MetricName::Particles25um,
        MetricName::Particles50um,
        MetricName::Particles100um,
    ];
    let mut i: usize = 0;
    while i < 30
        invariant
            i <= 30,
            names@ =~= all_metric_names(),
            r@.len() == i,
            forall|j: int| 0 <= j < i ==> (#[trigger] r@[j]).name == all_metric_names()[j],
            forall|j: int| 0 <= j < i ==> (#[trigger] r@[j]).kind == metric_kind(r@[j].name),
        decreases 30 - i,
    {
        let n = names[i];
        r.push(MetricDesc { name: n, kind: metric_kind_of(n) });
        i = i + 1;
    }
    proof {
        assert(r@.map_values(|d: MetricDesc| d.name) =~= all_metric_names());
    }
    r
}

// ---------------------------------------------------------------------------
// The registry: the latest value of every series.
// ---------------------------------------------------------------------------

/// A series key: a metric name together with the image of its label set.
pub type SeriesKey = (MetricName, Seq<(Seq<char>, Seq<char>)>);

/// One stored series: a name, its ordered labels, and the latest value.
pub struct MetricSeries {
    pub name: MetricName,
    pub labels: Vec<(String, String)>,
    pub value: MetricValue,
}

/// The key of a stored series.
pub open spec fn series_key(s: MetricSeries) -> SeriesKey {
    (s.name, labels_view(s.labels@))
}

/// The map a list of stored series denotes.
pub open spec fn series_map(s: Seq<MetricSeries>) -> Map<SeriesKey, MetricValue>
    decreases s.len(),
{
    if s.len() == 0 {
        Map::empty()
    } else {
        series_map(s.drop_last()).insert(series_key(s.last()), s.last().value)
    }
}

/// Addition on a counter value, wrapping at the 64-bit boundary as the
/// underlying atomic counter does.  A value that is not an unsigned count is
/// left alone.
pub open spec fn wrap_add_u64(a: u64, b: u64) -> u64 {
    if a + b <= u64::MAX {
        (a + b) as u64
    } else {
        (a + b - 0x1_0000_0000_0000_0000) as u64
    }
}

/// See [`wrap_add_u64`].
pub open spec fn counter_add(v: MetricValue, delta: u64) -> MetricValue {
    match v {
        MetricValue::Unsigned(u) => MetricValue::Unsigned(wrap_add_u64(u, delta)),
        MetricValue::Float32(b) => MetricValue::Float32(b),
    }
}

/// The map after a counter increment: an absent series starts at the delta.
pub open spec fn apply_inc(m: Map<SeriesKey, MetricValue>, k: SeriesKey, delta: u64) -> Map<
    SeriesKey,
    MetricValue,
> {
    if m.contains_key(k) {
        m.insert(k, counter_add(m[k], delta))
    } else {
        m.insert(k, MetricValue::Unsigned(delta))
    }
}

/// The map after one update.
pub open spec fn apply_update_spec(m: Map<SeriesKey, MetricValue>, u: UpdateV) -> Map<
    SeriesKey,
    MetricValue,
> {
    match u {
        UpdateV::SetGauge { name, labels, value } => m.insert((name, labels), value),
        UpdateV::IncCounter { name, labels, delta } => apply_inc(m, (name, labels), delta),
    }
}

/// The map after a list of updates, applied in order.
pub open spec fn apply_updates_spec(m: Map<SeriesKey, MetricValue>, us: Seq<UpdateV>) -> Map<
    SeriesKey,
    MetricValue,
>
    decreases us.len(),
{
    if us.len() == 0 {
        m
    } else {
        apply_updates_spec(apply_update_spec(m, us[0]), us.drop_first())
    }
}

/// The value of a counter series, zero while the series does not exist.
pub open spec fn spec_counter_value(m: Map<SeriesKey, MetricValue>, k: SeriesKey) -> u64 {
    if m.contains_key(k) {
        match m[k] {
            MetricValue::Unsigned(u) => u,
            _ => 0,
        }
    } else {
        0
    }
}

/// The metric name an update addresses.
pub open spec fn update_name(u: UpdateV) -> MetricName {
    match u {
        UpdateV::SetGauge { name, .. } => name,
        UpdateV::IncCounter { name, .. } => name,
    }
}

/// The label set an update addresses.
pub open spec fn update_labels(u: UpdateV) -> Seq<(Seq<char>, Seq<char>)> {
    match u {
        UpdateV::SetGauge { labels, .. } => labels,
        UpdateV::IncCounter { labels, .. } => labels,
    }
}

/// Whether some update in the list addresses exactly this label set.
pub open spec fn has_series_labels(us: Seq<UpdateV>, labels: Seq<(Seq<char>, Seq<char>)>) -> bool {
    exists|i: int| 0 <= i < us.len() && update_labels(#[trigger] us[i]) == labels
}

/// Updates that are all gauge sets, none under the name `n`.
pub open spec fn all_gauge_sets_excluding(us: Seq<UpdateV>, n: MetricName) -> bool {
    forall|i: int|
        0 <= i < us.len() ==> (#[trigger] us[i]) is SetGauge && update_name(us[i]) != n
}

/// How many counter increments a list of updates contains.
pub open spec fn count_incs(us: Seq<UpdateV>) -> nat
    decreases us.len(),
{
    if us.len() == 0 {
        0
    } else {
        count_incs(us.drop_last()) + (if us.last() is IncCounter {
            1nat
        } else {
            0nat
        })
    }
}

/// Applying a concatenation applies the two halves in order.
pub proof fn lemma_apply_updates_concat(m: Map<SeriesKey, MetricValue>, s: Seq<UpdateV>,
    t: Seq<UpdateV>)
    ensures
        apply_updates_spec(m, s + t) == apply_updates_spec(apply_updates_spec(m, s), t),
    decreases s.len(),
{
    if s.len() == 0 {
        assert(s + t =~= t);
    } else {
        assert((s + t)[0] == s[0]);
        assert((s + t).drop_first() =~= s.drop_first() + t);
        lemma_apply_updates_concat(apply_update_spec(m, s[0]), s.drop_first(), t);
    }
}

/// Gauge sets under other names leave a series untouched.
pub proof fn lemma_gauge_sets_preserve_key(m: Map<SeriesKey, MetricValue>, us: Seq<UpdateV>,
    k: SeriesKey)
    requires
        all_gauge_sets_excluding(us, k.0),
    ensures
        apply_updates_spec(m, us).contains_key(k) == m.contains_key(k),
        m.contains_key(k) ==> apply_updates_spec(m, us)[k] == m[k],
    decreases us.len(),
{
    if us.len() > 0 {
        assert(us[0] is SetGauge && update_name(us[0]) != k.0);
        let m1 = apply_update_spec(m, us[0]);
        assert(m1.contains_key(k) == m.contains_key(k) && (m.contains_key(k) ==> m1[k] == m[k]));
        assert(forall|i: int|
            0 <= i < us.drop_first().len() ==> (#[trigger] us.drop_first()[i]) is SetGauge
                && update_name(us.drop_first()[i]) != k.0);
        lemma_gauge_sets_preserve_key(m1, us.drop_first(), k);
    }
}

/// A list of gauge sets contains no counter increment.
pub proof fn lemma_count_incs_zero(us: Seq<UpdateV>, n: MetricName)
    requires
        all_gauge_sets_excluding(us, n),
    ensures
        count_incs(us) == 0,
    decreases us.len(),
{
    if us.len() > 0 {
        assert(us.last() is SetGauge);
        assert(forall|i: int|
            0 <= i < us.drop_last().len() ==> (#[trigger] us.drop_last()[i]) is SetGauge
                && update_name(us.drop_last()[i]) != n);
        lemma_count_incs_zero(us.drop_last(), n);
    }
}

/// Concatenation preserves being all gauge sets.
pub proof fn lemma_all_gauge_concat(a: Seq<UpdateV>, b: Seq<UpdateV>, n: MetricName)
    requires
        all_gauge_sets_excluding(a, n),
        all_gauge_sets_excluding(b, n),
    ensures
        all_gauge_sets_excluding(a + b, n),
{
    assert forall|i: int|
        0 <= i < (a + b).len() implies (#[trigger] (a + b)[i]) is SetGauge && update_name(
        (a + b)[i]) != n by {
        if i < a.len() {
            assert((a + b)[i] == a[i]);
        } else {
            assert((a + b)[i] == b[i - a.len()]);
        }
    }
}

proof fn lemma_series_map_get(s: Seq<MetricSeries>, i: int)
    requires
        0 <= i < s.len(),
        forall|p: int, q: int|
            0 <= p < q < s.len() ==> series_key(#[trigger] s[p]) != series_key(#[trigger] s[q]),
    ensures
        series_map(s).contains_key(series_key(s[i])),
        series_map(s)[series_key(s[i])] == s[i].value,
    decreases s.len(),
{
    if i == s.len() - 1 {
        assert(s.last() == s[i]);
    } else {
        assert(forall|p: int, q: int|
            0 <= p < q < s.drop_last().len() ==> series_key(#[trigger] s.drop_last()[p])
                != series_key(#[trigger] s.drop_last()[q]));
        lemma_series_map_get(s.drop_last(), i);
        assert(series_key(s[i]) != series_key(s.last()));
    }
}

proof fn lemma_series_map_absent(s: Seq<MetricSeries>, k: SeriesKey)
    requires
        forall|i: int| 0 <= i < s.len() ==> series_key(#[trigger] s[i]) != k,
    ensures
        !series_map(s).contains_key(k),
    decreases s.len(),
{
    if s.len() > 0 {
        assert(forall|i: int|
            0 <= i < s.drop_last().len() ==> series_key(#[trigger] s.drop_last()[i]) != k);
        lemma_series_map_absent(s.drop_last(), k);
        assert(series_key(s.last()) != k);
    }
}

proof fn lemma_series_map_update(s: Seq<MetricSeries>, i: int, e: MetricSeries)
    requires
        0 <= i < s.len(),
        series_key(e) == series_key(s[i]),
        forall|p: int, q: int|
            0 <= p < q < s.len() ==> series_key(#[trigger] s[p]) != series_key(#[trigger] s[q]),
    ensures
        series_map(s.update(i, e)) =~= series_map(s).insert(series_key(s[i]), e.value),
    decreases s.len(),
{
    let s2 = s.update(i, e);
    if i == s.len() - 1 {
        assert(s2.drop_last() =~= s.drop_last());
        assert(s2.last() == e);
    } else {
        assert(s2.drop_last() =~= s.drop_last().update(i, e));
        assert(forall|p: int, q: int|
            0 <= p < q < s.drop_last().len() ==> series_key(#[trigger] s.drop_last()[p])
                != series_key(#[trigger] s.drop_last()[q]));
        lemma_series_map_update(s.drop_last(), i, e);
        assert(s2.last() == s.last());
        assert(series_key(s[i]) != series_key(s.last()));
    }
}

fn labels_eq(a: &Vec<(String, String)>, b: &Vec<(String, String)>) -> (r: bool)
    ensures
        r == (labels_view(a@) == labels_view(b@)),
{
    if a.len() != b.len() {
        proof {
            assert(labels_view(a@).len() != labels_view(b@).len());
        }
        return false;
    }
    let n = a.len();
    let mut i: usize = 0;
    while i < n
        invariant
            n == a@.len(),
            a@.len() == b@.len(),
            i <= n,
            forall|j: int| 0 <= j < i ==> labels_view(a@)[j] == labels_view(b@)[j],
        decreases n - i,
    {
        let keys_equal: bool = a[i].0 == b[i].0;
        let vals_equal: bool = a[i].1 == b[i].1;
        if !keys_equal || !vals_equal {
            proof {
                assert(labels_view(a@)[i as int] != labels_view(b@)[i as int]);
            }
            return false;
        }
        i = i + 1;
    }
    proof {
        assert(labels_view(a@) =~= labels_view(b@));
    }
    true
}

fn wrapping_add_u64(a: u64, b: u64) -> (r: u64)
    ensures
        r == wrap_add_u64(a, b),
{
    if b <= u64::MAX - a {
        a + b
    } else {
        b - (u64::MAX - a) - 1
    }
}

/// The latest value of every series, keyed by name and label set.  Distinct
/// label combinations are independent series; there is no aggregation and no
/// eviction.
pub struct MetricRegistry {
    series: Vec<MetricSeries>,
}

impl View for MetricRegistry {
    type V = Map<SeriesKey, MetricValue>;

    closed spec fn view(&self) -> Map<SeriesKey, MetricValue> {
        series_map(self.series@)
    }
}

impl MetricRegistry {
    /// Every stored series has a distinct key.
    pub closed spec fn wf(&self) -> bool {
        forall|p: int, q: int|
            0 <= p < q < self.series@.len() ==> series_key(#[trigger] self.series@[p])
                != series_key(#[trigger] self.series@[q])
    }

    /// An empty registry.
    pub fn new() -> (r: Self)
        ensures
            r.wf(),
            r@ == Map::<SeriesKey, MetricValue>::empty(),
    {
        MetricRegistry { series: Vec::new() }
    }

    fn find(&self, name: MetricName, labels: &Vec<(String, String)>) -> (r: Option<usize>)
        ensures
            match r {
                Some(i) => i < self.series@.len() && series_key(self.series@[i as int]) == (
                    name,
                    labels_view(labels@),
                ),
                None => forall|i: int|
                    0 <= i < self.series@.len() ==> series_key(#[trigger] self.series@[i]) != (
                        name,
                        labels_view(labels@),
                    ),
            },
    {
        let n = self.series.len();
        let mut i: usize = 0;
        while i < n
            invariant
                n == self.series@.len(),
                i <= n,
                forall|j: int|
                    0 <= j < i ==> series_key(#[trigger] self.series@[j]) != (
                        name,
                        labels_view(labels@),
                    ),
            decreases n - i,
        {
            let same_name: bool = self.series[i].name == name;
            if same_name && labels_eq(&self.series[i].labels, labels) {
                return Some(i);
            }
            i = i + 1;
        }
        None
    }

    /// Sets a gauge series to a value, creating the series on first write.
    pub fn set_gauge(&mut self, name: MetricName, labels: Vec<(String, String)>,
        value: MetricValue)
        requires
            old(self).wf(),
        ensures
            final(self).wf(),
            final(self)@ == old(self)@.insert((name, labels_view(labels@)), value),
    {
        let ghost k: SeriesKey = (name, labels_view(labels@));
        match self.find(name, &labels) {
            Some(i) => {
                let ghost s0 = self.series@;
                let e = MetricSeries { name, labels, value };
                proof {
                    lemma_series_map_update(s0, i as int, e);
                }
                self.series[i] = e;
                proof {
                    assert(self@ =~= old(self)@.insert(k, value));
                    assert forall|p: int, q: int|
                        0 <= p < q < self.series@.len() implies series_key(
                        #[trigger] self.series@[p]) != series_key(#[trigger] self.series@[q]) by {
                        assert(series_key(self.series@[p]) == series_key(s0[p]));
                        assert(series_key(self.series@[q]) == series_key(s0[q]));
                    }
                }
            },
            None => {
                let ghost s0 = self.series@;
                self.series.push(MetricSeries { name, labels, value });
                proof {
                    assert(self.series@.drop_last() =~= s0);
                    assert(self@ =~= old(self)@.insert(k, value));
                }
            },
        }
    }

    /// Increments a counter series, creating it at the delta on first write.
    pub fn increment_counter(&mut self, name: MetricName, labels: Vec<(String, String)>,
        delta: u64)
        requires
            old(self).wf(),
        ensures
            final(self).wf(),
            final(self)@ == apply_inc(old(self)@, (name, labels_view(labels@)), delta),
    {
        let ghost k: SeriesKey = (name, labels_view(labels@));
        match self.find(name, &labels) {
            Some(i) => {
                let ghost s0 = self.series@;
                proof {
                    lemma_series_map_get(s0, i as int);
                }
                let new_value = match self.series[i].value {
                    MetricValue::Unsigned(u) => MetricValue::Unsigned(wrapping_add_u64(u, delta)),
                    MetricValue::Float32(b) => MetricValue::Float32(b),
                };
                let e = MetricSeries { name, labels, value: new_value };
                proof {
                    lemma_series_map_update(s0, i as int, e);
                }
                self.series[i] = e;
                proof {
                    assert(self@ =~= apply_inc(old(self)@, k, delta));
                    assert forall|p: int, q: int|
                        0 <= p < q < self.series@.len() implies series_key(
                        #[trigger] self.series@[p]) != series_key(#[trigger] self.series@[q]) by {
                        assert(series_key(self.series@[p]) == series_key(s0[p]));
                        assert(series_key(self.series@[q]) == series_key(s0[q]));
                    }
                }
            },
            None => {
                let ghost s0 = self.series@;
                proof {
                    lemma_series_map_absent(s0, k);
                }
                self.series.push(MetricSeries {
                    name,
                    labels,
                    value: MetricValue::Unsigned(delta),
                });
                proof {
                    assert(self.series@.drop_last() =~= s0);
                    assert(self@ =~= apply_inc(old(self)@, k, delta));
                }
            },
        }
    }

    /// Performs one update.
    pub fn apply(&mut self, u: MetricUpdate)
        requires
            old(self).wf(),
        ensures
            final(self).wf(),
            final(self)@ == apply_update_spec(old(self)@, u@),
    {
        match u {
            MetricUpdate::SetGauge { name, labels, value } => self.set_gauge(name, labels, value),
            MetricUpdate::IncCounter { name, labels, delta } => self.increment_counter(name,
                labels, delta),
        }
    }

    /// Performs a list of updates in order.
    pub fn apply_all(&mut self, us: Vec<MetricUpdate>)
        requires
            old(self).wf(),
        ensures
            final(self).wf(),
            final(self)@ == apply_updates_spec(old(self)@, updates_view(us@)),
        decreases us@.len(),
    {
        let ghost uv = updates_view(us@);
        let mut us = us;
        if us.len() == 0 {
            return;
        }
        let ghost us_before = us@;
        let u = us.remove(0);
        proof {
            assert(us@ =~= us_before.drop_first());
            assert(updates_view(us@) =~= uv.drop_first());
        }
        self.apply(u);
        self.apply_all(us);
    }

    /// The stored value of a gauge or counter series, if it exists.
    pub fn sample(&self, name: MetricName, labels: &Vec<(String, String)>) -> (r: Option<
        MetricValue,
    >)
        requires
            self.wf(),
        ensures
            r == (if self@.contains_key((name, labels_view(labels@))) {
                Some(self@[(name, labels_view(labels@))])
            } else {
                None::<MetricValue>
            }),
    {
        match self.find(name, labels) {
            Some(i) => {
                proof {
                    lemma_series_map_get(self.series@, i as int);
                }
                Some(self.series[i].value)
            },
            None => {
                proof {
                    lemma_series_map_absent(self.series@, (name, labels_view(labels@)));
                }
                None
            },
        }
    }

    /// The value of a counter series, zero while it does not exist.
    pub fn counter_value(&self, name: MetricName, labels: &Vec<(String, String)>) -> (r: u64)
        requires
            self.wf(),
        ensures
            r == spec_counter_value(self@, (name, labels_view(labels@))),
    {
        match self.sample(name, labels) {
            Some(MetricValue::Unsigned(u)) => u,
            _ => 0,
        }
    }
}

} // verus!
