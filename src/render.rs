//! Prometheus exposition text for the gateway's records.

use vstd::prelude::*;
use crate::status::Status;
use crate::wan::WANConfiguration;
use crate::devices::Device;
use crate::metrics::{Metrics, TrafficData};
use crate::json::str_eq;
use prometheus_exporter_base::{MetricType, PrometheusInstance, PrometheusMetric, RenderToPrometheus};

verus! {

/// One instance line of a metric family: its labels in order, its value and
/// its timestamp in milliseconds since the Unix epoch.
#[derive(Debug, Clone)]
pub struct Instance {
    pub labels: Vec<(String, String)>,
    pub value: u64,
    pub timestamp: u128,
}

/// The labels, value and timestamp of an [`Instance`].
pub type InstanceView = (Seq<(Seq<char>, Seq<char>)>, u64, u128);

impl View for Instance {
    type V = InstanceView;

    open spec fn view(&self) -> InstanceView {
        (self.labels@.map_values(|p: (String, String)| (p.0@, p.1@)), self.value, self.timestamp)
    }
}

pub open spec fn digit(d: nat) -> char {
    if d == 0 { '0' } else if d == 1 { '1' } else if d == 2 { '2' } else if d == 3 { '3' }
    else if d == 4 { '4' } else if d == 5 { '5' } else if d == 6 { '6' } else if d == 7 { '7' }
    else if d == 8 { '8' } else { '9' }
}

/// `n` in decimal, without leading zeros.
pub open spec fn decimal(n: nat) -> Seq<char>
    decreases n,
{
    if n < 10 {
        seq![digit(n)]
    } else {
        decimal(n / 10) + seq![digit(n % 10)]
    }
}

/// One label as `key="value"`.
pub open spec fn label_text(p: (Seq<char>, Seq<char>)) -> Seq<char> {
    p.0 + "=\""@ + p.1 + "\""@
}

/// Labels as `k1="v1",k2="v2"`.
pub open spec fn labels_text(l: Seq<(Seq<char>, Seq<char>)>) -> Seq<char>
    decreases l.len(),
{
    if l.len() == 0 {
        Seq::empty()
    } else if l.len() == 1 {
        label_text(l[0])
    } else {
        labels_text(l.drop_last()) + ","@ + label_text(l.last())
    }
}

/// One instance line of the family `name`: `name{labels} value timestamp`.
pub open spec fn instance_line(name: Seq<char>, i: InstanceView) -> Seq<char> {
    name + (if i.0.len() == 0 {
        " "@ + decimal(i.1 as nat)
    } else {
        "{"@ + labels_text(i.0) + "} "@ + decimal(i.1 as nat)
    }) + " "@ + decimal(i.2 as nat) + "\n"@
}

pub open spec fn instance_lines(name: Seq<char>, insts: Seq<InstanceView>) -> Seq<char>
    decreases insts.len(),
{
    if insts.len() == 0 {
        Seq::empty()
    } else {
        instance_lines(name, insts.drop_last()) + instance_line(name, insts.last())
    }
}

/// A gauge family: its `# HELP` and `# TYPE` lines, then one line for each
/// instance, in order.
pub open spec fn gauge_text(name: Seq<char>, help: Seq<char>, insts: Seq<InstanceView>) -> Seq<char> {
    "# HELP "@ + name + " "@ + help + "\n# TYPE "@ + name + " gauge\n"@ + instance_lines(name, insts)
}

/// Relies on `prometheus_exporter_base`: a `PrometheusMetric` built as a
/// gauge, with one `PrometheusInstance` per instance (`with_label` for each
/// label, `with_value`, `with_timestamp`) appended by
/// `render_and_append_instance`, then `render`.
#[verifier::external_body]
fn render_gauge(name: &str, help: &str, instances: &Vec<Instance>) -> (r: String)
    ensures
        r@ == gauge_text(name@, help@, instances@.map_values(|i: Instance| i@)),
{
    let mut metric = PrometheusMetric::build().with_name(name).with_metric_type(MetricType::Gauge)
        .with_help(help).build();
    for inst in instances.iter() {
        let mut p = PrometheusInstance::<u64, _>::new();
        for (k, v) in inst.labels.iter() {
            p = p.with_label(k.as_str(), v.as_str());
        }
        metric.render_and_append_instance(&p.with_value(inst.value).with_timestamp(inst.timestamp));
    }
    metric.render()
}

/// Relies on `std::time::SystemTime::now`, read as milliseconds since the
/// Unix epoch; `None` where the clock stands before the epoch.
#[verifier::external_body]
fn now_millis() -> (r: Option<u128>) {
    std::time::SystemTime::now().duration_since(std::time::UNIX_EPOCH).ok().map(|d| d.as_millis())
}

/// The time to stamp instance lines with; a clock set before the Unix epoch
/// stamps 0.
pub fn current_timestamp() -> (r: u128) {
    match now_millis() {
        Some(t) => t,
        None => 0,
    }
}

fn label(k: &str, v: &String) -> (r: (String, String))
    ensures
        r.0@ == k@,
        r.1@ == v@,
{
    (String::from_str(k), v.clone())
}

/// The labels of the general information family.
pub open spec fn info_labels(s: Status) -> Seq<(Seq<char>, Seq<char>)> {
    seq![
        ("hardware"@, "livebox"@),
        ("manufacturer"@, s.manufacturer@),
        ("manufacturer_oui"@, s.manufacturer_oui@),
        ("model_name"@, s.model_name@),
        ("product_class"@, s.product_class@),
        ("serial_number"@, s.serial_number@),
        ("hardware_version"@, s.hardware_version@),
        ("software_version"@, s.software_version@),
        ("country"@, s.country@),
        ("external_ip_address"@, s.external_ip_address@),
        ("base_mac"@, s.base_mac@),
    ]
}

/// The labels of a link status family.
pub open spec fn wan_labels(w: WANConfiguration, port: Seq<char>) -> Seq<(Seq<char>, Seq<char>)> {
    seq![
        ("port"@, port),
        ("link_type"@, w.link_type@),
        ("protocol"@, w.protocol@),
        ("mac_address"@, w.mac_address@),
        ("ip_address"@, w.ip_address@),
        ("remote_gateway"@, w.remote_gateway@),
        ("remote_gadns_serversteway"@, w.dns_servers@),
        ("ipv6_address"@, w.ipv6_address@),
    ]
}

/// 1 where the state of `port` is `up`: `wan_state` for the port `wan`,
/// `link_state` for any other.
pub open spec fn wan_value(w: WANConfiguration, port: Seq<char>) -> u64 {
    if port == "wan"@ {
        if w.wan_state@ == "up"@ { 1 } else { 0 }
    } else {
        if w.link_state@ == "up"@ { 1 } else { 0 }
    }
}

/// The labels of a device's status.
pub open spec fn device_labels(d: Device) -> Seq<(Seq<char>, Seq<char>)> {
    seq![
        ("device_name"@, d.name@),
        ("device_type"@, d.device_type@),
        ("discovery_source"@, d.discovery_source@),
        ("ip_address"@, match d.ip_address { Some(a) => a@, None => Seq::empty() }),
    ]
}

/// The general information family of `status`, with the value that
/// `value_fn` gives for it.
pub fn render_info_metric_at<F: FnOnce(&Status) -> u64>(
    status: &Status,
    name: &str,
    help: &str,
    value_fn: F,
    timestamp: u128,
) -> (r: String)
    requires
        value_fn.requires((status,)),
    ensures
        exists|v: u64| value_fn.ensures((status,), v)
            && r@ == gauge_text(name@, help@, seq![(info_labels(*status), v, timestamp)]),
{
    let s = status;
    let labels = vec![
        label("hardware", &String::from_str("livebox")),
        label("manufacturer", &s.manufacturer),
        label("manufacturer_oui", &s.manufacturer_oui),
        label("model_name", &s.model_name),
        label("product_class", &s.product_class),
        label("serial_number", &s.serial_number),
        label("hardware_version", &s.hardware_version),
        label("software_version", &s.software_version),
        label("country", &s.country),
        label("external_ip_address", &s.external_ip_address),
        label("base_mac", &s.base_mac),
    ];
    let v = value_fn(status);
    let inst = Instance { labels, value: v, timestamp };
    assert(inst@.0 =~= info_labels(*status));
    let insts = vec![inst];
    assert(insts@.map_values(|i: Instance| i@) =~= seq![(info_labels(*status), v, timestamp)]);
    render_gauge(name, help, &insts)
}

/// The general information family of `status`, stamped now.
pub fn render_livebox_info_metric<F: FnOnce(&Status) -> u64>(
    status: &Status,
    name: &str,
    help: &str,
    value_fn: F,
) -> (r: String)
    requires
        value_fn.requires((status,)),
    ensures
        exists|v: u64, t: u128| value_fn.ensures((status,), v)
            && r@ == gauge_text(name@, help@, seq![(info_labels(*status), v, t)]),
{
    render_info_metric_at(status, name, help, value_fn, current_timestamp())
}

/// The link status family of `wan_config` for `port`; its help text is
/// `Livebox <port> status`.
pub fn render_status_metric_at(wan_config: &WANConfiguration, name: &str, port: &str, timestamp: u128) -> (r: String)
    ensures
        r@ == gauge_text(
            name@,
            "Livebox "@ + port@ + " status"@,
            seq![(wan_labels(*wan_config, port@), wan_value(*wan_config, port@), timestamp)],
        ),
{
    let w = wan_config;
    let labels = vec![
        label("port", &String::from_str(port)),
        label("link_type", &w.link_type),
        label("protocol", &w.protocol),
        label("mac_address", &w.mac_address),
        label("ip_address", &w.ip_address),
        label("remote_gateway", &w.remote_gateway),
        label("remote_gadns_serversteway", &w.dns_servers),
        label("ipv6_address", &w.ipv6_address),
    ];
    let state = if str_eq(port, "wan") { &w.wan_state } else { &w.link_state };
    let v: u64 = if str_eq(state.as_str(), "up") { 1 } else { 0 };
    let inst = Instance { labels, value: v, timestamp };
    assert(inst@.0 =~= wan_labels(*wan_config, port@));
    let insts = vec![inst];
    assert(insts@.map_values(|i: Instance| i@) =~= seq![(wan_labels(*wan_config, port@), wan_value(*wan_config, port@), timestamp)]);
    let help = String::from_str("Livebox ").concat(port).concat(" status");
    render_gauge(name, help.as_str(), &insts)
}

/// The link status family of `wan_config` for `port`, stamped now.
pub fn render_livebox_status_metric(wan_config: &WANConfiguration, name: &str, port: &str) -> (r: String)
    ensures
        exists|t: u128| r@ == gauge_text(
            name@,
            "Livebox "@ + port@ + " status"@,
            seq![(wan_labels(*wan_config, port@), wan_value(*wan_config, port@), t)],
        ),
{
    render_status_metric_at(wan_config, name, port, current_timestamp())
}

/// The samples of one interface, each tagged with the interface's name.
pub open spec fn tag(e: (String, Seq<TrafficData>)) -> Seq<(Seq<char>, TrafficData)> {
    e.1.map_values(|t: TrafficData| (e.0@, t))
}

/// The samples of the interfaces `es`, in order.
pub open spec fn entry_samples(es: Seq<(String, Seq<TrafficData>)>) -> Seq<(Seq<char>, TrafficData)>
    decreases es.len(),
{
    if es.len() == 0 {
        Seq::empty()
    } else {
        entry_samples(es.drop_last()) + tag(es.last())
    }
}

/// Every (interface, sample) pair of the records `ms`, in order.
pub open spec fn samples(ms: Seq<Metrics>) -> Seq<(Seq<char>, TrafficData)>
    decreases ms.len(),
{
    if ms.len() == 0 {
        Seq::empty()
    } else {
        samples(ms.drop_last()) + entry_samples(ms.last()@)
    }
}

/// The labels of one traffic sample.
pub open spec fn traffic_labels(interface: Seq<char>, direction: Seq<char>) -> Seq<(Seq<char>, Seq<char>)> {
    seq![("interface_name"@, interface), ("direction"@, direction)]
}

/// The instances of the traffic family: one per sample of `s`, with the
/// values `vals`.
pub open spec fn traffic_insts(
    s: Seq<(Seq<char>, TrafficData)>,
    direction: Seq<char>,
    vals: Seq<u64>,
    t: u128,
) -> Seq<InstanceView> {
    Seq::new(s.len(), |i: int| (traffic_labels(s[i].0, direction), vals[i], t))
}

/// The instances of the device status family: one per device of `ds`, with
/// the values `vals`.
pub open spec fn device_insts(ds: Seq<Device>, vals: Seq<u64>, t: u128) -> Seq<InstanceView> {
    Seq::new(ds.len(), |i: int| (device_labels(ds[i]), vals[i], t))
}

/// `out` holds one instance for each sample of `s`, made by `value_fn`.
pub open spec fn traffic_built<F: Fn(&TrafficData) -> u64>(
    out: Seq<Instance>,
    s: Seq<(Seq<char>, TrafficData)>,
    direction: Seq<char>,
    value_fn: F,
    t: u128,
) -> bool {
    out.len() == s.len() && forall|k: int| 0 <= k < s.len() ==> {
        &&& (#[trigger] out[k])@.0 == traffic_labels(s[k].0, direction)
        &&& out[k].timestamp == t
        &&& value_fn.ensures((&s[k].1,), out[k].value)
    }
}

/// The traffic family of `metrics`: one instance for each sample of each
/// interface of each record, labelled with the interface's name and
/// `direction`, with the value that `value_fn` gives for the sample.
pub fn render_interface_metric_at<F: Fn(&TrafficData) -> u64>(
    metrics: &[Metrics],
    name: &str,
    help: &str,
    value_fn: F,
    direction: &str,
    timestamp: u128,
) -> (r: String)
    requires
        forall|t: TrafficData| value_fn.requires((&t,)),
    ensures
        exists|vals: Seq<u64>| {
            &&& vals.len() == samples(metrics@).len()
            &&& forall|k: int| 0 <= k < samples(metrics@).len()
                ==> value_fn.ensures((&samples(metrics@)[k].1,), #[trigger] vals[k])
            &&& r@ == gauge_text(name@, help@, #[trigger] traffic_insts(samples(metrics@), direction@, vals, timestamp))
        },
{
    let dir = String::from_str(direction);
    let mut out: Vec<Instance> = Vec::new();
    let mut i: usize = 0;
    while i < metrics.len()
        invariant
            i <= metrics@.len(),
            dir@ == direction@,
            forall|t: TrafficData| value_fn.requires((&t,)),
            traffic_built(out@, samples(metrics@.subrange(0, i as int)), direction@, value_fn, timestamp),
        decreases metrics@.len() - i,
    {
        let es = &metrics[i].status;
        let ghost base = samples(metrics@.subrange(0, i as int));
        let ghost m = metrics@[i as int]@;
        let mut j: usize = 0;
        while j < es.len()
            invariant
                i < metrics@.len(),
                es == &metrics@[i as int].status,
                m == metrics@[i as int]@,
                j <= es@.len(),
                dir@ == direction@,
                forall|t: TrafficData| value_fn.requires((&t,)),
                traffic_built(out@, base + entry_samples(m.subrange(0, j as int)), direction@, value_fn, timestamp),
            decreases es@.len() - j,
        {
            let iface = &es[j].0;
            let traffic = &es[j].1.traffic;
            let ghost pre = base + entry_samples(m.subrange(0, j as int));
            let mut k: usize = 0;
            while k < traffic.len()
                invariant
                    j < es@.len(),
                    iface == &es@[j as int].0,
                    traffic == &es@[j as int].1.traffic,
                    k <= traffic@.len(),
                    dir@ == direction@,
                    forall|t: TrafficData| value_fn.requires((&t,)),
                    traffic_built(
                        out@,
                        pre + traffic@.subrange(0, k as int).map_values(|t: TrafficData| (iface@, t)),
                        direction@,
                        value_fn,
                        timestamp,
                    ),
                decreases traffic@.len() - k,
            {
                let ghost before = pre + traffic@.subrange(0, k as int).map_values(|t: TrafficData| (iface@, t));
                let v = value_fn(&traffic[k]);
                let labels = vec![label("interface_name", iface), label("direction", &dir)];
                let inst = Instance { labels, value: v, timestamp };
                assert(inst@.0 =~= traffic_labels(iface@, direction@));
                out.push(inst);
                assert(pre + traffic@.subrange(0, k + 1).map_values(|t: TrafficData| (iface@, t))
                    =~= before.push((iface@, traffic@[k as int])));
                k = k + 1;
            }
            assert(m.subrange(0, j + 1).drop_last() =~= m.subrange(0, j as int));
            assert(m[j as int] == (es@[j as int].0, es@[j as int].1@));
            assert(traffic@.subrange(0, traffic@.len() as int) =~= traffic@);
            assert(pre + traffic@.subrange(0, traffic@.len() as int).map_values(|t: TrafficData| (iface@, t))
                =~= base + entry_samples(m.subrange(0, j + 1)));
            j = j + 1;
        }
        assert(m.subrange(0, es@.len() as int) =~= m);
        assert(metrics@.subrange(0, i + 1).drop_last() =~= metrics@.subrange(0, i as int));
        i = i + 1;
    }
    assert(metrics@.subrange(0, metrics@.len() as int) =~= metrics@);
    let ghost s = samples(metrics@);
    let ghost vals = out@.map_values(|x: Instance| x.value);
    assert(out@.map_values(|x: Instance| x@) =~= traffic_insts(s, direction@, vals, timestamp));
    assert(forall|k: int| 0 <= k < s.len() ==> value_fn.ensures((&s[k].1,), #[trigger] vals[k]));
    render_gauge(name, help, &out)
}

/// The traffic family of `metrics`, stamped now.
pub fn render_livebox_interface_metric<F: Fn(&TrafficData) -> u64>(
    metrics: &[Metrics],
    name: &str,
    help: &str,
    value_fn: F,
    direction: &str,
) -> (r: String)
    requires
        forall|t: TrafficData| value_fn.requires((&t,)),
    ensures
        exists|vals: Seq<u64>, t: u128| {
            &&& vals.len() == samples(metrics@).len()
            &&& forall|k: int| 0 <= k < samples(metrics@).len()
                ==> value_fn.ensures((&samples(metrics@)[k].1,), #[trigger] vals[k])
            &&& r@ == gauge_text(name@, help@, #[trigger] traffic_insts(samples(metrics@), direction@, vals, t))
        },
{
    render_interface_metric_at(metrics, name, help, value_fn, direction, current_timestamp())
}

/// The device status family of `devices`: one instance per device, in order,
/// with the value that `value_fn` gives for it; a device without an address
/// has the empty text as `ip_address`.
pub fn render_devices_metric_at<F: Fn(&Device) -> u64>(
    devices: &[Device],
    name: &str,
    help: &str,
    value_fn: F,
    timestamp: u128,
) -> (r: String)
    requires
        forall|d: Device| value_fn.requires((&d,)),
    ensures
        exists|vals: Seq<u64>| {
            &&& vals.len() == devices@.len()
            &&& forall|k: int| 0 <= k < devices@.len() ==> value_fn.ensures((&devices@[k],), #[trigger] vals[k])
            &&& r@ == gauge_text(name@, help@, #[trigger] device_insts(devices@, vals, timestamp))
        },
{
    let mut out: Vec<Instance> = Vec::new();
    let mut i: usize = 0;
    while i < devices.len()
        invariant
            i <= devices@.len(),
            forall|d: Device| value_fn.requires((&d,)),
            out@.len() == i,
            forall|k: int| 0 <= k < i ==> {
                &&& (#[trigger] out@[k])@.0 == device_labels(devices@[k])
                &&& out@[k].timestamp == timestamp
                &&& value_fn.ensures((&devices@[k],), out@[k].value)
            },
        decreases devices@.len() - i,
    {
        let d = &devices[i];
        let ip = match &d.ip_address {
            Some(a) => a.clone(),
            None => String::new(),
        };
        let labels = vec![
            label("device_name", &d.name),
            label("device_type", &d.device_type),
            label("discovery_source", &d.discovery_source),
            label("ip_address", &ip),
        ];
        let v = value_fn(d);
        let inst = Instance { labels, value: v, timestamp };
        assert(inst@.0 =~= device_labels(devices@[i as int]));
        out.push(inst);
        i = i + 1;
    }
    let ghost vals = out@.map_values(|x: Instance| x.value);
    assert(out@.map_values(|x: Instance| x@) =~= device_insts(devices@, vals, timestamp));
    render_gauge(name, help, &out)
}

/// The device status family of `devices`, stamped now.
pub fn render_livebox_devices_metric<F: Fn(&Device) -> u64>(
    devices: &[Device],
    name: &str,
    help: &str,
    value_fn: F,
) -> (r: String)
    requires
        forall|d: Device| value_fn.requires((&d,)),
    ensures
        exists|vals: Seq<u64>, t: u128| {
            &&& vals.len() == devices@.len()
            &&& forall|k: int| 0 <= k < devices@.len() ==> value_fn.ensures((&devices@[k],), #[trigger] vals[k])
            &&& r@ == gauge_text(name@, help@, #[trigger] device_insts(devices@, vals, t))
        },
{
    render_devices_metric_at(devices, name, help, value_fn, current_timestamp())
}

/// 1 where the gateway reports itself `Up`, else 0.
pub open spec fn up_value(s: Status) -> u64 {
    if s.device_status@ == "Up"@ { 1 } else { 0 }
}

/// 1 for an active device, else 0.
pub open spec fn active_value(d: Device) -> u64 {
    if d.active { 1 } else { 0 }
}

/// The value of the general status family: 1 where the gateway reports
/// itself `Up`, else 0.
pub fn status_up_value(s: &Status) -> (r: u64)
    ensures
        r == up_value(*s),
{
    if str_eq(s.device_status.as_str(), "Up") { 1 } else { 0 }
}

/// The value of a device's status: 1 where it is active, else 0.
pub fn device_active_value(d: &Device) -> (r: u64)
    ensures
        r == active_value(*d),
{
    if d.active { 1 } else { 0 }
}

/// The whole exposition of one poll, stamped `t`: the gateway's status,
/// uptime and reboot count, the `wan` and `link` port states, the received
/// and sent bytes of every interface sample, and the status of every device.
pub open spec fn exposition_text(
    s: Status,
    w: WANConfiguration,
    ms: Seq<Metrics>,
    ds: Seq<Device>,
    t: u128,
) -> Seq<char> {
    gauge_text("livebox_infos_status"@, "Livebox general status"@, seq![(info_labels(s), up_value(s), t)])
        + gauge_text("livebox_infos_uptime"@, "Livebox uptime"@, seq![(info_labels(s), s.up_time as u64, t)])
        + gauge_text("livebox_infos_reboot"@, "Livebox count of reboots"@, seq![(info_labels(s), s.number_of_reboots as u64, t)])
        + gauge_text("livebox_wan_status"@, "Livebox "@ + "wan"@ + " status"@, seq![(wan_labels(w, "wan"@), wan_value(w, "wan"@), t)])
        + gauge_text("livebox_link_status"@, "Livebox "@ + "link"@ + " status"@, seq![(wan_labels(w, "link"@), wan_value(w, "link"@), t)])
        + gauge_text("livebox_interface_bytes_rx"@, "Livebox interface bytes RX"@,
            traffic_insts(samples(ms), "rx"@, samples(ms).map_values(|p: (Seq<char>, TrafficData)| p.1.rx_counter), t))
        + gauge_text("livebox_interface_bytes_tx"@, "Livebox interface bytes TX"@,
            traffic_insts(samples(ms), "tx"@, samples(ms).map_values(|p: (Seq<char>, TrafficData)| p.1.tx_counter), t))
        + gauge_text("livebox_device_status"@, "Livebox connected devices status"@,
            device_insts(ds, ds.map_values(|d: Device| active_value(d)), t))
}

/// Renders the records of one poll as exposition text, every line stamped
/// `timestamp`.
pub fn render_exposition(
    status: &Status,
    wan: &WANConfiguration,
    metrics: &[Metrics],
    devices: &[Device],
    timestamp: u128,
) -> (r: String)
    ensures
        r@ == exposition_text(*status, *wan, metrics@, devices@, timestamp),
{
    let t = timestamp;
    let a = render_info_metric_at(status, "livebox_infos_status", "Livebox general status",
        |s: &Status| -> (v: u64) ensures v == up_value(*s) { status_up_value(s) }, t);
    let b = render_info_metric_at(status, "livebox_infos_uptime", "Livebox uptime",
        |s: &Status| -> (v: u64) ensures v == s.up_time as u64 { s.up_time as u64 }, t);
    let c = render_info_metric_at(status, "livebox_infos_reboot", "Livebox count of reboots",
        |s: &Status| -> (v: u64) ensures v == s.number_of_reboots as u64 { s.number_of_reboots as u64 }, t);
    let d = render_status_metric_at(wan, "livebox_wan_status", "wan", t);
    let e = render_status_metric_at(wan, "livebox_link_status", "link", t);
    let rx_fn = |x: &TrafficData| -> (v: u64) ensures v == x.rx_counter { x.rx_counter };
    let tx_fn = |x: &TrafficData| -> (v: u64) ensures v == x.tx_counter { x.tx_counter };
    let f = render_interface_metric_at(metrics, "livebox_interface_bytes_rx", "Livebox interface bytes RX", rx_fn, "rx", t);
    let g = render_interface_metric_at(metrics, "livebox_interface_bytes_tx", "Livebox interface bytes TX", tx_fn, "tx", t);
    let act_fn = |x: &Device| -> (v: u64) ensures v == active_value(*x) { device_active_value(x) };
    let h = render_devices_metric_at(devices, "livebox_device_status", "Livebox connected devices status", act_fn, t);
    proof {
        let sm = samples(metrics@);
        let rx = choose|vals: Seq<u64>| {
            &&& vals.len() == sm.len()
            &&& forall|k: int| 0 <= k < sm.len() ==> rx_fn.ensures((&sm[k].1,), #[trigger] vals[k])
            &&& f@ == gauge_text("livebox_interface_bytes_rx"@, "Livebox interface bytes RX"@, #[trigger] traffic_insts(sm, "rx"@, vals, t))
        };
        assert(rx =~= sm.map_values(|p: (Seq<char>, TrafficData)| p.1.rx_counter));
        let tx = choose|vals: Seq<u64>| {
            &&& vals.len() == sm.len()
            &&& forall|k: int| 0 <= k < sm.len() ==> tx_fn.ensures((&sm[k].1,), #[trigger] vals[k])
            &&& g@ == gauge_text("livebox_interface_bytes_tx"@, "Livebox interface bytes TX"@, #[trigger] traffic_insts(sm, "tx"@, vals, t))
        };
        assert(tx =~= sm.map_values(|p: (Seq<char>, TrafficData)| p.1.tx_counter));
        let act = choose|vals: Seq<u64>| {
            &&& vals.len() == devices@.len()
            &&& forall|k: int| 0 <= k < devices@.len() ==> act_fn.ensures((&devices@[k],), #[trigger] vals[k])
            &&& h@ == gauge_text("livebox_device_status"@, "Livebox connected devices status"@, #[trigger] device_insts(devices@, vals, t))
        };
        assert(act =~= devices@.map_values(|x: Device| active_value(x)));
    }
    let out = a.concat(b.as_str()).concat(c.as_str()).concat(d.as_str()).concat(e.as_str())
        .concat(f.as_str()).concat(g.as_str()).concat(h.as_str());
    out
}

/// The general status family carries 1 exactly where the gateway reports
/// itself `Up`, and 0 for any other state.
pub proof fn lemma_status_value(s: Status)
    ensures
        s.device_status@ == "Up"@ ==> up_value(s) == 1,
        s.device_status@ != "Up"@ ==> up_value(s) == 0,
{
}

/// The `wan` port's family carries 1 exactly where `wan_state` is `up`; the
/// `link` port's value depends on `link_state` alone.
pub proof fn lemma_port_values(w1: WANConfiguration, w2: WANConfiguration)
    ensures
        wan_value(w1, "wan"@) == (if w1.wan_state@ == "up"@ { 1u64 } else { 0u64 }),
        w1.link_state@ == w2.link_state@ ==> wan_value(w1, "link"@) == wan_value(w2, "link"@),
        wan_value(w1, "link"@) == (if w1.link_state@ == "up"@ { 1u64 } else { 0u64 }),
{
    reveal_strlit("wan");
    reveal_strlit("link");
    assert("link"@ != "wan"@) by {
        assert("link"@.len() != "wan"@.len());
    }
}

/// The number of interfaces over all the records `ms`.
pub open spec fn interface_count(ms: Seq<Metrics>) -> nat
    decreases ms.len(),
{
    if ms.len() == 0 {
        0
    } else {
        interface_count(ms.drop_last()) + ms.last()@.len()
    }
}

proof fn lemma_entry_samples_count(es: Seq<(String, Seq<TrafficData>)>, m: nat)
    requires
        forall|j: int| 0 <= j < es.len() ==> (#[trigger] es[j]).1.len() == m,
    ensures
        entry_samples(es).len() == es.len() * m,
    decreases es.len(),
{
    if es.len() > 0 {
        lemma_entry_samples_count(es.drop_last(), m);
        assert(entry_samples(es).len() == (es.len() - 1) * m + m);
        assert((es.len() - 1) * m + m == es.len() * m) by (nonlinear_arith);
    }
}

/// With `m` samples for every interface, the traffic family of `ms` has
/// exactly (number of interfaces) × `m` instance lines, whatever the values.
pub proof fn lemma_traffic_line_count(ms: Seq<Metrics>, m: nat, direction: Seq<char>, vals: Seq<u64>, t: u128)
    requires
        forall|i: int, j: int| 0 <= i < ms.len() && 0 <= j < ms[i]@.len() ==> (#[trigger] ms[i]@[j]).1.len() == m,
    ensures
        samples(ms).len() == interface_count(ms) * m,
        traffic_insts(samples(ms), direction, vals, t).len() == interface_count(ms) * m,
    decreases ms.len(),
{
    if ms.len() > 0 {
        lemma_traffic_line_count(ms.drop_last(), m, direction, vals, t);
        let last = ms.last()@;
        assert forall|j: int| 0 <= j < last.len() implies (#[trigger] last[j]).1.len() == m by {
            assert(ms[ms.len() - 1]@[j] == last[j]);
        }
        lemma_entry_samples_count(last, m);
        assert(samples(ms.drop_last()).len() == interface_count(ms.drop_last()) * m);
        assert(entry_samples(last).len() == last.len() * m);
        assert(samples(ms).len() == samples(ms.drop_last()).len() + entry_samples(last).len());
        assert(interface_count(ms) == interface_count(ms.drop_last()) + last.len());
        assert(interface_count(ms) * m == interface_count(ms.drop_last()) * m + last.len() * m)
            by (nonlinear_arith)
            requires interface_count(ms) == interface_count(ms.drop_last()) + last.len();
    } else {
        assert(samples(ms).len() == 0);
        assert(interface_count(ms) == 0);
        assert(0 * m == 0) by (nonlinear_arith);
    }
    assert(traffic_insts(samples(ms), direction, vals, t).len() == samples(ms).len());
}

} // verus!
