//! Per-interface traffic counters.

use vstd::prelude::*;
use crate::json::{Json, u64_field, member, get_u64, get_member};

verus! {

/// One reading of an interface's byte counters.
#[derive(Debug, Clone, Copy, PartialEq, Eq)]
pub struct TrafficData {
    pub rx_counter: u64,
    pub tx_counter: u64,
    pub timestamp: u64,
}

/// The readings of one interface, oldest first as the gateway lists them.
#[derive(Debug, Clone)]
pub struct DeviceMetrics {
    pub traffic: Vec<TrafficData>,
}

/// Traffic readings keyed by interface name. Each record that the gateway's
/// answer gives rise to holds exactly one interface.
#[derive(Debug, Clone)]
pub struct Metrics {
    pub status: Vec<(String, DeviceMetrics)>,
}

impl View for DeviceMetrics {
    type V = Seq<TrafficData>;

    open spec fn view(&self) -> Seq<TrafficData> {
        self.traffic@
    }
}

impl View for Metrics {
    type V = Seq<(String, Seq<TrafficData>)>;

    open spec fn view(&self) -> Seq<(String, Seq<TrafficData>)> {
        self.status@.map_values(|p: (String, DeviceMetrics)| (p.0, p.1@))
    }
}

/// The reading that the JSON node `j` encodes: an object with the unsigned
/// numbers `Rx_Counter`, `Tx_Counter` and `Timestamp`. Other keys are ignored.
pub open spec fn traffic_of(j: Json) -> Option<TrafficData> {
    match j {
        Json::Object(o) => {
            let e = o@;
            if u64_field(e, "Rx_Counter"@) is Some && u64_field(e, "Tx_Counter"@) is Some
                && u64_field(e, "Timestamp"@) is Some {
                Some(
                    TrafficData {
                        rx_counter: u64_field(e, "Rx_Counter"@)->0,
                        tx_counter: u64_field(e, "Tx_Counter"@)->0,
                        timestamp: u64_field(e, "Timestamp"@)->0,
                    },
                )
            } else {
                None
            }
        },
        _ => None,
    }
}

/// The readings that the JSON node `j` encodes: an object whose `Traffic` is
/// an array of readings.
pub open spec fn device_metrics_of(j: Json) -> Option<Seq<TrafficData>> {
    match member(j, "Traffic"@) {
        Some(Json::Array(a)) => {
            let items = a@;
            if forall|i: int| 0 <= i < items.len() ==> (#[trigger] traffic_of(items[i])) is Some {
                Some(items.map_values(|t: Json| traffic_of(t)->0))
            } else {
                None
            }
        },
        _ => None,
    }
}

/// The interfaces and their readings that the entries `e` of a JSON object
/// encode, in the object's order, where every value encodes readings.
pub open spec fn interfaces_of(e: Seq<(String, Json)>) -> Option<Seq<(String, Seq<TrafficData>)>> {
    if forall|i: int| 0 <= i < e.len() ==> (#[trigger] device_metrics_of(e[i].1)) is Some {
        Some(e.map_values(|p: (String, Json)| (p.0, device_metrics_of(p.1)->0)))
    } else {
        None
    }
}

impl TrafficData {
    /// Reads one [`TrafficData`] from the JSON node `j`.
    pub fn decode(j: &Json) -> (r: Option<TrafficData>)
        ensures
            r == traffic_of(*j),
    {
        let e = match j {
            Json::Object(e) => e,
            _ => return None,
        };
        let rx_counter = match get_u64(e, "Rx_Counter") {
            Some(v) => v,
            None => return None,
        };
        let tx_counter = match get_u64(e, "Tx_Counter") {
            Some(v) => v,
            None => return None,
        };
        let timestamp = match get_u64(e, "Timestamp") {
            Some(v) => v,
            None => return None,
        };
        Some(TrafficData { rx_counter, tx_counter, timestamp })
    }
}

impl DeviceMetrics {
    /// Reads the readings of one interface from the JSON node `j`.
    pub fn decode(j: &Json) -> (r: Option<DeviceMetrics>)
        ensures
            match r {
                Some(m) => device_metrics_of(*j) == Some(m@),
                None => device_metrics_of(*j) is None,
            },
    {
        let items = match get_member(j, "Traffic") {
            Some(Json::Array(a)) => a,
            _ => return None,
        };
        let mut traffic: Vec<TrafficData> = Vec::new();
        let mut i: usize = 0;
        while i < items.len()
            invariant
                member(*j, "Traffic"@) == Some(Json::Array(*items)),
                i <= items@.len(),
                traffic@ == items@.subrange(0, i as int).map_values(|t: Json| traffic_of(t)->0),
                forall|m: int| 0 <= m < i ==> (#[trigger] traffic_of(items@[m])) is Some,
            decreases items@.len() - i,
        {
            match TrafficData::decode(&items[i]) {
                Some(t) => traffic.push(t),
                None => return None,
            }
            assert(items@.subrange(0, i + 1) == items@.subrange(0, i as int).push(items@[i as int]));
            i = i + 1;
        }
        assert(items@.subrange(0, items@.len() as int) == items@);
        Some(DeviceMetrics { traffic })
    }
}

impl Metrics {
    /// Reads the entries `e` of a JSON object keyed by interface name into one
    /// [`Metrics`] record per interface, in the object's order.
    pub fn decode_interfaces(e: &Vec<(String, Json)>) -> (r: Option<Vec<Metrics>>)
        ensures
            match r {
                Some(v) => interfaces_of(e@) matches Some(s) && v@.len() == s.len()
                    && forall|i: int| 0 <= i < v@.len() ==> #[trigger] v@[i]@ == seq![s[i]],
                None => interfaces_of(e@) is None,
            },
    {
        let mut out: Vec<Metrics> = Vec::new();
        let mut i: usize = 0;
        while i < e.len()
            invariant
                i <= e@.len(),
                out@.len() == i,
                forall|m: int| 0 <= m < i ==> (#[trigger] device_metrics_of(e@[m].1)) is Some,
                forall|m: int| 0 <= m < i ==> #[trigger] out@[m]@ == seq![(e@[m].0, device_metrics_of(e@[m].1)->0)],
            decreases e@.len() - i,
        {
            let dm = match DeviceMetrics::decode(&e[i].1) {
                Some(dm) => dm,
                None => return None,
            };
            let entry = Metrics { status: vec![(e[i].0.clone(), dm)] };
            assert(entry@ == seq![(e@[i as int].0, device_metrics_of(e@[i as int].1)->0)]);
            out.push(entry);
            i = i + 1;
        }
        Some(out)
    }
}

} // verus!
