//! The inventory of devices known to the gateway.

use vstd::prelude::*;
use crate::json::{Json, lookup, text_field, bool_field, opt_text_field, opt_u32_field, get_text, get_bool, get_opt_text, get_opt_u32};

verus! {

/// One device of the gateway's inventory, as `Devices/get` lists it.
/// The wireless fields are absent for a wired device.
#[derive(Debug, Clone, PartialEq, Eq)]
pub struct Device {
    pub key: String,
    pub name: String,
    pub discovery_source: String,
    pub active: bool,
    pub device_type: String,
    pub tags: String,
    pub ip_address: Option<String>,
    pub ssid: Option<String>,
    pub channel: Option<u32>,
}

/// The [`Device`] that the JSON node `j` encodes: `j` is an object that holds
/// every required field with a value of its type; `IPAddress`, `SSID` and
/// `Channel` may be missing or `null`. Other keys are ignored.
pub open spec fn device_of(j: Json) -> Option<Device> {
    match j {
        Json::Object(o) => {
            let e = o@;
            if true
                && text_field(e, "Key"@) is Some
                && text_field(e, "Name"@) is Some
                && text_field(e, "DiscoverySource"@) is Some
                && bool_field(e, "Active"@) is Some
                && text_field(e, "DeviceType"@) is Some
                && text_field(e, "Tags"@) is Some
                && opt_text_field(e, "IPAddress"@) is Some
                && opt_text_field(e, "SSID"@) is Some
                && opt_u32_field(e, "Channel"@) is Some
            {
                Some(Device {
                    key: text_field(e, "Key"@)->0,
                    name: text_field(e, "Name"@)->0,
                    discovery_source: text_field(e, "DiscoverySource"@)->0,
                    active: bool_field(e, "Active"@)->0,
                    device_type: text_field(e, "DeviceType"@)->0,
                    tags: text_field(e, "Tags"@)->0,
                    ip_address: opt_text_field(e, "IPAddress"@)->0,
                    ssid: opt_text_field(e, "SSID"@)->0,
                    channel: opt_u32_field(e, "Channel"@)->0,
                })
            } else {
                None
            }
        },
        _ => None,
    }
}

/// The devices that the JSON nodes `items` encode, one for each, where every
/// one of them encodes a device.
pub open spec fn devices_of(items: Seq<Json>) -> Option<Seq<Device>> {
    if forall|i: int| 0 <= i < items.len() ==> (#[trigger] device_of(items[i])) is Some {
        Some(items.map_values(|j: Json| device_of(j)->0))
    } else {
        None
    }
}

impl Device {
    /// Reads a [`Device`] from the JSON node `j`.
    pub fn decode(j: &Json) -> (r: Option<Device>)
        ensures
            r == device_of(*j),
    {
        let e = match j {
            Json::Object(e) => e,
            _ => return None,
        };
        let key = match get_text(e, "Key") {
            Some(v) => v,
            None => return None,
        };
        let name = match get_text(e, "Name") {
            Some(v) => v,
            None => return None,
        };
        let discovery_source = match get_text(e, "DiscoverySource") {
            Some(v) => v,
            None => return None,
        };
        let active = match get_bool(e, "Active") {
            Some(v) => v,
            None => return None,
        };
        let device_type = match get_text(e, "DeviceType") {
            Some(v) => v,
            None => return None,
        };
        let tags = match get_text(e, "Tags") {
            Some(v) => v,
            None => return None,
        };
        let ip_address = match get_opt_text(e, "IPAddress") {
            Some(v) => v,
            None => return None,
        };
        let ssid = match get_opt_text(e, "SSID") {
            Some(v) => v,
            None => return None,
        };
        let channel = match get_opt_u32(e, "Channel") {
            Some(v) => v,
            None => return None,
        };
        Some(Device {
            key,
            name,
            discovery_source,
            active,
            device_type,
            tags,
            ip_address,
            ssid,
            channel,
        })
    }

    /// Reads one [`Device`] from each of the JSON nodes `items`, in order;
    /// `None` where one of them is no device.
    pub fn decode_all(items: &Vec<Json>) -> (r: Option<Vec<Device>>)
        ensures
            match r {
                Some(v) => devices_of(items@) == Some(v@),
                None => devices_of(items@) is None,
            },
    {
        let mut out: Vec<Device> = Vec::new();
        let mut i: usize = 0;
        while i < items.len()
            invariant
                i <= items@.len(),
                out@ == items@.subrange(0, i as int).map_values(|j: Json| device_of(j)->0),
                forall|m: int| 0 <= m < i ==> (#[trigger] device_of(items@[m])) is Some,
            decreases items@.len() - i,
        {
            match Device::decode(&items[i]) {
                Some(d) => {
                    out.push(d);
                },
                None => {
                    return None;
                },
            }
            assert(items@.subrange(0, i + 1) == items@.subrange(0, i as int).push(items@[i as int]));
            i = i + 1;
        }
        assert(items@.subrange(0, items@.len() as int) == items@);
        Some(out)
    }
}

/// A device object without `IPAddress`, `SSID` and `Channel` still decodes,
/// with those three absent, where the required fields are there.
pub proof fn lemma_device_optional_fields(e: Vec<(String, Json)>)
    requires
        text_field(e@, "Key"@) is Some,
        text_field(e@, "Name"@) is Some,
        text_field(e@, "DiscoverySource"@) is Some,
        bool_field(e@, "Active"@) is Some,
        text_field(e@, "DeviceType"@) is Some,
        text_field(e@, "Tags"@) is Some,
        lookup(e@, "IPAddress"@) is None,
        lookup(e@, "SSID"@) is None,
        lookup(e@, "Channel"@) is None,
    ensures
        device_of(Json::Object(e)) matches Some(d) && d.ip_address is None && d.ssid is None
            && d.channel is None && d.key == text_field(e@, "Key"@)->0
            && d.name == text_field(e@, "Name"@)->0 && d.active == bool_field(e@, "Active"@)->0,
{
}

/// A device object without a textual `Key` or `Name`, or without a boolean
/// `Active`, decodes to nothing.
pub proof fn lemma_device_required_fields(e: Vec<(String, Json)>)
    requires
        text_field(e@, "Key"@) is None || text_field(e@, "Name"@) is None
            || bool_field(e@, "Active"@) is None,
    ensures
        device_of(Json::Object(e)) is None,
{
}

} // verus!
