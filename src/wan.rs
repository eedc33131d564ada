//! The state of the gateway's WAN link.

use vstd::prelude::*;
use crate::json::{Json, text_field, get_text};

verus! {

/// WAN link and connection state, as `NMC/getWANStatus` reports it.
#[derive(Debug, Clone, PartialEq, Eq)]
pub struct WANConfiguration {
    pub wan_state: String,
    pub link_type: String,
    pub link_state: String,
    pub mac_address: String,
    pub protocol: String,
    pub connection_state: String,
    pub last_connection_error: String,
    pub ip_address: String,
    pub remote_gateway: String,
    pub dns_servers: String,
    pub ipv6_address: String,
    pub ipv6_delegated_prefix: String,
}

/// The [`WANConfiguration`] that the JSON node `j` encodes: `j` is an object
/// that holds every field as a text. Other keys are ignored.
pub open spec fn wan_of(j: Json) -> Option<WANConfiguration> {
    match j {
        Json::Object(o) => {
            let e = o@;
            if true
                && text_field(e, "WanState"@) is Some
                && text_field(e, "LinkType"@) is Some
                && text_field(e, "LinkState"@) is Some
                && text_field(e, "MACAddress"@) is Some
                && text_field(e, "Protocol"@) is Some
                && text_field(e, "ConnectionState"@) is Some
                && text_field(e, "LastConnectionError"@) is Some
                && text_field(e, "IPAddress"@) is Some
                && text_field(e, "RemoteGateway"@) is Some
                && text_field(e, "DNSServers"@) is Some
                && text_field(e, "IPv6Address"@) is Some
                && text_field(e, "IPv6DelegatedPrefix"@) is Some
            {
                Some(WANConfiguration {
                    wan_state: text_field(e, "WanState"@)->0,
                    link_type: text_field(e, "LinkType"@)->0,
                    link_state: text_field(e, "LinkState"@)->0,
                    mac_address: text_field(e, "MACAddress"@)->0,
                    protocol: text_field(e, "Protocol"@)->0,
                    connection_state: text_field(e, "ConnectionState"@)->0,
                    last_connection_error: text_field(e, "LastConnectionError"@)->0,
                    ip_address: text_field(e, "IPAddress"@)->0,
                    remote_gateway: text_field(e, "RemoteGateway"@)->0,
                    dns_servers: text_field(e, "DNSServers"@)->0,
                    ipv6_address: text_field(e, "IPv6Address"@)->0,
                    ipv6_delegated_prefix: text_field(e, "IPv6DelegatedPrefix"@)->0,
                })
            } else {
                None
            }
        },
        _ => None,
    }
}

impl WANConfiguration {
    /// Reads a [`WANConfiguration`] from the JSON node `j`.
    pub fn decode(j: &Json) -> (r: Option<WANConfiguration>)
        ensures
            r == wan_of(*j),
    {
        let e = match j {
            Json::Object(e) => e,
            _ => return None,
        };
        let wan_state = match get_text(e, "WanState") {
            Some(v) => v,
            None => return None,
        };
        let link_type = match get_text(e, "LinkType") {
            Some(v) => v,
            None => return None,
        };
        let link_state = match get_text(e, "LinkState") {
            Some(v) => v,
            None => return None,
        };
        let mac_address = match get_text(e, "MACAddress") {
            Some(v) => v,
            None => return None,
        };
        let protocol = match get_text(e, "Protocol") {
            Some(v) => v,
            None => return None,
        };
        let connection_state = match get_text(e, "ConnectionState") {
            Some(v) => v,
            None => return None,
        };
        let last_connection_error = match get_text(e, "LastConnectionError") {
            Some(v) => v,
            None => return None,
        };
        let ip_address = match get_text(e, "IPAddress") {
            Some(v) => v,
            None => return None,
        };
        let remote_gateway = match get_text(e, "RemoteGateway") {
            Some(v) => v,
            None => return None,
        };
        let dns_servers = match get_text(e, "DNSServers") {
            Some(v) => v,
            None => return None,
        };
        let ipv6_address = match get_text(e, "IPv6Address") {
            Some(v) => v,
            None => return None,
        };
        let ipv6_delegated_prefix = match get_text(e, "IPv6DelegatedPrefix") {
            Some(v) => v,
            None => return None,
        };
        Some(WANConfiguration {
            wan_state,
            link_type,
            link_state,
            mac_address,
            protocol,
            connection_state,
            last_connection_error,
            ip_address,
            remote_gateway,
            dns_servers,
            ipv6_address,
            ipv6_delegated_prefix,
        })
    }
}

} // verus!
