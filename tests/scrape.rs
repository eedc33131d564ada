use livebox_exporter::client::{Client, ClientError, RpcRequest, RpcResponse};
use livebox_exporter::scrape::{Scrape, ScrapeStep};

const STATUS: &str = r#"{"status":{"Manufacturer":"Sagemcom","ManufacturerOUI":"44A61E","ModelName":"SagemcomFast5670","Description":"d","ProductClass":"Livebox 6","SerialNumber":"SN1","HardwareVersion":"hw","SoftwareVersion":"sw","RescueVersion":"r","ModemFirmwareVersion":"m","EnabledOptions":"","AdditionalHardwareVersion":"","AdditionalSoftwareVersion":"","SpecVersion":"1.0","ProvisioningCode":"p","UpTime":3600,"FirstUseDate":"f","DeviceLog":"","VendorConfigFileNumberOfEntries":1,"ManufacturerURL":"u","Country":"fr","ExternalIPAddress":"203.0.113.7","DeviceStatus":"Up","NumberOfReboots":4,"UpgradeOccurred":false,"ResetOccurred":false,"RestoreOccurred":false,"StandbyOccurred":false,"X_SOFTATHOME-COM_AdditionalSoftwareVersions":"","BaseMAC":"AA:BB"}}"#;
const WAN: &str = r#"{"status":true,"data":{"WanState":"up","LinkType":"gpon","LinkState":"up","MACAddress":"AA:BB","Protocol":"dhcp","ConnectionState":"Bound","LastConnectionError":"None","IPAddress":"203.0.113.7","RemoteGateway":"203.0.113.1","DNSServers":"1.1.1.1","IPv6Address":"2001:db8::1","IPv6DelegatedPrefix":"2001:db8::/56"}}"#;
const METRICS: &str = r#"{"status":{"eth0":{"Traffic":[{"Timestamp":1711483314,"Rx_Counter":1259440,"Tx_Counter":9696752}]}}}"#;
const DEVICES: &str = r#"{"status":[{"Key":"k1","Name":"laptop","DiscoverySource":"dhcp","Active":true,"DeviceType":"Computer","Tags":"lan","IPAddress":"192.168.1.20"},{"Key":"k2","Name":"tv","DiscoverySource":"mdns","Active":false,"DeviceType":"TV","Tags":"lan"}]}"#;

fn ok(body: &str, cookies: &[&str]) -> Result<RpcResponse, ClientError> {
    Ok(RpcResponse {
        status_code: 200,
        set_cookies: cookies.iter().map(|c| c.to_string()).collect(),
        body: body.as_bytes().to_vec(),
    })
}

/// A stand-in gateway: answers by the method named in the request body, and
/// fails the call whose method is `failing`.
fn gateway(req: &RpcRequest, failing: &str, logouts: &mut u32) -> Result<RpcResponse, ClientError> {
    let method = ["createContext", "releaseContext", "getWANStatus", "getResults", "\"DeviceInfo\"", "\"Devices\""]
        .into_iter()
        .find(|m| req.body.contains(m))
        .unwrap();
    if method == "releaseContext" {
        *logouts += 1;
        assert_eq!(req.authorization.as_deref(), Some("X-Sah-Logout ctx-1"));
        return Err(ClientError::Transport);
    }
    if method == failing {
        return Ok(RpcResponse { status_code: 500, set_cookies: vec![], body: b"{}".to_vec() });
    }
    match method {
        "createContext" => ok(r#"{"status":0,"data":{"contextID":"ctx-1"}}"#, &["sid=42; Path=/"]),
        "\"DeviceInfo\"" => ok(STATUS, &[]),
        "getWANStatus" => ok(WAN, &[]),
        "getResults" => ok(METRICS, &[]),
        _ => ok(DEVICES, &[]),
    }
}

fn run(failing: &str) -> (Scrape, u32) {
    let mut client = Client::new("secret");
    client.ip = "192.168.1.1".to_string();
    let mut poll = Scrape::new(client, 1000);
    let mut logouts = 0;
    let mut rounds = 0;
    while let Some(req) = poll.next_request() {
        if poll.step != ScrapeStep::Login && poll.step != ScrapeStep::Logout {
            assert_eq!(req.context.as_deref(), Some("ctx-1"));
            assert_eq!(req.cookie.as_deref(), Some("sid=42"));
        }
        let answer = gateway(&req, failing, &mut logouts);
        poll.on_answer(answer);
        rounds += 1;
        assert!(rounds <= 6);
    }
    assert_eq!(poll.step, ScrapeStep::Finished);
    (poll, logouts)
}

#[test]
fn full_scrape_renders_every_family_and_logs_out_once() {
    let (poll, logouts) = run("none");
    assert_eq!(logouts, 1);
    assert!(poll.client.context_id.is_none());
    assert!(poll.client.cookies.is_empty());
    let text = poll.outcome.unwrap().unwrap();
    assert!(text.contains("livebox_infos_status{hardware=\"livebox\",manufacturer=\"Sagemcom\",manufacturer_oui=\"44A61E\",model_name=\"SagemcomFast5670\",product_class=\"Livebox 6\",serial_number=\"SN1\",hardware_version=\"hw\",software_version=\"sw\",country=\"fr\",external_ip_address=\"203.0.113.7\",base_mac=\"AA:BB\"} 1 1000\n"));
    assert!(text.contains("livebox_infos_uptime{"));
    assert!(text.contains("} 3600 1000\n"));
    assert!(text.contains("} 4 1000\n"));
    assert!(text.contains("livebox_wan_status{port=\"wan\",link_type=\"gpon\",protocol=\"dhcp\",mac_address=\"AA:BB\",ip_address=\"203.0.113.7\",remote_gateway=\"203.0.113.1\",remote_gadns_serversteway=\"1.1.1.1\",ipv6_address=\"2001:db8::1\"} 1 1000\n"));
    assert!(text.contains("livebox_link_status{port=\"link\""));
    assert!(text.contains("livebox_interface_bytes_rx{interface_name=\"eth0\",direction=\"rx\"} 1259440 1000\n"));
    assert!(text.contains("livebox_interface_bytes_tx{interface_name=\"eth0\",direction=\"tx\"} 9696752 1000\n"));
    assert!(text.contains("livebox_device_status{device_name=\"laptop\",device_type=\"Computer\",discovery_source=\"dhcp\",ip_address=\"192.168.1.20\"} 1 1000\n"));
    assert!(text.contains("livebox_device_status{device_name=\"tv\",device_type=\"TV\",discovery_source=\"mdns\",ip_address=\"\"} 0 1000\n"));
}

#[test]
fn failed_fetch_still_logs_out_once() {
    for failing in ["\"DeviceInfo\"", "getWANStatus", "getResults", "\"Devices\""] {
        let (poll, logouts) = run(failing);
        assert_eq!(logouts, 1, "{failing}");
        assert_eq!(poll.outcome, Some(Err(ClientError::HttpStatus(500))), "{failing}");
        assert!(poll.client.context_id.is_none());
    }
}

#[test]
fn failed_login_never_logs_out() {
    let (poll, logouts) = run("createContext");
    assert_eq!(logouts, 0);
    assert_eq!(poll.outcome, Some(Err(ClientError::AuthenticationFailure(None))));
}

#[test]
fn transport_failure_during_fetch_logs_out() {
    let mut client = Client::new("secret");
    client.ip = "gw".to_string();
    let mut poll = Scrape::new(client, 5);
    poll.on_answer(ok(r#"{"status":0,"data":{"contextID":"c"}}"#, &["a=b"]));
    assert!(poll.next_request().unwrap().body.contains("DeviceInfo"));
    poll.on_answer(Err(ClientError::Transport));
    assert_eq!(poll.step, ScrapeStep::Logout);
    assert_eq!(poll.outcome, Some(Err(ClientError::Transport)));
    let req = poll.next_request().unwrap();
    assert_eq!(req.authorization.as_deref(), Some("X-Sah-Logout c"));
    poll.on_answer(Err(ClientError::Transport));
    assert_eq!(poll.step, ScrapeStep::Finished);
    assert!(poll.next_request().is_none());
}
