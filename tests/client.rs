use livebox_exporter::client::{Call, Client, ClientError, RpcResponse};
use livebox_exporter::devices::Device;
use livebox_exporter::metrics::Metrics;
use livebox_exporter::status::Status;
use livebox_exporter::wan::WANConfiguration;

fn mock_status() -> &'static str {
    r#"{
        "status": {
            "Manufacturer": "test",
            "ManufacturerOUI": "test",
            "ModelName": "test",
            "Description": "test",
            "ProductClass": "test",
            "SerialNumber": "test",
            "HardwareVersion": "test",
            "SoftwareVersion": "test",
            "RescueVersion": "test",
            "ModemFirmwareVersion": "test",
            "EnabledOptions": "test",
            "AdditionalHardwareVersion": "test",
            "AdditionalSoftwareVersion": "test",
            "SpecVersion": "test",
            "ProvisioningCode": "test",
            "UpTime": 0,
            "FirstUseDate": "test",
            "DeviceLog": "test",
            "VendorConfigFileNumberOfEntries": 0,
            "ManufacturerURL": "test",
            "Country": "test",
            "ExternalIPAddress": "test",
            "DeviceStatus": "test",
            "NumberOfReboots": 0,
            "UpgradeOccurred": false,
            "ResetOccurred": false,
            "RestoreOccurred": false,
            "StandbyOccurred": false,
            "X_SOFTATHOME-COM_AdditionalSoftwareVersions": "test",
            "BaseMAC": "test"
        }
    }"#
}

fn mock_wan_config() -> &'static str {
    r#"{
        "data": {
            "WanState": "test",
            "LinkType": "test",
            "LinkState": "test",
            "MACAddress": "test",
            "Protocol": "test",
            "ConnectionState": "test",
            "LastConnectionError": "test",
            "IPAddress": "test",
            "RemoteGateway": "test",
            "DNSServers": "test",
            "IPv6Address": "test",
            "IPv6DelegatedPrefix": "test"
        }
    }"#
}

fn mock_devices() -> &'static str {
    r#"{
        "status": [{
            "Key": "test",
            "Name": "test",
            "DiscoverySource": "test",
            "Active": true,
            "DeviceType": "test",
            "Tags": "test",
            "IPAddress": "test",
            "SSID": "test",
            "Channel": 11
        }]
    }"#
}

fn mock_metrics() -> &'static str {
    r#"{
        "status":{
            "test":{
                "Traffic":[{
                    "Timestamp":1711483314,
                    "Rx_Counter":1259440,
                    "Tx_Counter":9696752
                }]
            }
        }
    }"#
}

fn answer(code: u16, cookies: &[&str], body: &str) -> RpcResponse {
    RpcResponse {
        status_code: code,
        set_cookies: cookies.iter().map(|c| c.to_string()).collect(),
        body: body.as_bytes().to_vec(),
    }
}

fn logged_in_client() -> Client {
    let mut client = Client::new("password");
    client.ip = "127.0.0.1:8080".to_string();
    client.cookies.push("session=mocked_session_id".to_string());
    client.context_id = Some("test-context-id".to_string());
    client
}

#[test]
fn test_client_instantiation() {
    let password = "test_password";
    let client = Client::new(password);
    assert_eq!(client.ip, "192.168.1.1");
    assert_eq!(client.username, "admin");
    assert_eq!(client.password, password);
    assert!(client.cookies.is_empty());
    assert!(client.context_id.is_none());
}

#[test]
fn test_login_success() {
    let mut client = Client::new("password");
    client.ip = "127.0.0.1:8080".to_string();
    let req = client.login_request();
    assert_eq!(req.url, "http://127.0.0.1:8080/ws");
    assert_eq!(req.content_type.as_deref(), Some("application/x-sah-ws-4-call+json"));
    assert_eq!(req.authorization.as_deref(), Some("X-Sah-Login"));
    let resp = answer(
        200,
        &["session=mocked_session_id"],
        r#"{"status": 0, "data": {"contextID": "test-context-id"}}"#,
    );
    assert_eq!(client.login(&resp), Ok(()));
    assert_eq!(client.cookies.len(), 1);
    assert_eq!(client.context_id, Some("test-context-id".to_string()));
}

#[test]
fn test_get_status() {
    let client = logged_in_client();
    let req = client.call_request(Call::Status).unwrap();
    assert_eq!(req.context.as_deref(), Some("test-context-id"));
    assert_eq!(req.cookie.as_deref(), Some("session=mocked_session_id"));
    let status = Client::get_status(&answer(200, &[], mock_status())).unwrap();
    assert_eq!(status.manufacturer, "test");
}

#[test]
fn test_get_wan_config() {
    let client = logged_in_client();
    let req = client.call_request(Call::WanConfig).unwrap();
    assert_eq!(req.context.as_deref(), Some("test-context-id"));
    let wan: WANConfiguration = Client::get_wan_config(&answer(200, &[], mock_wan_config())).unwrap();
    assert_eq!(wan.wan_state, "test");
}

#[test]
fn test_get_devices() {
    let client = logged_in_client();
    let req = client.call_request(Call::Devices).unwrap();
    assert_eq!(req.context.as_deref(), Some("test-context-id"));
    let devices: Vec<Device> = Client::get_devices(&answer(200, &[], mock_devices())).unwrap();
    assert_eq!(devices[0].key, "test");
}

#[test]
fn test_get_metrics() {
    let client = logged_in_client();
    let req = client.call_request(Call::Metrics).unwrap();
    assert_eq!(req.context.as_deref(), Some("test-context-id"));
    let metrics: Vec<Metrics> = Client::get_metrics(&answer(200, &[], mock_metrics())).unwrap();
    assert_eq!(metrics[0].status[0].0, "test");
    assert_eq!(metrics[0].status[0].1.traffic[0].timestamp, 1711483314);
}

#[test]
fn test_logout() {
    let mut client = logged_in_client();
    let req = client.logout_request().unwrap();
    assert_eq!(req.authorization.as_deref(), Some("X-Sah-Logout test-context-id"));
    assert_eq!(req.cookie.as_deref(), Some("session=mocked_session_id"));
    client.logout();
    assert!(client.cookies.is_empty());
    assert!(client.context_id.is_none());
}

#[test]
fn test_login_failure() {
    let mut client = Client::new("password");
    let resp = answer(401, &[], "");
    assert_eq!(client.login(&resp), Err(ClientError::AuthenticationFailure(None)));
    assert!(client.context_id.is_none());
    assert!(client.cookies.is_empty());
}

#[test]
fn test_authenticated_request_failure() {
    let resp = answer(500, &[], "Internal Server Error");
    assert_eq!(Client::get_status(&resp), Err(ClientError::ProtocolDecode));
}

#[test]
fn login_with_nonzero_status_is_refused() {
    let mut client = Client::new("password");
    let resp = answer(200, &["session=abc"], r#"{"status": 7, "data": {"contextID": "x"}}"#);
    assert_eq!(client.login(&resp), Err(ClientError::AuthenticationFailure(Some(7))));
    assert!(client.context_id.is_none());
    assert!(client.cookies.is_empty());
    let resp = answer(200, &["session=abc"], r#"{"status": "bad"}"#);
    assert_eq!(client.login(&resp), Err(ClientError::AuthenticationFailure(None)));
    assert!(client.context_id.is_none());
}

#[test]
fn login_keeps_every_cookie_in_order() {
    let mut client = Client::new("password");
    let resp = answer(
        200,
        &["a=1; Path=/; HttpOnly", "b=2", "a=3"],
        r#"{"status": 0, "data": {"contextID": "ctx"}}"#,
    );
    assert_eq!(client.login(&resp), Ok(()));
    assert_eq!(client.cookies, vec!["a=1", "b=2", "a=3"]);
    assert_eq!(client.cookie_header(), "a=1; b=2; a=3");
    assert_eq!(client.context_id.as_deref(), Some("ctx"));
}

#[test]
fn login_with_bad_body_or_cookie_is_a_decode_error() {
    let mut client = Client::new("password");
    assert_eq!(
        client.login(&answer(200, &["s=1"], "not json")),
        Err(ClientError::ProtocolDecode)
    );
    assert_eq!(
        client.login(&answer(200, &["s=1"], r#"{"status": 0, "data": {}}"#)),
        Err(ClientError::ProtocolDecode)
    );
    assert_eq!(
        client.login(&answer(200, &["no pair here"], r#"{"status": 0, "data": {"contextID": "c"}}"#)),
        Err(ClientError::ProtocolDecode)
    );
    assert!(client.cookies.is_empty());
}

#[test]
fn calls_before_login_are_refused() {
    let client = Client::new("password");
    for call in [Call::Status, Call::WanConfig, Call::Devices, Call::Metrics] {
        assert_eq!(client.call_request(call).unwrap_err(), ClientError::PreconditionViolation);
    }
    assert_eq!(
        client.authenticated_request("DeviceInfo", "get", "{}").unwrap_err(),
        ClientError::PreconditionViolation
    );
    assert_eq!(client.logout_request().unwrap_err(), ClientError::PreconditionViolation);
}

#[test]
fn request_bodies_follow_the_wire_format() {
    let mut client = Client::new("pa\"ss");
    client.ip = "10.0.0.1".to_string();
    let req = client.login_request();
    assert_eq!(
        req.body,
        r#"{"method":"createContext","parameters":{"applicationName":"so_sdkut","password":"pa\"ss","username":"admin"},"service":"sah.Device.Information"}"#
    );
    client.context_id = Some("c".to_string());
    let req = client.call_request(Call::Metrics).unwrap();
    assert_eq!(req.url, "http://10.0.0.1/ws");
    assert_eq!(
        req.body,
        r#"{"method":"getResults","parameters":{"NumberOfReadings":1,"Seconds":0},"service":"HomeLan"}"#
    );
    assert!(req.authorization.is_none());
    let req = client.logout_request().unwrap();
    assert!(req.content_type.is_none());
    assert_eq!(
        req.body,
        r#"{"method":"releaseContext","parameters":{"applicationName":"so_sdkut"},"service":"sah.Device.Information"}"#
    );
    assert_eq!(req.cookie.as_deref(), Some(""));
}

#[test]
fn non_success_status_is_an_http_error() {
    let resp = answer(404, &[], mock_status());
    assert_eq!(Client::get_status(&resp), Err(ClientError::HttpStatus(404)));
    assert_eq!(Client::get_metrics(&answer(503, &[], mock_metrics())).unwrap_err(), ClientError::HttpStatus(503));
}

#[test]
fn devices_answer_must_be_an_array() {
    let resp = answer(200, &[], r#"{"status": {"Key": "x"}}"#);
    assert_eq!(Client::get_devices(&resp), Err(ClientError::ProtocolDecode));
}

#[test]
fn metrics_scenario_single_interface() {
    let body = r#"{"status":{"eth0":{"Traffic":[{"Timestamp":1711483314,"Rx_Counter":1259440,"Tx_Counter":9696752}]}}}"#;
    let metrics = Client::get_metrics(&answer(200, &[], body)).unwrap();
    assert_eq!(metrics.len(), 1);
    assert_eq!(metrics[0].status.len(), 1);
    assert_eq!(metrics[0].status[0].0, "eth0");
    let t = &metrics[0].status[0].1.traffic;
    assert_eq!(t.len(), 1);
    assert_eq!(t[0].timestamp, 1711483314);
    assert_eq!(t[0].rx_counter, 1259440);
    assert_eq!(t[0].tx_counter, 9696752);
}

#[test]
fn metrics_one_record_per_interface() {
    let body = r#"{"status":{"eth0":{"Traffic":[]},"wl0":{"Traffic":[{"Timestamp":1,"Rx_Counter":2,"Tx_Counter":3},{"Timestamp":4,"Rx_Counter":5,"Tx_Counter":6}]}}}"#;
    let metrics = Client::get_metrics(&answer(200, &[], body)).unwrap();
    assert_eq!(metrics.len(), 2);
    assert!(metrics.iter().all(|m| m.status.len() == 1));
    let wl = metrics.iter().find(|m| m.status[0].0 == "wl0").unwrap();
    assert_eq!(wl.status[0].1.traffic.len(), 2);
    assert_eq!(wl.status[0].1.traffic[1].rx_counter, 5);
    let bad = r#"{"status":{"eth0":{"Traffic":[{"Timestamp":-1,"Rx_Counter":2,"Tx_Counter":3}]}}}"#;
    assert_eq!(Client::get_metrics(&answer(200, &[], bad)).unwrap_err(), ClientError::ProtocolDecode);
}

#[test]
fn status_rejects_unknown_field() {
    let body = mock_status().replace("\"BaseMAC\": \"test\"", "\"BaseMAC\": \"test\", \"NewField\": 1");
    assert_eq!(Client::get_status(&answer(200, &[], &body)), Err(ClientError::ProtocolDecode));
    let missing = mock_status().replace("\"BaseMAC\": \"test\"", "\"Country2\": \"x\"");
    assert_eq!(Client::get_status(&answer(200, &[], &missing)), Err(ClientError::ProtocolDecode));
}

#[test]
fn status_decodes_every_field() {
    let body = mock_status().replace("\"UpTime\": 0", "\"UpTime\": 4294967295").replace("\"StandbyOccurred\": false", "\"StandbyOccurred\": true");
    let s: Status = Client::get_status(&answer(200, &[], &body)).unwrap();
    assert_eq!(s.up_time, 4294967295);
    assert!(s.standby_occurred);
    assert_eq!(s.softathome_additional_software_versions, "test");
    let too_big = mock_status().replace("\"UpTime\": 0", "\"UpTime\": 4294967296");
    assert_eq!(Client::get_status(&answer(200, &[], &too_big)), Err(ClientError::ProtocolDecode));
}

#[test]
fn wan_ignores_extra_fields() {
    let body = mock_wan_config().replace("\"WanState\": \"test\"", "\"WanState\": \"up\", \"Extra\": [1, 2]");
    let w = Client::get_wan_config(&answer(200, &[], &body)).unwrap();
    assert_eq!(w.wan_state, "up");
    assert_eq!(w.ipv6_delegated_prefix, "test");
}

#[test]
fn device_optional_fields_may_be_missing() {
    let body = r#"{"status":[{"Key":"k","Name":"n","DiscoverySource":"dhcp","Active":false,"DeviceType":"Computer","Tags":"lan","SSID":null}]}"#;
    let d = Client::get_devices(&answer(200, &[], body)).unwrap();
    assert_eq!(d.len(), 1);
    assert_eq!(d[0].ip_address, None);
    assert_eq!(d[0].ssid, None);
    assert_eq!(d[0].channel, None);
    assert!(!d[0].active);
    let no_key = r#"{"status":[{"Name":"n","DiscoverySource":"dhcp","Active":false,"DeviceType":"Computer","Tags":"lan"}]}"#;
    assert_eq!(Client::get_devices(&answer(200, &[], no_key)), Err(ClientError::ProtocolDecode));
    let no_active = r#"{"status":[{"Key":"k","Name":"n","DiscoverySource":"dhcp","DeviceType":"Computer","Tags":"lan"}]}"#;
    assert_eq!(Client::get_devices(&answer(200, &[], no_active)), Err(ClientError::ProtocolDecode));
}

#[test]
fn status_survives_encode_then_decode() {
    let s = Client::get_status(&answer(200, &[], mock_status())).unwrap();
    assert_eq!(Status::decode(&s.to_json()), Some(s.clone()));
    let mut t = s.clone();
    t.up_time = 77;
    t.reset_occurred = true;
    t.base_mac = "quote\"d".to_string();
    assert_eq!(Status::decode(&t.to_json()), Some(t));
}
