use livebox_exporter::client::{Client, RpcResponse};
use livebox_exporter::devices::Device;
use livebox_exporter::metrics::{DeviceMetrics, Metrics, TrafficData};
use livebox_exporter::render::{
    device_active_value, render_exposition, render_livebox_devices_metric,
    render_livebox_info_metric, render_livebox_interface_metric, render_livebox_status_metric,
    status_up_value,
};
use livebox_exporter::status::Status;
use livebox_exporter::wan::WANConfiguration;

fn status_with(device_status: &str) -> Status {
    Status {
        device_status: device_status.to_string(),
        up_time: 12345,
        number_of_reboots: 10,
        manufacturer: "test".to_string(),
        manufacturer_oui: "test".to_string(),
        model_name: "test".to_string(),
        description: "test".to_string(),
        product_class: "test".to_string(),
        serial_number: "test".to_string(),
        hardware_version: "test".to_string(),
        software_version: "test".to_string(),
        rescue_version: "test".to_string(),
        modem_firmware_version: "test".to_string(),
        enabled_options: "test".to_string(),
        additional_hardware_version: "test".to_string(),
        additional_software_version: "test".to_string(),
        spec_version: "test".to_string(),
        provisioning_code: "test".to_string(),
        first_use_date: "test".to_string(),
        device_log: "test".to_string(),
        vendor_config_file_number_of_entries: 1,
        manufacturer_url: "test".to_string(),
        country: "test".to_string(),
        external_ip_address: "test".to_string(),
        upgrade_occurred: true,
        reset_occurred: true,
        restore_occurred: true,
        standby_occurred: true,
        softathome_additional_software_versions: "test".to_string(),
        base_mac: "test".to_string(),
    }
}

fn wan_with(wan_state: &str, link_state: &str) -> WANConfiguration {
    WANConfiguration {
        wan_state: wan_state.to_string(),
        link_type: "test".to_string(),
        link_state: link_state.to_string(),
        mac_address: "test".to_string(),
        protocol: "test".to_string(),
        connection_state: "test".to_string(),
        last_connection_error: "test".to_string(),
        ip_address: "test".to_string(),
        remote_gateway: "test".to_string(),
        dns_servers: "test".to_string(),
        ipv6_address: "test".to_string(),
        ipv6_delegated_prefix: "test".to_string(),
    }
}

fn test_device(active: bool, ip: Option<&str>) -> Device {
    Device {
        key: "test".to_string(),
        name: "test".to_string(),
        discovery_source: "test".to_string(),
        active,
        device_type: "test".to_string(),
        tags: "test".to_string(),
        ip_address: ip.map(|s| s.to_string()),
        ssid: Some("test".to_string()),
        channel: Some(1),
    }
}

fn last_token(s: &str) -> String {
    s.split_whitespace().last().unwrap().to_string()
}

#[test]
fn test_render_livebox_info_metric() {
    let status = status_with("Up");
    let expected_output = "# HELP test_name test_help\n# TYPE test_name gauge\ntest_name{hardware=\"livebox\",manufacturer=\"test\",manufacturer_oui=\"test\",model_name=\"test\",product_class=\"test\",serial_number=\"test\",hardware_version=\"test\",software_version=\"test\",country=\"test\",external_ip_address=\"test\",base_mac=\"test\"} 1 TIMESTAMP_PLACEHOLDER\n";
    let result = render_livebox_info_metric(&status, "test_name", "test_help", |s| {
        if s.device_status == "Up" {
            1
        } else {
            0
        }
    });
    let expected_output_with_timestamp =
        expected_output.replace("TIMESTAMP_PLACEHOLDER", &last_token(&result));
    assert_eq!(result, expected_output_with_timestamp);
}

#[test]
fn test_render_livebox_status_metric() {
    let wan = wan_with("up", "up");
    let expected_output = "# HELP test_name Livebox wan status\n# TYPE test_name gauge\ntest_name{port=\"wan\",link_type=\"test\",protocol=\"test\",mac_address=\"test\",ip_address=\"test\",remote_gateway=\"test\",remote_gadns_serversteway=\"test\",ipv6_address=\"test\"} 1 TIMESTAMP_PLACEHOLDER\n";
    let result = render_livebox_status_metric(&wan, "test_name", "wan");
    let expected_output_with_timestamp =
        expected_output.replace("TIMESTAMP_PLACEHOLDER", &last_token(&result));
    assert_eq!(result, expected_output_with_timestamp);
}

#[test]
fn test_render_livebox_interface_metric() {
    let metrics = vec![Metrics {
        status: vec![(
            "test_interface".to_string(),
            DeviceMetrics {
                traffic: vec![TrafficData {
                    rx_counter: 123,
                    tx_counter: 456,
                    timestamp: 789,
                }],
            },
        )],
    }];
    let expected_output = "# HELP test_name test_help\n# TYPE test_name gauge\ntest_name{interface_name=\"test_interface\",direction=\"rx\"} 123 TIMESTAMP_PLACEHOLDER\n";
    let result = render_livebox_interface_metric(
        &metrics,
        "test_name",
        "test_help",
        |e: &TrafficData| e.rx_counter.try_into().unwrap(),
        "rx",
    );
    let expected_output_with_timestamp =
        expected_output.replace("TIMESTAMP_PLACEHOLDER", &last_token(&result));
    assert_eq!(result, expected_output_with_timestamp);
}

#[test]
fn test_render_livebox_devices_metric() {
    let devices = vec![test_device(true, Some("test"))];
    let expected_output = "# HELP test_name test_help\n# TYPE test_name gauge\ntest_name{device_name=\"test\",device_type=\"test\",discovery_source=\"test\",ip_address=\"test\"} 1 TIMESTAMP_PLACEHOLDER\n";
    let result = render_livebox_devices_metric(&devices, "test_name", "test_help", |d| {
        if d.active {
            1
        } else {
            0
        }
    });
    let expected_output_with_timestamp =
        expected_output.replace("TIMESTAMP_PLACEHOLDER", &last_token(&result));
    assert_eq!(result, expected_output_with_timestamp);
}

#[test]
fn status_value_is_one_only_when_up() {
    assert_eq!(status_up_value(&status_with("Up")), 1);
    assert_eq!(status_up_value(&status_with("up")), 0);
    assert_eq!(status_up_value(&status_with("Down")), 0);
    assert_eq!(status_up_value(&status_with("")), 0);
    let r = render_livebox_info_metric(&status_with("Down"), "n", "h", status_up_value);
    assert!(r.contains("base_mac=\"test\"} 0 "));
}

#[test]
fn port_values_follow_their_own_state() {
    let wan = wan_with("up", "down");
    assert!(render_livebox_status_metric(&wan, "w", "wan").contains("} 1 "));
    assert!(render_livebox_status_metric(&wan, "l", "link").contains("} 0 "));
    let wan = wan_with("down", "up");
    assert!(render_livebox_status_metric(&wan, "w", "wan").contains("} 0 "));
    let link = render_livebox_status_metric(&wan, "l", "link");
    assert!(link.contains("} 1 "));
    assert!(link.starts_with("# HELP l Livebox link status\n# TYPE l gauge\nl{port=\"link\","));
}

#[test]
fn traffic_lines_fan_out_over_interfaces_and_samples() {
    let sample = |n: u64| TrafficData { rx_counter: n, tx_counter: n + 100, timestamp: n };
    let iface = |name: &str| (name.to_string(), DeviceMetrics { traffic: vec![sample(1), sample(2), sample(3)] });
    let metrics = vec![
        Metrics { status: vec![iface("eth0")] },
        Metrics { status: vec![iface("eth1"), iface("wl0")] },
    ];
    let r = render_livebox_interface_metric(&metrics, "n", "h", |e: &TrafficData| e.tx_counter, "tx");
    let lines: Vec<&str> = r.lines().filter(|l| !l.starts_with('#')).collect();
    assert_eq!(lines.len(), 9);
    assert!(lines[0].starts_with("n{interface_name=\"eth0\",direction=\"tx\"} 101 "));
    assert!(lines[8].starts_with("n{interface_name=\"wl0\",direction=\"tx\"} 103 "));
    let empty = render_livebox_interface_metric(&[], "n", "h", |e: &TrafficData| e.rx_counter, "rx");
    assert_eq!(empty, "# HELP n h\n# TYPE n gauge\n");
}

#[test]
fn device_without_address_has_empty_label() {
    let devices = vec![test_device(false, None), test_device(true, Some("10.0.0.2"))];
    let r = render_livebox_devices_metric(&devices, "d", "h", device_active_value);
    let lines: Vec<&str> = r.lines().collect();
    assert_eq!(lines.len(), 4);
    assert!(lines[2].starts_with("d{device_name=\"test\",device_type=\"test\",discovery_source=\"test\",ip_address=\"\"} 0 "));
    assert!(lines[3].contains("ip_address=\"10.0.0.2\"} 1 "));
}

#[test]
fn exposition_holds_every_family_in_order() {
    let status = status_with("Up");
    let wan = wan_with("up", "down");
    let metrics = vec![Metrics {
        status: vec![(
            "eth0".to_string(),
            DeviceMetrics { traffic: vec![TrafficData { rx_counter: 1259440, tx_counter: 9696752, timestamp: 1711483314 }] },
        )],
    }];
    let devices = vec![test_device(true, Some("192.168.1.20"))];
    let text = render_exposition(&status, &wan, &metrics, &devices, 42);
    let expected = [
        "# HELP livebox_infos_status Livebox general status",
        "livebox_infos_status{hardware=\"livebox\",manufacturer=\"test\",manufacturer_oui=\"test\",model_name=\"test\",product_class=\"test\",serial_number=\"test\",hardware_version=\"test\",software_version=\"test\",country=\"test\",external_ip_address=\"test\",base_mac=\"test\"} 1 42",
        "livebox_infos_uptime{hardware=\"livebox\"",
        "} 12345 42",
        "livebox_infos_reboot{",
        "} 10 42",
        "# HELP livebox_wan_status Livebox wan status",
        "livebox_wan_status{port=\"wan\",link_type=\"test\",protocol=\"test\",mac_address=\"test\",ip_address=\"test\",remote_gateway=\"test\",remote_gadns_serversteway=\"test\",ipv6_address=\"test\"} 1 42",
        "livebox_link_status{port=\"link\"",
        "} 0 42",
        "livebox_interface_bytes_rx{interface_name=\"eth0\",direction=\"rx\"} 1259440 42",
        "livebox_interface_bytes_tx{interface_name=\"eth0\",direction=\"tx\"} 9696752 42",
        "# HELP livebox_device_status Livebox connected devices status",
        "livebox_device_status{device_name=\"test\",device_type=\"test\",discovery_source=\"test\",ip_address=\"192.168.1.20\"} 1 42",
    ];
    let mut at = 0;
    for piece in expected {
        let found = text[at..].find(piece).unwrap_or_else(|| panic!("missing {piece}"));
        at += found + piece.len();
    }
    assert_eq!(text.lines().filter(|l| l.starts_with("# TYPE")).count(), 8);
    assert!(!text.contains("\n\n"));
}

#[test]
fn decoded_answers_render_end_to_end() {
    let resp = |body: &str| RpcResponse { status_code: 200, set_cookies: vec![], body: body.as_bytes().to_vec() };
    let metrics = Client::get_metrics(&resp(
        r#"{"status":{"eth0":{"Traffic":[{"Timestamp":1711483314,"Rx_Counter":1259440,"Tx_Counter":9696752}]}}}"#,
    ))
    .unwrap();
    let devices = Client::get_devices(&resp(
        r#"{"status":[{"Key":"k","Name":"phone","DiscoverySource":"dhcp","Active":true,"DeviceType":"Mobile","Tags":""}]}"#,
    ))
    .unwrap();
    let text = render_exposition(&status_with("Up"), &wan_with("up", "up"), &metrics, &devices, 7);
    assert!(text.contains("livebox_interface_bytes_rx{interface_name=\"eth0\",direction=\"rx\"} 1259440 7\n"));
    assert!(text.contains("livebox_device_status{device_name=\"phone\",device_type=\"Mobile\",discovery_source=\"dhcp\",ip_address=\"\"} 1 7\n"));
}
