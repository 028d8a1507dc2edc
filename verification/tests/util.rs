use bittorrent_bot::config::{Configuration, ConfigurationError};
use bittorrent_bot::util::{
    format_gateway, get_bittorrent_api_url, get_gateway_address, run_in_docker, HostProbe,
};

fn configuration(url: Option<&str>) -> Configuration {
    Configuration {
        bot_token: "token".to_string(),
        user_id: "42".to_string(),
        username: "admin".to_string(),
        password: "secret".to_string(),
        url: url.map(|u| u.to_string()),
    }
}

fn lines(text: &[&str]) -> Vec<String> {
    text.iter().map(|line| line.to_string()).collect()
}

fn table() -> Vec<String> {
    lines(&[
        "Iface\tDestination\tGateway \tFlags\tRefCnt\tUse\tMetric\tMask\t\tMTU\tWindow\tIRTT",
        "eth0\t000011AC\t00000000\t0001\t0\t0\t0\t0000FFFF\t0\t0\t0",
        "eth0\t00000000\t010011AC\t0003\t0\t0\t0\t00000000\t0\t0\t0",
        "eth1\t00000000\t0101A8C0\t0003\t0\t0\t0\t00000000\t0\t0\t0",
    ])
}

#[test]
fn run_in_docker_when_any_marker_exists() {
    assert!(!run_in_docker(&vec![]));
    assert!(!run_in_docker(&vec![false]));
    assert!(!run_in_docker(&vec![false, false]));
    assert!(run_in_docker(&vec![true, false]));
    assert!(run_in_docker(&vec![false, true]));
    assert!(run_in_docker(&vec![true, true]));
}

#[test]
fn format_gateway_writes_lowest_byte_first() {
    assert_eq!(format_gateway(0x010011AC), "172.17.0.1");
    assert_eq!(format_gateway(0x0101A8C0), "192.168.1.1");
    assert_eq!(format_gateway(0), "0.0.0.0");
    assert_eq!(format_gateway(0xFFFFFFFF), "255.255.255.255");
    assert_eq!(format_gateway(0x64090A7B), "123.10.9.100");
}

#[test]
fn gateway_is_taken_from_the_first_default_route() {
    assert_eq!(get_gateway_address(&table()), Ok(Some("172.17.0.1".to_string())));
}

#[test]
fn gateway_heading_is_not_read() {
    let table = lines(&["x 00000000 0101A8C0", "eth0 00000000 010011AC"]);
    assert_eq!(get_gateway_address(&table), Ok(Some("172.17.0.1".to_string())));
    assert_eq!(get_gateway_address(&lines(&["x 00000000 0101A8C0"])), Ok(None));
    assert_eq!(get_gateway_address(&lines(&["x"])), Ok(None));
    assert_eq!(get_gateway_address(&vec![]), Ok(None));
}

#[test]
fn gateway_is_missing_without_default_route() {
    let table =
        lines(&["Iface Destination Gateway", "eth0 000011AC 00000000", "eth0 0000A8C0 00000000"]);
    assert_eq!(get_gateway_address(&table), Ok(None));
}

#[test]
fn gateway_that_is_no_number_ends_the_search() {
    let table =
        lines(&["Iface Destination Gateway", "eth0 00000000 G10011AC", "eth1 00000000 0101A8C0"]);
    assert_eq!(get_gateway_address(&table), Ok(None));
    let table =
        lines(&["Iface Destination Gateway", "eth0 00000000 1010011AC", "eth1 00000000 0101A8C0"]);
    assert_eq!(get_gateway_address(&table), Ok(None));
}

#[test]
fn gateway_accepts_small_letters_and_a_plus_sign() {
    let table = lines(&["h", "  eth0   00000000   +010011ac  "]);
    assert_eq!(get_gateway_address(&table), Ok(Some("172.17.0.1".to_string())));
}

#[test]
fn line_without_destination_is_malformed() {
    let table = lines(&["Iface Destination Gateway", "eth0", "eth0 00000000 010011AC"]);
    assert_eq!(get_gateway_address(&table), Err(ConfigurationError::RouteTableMalformed));
    let table = lines(&["Iface Destination Gateway", "", "eth0 00000000 010011AC"]);
    assert_eq!(get_gateway_address(&table), Err(ConfigurationError::RouteTableMalformed));
}

#[test]
fn default_route_without_gateway_is_malformed() {
    let table = lines(&["Iface Destination Gateway", "eth0 00000000"]);
    assert_eq!(get_gateway_address(&table), Err(ConfigurationError::RouteTableMalformed));
}

#[test]
fn malformed_line_after_the_default_route_is_not_read() {
    let table = lines(&["Iface Destination Gateway", "eth0 00000000 010011AC", "eth0"]);
    assert_eq!(get_gateway_address(&table), Ok(Some("172.17.0.1".to_string())));
}

#[test]
fn configured_address_wins() {
    let probe = HostProbe { markers: vec![true], route_table: Some(table()) };
    assert_eq!(
        get_bittorrent_api_url(&configuration(Some("http://daemon:9090")), &probe),
        Ok("http://daemon:9090".to_string())
    );
    let unreadable = HostProbe { markers: vec![true], route_table: None };
    assert_eq!(
        get_bittorrent_api_url(&configuration(Some("anything")), &unreadable),
        Ok("anything".to_string())
    );
}

#[test]
fn address_is_the_gateway_inside_a_container() {
    let probe = HostProbe { markers: vec![false, true], route_table: Some(table()) };
    assert_eq!(
        get_bittorrent_api_url(&configuration(None), &probe),
        Ok("http://172.17.0.1:8080/".to_string())
    );
}

#[test]
fn address_is_not_detected_outside_a_container() {
    let probe = HostProbe { markers: vec![false, false], route_table: Some(table()) };
    assert_eq!(
        get_bittorrent_api_url(&configuration(None), &probe),
        Err(ConfigurationError::UrlNotDetected)
    );
    let malformed = HostProbe { markers: vec![], route_table: Some(lines(&["h", "x"])) };
    assert_eq!(
        get_bittorrent_api_url(&configuration(None), &malformed),
        Err(ConfigurationError::UrlNotDetected)
    );
}

#[test]
fn address_is_not_detected_without_default_route() {
    let probe = HostProbe { markers: vec![true], route_table: Some(lines(&["h", "eth0 1 2"])) };
    assert_eq!(
        get_bittorrent_api_url(&configuration(None), &probe),
        Err(ConfigurationError::UrlNotDetected)
    );
}

#[test]
fn unreadable_route_table_is_an_error_inside_a_container() {
    let probe = HostProbe { markers: vec![true], route_table: None };
    assert_eq!(
        get_bittorrent_api_url(&configuration(None), &probe),
        Err(ConfigurationError::RouteTableUnreadable)
    );
}

#[test]
fn malformed_route_table_is_an_error_inside_a_container() {
    let probe = HostProbe { markers: vec![true], route_table: Some(lines(&["h", "eth0"])) };
    assert_eq!(
        get_bittorrent_api_url(&configuration(None), &probe),
        Err(ConfigurationError::RouteTableMalformed)
    );
}
