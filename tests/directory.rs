use wifi_connect::directory::{
    filter_access_points, find_access_point, find_device, get_access_points_ssids_owned,
    DeviceInfo, RawAccessPoint, ScanRetry, ScanStep, SCAN_ATTEMPTS,
};
use wifi_connect::command::AccessPointInfo;
use wifi_connect::errors::ErrorKind;

fn dev(name: &str, is_wifi: bool) -> DeviceInfo {
    DeviceInfo { interface: name.to_string(), is_wifi }
}

fn raw(ssid: &[u8], strength: u32) -> RawAccessPoint {
    RawAccessPoint { ssid: ssid.to_vec(), strength }
}

fn ap(ssid: &str, strength: u32, slot: usize) -> AccessPointInfo {
    AccessPointInfo { ssid: ssid.to_string(), strength, slot }
}

#[test]
fn named_interface_that_is_not_wireless_is_refused() {
    let devices = vec![dev("eth0", false), dev("wlan0", true)];
    let r = find_device(&Some("eth0".to_string()), &devices);
    assert_eq!(r, Err(ErrorKind::NotAWiFiDevice("eth0".to_string())));
}

#[test]
fn no_devices_means_no_wifi_device() {
    let r = find_device(&None, &vec![]);
    assert_eq!(r, Err(ErrorKind::NoWiFiDevice));
}

#[test]
fn only_wired_devices_means_no_wifi_device() {
    let r = find_device(&None, &vec![dev("eth0", false), dev("eth1", false)]);
    assert_eq!(r, Err(ErrorKind::NoWiFiDevice));
}

#[test]
fn named_wireless_interface_is_chosen() {
    let devices = vec![dev("wlan0", true), dev("eth0", false), dev("wlan1", true)];
    assert_eq!(find_device(&Some("wlan1".to_string()), &devices), Ok(2));
}

#[test]
fn unknown_interface_name_is_reported() {
    let devices = vec![dev("wlan0", true)];
    let r = find_device(&Some("wlan9".to_string()), &devices);
    assert_eq!(r, Err(ErrorKind::DeviceByInterface("wlan9".to_string())));
}

#[test]
fn first_wireless_device_is_chosen_without_a_name() {
    let devices = vec![dev("eth0", false), dev("wlan0", true), dev("wlan1", true)];
    assert_eq!(find_device(&None, &devices), Ok(1));
}

#[test]
fn undecodable_ssids_are_dropped_in_order() {
    let scan = vec![
        raw(b"home", 70),
        raw(&[0xff, 0xfe, 0x01], 90),
        raw("café".as_bytes(), 40),
        raw(&[0xc3], 10),
        raw(b"home", 20),
    ];
    let r = filter_access_points(&scan);
    assert_eq!(r, vec![ap("home", 70, 0), ap("café", 40, 2), ap("home", 20, 4)]);
}

#[test]
fn empty_scan_filters_to_empty() {
    assert_eq!(filter_access_points(&vec![]), vec![]);
}

#[test]
fn ten_empty_scans_give_up_without_error() {
    let mut retry = ScanRetry::new();
    let empty: Vec<RawAccessPoint> = vec![];
    let mut steps = Vec::new();
    loop {
        let step = retry.on_scan(&empty);
        let done = step == ScanStep::GaveUp;
        steps.push(step);
        if done {
            break;
        }
        assert_eq!(steps.last(), Some(&ScanStep::RetryAfterOneSecond));
    }
    assert_eq!(steps.len(), 10);
    assert_eq!(retry.attempts, SCAN_ATTEMPTS);
}

#[test]
fn undecodable_only_scan_counts_as_empty() {
    let mut retry = ScanRetry::new();
    let step = retry.on_scan(&vec![raw(&[0xff], 50)]);
    assert_eq!(step, ScanStep::RetryAfterOneSecond);
    assert_eq!(retry.attempts, 1);
}

#[test]
fn scan_with_networks_stops_retrying() {
    let mut retry = ScanRetry::new();
    let _ = retry.on_scan(&vec![]);
    let step = retry.on_scan(&vec![raw(b"office", 55)]);
    assert_eq!(step, ScanStep::Found(vec![ap("office", 55, 0)]));
    assert_eq!(retry.attempts, 1);
}

#[test]
fn ssids_are_listed_in_order() {
    let aps = vec![ap("a", 1, 0), ap("b", 2, 1), ap("a", 3, 2)];
    assert_eq!(get_access_points_ssids_owned(&aps), vec!["a".to_string(), "b".to_string(), "a".to_string()]);
}

#[test]
fn first_matching_access_point_is_found() {
    let aps = vec![ap("a", 1, 0), ap("b", 2, 3), ap("b", 3, 5)];
    assert_eq!(find_access_point(&aps, &"b".to_string()), Some(1));
    assert_eq!(find_access_point(&aps, &"c".to_string()), None);
}
