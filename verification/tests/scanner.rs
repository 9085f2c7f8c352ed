use gdble::scanner::{BluetoothScanner, ScannedDevice, ScannedEvent, MAX_SCAN_EVENTS};
use gdble::types::BleError;

fn device(address: &str, name: Option<&str>, rssi: i16) -> ScannedDevice {
    ScannedDevice {
        address: address.to_string(),
        name: name.map(str::to_string),
        rssi: Some(rssi),
    }
}

#[test]
fn a_second_scan_is_refused_while_one_runs() {
    let mut scanner = BluetoothScanner::new();
    assert!(!scanner.is_scanning());
    scanner.begin_scan().unwrap();
    assert!(scanner.is_scanning());
    let error = scanner.begin_scan().unwrap_err();
    assert_eq!(error.code(), "SCAN_FAILED");
    assert_eq!(error.to_string(), "扫描失败: Already scanning");
}

#[test]
fn collected_devices_are_kept_by_address_and_dropped_by_the_next_scan() {
    let mut scanner = BluetoothScanner::new();
    scanner.begin_scan().unwrap();
    let seen = scanner
        .collect_event(0, ScannedEvent::Discovered(Some(device("A", Some("One"), -40))))
        .unwrap();
    let seen = scanner.collect_event(seen, ScannedEvent::Other).unwrap();
    let seen = scanner
        .collect_event(seen, ScannedEvent::Updated(Some(device("A", None, -30))))
        .unwrap();
    let seen = scanner.collect_event(seen, ScannedEvent::Discovered(None)).unwrap();
    let seen = scanner
        .collect_event(seen, ScannedEvent::Discovered(Some(device("B", Some("Two"), -70))))
        .unwrap();
    assert_eq!(seen, 5);
    let devices = scanner.get_devices();
    assert_eq!(devices.len(), 2);
    assert_eq!(devices[0].address, "A");
    assert_eq!(devices[0].name, None);
    assert_eq!(devices[0].rssi, Some(-30));
    assert_eq!(devices[1].name.as_deref(), Some("Two"));

    assert!(scanner.finish_scan(Ok(()), None).is_ok());
    assert_eq!(scanner.get_devices().len(), 2);
    scanner.begin_scan().unwrap();
    assert!(scanner.get_devices().is_empty());
}

#[test]
fn collection_stops_after_the_event_limit() {
    let mut scanner = BluetoothScanner::new();
    scanner.begin_scan().unwrap();
    assert_eq!(
        scanner.collect_event(MAX_SCAN_EVENTS - 1, ScannedEvent::Other),
        Some(MAX_SCAN_EVENTS)
    );
    assert_eq!(
        scanner.collect_event(
            MAX_SCAN_EVENTS,
            ScannedEvent::Discovered(Some(device("A", None, -1)))
        ),
        None
    );
    assert!(scanner.get_devices().is_empty());
}

#[test]
fn outcomes_of_the_adapter_steps() {
    let mut scanner = BluetoothScanner::new();
    scanner.begin_scan().unwrap();
    let error = scanner.scan_started(Err("radio off".to_string())).unwrap_err();
    assert_eq!(error.to_string(), "扫描失败: radio off");
    assert!(scanner.is_scanning());
    let error = scanner.events_opened(Err("closed".to_string())).unwrap_err();
    assert_eq!(error.to_string(), "扫描失败: Failed to get events: closed");

    let error = scanner
        .finish_scan(Err("stuck".to_string()), Some(Ok(())))
        .unwrap_err();
    assert_eq!(error.to_string(), "扫描失败: Failed to stop scan: stuck");
    assert!(!scanner.is_scanning());

    scanner.begin_scan().unwrap();
    let error = scanner
        .finish_scan(Ok(()), Some(Err(BleError::ScanFailed("x".to_string()))))
        .unwrap_err();
    assert_eq!(error.to_string(), "扫描失败: x");
    scanner.begin_scan().unwrap();
    assert!(scanner.finish_scan(Ok(()), Some(Ok(()))).is_ok());
}

#[test]
fn stopping_only_stops_a_running_scan() {
    let mut scanner = BluetoothScanner::new();
    assert!(!scanner.stop_scan());
    scanner.begin_scan().unwrap();
    assert!(scanner.stop_scan());
    assert!(!scanner.is_scanning());
    assert!(!scanner.stop_scan());
}
