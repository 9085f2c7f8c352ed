use gdble::event::{
    BleEvent, DeviceProgressKind, EventContext, EventData, Operation, OperationId, Phase,
};
use gdble::info::{AdapterInfo, DeviceInfo};
use gdble::manager::{
    legacy_error, BluetoothManager, ManagerSignal, ResolveOutcome, EVENTS_PER_FRAME,
};
use gdble::types::BleError;

#[test]
fn per_frame_event_budget_is_bounded() {
    assert_eq!(EVENTS_PER_FRAME, 256);
}

fn initialized_manager() -> BluetoothManager {
    let mut manager = BluetoothManager::new();
    let event = BleEvent::succeeded(
        Operation::Initialize,
        OperationId::new(1),
        EventContext::default(),
        EventData::Adapter(AdapterInfo::new("hci0".to_string(), None)),
    );
    let signals = manager.apply_event(&event);
    assert!(matches!(
        signals.as_slice(),
        [ManagerSignal::AdapterInitialized { success: true, error }] if error.is_empty()
    ));
    manager
}

fn discovered(address: &str, name: Option<&str>, kind: DeviceProgressKind, scan: i64) -> BleEvent {
    BleEvent::progress(
        OperationId::new(scan),
        EventContext::default(),
        EventData::Device {
            kind,
            info: DeviceInfo::new(
                address.to_string(),
                name.map(str::to_string),
                Some(-50),
                Vec::new(),
                Vec::new(),
                Vec::new(),
                None,
            ),
        },
    )
}

#[test]
fn initialization_result_fills_the_caches() {
    let manager = initialized_manager();
    assert!(manager.is_initialized());
    assert_eq!(manager.get_adapter_info().expect("adapter").name, "hci0");
}

#[test]
fn failed_initialization_reports_adapter_and_error_signals() {
    let mut manager = initialized_manager();
    let event = BleEvent::failed(
        Operation::Initialize,
        OperationId::new(2),
        EventContext::default(),
        BleError::AdapterNotFound,
    );
    let signals = manager.apply_event(&event);
    assert!(!manager.is_initialized());
    assert!(manager.get_adapter_info().is_none());
    match signals.as_slice() {
        [ManagerSignal::AdapterInitialized { success: false, error }, ManagerSignal::ErrorOccurred(again)] => {
            assert_eq!(error, "未找到蓝牙适配器，请确保系统蓝牙已启用");
            assert_eq!(again, error);
        }
        other => panic!("unexpected signals {other:?}"),
    }
}

#[test]
fn legacy_error_falls_back_to_a_generic_text() {
    let event = BleEvent::started(Operation::Scan, OperationId::new(1), EventContext::default());
    assert_eq!(legacy_error(&event), "操作失败");
}

#[test]
fn followed_scan_signals_start_once_and_stop_once() {
    let mut manager = initialized_manager();
    manager.record_scan_request(OperationId::new(5));
    manager.record_scan_request(OperationId::new(6));
    assert_eq!(manager.active_scan_id(), OperationId::new(5));

    let started = BleEvent::started(Operation::Scan, OperationId::new(5), EventContext::default());
    assert!(matches!(manager.apply_event(&started).as_slice(), [ManagerSignal::ScanStarted]));
    assert!(manager.apply_event(&started).is_empty());

    let other = BleEvent::started(Operation::Scan, OperationId::new(6), EventContext::default());
    assert!(manager.apply_event(&other).is_empty());

    let done = BleEvent::succeeded(
        Operation::Scan,
        OperationId::new(5),
        EventContext::default(),
        EventData::Empty,
    );
    assert!(matches!(manager.apply_event(&done).as_slice(), [ManagerSignal::ScanStopped]));
    assert_eq!(manager.active_scan_id(), OperationId::unsolicited());
    assert!(manager.apply_event(&done).is_empty());
}

#[test]
fn failed_followed_scan_reports_error_then_stop() {
    let mut manager = initialized_manager();
    manager.record_scan_request(OperationId::new(8));
    let started = BleEvent::started(Operation::Scan, OperationId::new(8), EventContext::default());
    manager.apply_event(&started);
    let failed = BleEvent::failed(
        Operation::Scan,
        OperationId::new(8),
        EventContext::default(),
        BleError::ScanFailed("radio".to_string()),
    );
    match manager.apply_event(&failed).as_slice() {
        [ManagerSignal::ErrorOccurred(error), ManagerSignal::ScanStopped] => {
            assert_eq!(error, "扫描失败: radio")
        }
        other => panic!("unexpected signals {other:?}"),
    }
}

#[test]
fn scan_records_are_kept_per_normalized_address() {
    let mut manager = initialized_manager();
    let first = discovered("AA:BB", Some("One"), DeviceProgressKind::Discovered, 3);
    assert!(matches!(
        manager.apply_event(&first).as_slice(),
        [ManagerSignal::DeviceDiscovered(info)] if info.address == "AA:BB"
    ));
    let update = discovered(" aa:bb ", Some("Renamed"), DeviceProgressKind::Updated, 3);
    assert!(matches!(
        manager.apply_event(&update).as_slice(),
        [ManagerSignal::DeviceUpdated(_)]
    ));
    let second = discovered("CC:DD", None, DeviceProgressKind::Discovered, 3);
    manager.apply_event(&second);
    let devices = manager.get_discovered_devices();
    assert_eq!(devices.len(), 2);
    assert_eq!(devices[0].name.as_deref(), Some("Renamed"));
    assert_eq!(devices[1].address, "CC:DD");
}

#[test]
fn get_or_create_device_refuses_blank_and_uninitialized_requests() {
    let mut manager = BluetoothManager::new();
    match manager.get_or_create_device("  ") {
        ResolveOutcome::Rejected(rejection) => {
            assert_eq!(rejection.error.code(), "INVALID_ARGUMENT");
            assert_eq!(rejection.context.device_address, "");
        }
        other => panic!("unexpected outcome {other:?}"),
    }
    match manager.get_or_create_device("AA:BB") {
        ResolveOutcome::Rejected(rejection) => {
            assert_eq!(rejection.error.code(), "NOT_INITIALIZED");
            assert_eq!(rejection.context.device_address, "aa:bb");
        }
        other => panic!("unexpected outcome {other:?}"),
    }
}

#[test]
fn get_or_create_device_uses_the_scan_record_then_reuses_the_handle() {
    let mut manager = initialized_manager();
    manager.apply_event(&discovered("AA:BB", Some("Sensor"), DeviceProgressKind::Discovered, 3));
    match manager.get_or_create_device(" aa:BB ") {
        ResolveOutcome::Create { key, display_address, name } => {
            assert_eq!(key, "aa:bb");
            assert_eq!(display_address, "AA:BB");
            assert_eq!(name, "Sensor");
        }
        other => panic!("unexpected outcome {other:?}"),
    }
    assert!(manager.has_device("aa:bb"));
    match manager.connect_device("AA:BB") {
        ResolveOutcome::Existing { key } => assert_eq!(key, "aa:bb"),
        other => panic!("unexpected outcome {other:?}"),
    }
    match manager.get_or_create_device(" EE:FF ") {
        ResolveOutcome::Create { key, display_address, name } => {
            assert_eq!(key, "ee:ff");
            assert_eq!(display_address, "EE:FF");
            assert_eq!(name, "");
        }
        other => panic!("unexpected outcome {other:?}"),
    }
    assert_eq!(manager.get_device("ee:ff").expect("handle").as_str(), "ee:ff");
    assert!(manager.get_device("11:22").is_none());
    assert!(manager.get_device("").is_none());
}

#[test]
fn disconnect_device_needs_a_handle() {
    let mut manager = initialized_manager();
    match manager.disconnect_device(" AA:BB ") {
        Err(rejection) => {
            assert_eq!(rejection.error.code(), "DEVICE_NOT_FOUND");
            assert_eq!(rejection.error.to_string(), "未找到指定的蓝牙设备: AA:BB");
            assert_eq!(rejection.context.device_address, "aa:bb");
        }
        Ok(device) => panic!("unexpected device {device:?}"),
    }
    assert_eq!(
        manager.disconnect_device("").unwrap_err().error.code(),
        "INVALID_ARGUMENT"
    );
    manager.get_or_create_device("AA:BB");
    assert_eq!(manager.disconnect_device("aa:bb").unwrap().as_str(), "aa:bb");
}

#[test]
fn device_events_reach_only_devices_with_handles() {
    let mut manager = initialized_manager();
    manager.get_or_create_device("AA:BB");
    let device = gdble::event::DeviceId::parse("aa:bb").unwrap();
    let connected = BleEvent::succeeded(
        Operation::Connect,
        OperationId::new(4),
        EventContext::for_device(&device),
        EventData::Empty,
    );
    assert!(manager.forwards_to_device(&connected));
    match manager.apply_event(&connected).as_slice() {
        [ManagerSignal::DeviceConnected(address)] => assert_eq!(address, "aa:bb"),
        other => panic!("unexpected signals {other:?}"),
    }
    let unrelated = BleEvent::started(Operation::Scan, OperationId::new(9), EventContext::default());
    assert!(!manager.forwards_to_device(&unrelated));
    let disconnected = BleEvent::received(
        Operation::Disconnect,
        EventContext::for_device(&device),
        EventData::Empty,
    );
    assert!(matches!(
        manager.apply_event(&disconnected).as_slice(),
        [ManagerSignal::DeviceDisconnected(_)]
    ));
}

#[test]
fn clearing_forgets_handles_and_initialization() {
    let mut manager = initialized_manager();
    manager.get_or_create_device("AA:BB");
    manager.clear();
    assert!(!manager.is_initialized());
    assert!(!manager.has_device("aa:bb"));
}

#[test]
fn resolve_failures_are_reported_as_errors() {
    let mut manager = initialized_manager();
    let failed = BleEvent::failed(
        Operation::ResolveDevice,
        OperationId::new(2),
        EventContext::default(),
        BleError::NotInitialized,
    );
    assert!(matches!(
        manager.apply_event(&failed).as_slice(),
        [ManagerSignal::ErrorOccurred(_)]
    ));
}

#[test]
fn connect_device_resolves_exactly_like_get_or_create_device() {
    let mut by_alias = initialized_manager();
    let mut by_name = initialized_manager();
    for input in ["AA:BB", " aa:bb ", "", "CC:DD"] {
        let alias = format!("{:?}", by_alias.connect_device(input));
        let name = format!("{:?}", by_name.get_or_create_device(input));
        assert_eq!(alias, name);
    }
    assert_eq!(
        by_alias.get_device("cc:dd").map(|d| d.as_str().to_string()),
        by_name.get_device("cc:dd").map(|d| d.as_str().to_string())
    );
}
