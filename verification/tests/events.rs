use gdble::event::{
    BleEvent, DeviceProgressKind, EventContext, EventData, EventError, Operation, OperationId,
    Phase,
};
use gdble::info::{AdapterInfo, DeviceInfo};
use gdble::types::BleError;

#[test]
fn failed_event_is_terminal_and_exposes_retryability() {
    let event = BleEvent::failed(
        Operation::Scan,
        OperationId::new(9),
        EventContext::default(),
        BleError::Busy("scan already active".to_string()),
    );
    assert!(event.terminal);
    assert!(!event.error.expect("error payload").retryable);
}

#[test]
fn cancellation_fails_with_the_cancelled_phase() {
    let event = BleEvent::failed(
        Operation::Connect,
        OperationId::new(3),
        EventContext::default(),
        BleError::Cancelled("device disconnected".to_string()),
    );
    assert_eq!(event.phase, Phase::Cancelled);
    assert!(event.terminal);
    let error = event.error.expect("error payload");
    assert_eq!(error.code, "CANCELLED");
    assert_eq!(error.message, "操作已取消: device disconnected");
    assert_eq!(error.legacy_message, error.message);
    assert!(error.details.is_empty());
}

#[test]
fn retryable_errors_are_timeouts_and_link_failures() {
    for error in [
        BleError::Timeout("t".to_string()),
        BleError::ConnectionFailed("c".to_string()),
        BleError::OperationFailed("o".to_string()),
    ] {
        assert!(error.is_retryable());
        assert!(EventError::from_error(error).retryable);
    }
    for error in [
        BleError::NotConnected,
        BleError::QueueFull,
        BleError::ReadFailed("r".to_string()),
    ] {
        assert!(!error.is_retryable());
    }
}

#[test]
fn started_and_succeeded_events_carry_their_phase() {
    let started = BleEvent::started(Operation::Read, OperationId::new(4), EventContext::default());
    assert_eq!(started.phase, Phase::Started);
    assert!(!started.terminal);
    assert!(started.error.is_none());
    let done = BleEvent::succeeded(
        Operation::Read,
        OperationId::new(4),
        EventContext::default(),
        EventData::Bytes(vec![1, 2]),
    );
    assert_eq!(done.phase, Phase::Succeeded);
    assert!(done.terminal);
    assert!(matches!(done.data, EventData::Bytes(ref b) if b == &vec![1, 2]));
}

#[test]
fn progress_and_received_events_are_not_terminal() {
    let info = DeviceInfo::new(
        "AA:BB".to_string(),
        Some("Sensor".to_string()),
        Some(-40),
        Vec::new(),
        Vec::new(),
        Vec::new(),
        None,
    );
    let progress = BleEvent::progress(
        OperationId::new(2),
        EventContext::default(),
        EventData::Device {
            kind: DeviceProgressKind::Discovered,
            info,
        },
    );
    assert_eq!(progress.operation, Operation::Scan);
    assert_eq!(progress.phase, Phase::Progress);
    assert!(!progress.terminal);
    let received = BleEvent::received(
        Operation::Disconnect,
        EventContext::default(),
        EventData::Reason("remote".to_string()),
    );
    assert_eq!(received.phase, Phase::Received);
    assert_eq!(received.operation_id, OperationId::unsolicited());
    assert!(!received.terminal);
}

#[test]
fn protocol_names_are_stable() {
    assert_eq!(Operation::Initialize.as_str(), "initialize");
    assert_eq!(Operation::DiscoverServices.as_str(), "discover_services");
    assert_eq!(Operation::ResolveDevice.as_str(), "resolve_device");
    assert_eq!(Operation::Notification.as_str(), "notification");
    assert_eq!(Phase::Started.as_str(), "started");
    assert_eq!(Phase::Progress.as_str(), "progress");
    assert_eq!(Phase::Cancelled.as_str(), "cancelled");
    assert_eq!(Phase::Received.as_str(), "received");
    assert_eq!(DeviceProgressKind::Discovered.as_str(), "discovered");
    assert_eq!(DeviceProgressKind::Updated.as_str(), "updated");
}

#[test]
fn operation_ids_round_trip() {
    assert_eq!(OperationId::new(42).get(), 42);
    assert_eq!(OperationId::unsolicited().get(), 0);
}

#[test]
fn error_codes_and_messages() {
    let cases: Vec<(BleError, &str, &str)> = vec![
        (BleError::AdapterNotFound, "ADAPTER_NOT_FOUND", "未找到蓝牙适配器，请确保系统蓝牙已启用"),
        (BleError::DeviceNotFound("x".to_string()), "DEVICE_NOT_FOUND", "未找到指定的蓝牙设备: x"),
        (BleError::NotConnected, "NOT_CONNECTED", "设备未连接，请先连接设备"),
        (BleError::InvalidUuid("u".to_string()), "INVALID_UUID", "无效的 UUID: u"),
        (BleError::ServiceNotFound("s".to_string()), "SERVICE_NOT_FOUND", "未找到服务 UUID: s"),
        (BleError::CharacteristicNotFound("c".to_string()), "CHARACTERISTIC_NOT_FOUND", "未找到特征值 UUID: c"),
        (BleError::ScanFailed("f".to_string()), "SCAN_FAILED", "扫描失败: f"),
        (BleError::InitializationFailed("i".to_string()), "INITIALIZATION_FAILED", "初始化失败: i"),
        (BleError::WriteFailed("w".to_string()), "WRITE_FAILED", "写入特征值失败: w"),
        (BleError::SubscribeFailed("s".to_string()), "SUBSCRIBE_FAILED", "订阅通知失败: s"),
        (BleError::UnsubscribeFailed("s".to_string()), "UNSUBSCRIBE_FAILED", "取消订阅失败: s"),
        (BleError::ServiceDiscoveryFailed("d".to_string()), "SERVICE_DISCOVERY_FAILED", "服务发现失败: d"),
        (BleError::PermissionDenied("p".to_string()), "PERMISSION_DENIED", "权限被拒绝: p"),
        (BleError::Timeout("t".to_string()), "TIMEOUT", "操作超时: t"),
        (BleError::InternalError("e".to_string()), "INTERNAL_ERROR", "内部错误: e"),
        (BleError::NotInitialized, "NOT_INITIALIZED", "蓝牙适配器尚未初始化，请先调用 initialize()"),
        (BleError::QueueFull, "QUEUE_FULL", "命令队列已满，请稍后重试"),
        (BleError::AmbiguousCharacteristic("a".to_string()), "AMBIGUOUS_CHARACTERISTIC", "特征值 UUID 在多个服务中重复，无法区分通知: a"),
        (BleError::AndroidNotInitialized("n".to_string()), "ANDROID_NOT_INITIALIZED", "Android 蓝牙桥接未初始化: n"),
    ];
    for (error, code, message) in cases {
        assert_eq!(error.code(), code);
        assert_eq!(error.error_code(), code);
        assert_eq!(error.to_string(), message);
        assert_eq!(error.legacy_message(), message);
    }
}

#[test]
fn adapter_info_keeps_its_parts() {
    let info = AdapterInfo::new("hci0".to_string(), Some("00:11".to_string()));
    let copy = info.clone();
    assert_eq!(copy.name, "hci0");
    assert_eq!(copy.address.as_deref(), Some("00:11"));
}
