use gdble::device::{local_gatt_context, BleDevice, DeviceSignal, DeviceState};
use gdble::event::{
    BleEvent, DeviceId, DeviceProgressKind, EventContext, EventData, GattKey, Operation,
    OperationId,
};
use gdble::info::{BleServiceInfo, DeviceInfo};
use gdble::types::BleError;

fn handle() -> BleDevice {
    BleDevice::new("aa:bb".to_string(), "AA:BB".to_string(), "Sensor".to_string())
}

fn context() -> EventContext {
    EventContext::for_device(&DeviceId::parse("AA:BB").unwrap())
}

fn gatt() -> EventContext {
    let key = GattKey::parse(
        "0000180d-0000-1000-8000-00805f9b34fb",
        "00002a37-0000-1000-8000-00805f9b34fb",
    )
    .unwrap();
    EventContext::for_gatt(&DeviceId::parse("AA:BB").unwrap(), &key)
}

#[test]
fn connection_lifecycle_moves_the_state() {
    let mut device = handle();
    assert_eq!(device.state(), DeviceState::Disconnected);
    let started = BleEvent::started(Operation::Connect, OperationId::new(1), context());
    assert!(matches!(device.apply_event(&started).as_slice(), [DeviceSignal::Event]));
    assert_eq!(device.state(), DeviceState::Connecting);
    let done = BleEvent::succeeded(Operation::Connect, OperationId::new(1), context(), EventData::Empty);
    assert!(matches!(
        device.apply_event(&done).as_slice(),
        [DeviceSignal::Event, DeviceSignal::Connected]
    ));
    assert!(device.is_connected());
    let remote = BleEvent::received(Operation::Disconnect, context(), EventData::Empty);
    assert!(matches!(
        device.apply_event(&remote).as_slice(),
        [DeviceSignal::Event, DeviceSignal::Disconnected]
    ));
    assert!(!device.is_connected());
}

#[test]
fn failed_connect_reports_connection_failed() {
    let mut device = handle();
    let failed = BleEvent::failed(
        Operation::Connect,
        OperationId::new(2),
        context(),
        BleError::ConnectionFailed("rejected".to_string()),
    );
    match device.apply_event(&failed).as_slice() {
        [DeviceSignal::Event, DeviceSignal::ConnectionFailed(error)] => {
            assert_eq!(error, "连接失败: rejected")
        }
        other => panic!("unexpected signals {other:?}"),
    }
    assert_eq!(device.state(), DeviceState::Disconnected);
}

#[test]
fn failed_disconnect_keeps_the_device_connected() {
    let mut device = handle();
    device.apply_event(&BleEvent::started(Operation::Disconnect, OperationId::new(3), context()));
    assert_eq!(device.state(), DeviceState::Disconnecting);
    let failed = BleEvent::failed(
        Operation::Disconnect,
        OperationId::new(3),
        context(),
        BleError::OperationFailed("busy".to_string()),
    );
    match device.apply_event(&failed).as_slice() {
        [DeviceSignal::Event, DeviceSignal::OperationFailed { operation, error }] => {
            assert_eq!(operation, "disconnect");
            assert_eq!(error, "操作失败: busy");
        }
        other => panic!("unexpected signals {other:?}"),
    }
    assert_eq!(device.state(), DeviceState::Connected);
}

#[test]
fn events_of_other_devices_are_ignored() {
    let mut device = handle();
    let other = EventContext::for_device(&DeviceId::parse("CC:DD").unwrap());
    let started = BleEvent::started(Operation::Connect, OperationId::new(1), other);
    assert!(device.apply_event(&started).is_empty());
    assert_eq!(device.state(), DeviceState::Disconnected);
}

#[test]
fn gatt_results_become_device_signals() {
    let mut device = handle();
    let services = vec![BleServiceInfo::new(
        "0000180d-0000-1000-8000-00805f9b34fb".to_string(),
        Vec::new(),
    )];
    let discovered = BleEvent::succeeded(
        Operation::DiscoverServices,
        OperationId::new(4),
        context(),
        EventData::Services(services),
    );
    assert!(matches!(
        device.apply_event(&discovered).as_slice(),
        [DeviceSignal::Event, DeviceSignal::ServicesDiscovered(s)] if s.len() == 1
    ));
    assert_eq!(device.get_services()[0].uuid, "0000180d-0000-1000-8000-00805f9b34fb");

    let read = BleEvent::succeeded(Operation::Read, OperationId::new(5), gatt(), EventData::Bytes(vec![7]));
    match device.apply_event(&read).as_slice() {
        [DeviceSignal::Event, DeviceSignal::CharacteristicRead { characteristic_uuid, data }] => {
            assert_eq!(characteristic_uuid, "00002a37-0000-1000-8000-00805f9b34fb");
            assert_eq!(data, &vec![7]);
        }
        other => panic!("unexpected signals {other:?}"),
    }
    let written = BleEvent::succeeded(Operation::Write, OperationId::new(6), gatt(), EventData::Empty);
    assert!(matches!(
        device.apply_event(&written).as_slice(),
        [DeviceSignal::Event, DeviceSignal::CharacteristicWritten(_)]
    ));
    let notified = BleEvent::received(Operation::Notification, gatt(), EventData::Bytes(vec![1, 2]));
    assert!(matches!(
        device.apply_event(&notified).as_slice(),
        [DeviceSignal::Event, DeviceSignal::CharacteristicNotified { data, .. }] if data == &vec![1, 2]
    ));
    let failed = BleEvent::failed(
        Operation::Subscribe,
        OperationId::new(7),
        gatt(),
        BleError::SubscribeFailed("no".to_string()),
    );
    match device.apply_event(&failed).as_slice() {
        [DeviceSignal::Event, DeviceSignal::OperationFailed { operation, .. }] => {
            assert_eq!(operation, "subscribe_characteristic")
        }
        other => panic!("unexpected signals {other:?}"),
    }
}

#[test]
fn scan_records_refresh_what_the_handle_shows() {
    let mut device = handle();
    let record = BleEvent::progress(
        OperationId::new(2),
        context(),
        EventData::Device {
            kind: DeviceProgressKind::Updated,
            info: DeviceInfo::new(
                "Aa:Bb".to_string(),
                None,
                None,
                Vec::new(),
                Vec::new(),
                Vec::new(),
                None,
            ),
        },
    );
    assert!(matches!(device.apply_event(&record).as_slice(), [DeviceSignal::Event]));
    assert_eq!(device.get_address(), "Aa:Bb");
    assert_eq!(device.get_name(), "Sensor");
}

#[test]
fn local_rejections_count_up_and_reach_a_handle_without_address() {
    let mut device = BleDevice::new(String::new(), String::new(), String::new());
    let (first, event, signals) = device.reject_local(Operation::Connect, EventContext::default());
    assert_eq!(first, OperationId::new(1));
    assert!(event.terminal);
    assert_eq!(event.error.as_ref().unwrap().code, "NOT_INITIALIZED");
    assert!(matches!(
        signals.as_slice(),
        [DeviceSignal::Event, DeviceSignal::ConnectionFailed(_)]
    ));
    let (second, _, signals) =
        device.reject_local(Operation::Read, local_gatt_context("svc", "chr"));
    assert_eq!(second, OperationId::new(2));
    match signals.as_slice() {
        [DeviceSignal::Event, DeviceSignal::OperationFailed { operation, error }] => {
            assert_eq!(operation, "read_characteristic");
            assert_eq!(error, "蓝牙适配器尚未初始化，请先调用 initialize()");
        }
        other => panic!("unexpected signals {other:?}"),
    }
}

#[test]
fn local_rejection_of_an_addressed_handle_signals_nothing() {
    let mut device = handle();
    let (id, event, signals) = device.reject_local(Operation::Write, local_gatt_context("s", "c"));
    assert_eq!(id, OperationId::new(1));
    assert_eq!(event.context.service_uuid, "s");
    assert_eq!(event.context.characteristic_uuid, "c");
    assert!(signals.is_empty());
    assert_eq!(device.address(), "aa:bb");
}
