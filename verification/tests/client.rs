use std::time::Duration;

use gdble::android::ensure_initialized;
use gdble::client::{
    next_operation_id, prepare_device_command, start_scan_command, stop_scan_command,
    DeviceRequest,
};
use gdble::command::{CoreCommand, DeviceAction};
use gdble::event::{Operation, OperationId};

#[test]
fn operation_ids_are_positive() {
    assert_eq!(next_operation_id(0), OperationId::new(1));
    assert_eq!(next_operation_id(-5), OperationId::new(1));
    assert_eq!(next_operation_id(17), OperationId::new(17));
}

#[test]
fn device_requests_are_normalized_before_submission() {
    let command = prepare_device_command(
        OperationId::new(3),
        " AA:BB ",
        DeviceRequest::Read {
            service_uuid: "0000180D-0000-1000-8000-00805F9B34FB".to_string(),
            characteristic_uuid: " 00002a37-0000-1000-8000-00805f9b34fb ".to_string(),
        },
    )
    .expect("valid request");
    match command {
        CoreCommand::Device {
            operation_id,
            device,
            action: DeviceAction::Read(key),
        } => {
            assert_eq!(operation_id, OperationId::new(3));
            assert_eq!(device.as_str(), "aa:bb");
            assert_eq!(key.service_uuid(), "0000180d-0000-1000-8000-00805f9b34fb");
            assert_eq!(key.characteristic_uuid(), "00002a37-0000-1000-8000-00805f9b34fb");
        }
        other => panic!("unexpected command {other:?}"),
    }
}

#[test]
fn write_requests_keep_data_and_response_mode() {
    let command = prepare_device_command(
        OperationId::new(4),
        "AA:BB",
        DeviceRequest::Write {
            service_uuid: "0000180d-0000-1000-8000-00805f9b34fb".to_string(),
            characteristic_uuid: "00002a37-0000-1000-8000-00805f9b34fb".to_string(),
            data: vec![9, 8],
            with_response: false,
        },
    )
    .unwrap();
    assert!(matches!(
        command,
        CoreCommand::Device { action: DeviceAction::Write { ref data, with_response: false, .. }, .. } if data == &vec![9, 8]
    ));
}

#[test]
fn bad_requests_fail_locally_without_device_context() {
    let blank = prepare_device_command(OperationId::new(5), "  ", DeviceRequest::Connect)
        .expect_err("blank address");
    assert_eq!(blank.operation, Operation::Connect);
    assert_eq!(blank.operation_id, OperationId::new(5));
    assert!(blank.terminal);
    assert_eq!(blank.context.device_address, "");
    assert_eq!(blank.error.unwrap().code, "INVALID_ARGUMENT");

    let bad_uuid = prepare_device_command(
        OperationId::new(6),
        "AA:BB",
        DeviceRequest::Subscribe {
            service_uuid: "nope".to_string(),
            characteristic_uuid: "00002a37-0000-1000-8000-00805f9b34fb".to_string(),
        },
    )
    .expect_err("bad uuid");
    assert_eq!(bad_uuid.operation, Operation::Subscribe);
    assert_eq!(bad_uuid.context.device_address, "");
    assert_eq!(bad_uuid.error.unwrap().code, "INVALID_UUID");
}

#[test]
fn scan_commands() {
    assert!(stop_scan_command(OperationId::unsolicited()).is_none());
    assert!(matches!(
        stop_scan_command(OperationId::new(2)),
        Some(CoreCommand::StopScan { operation_id }) if operation_id == OperationId::new(2)
    ));
    assert!(matches!(
        start_scan_command(OperationId::new(3), Some(Duration::from_secs(2))),
        CoreCommand::StartScan { timeout: Some(t), .. } if t == Duration::from_secs(2)
    ));
}

#[test]
fn android_bridge_state_decides_availability() {
    assert!(ensure_initialized(Some(&Ok(()))).is_ok());
    let error = ensure_initialized(Some(&Err("no context".to_string()))).unwrap_err();
    assert_eq!(error.code(), "ANDROID_NOT_INITIALIZED");
    assert_eq!(error.to_string(), "Android 蓝牙桥接未初始化: no context");
    let error = ensure_initialized(None).unwrap_err();
    assert_eq!(
        error.to_string(),
        "Android 蓝牙桥接未初始化: GDBLEPlugin.initializeNative() has not been called"
    );
}
