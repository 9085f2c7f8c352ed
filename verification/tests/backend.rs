use gdble::backend::{find_characteristic, write_mode};
use gdble::event::GattKey;
use gdble::info::CharacteristicProperties;

fn key() -> GattKey {
    GattKey::parse(
        "0000180d-0000-1000-8000-00805f9b34fb",
        "00002a37-0000-1000-8000-00805f9b34fb",
    )
    .unwrap()
}

fn properties(write: bool, write_without_response: bool) -> CharacteristicProperties {
    CharacteristicProperties {
        read: true,
        write,
        write_without_response,
        notify: false,
        indicate: false,
    }
}

#[test]
fn characteristic_lookup_ignores_case_and_takes_the_first_match() {
    let characteristics = vec![
        (
            "0000180F-0000-1000-8000-00805F9B34FB".to_string(),
            "00002A37-0000-1000-8000-00805F9B34FB".to_string(),
        ),
        (
            "0000180D-0000-1000-8000-00805F9B34FB".to_string(),
            "00002A37-0000-1000-8000-00805F9B34FB".to_string(),
        ),
        (
            "0000180d-0000-1000-8000-00805f9b34fb".to_string(),
            "00002a37-0000-1000-8000-00805f9b34fb".to_string(),
        ),
    ];
    assert_eq!(find_characteristic(&characteristics, &key()).unwrap(), 1);
}

#[test]
fn missing_characteristic_names_the_key() {
    let characteristics = vec![(
        "0000180f-0000-1000-8000-00805f9b34fb".to_string(),
        "00002a19-0000-1000-8000-00805f9b34fb".to_string(),
    )];
    let error = find_characteristic(&characteristics, &key()).unwrap_err();
    assert_eq!(error.code(), "CHARACTERISTIC_NOT_FOUND");
    assert_eq!(
        error.to_string(),
        "未找到特征值 UUID: 00002a37-0000-1000-8000-00805f9b34fb in service 0000180d-0000-1000-8000-00805f9b34fb"
    );
    assert!(find_characteristic(&Vec::new(), &key()).is_err());
}

#[test]
fn write_modes_follow_the_characteristic_properties() {
    assert!(write_mode(properties(true, false), true).unwrap());
    assert!(!write_mode(properties(false, true), false).unwrap());
    let error = write_mode(properties(false, true), true).unwrap_err();
    assert_eq!(error.code(), "WRITE_FAILED");
    assert_eq!(
        error.to_string(),
        "写入特征值失败: characteristic does not support writes with response"
    );
    let error = write_mode(properties(true, false), false).unwrap_err();
    assert_eq!(
        error.to_string(),
        "写入特征值失败: characteristic does not support writes without response"
    );
}
