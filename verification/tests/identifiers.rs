use gdble::event::{canonical_uuid, canonical_uuid_outcome, DeviceId, EventContext, GattKey};

#[test]
fn device_id_normalizes_case_and_whitespace() {
    let id = DeviceId::parse("  AA:BB:CC:DD:EE:FF  ").expect("valid device id");
    assert_eq!(id.as_str(), "aa:bb:cc:dd:ee:ff");
}

#[test]
fn device_id_rejects_empty_input() {
    let error = DeviceId::parse("   ").expect_err("empty device id must fail");
    assert_eq!(error.code(), "INVALID_ARGUMENT");
}

#[test]
fn gatt_key_normalizes_uuid_strings() {
    let key = GattKey::parse(
        "0000180D-0000-1000-8000-00805F9B34FB",
        "00002A37-0000-1000-8000-00805F9B34FB",
    )
    .expect("valid GATT UUIDs");
    assert_eq!(key.service_uuid(), "0000180d-0000-1000-8000-00805f9b34fb");
}

#[test]
fn device_id_keeps_non_ascii_letters_and_inner_spaces() {
    let id = DeviceId::parse("\t Ab Ä:9 \n").expect("valid device id");
    assert_eq!(id.as_str(), "ab Ä:9");
}

#[test]
fn device_id_empty_message_names_the_problem() {
    let error = DeviceId::parse("").expect_err("empty device id must fail");
    assert_eq!(error.to_string(), "无效的参数: device address is empty");
}

#[test]
fn device_ids_compare_by_normalized_text() {
    let a = DeviceId::parse("AA:BB").unwrap();
    let b = DeviceId::parse(" aa:bb ").unwrap();
    let c = DeviceId::parse("aa:bc").unwrap();
    assert!(a.same_as(&b));
    assert!(!a.same_as(&c));
    assert_eq!(a.clone().as_str(), "aa:bb");
}

#[test]
fn gatt_key_normalizes_both_uuids() {
    let key = GattKey::parse(
        " 0000180D-0000-1000-8000-00805F9B34FB ",
        "{00002A37-0000-1000-8000-00805F9B34FB}",
    )
    .expect("valid GATT UUIDs");
    assert_eq!(key.service_uuid(), "0000180d-0000-1000-8000-00805f9b34fb");
    assert_eq!(key.characteristic_uuid(), "00002a37-0000-1000-8000-00805f9b34fb");
}

#[test]
fn gatt_key_accepts_simple_uuid_form() {
    let key = GattKey::parse(
        "0000180d00001000800000805f9b34fb",
        "00002a37-0000-1000-8000-00805f9b34fb",
    )
    .expect("valid GATT UUIDs");
    assert_eq!(key.service_uuid(), "0000180d-0000-1000-8000-00805f9b34fb");
}

#[test]
fn gatt_key_reports_the_service_uuid_first() {
    let error = GattKey::parse(" not-a-uuid ", "also bad").expect_err("invalid UUIDs");
    assert_eq!(error.code(), "INVALID_UUID");
    assert_eq!(error.to_string(), "无效的 UUID: not-a-uuid");
}

#[test]
fn gatt_key_reports_a_bad_characteristic_uuid() {
    let error = GattKey::parse("0000180d-0000-1000-8000-00805f9b34fb", "xyz")
        .expect_err("invalid characteristic UUID");
    assert_eq!(error.code(), "INVALID_UUID");
    assert_eq!(error.to_string(), "无效的 UUID: xyz");
}

#[test]
fn gatt_keys_compare_by_parts() {
    let a = GattKey::parse(
        "0000180d-0000-1000-8000-00805f9b34fb",
        "00002a37-0000-1000-8000-00805f9b34fb",
    )
    .unwrap();
    let b = GattKey::parse(
        "0000180f-0000-1000-8000-00805f9b34fb",
        "00002a37-0000-1000-8000-00805f9b34fb",
    )
    .unwrap();
    assert!(!a.same_as(&b));
    assert!(a.same_characteristic(&b));
    assert!(!a.same_service(&b));
    assert!(a.same_as(&a.clone()));
    assert!(a.has_characteristic(&"00002a37-0000-1000-8000-00805f9b34fb".to_string()));
}

#[test]
fn canonical_uuid_lowers_and_hyphenates() {
    assert_eq!(
        canonical_uuid("0000180D-0000-1000-8000-00805F9B34FB").unwrap(),
        "0000180d-0000-1000-8000-00805f9b34fb"
    );
    assert_eq!(canonical_uuid("   ").unwrap_err().code(), "INVALID_UUID");
}

#[test]
fn canonical_uuid_outcome_uses_the_parser_result() {
    assert_eq!(
        canonical_uuid_outcome("X", Some("0000180d-0000-1000-8000-00805f9b34fb".to_string()))
            .unwrap(),
        "0000180d-0000-1000-8000-00805f9b34fb"
    );
    let error = canonical_uuid_outcome(" X ", None).unwrap_err();
    assert_eq!(error.code(), "INVALID_UUID");
    assert_eq!(error.to_string(), "无效的 UUID:  X ");
}

#[test]
fn event_contexts_name_device_and_characteristic() {
    let device = DeviceId::parse("AA:BB:CC:DD:EE:FF").unwrap();
    let key = GattKey::parse(
        "0000180d-0000-1000-8000-00805f9b34fb",
        "00002a37-0000-1000-8000-00805f9b34fb",
    )
    .unwrap();
    let device_context = EventContext::for_device(&device);
    assert_eq!(device_context.device_address, "aa:bb:cc:dd:ee:ff");
    assert_eq!(device_context.service_uuid, "");
    assert_eq!(device_context.characteristic_uuid, "");
    let gatt = EventContext::for_gatt(&device, &key);
    assert_eq!(gatt.device_address, "aa:bb:cc:dd:ee:ff");
    assert_eq!(gatt.service_uuid, "0000180d-0000-1000-8000-00805f9b34fb");
    assert_eq!(gatt.characteristic_uuid, "00002a37-0000-1000-8000-00805f9b34fb");
    let empty = EventContext::default();
    assert_eq!(empty.device_address, "");
}

#[test]
fn canonical_keys_parse_back_to_themselves() {
    let key = GattKey::parse(
        "{0000180D-0000-1000-8000-00805F9B34FB}",
        "urn:uuid:00002A37-0000-1000-8000-00805F9B34FB",
    )
    .expect("valid GATT UUIDs");
    assert_eq!(key.characteristic_uuid(), "00002a37-0000-1000-8000-00805f9b34fb");
    let again = GattKey::parse(key.service_uuid(), key.characteristic_uuid()).unwrap();
    assert!(again.same_as(&key));
}

#[test]
fn device_ids_compare_and_hash_by_normalized_text() {
    let a = DeviceId::parse("AA:BB").unwrap();
    let b = DeviceId::parse(" aa:bb ").unwrap();
    assert_eq!(a, b);
    let mut set = std::collections::HashSet::new();
    set.insert(a);
    assert!(!set.insert(b));
}
