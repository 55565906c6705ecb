use burp_rust_lib::config::{
    create_default_name, Config, WifiConfig, NAME_MAX_BYTES, PSK_MAX_BYTES, SSID_MAX_BYTES,
};
use burp_rust_lib::mocks::mock_esp_nvs::{MockEspNvs, MockEspNvsStorageError, MockEspNvsValue};
use burp_rust_lib::name::{get_name, init_name};
use burp_rust_lib::traits::read_write::ReadWrite;
use burp_rust_lib::traits::storage::Storage;

const MAC: [u8; 6] = [0x00, 0x1b, 0xc5, 0x0a, 0xff, 0x9e];

#[test]
fn device_name_is_prefix_and_upper_case_hex() {
    let name = init_name(&MAC);
    assert_eq!(get_name(&name), "burp-001BC50AFF9E");
    assert_eq!(name.as_str(), "burp-001BC50AFF9E");
    assert_eq!(name.as_bytes(), b"burp-001BC50AFF9E");
    assert_eq!(get_name(&init_name(&[0; 6])), "burp-000000000000");
    assert_eq!(get_name(&init_name(&[0xff; 6])), "burp-FFFFFFFFFFFF");
    assert_eq!(
        get_name(&init_name(&[0x01, 0x23, 0x45, 0x67, 0x89, 0xab])),
        "burp-0123456789AB"
    );
    assert_eq!(
        get_name(&init_name(&[0xcd, 0xef, 0x10, 0x9a, 0xa9, 0x0f])),
        "burp-CDEF109AA90F"
    );
}

#[test]
fn default_name_matches_device_name() {
    assert_eq!(create_default_name(&MAC), b"burp-001BC50AFF9E".to_vec());
    assert_eq!(create_default_name(&MAC).len(), 17);
}

#[test]
fn capacities_are_as_documented() {
    assert_eq!(NAME_MAX_BYTES, 100);
    assert_eq!(SSID_MAX_BYTES, 32);
    assert_eq!(PSK_MAX_BYTES, 64);
    let config = Config::new(&MAC, "", "");
    assert_eq!(config.name.max_bytes(), 100);
    assert_eq!(config.ssid.max_bytes(), 32);
    assert_eq!(config.psk.max_bytes(), 64);
    assert_eq!(config.name.name(), "name");
    assert_eq!(config.ssid.name(), "ssid");
    assert_eq!(config.psk.name(), "psk");
}

#[test]
fn built_in_credentials_default_to_empty() {
    let built_in = WifiConfig::default();
    assert_eq!(built_in.wifi_ssid, "");
    assert_eq!(built_in.wifi_psk, "");
}

#[test]
fn empty_storage_gives_every_default() {
    let storage = MockEspNvs::from([]);
    let mut config = Config::new(&MAC, "factory-net", "factory-key");
    assert!(config.read(&storage).is_ok());
    assert_eq!(config.ssid.get(), b"factory-net");
    assert_eq!(config.psk.get(), b"factory-key");
    assert_eq!(config.name.get(), b"burp-001BC50AFF9E");
}

#[test]
fn stored_values_replace_defaults() {
    let storage = MockEspNvs::from([
        (String::from("ssid"), MockEspNvsValue::BlobValue(Vec::from("home-net"))),
        (String::from("name"), MockEspNvsValue::BlobValue(Vec::from("kitchen"))),
    ]);
    let mut config = Config::new(&MAC, "factory-net", "factory-key");
    config.read(&storage).unwrap();
    assert_eq!(config.ssid.get(), b"home-net");
    assert_eq!(config.name.get(), b"kitchen");
    assert_eq!(config.psk.get(), b"factory-key");
}

#[test]
fn read_stops_at_first_failing_slot_without_rollback() {
    let storage = MockEspNvs::from([
        (String::from("name"), MockEspNvsValue::BlobValue(Vec::from("kitchen"))),
        (String::from("ssid"), MockEspNvsValue::U16Value(7)),
        (String::from("psk"), MockEspNvsValue::BlobValue(Vec::from("stored-key"))),
    ]);
    let mut config = Config::new(&MAC, "factory-net", "factory-key");
    config.ssid.set(b"old-ssid").unwrap();
    config.psk.set(b"old-psk").unwrap();
    let outcome = config.read(&storage);
    assert!(matches!(outcome, Err(MockEspNvsStorageError::WrongType(_))));
    assert_eq!(config.name.get(), b"kitchen");
    assert_eq!(config.ssid.get(), b"old-ssid");
    assert_eq!(config.psk.get(), b"old-psk");
}

#[test]
fn read_failing_at_first_slot_changes_nothing() {
    let storage = MockEspNvs::from([(String::from("name"), MockEspNvsValue::I64Value(-1))]);
    let mut config = Config::new(&MAC, "factory-net", "factory-key");
    config.name.set(b"n").unwrap();
    assert!(config.read(&storage).is_err());
    assert_eq!(config.name.get(), b"n");
    assert_eq!(config.ssid.get(), b"");
    assert_eq!(config.psk.get(), b"");
}

#[test]
fn write_then_read_round_trips_every_slot() {
    let mut storage = MockEspNvs::from([]);
    let mut config = Config::new(&MAC, "factory-net", "factory-key");
    config.name.set(b"porch").unwrap();
    config.ssid.set(b"home-net").unwrap();
    config.psk.set(b"correct horse").unwrap();
    config.write(&mut storage).unwrap();

    let mut other = Config::new(&[9; 6], "x", "y");
    other.read(&storage).unwrap();
    assert_eq!(other.name.get(), b"porch");
    assert_eq!(other.ssid.get(), b"home-net");
    assert_eq!(other.psk.get(), b"correct horse");
}

#[test]
fn mock_keeps_each_kind_apart() {
    let mut storage = MockEspNvs::from([]);
    assert!(matches!(storage.get_u8("k"), Ok(None)));
    storage.set_u8("k", 200).unwrap();
    assert!(matches!(storage.get_u8("k"), Ok(Some(200))));
    assert!(matches!(storage.get_i8("k"), Err(MockEspNvsStorageError::WrongType(_))));
    storage.set_i8("k", -100).unwrap();
    assert!(matches!(storage.get_i8("k"), Ok(Some(-100))));
    assert!(matches!(storage.get_u8("k"), Err(MockEspNvsStorageError::WrongType(_))));
    storage.set_u16("k", 65_000).unwrap();
    assert!(matches!(storage.get_u16("k"), Ok(Some(65_000))));
    storage.set_i16("k", -30_000).unwrap();
    assert!(matches!(storage.get_i16("k"), Ok(Some(-30_000))));
    assert!(matches!(storage.get_u16("k"), Err(MockEspNvsStorageError::WrongType(_))));
    storage.set_u32("k", 4_000_000_000).unwrap();
    assert!(matches!(storage.get_u32("k"), Ok(Some(4_000_000_000))));
    storage.set_i32("k", -2_000_000_000).unwrap();
    assert!(matches!(storage.get_i32("k"), Ok(Some(-2_000_000_000))));
    storage.set_u64("k", u64::MAX).unwrap();
    assert!(matches!(storage.get_u64("k"), Ok(Some(u64::MAX))));
    storage.set_i64("k", i64::MIN).unwrap();
    assert!(matches!(storage.get_i64("k"), Ok(Some(i64::MIN))));
    assert!(matches!(storage.get_u64("k"), Err(MockEspNvsStorageError::WrongType(_))));
    let mut buf = [0u8; 4];
    assert!(matches!(storage.get_blob("k", &mut buf), Err(MockEspNvsStorageError::WrongType(_))));
    assert!(matches!(storage.get_i64("other"), Ok(None)));
}

#[test]
fn mock_from_later_pair_wins() {
    let storage = MockEspNvs::from([
        (String::from("k"), MockEspNvsValue::U8Value(1)),
        (String::from("k"), MockEspNvsValue::U8Value(2)),
    ]);
    assert!(matches!(storage.get_u8("k"), Ok(Some(2))));
}

#[test]
fn mock_get_blob_fills_exactly_the_blob() {
    let storage = MockEspNvs::from([(
        String::from("b"),
        MockEspNvsValue::BlobValue(vec![1, 2, 3]),
    )]);
    let mut exact = [0u8; 3];
    assert_eq!(storage.get_blob("b", &mut exact).ok().flatten(), Some(&[1u8, 2, 3][..]));
    let mut short = [0u8; 2];
    assert!(matches!(storage.get_blob("b", &mut short), Err(MockEspNvsStorageError::TooLarge(_))));
    let mut empty: [u8; 0] = [];
    assert!(matches!(storage.get_blob("absent", &mut empty), Ok(None)));
}
