use std::str::from_utf8;

use burp_rust_lib::config::blob_config::{BlobConfig, CapacityError};
use burp_rust_lib::mocks::mock_esp_nvs::{MockEspNvs, MockEspNvsStorageError, MockEspNvsValue};
use burp_rust_lib::traits::read_write::ReadWrite;
use burp_rust_lib::traits::storage::Storage;

#[test]
fn blob_config_uses_default_value_when_not_in_storage() {
    let mock_esp_nvs = MockEspNvs::from([]);
    let mut blob_config: BlobConfig<100> = BlobConfig::new("name", "default_name".as_bytes());
    blob_config.read(&mock_esp_nvs).unwrap();
    let name = from_utf8(blob_config.get()).unwrap();
    assert_eq!(name, "default_name");
}

#[test]
fn blob_config_does_read_value_from_storage() {
    let mock_esp_nvs = MockEspNvs::from([(
        String::from("name"),
        MockEspNvsValue::BlobValue(Vec::from("this is a test")),
    )]);
    let mut blob_config: BlobConfig<100> = BlobConfig::new("name", "default_name".as_bytes());
    blob_config.read(&mock_esp_nvs).unwrap();
    let name = from_utf8(blob_config.get()).unwrap();
    assert_eq!(name, "this is a test");
}

#[test]
fn new_slot_is_empty_until_read() {
    let slot: BlobConfig<32> = BlobConfig::new("ssid", b"fallback");
    assert_eq!(slot.get(), b"");
    assert_eq!(slot.name(), "ssid");
    assert_eq!(slot.max_bytes(), 32);
}

#[test]
fn set_replaces_contents() {
    let mut slot: BlobConfig<32> = BlobConfig::new("ssid", b"fallback");
    assert_eq!(slot.set(b"home-net"), Ok(()));
    assert_eq!(slot.get(), b"home-net");
    assert_eq!(slot.set(b"x"), Ok(()));
    assert_eq!(slot.get(), b"x");
    assert_eq!(slot.set(b""), Ok(()));
    assert_eq!(slot.get(), b"");
}

#[test]
fn set_accepts_exactly_capacity() {
    let mut slot: BlobConfig<32> = BlobConfig::new("ssid", b"");
    let full = [b'a'; 32];
    assert_eq!(slot.set(&full), Ok(()));
    assert_eq!(slot.get(), &full[..]);
    assert_eq!(slot.get().len(), slot.max_bytes());
}

#[test]
fn set_rejects_thirty_three_bytes_and_keeps_contents() {
    let mut slot: BlobConfig<32> = BlobConfig::new("ssid", b"fallback");
    slot.set(b"home-net").unwrap();
    let too_long = [b'z'; 33];
    assert_eq!(slot.set(&too_long), Err(CapacityError { max_bytes: 32, len: 33 }));
    assert_eq!(slot.get(), b"home-net");
}

#[test]
fn reset_restores_default() {
    let mut slot: BlobConfig<64> = BlobConfig::new("psk", b"secret");
    slot.set(b"something else entirely").unwrap();
    slot.reset();
    assert_eq!(slot.get(), b"secret");
}

#[test]
fn reset_after_longer_value_does_not_leak_old_bytes() {
    let mut slot: BlobConfig<16> = BlobConfig::new("k", b"ab");
    slot.set(b"0123456789").unwrap();
    slot.reset();
    assert_eq!(slot.get(), b"ab");
    slot.set(b"xyz").unwrap();
    assert_eq!(slot.get(), b"xyz");
}

#[test]
fn read_of_stored_ssid_gives_exactly_the_stored_bytes() {
    let storage = MockEspNvs::from([(
        String::from("ssid"),
        MockEspNvsValue::BlobValue(Vec::from("home-net")),
    )]);
    let mut slot: BlobConfig<32> = BlobConfig::new("ssid", b"fallback");
    slot.read(&storage).unwrap();
    assert_eq!(slot.get(), b"home-net");
    assert_eq!(slot.get().len(), 8);
}

#[test]
fn read_of_oversized_blob_fails_and_keeps_contents() {
    let storage = MockEspNvs::from([(
        String::from("ssid"),
        MockEspNvsValue::BlobValue(vec![7u8; 33]),
    )]);
    let mut slot: BlobConfig<32> = BlobConfig::new("ssid", b"fallback");
    slot.set(b"before").unwrap();
    let outcome = slot.read(&storage);
    assert!(matches!(outcome, Err(MockEspNvsStorageError::TooLarge(_))));
    assert_eq!(slot.get(), b"before");
}

#[test]
fn read_of_wrong_kind_fails_and_keeps_contents() {
    let storage = MockEspNvs::from([(String::from("ssid"), MockEspNvsValue::U8Value(3))]);
    let mut slot: BlobConfig<32> = BlobConfig::new("ssid", b"fallback");
    slot.set(b"before").unwrap();
    let outcome = slot.read(&storage);
    assert!(matches!(outcome, Err(MockEspNvsStorageError::WrongType(_))));
    assert_eq!(slot.get(), b"before");
}

#[test]
fn write_then_read_reproduces_last_set_value() {
    let mut storage = MockEspNvs::from([]);
    let mut slot: BlobConfig<32> = BlobConfig::new("ssid", b"fallback");
    slot.set(b"cafe-wifi").unwrap();
    slot.write(&mut storage).unwrap();
    slot.set(b"scratch").unwrap();
    slot.read(&storage).unwrap();
    assert_eq!(slot.get(), b"cafe-wifi");

    let mut other: BlobConfig<32> = BlobConfig::new("ssid", b"another default");
    other.read(&storage).unwrap();
    assert_eq!(other.get(), b"cafe-wifi");
}

#[test]
fn write_replaces_prior_value_of_any_kind() {
    let mut storage = MockEspNvs::from([(String::from("ssid"), MockEspNvsValue::I32Value(-4))]);
    let mut slot: BlobConfig<32> = BlobConfig::new("ssid", b"fallback");
    slot.set(b"net").unwrap();
    slot.write(&mut storage).unwrap();
    let mut buf = [0u8; 8];
    assert_eq!(storage.get_blob("ssid", &mut buf).ok().flatten(), Some(&b"net"[..]));
}

#[test]
fn load_takes_over_each_answer() {
    let mut slot: BlobConfig<8> = BlobConfig::new("k", b"dflt");
    assert_eq!(slot.load::<u32>(Ok(Some(&b"abc"[..]))), Ok(()));
    assert_eq!(slot.get(), b"abc");
    assert_eq!(slot.load::<u32>(Err(17)), Err(17));
    assert_eq!(slot.get(), b"abc");
    assert_eq!(slot.load::<u32>(Ok(None)), Ok(()));
    assert_eq!(slot.get(), b"dflt");
}

#[test]
fn password_slot_of_a_hundred_bytes_falls_back_to_its_default() {
    let storage = MockEspNvs::from([]);
    let mut slot: BlobConfig<100> = BlobConfig::new("password", b"let me in!");
    slot.read(&storage).unwrap();
    assert_eq!(slot.get(), b"let me in!");
    assert_eq!(slot.max_bytes(), 100);
}

#[test]
fn slot_of_no_bytes_holds_only_nothing() {
    let mut slot: BlobConfig<0> = BlobConfig::new("void", b"");
    assert_eq!(slot.set(b""), Ok(()));
    assert_eq!(slot.set(b"x"), Err(CapacityError { max_bytes: 0, len: 1 }));
    slot.reset();
    assert_eq!(slot.get(), b"");
}
