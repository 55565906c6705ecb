//! In-memory stand-ins for the storage capability.

pub mod config_error;
pub mod mock_esp_nvs;
pub mod mock_storage;
