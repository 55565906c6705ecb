//! Bring-up logic of a small networked device: a bounded configuration store
//! over a key/value storage capability, and the sequencer that turns the
//! stored credentials into a connected, discoverable device.

pub mod buffer;
pub mod utf8;
pub mod hex;
pub mod name;
pub mod traits;
pub mod storage;
pub mod mocks;
pub mod config;
pub mod network;
pub mod debug;
