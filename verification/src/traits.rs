//! The capabilities that the library consumes, and the values that cross
//! their boundaries.

pub mod mdns;
pub mod read_write;
pub mod storage;
pub mod wifi;
