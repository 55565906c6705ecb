//! Help for messages about values that did not fit.

pub mod debug_blob;
