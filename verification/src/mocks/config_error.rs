//! The error of a configuration value that is loaded and then read as text.

use vstd::prelude::*;
use crate::utf8::Utf8Error;

verus! {

/// Either the storage failed, or what it held is not UTF-8 text.
#[derive(Debug)]
pub enum ConfigError<E> {
    StorageError(E),
    Utf8Error(Utf8Error),
}

} // verus!
