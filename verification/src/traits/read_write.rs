//! Loading from and saving to a storage.

use vstd::prelude::*;
use crate::traits::storage::Storage;

verus! {

/// A value that can be loaded from a storage and saved to one. It owns no
/// storage: it borrows one for each call.
pub trait ReadWrite {
    /// Loads the value from `storage`.
    fn read<S: Storage>(&mut self, storage: &S) -> Result<(), S::Error>;

    /// Saves the value to `storage`.
    fn write<S: Storage>(&self, storage: &mut S) -> Result<(), S::Error>;
}

} // verus!
