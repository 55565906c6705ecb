//! The device name as a value of its own: read once from a storage of texts
//! and blobs, with a fixed name to fall back to.

use vstd::prelude::*;
use vstd::slice::slice_subrange;
use vstd::utf8::{decode_utf8, valid_utf8};
use crate::buffer::fill;
use crate::config::{NAME_FIELD, NAME_MAX_BYTES};
use crate::storage::{text_readable, Kept, Storage};
use crate::utf8::{decode, Utf8Error};

verus! {

/// The name of a device whose storage holds none.
pub const DEFAULT_NAME: &'static str = "burp_device";

/// The name that a storage holding `kept` gives a device: the text under
/// the name's key, or the default where there is none.
pub open spec fn name_read(kept: Map<Seq<char>, Kept>) -> Seq<char> {
    if kept.contains_key(NAME_FIELD@) {
        kept[NAME_FIELD@]->Text_0
    } else {
        DEFAULT_NAME@
    }
}

/// A device name: the bytes of a text read from storage, or nothing, which
/// stands for the default.
pub struct NameConfig {
    buffer: Option<[u8; NAME_MAX_BYTES]>,
    len: usize,
}

impl NameConfig {
    #[verifier::type_invariant]
    spec fn well_formed(&self) -> bool {
        self.buffer matches Some(bytes) ==> self.len <= NAME_MAX_BYTES && valid_utf8(
            bytes@.subrange(0, self.len as int),
        )
    }

    /// The name.
    pub closed spec fn view(&self) -> Seq<char> {
        match self.buffer {
            Some(bytes) => decode_utf8(bytes@.subrange(0, self.len as int)),
            None => DEFAULT_NAME@,
        }
    }

    /// Reads the name from `storage`, with room for `NAME_MAX_BYTES` bytes,
    /// and takes over the answer as `load` does. It succeeds only where the
    /// storage holds nothing under the name's key or a text that fits, and
    /// with a dependable storage it then does.
    pub fn from<E, S: Storage<E>>(storage: &S) -> (r: Result<NameConfig, E>)
        ensures
            r matches Ok(config) ==> config@ == name_read(storage.kept()),
            r is Ok ==> text_readable(storage.kept(), NAME_FIELD@, NAME_MAX_BYTES as nat),
            storage.dependable() && text_readable(
                storage.kept(),
                NAME_FIELD@,
                NAME_MAX_BYTES as nat,
            ) ==> r is Ok,
    {
        let mut buffer = [0_u8;NAME_MAX_BYTES];
        let fetched = storage.get_str(NAME_FIELD, &mut buffer);
        NameConfig::load(fetched)
    }

    /// Takes over what a storage answered to the request for the name: the
    /// text, the default where the storage has none, and the storage's error
    /// where it failed. The text must fit in `NAME_MAX_BYTES` bytes, as every
    /// text does that a storage read into a buffer of that size.
    pub fn load<E>(fetched: Result<Option<&str>, E>) -> (r: Result<NameConfig, E>)
        requires
            fetched matches Ok(Some(text)) ==> vstd::utf8::encode_utf8(text@).len()
                <= NAME_MAX_BYTES,
        ensures
            match fetched {
                Ok(Some(text)) => r matches Ok(config) && config@ == text@,
                Ok(None) => r matches Ok(config) && config@ == DEFAULT_NAME@,
                Err(e) => r matches Err(error) && error == e,
            },
    {
        match fetched {
            Ok(Some(text)) => {
                let bytes = text.as_bytes();
                let len = bytes.len();
                let mut value = [0_u8;NAME_MAX_BYTES];
                fill(&mut value, bytes);
                proof {
                    assert(value@.subrange(0, len as int) =~= bytes@);
                    vstd::utf8::encode_utf8_valid_utf8(text@);
                    vstd::utf8::encode_utf8_decode_utf8(text@);
                }
                Ok(NameConfig { buffer: Some(value), len })
            },
            Ok(None) => Ok(NameConfig { buffer: None, len: 0 }),
            Err(error) => Err(error),
        }
    }

    /// The name as text. The bytes were text when they were read, so this
    /// never fails.
    pub fn as_str(&self) -> (r: Result<&str, Utf8Error>)
        ensures
            r matches Ok(text) && text@ == self@,
    {
        proof {
            use_type_invariant(self);
        }
        match &self.buffer {
            None => Ok(DEFAULT_NAME),
            Some(buffer) => {
                let bytes = slice_subrange(buffer.as_slice(), 0, self.len);
                decode(bytes)
            },
        }
    }
}

} // verus!
