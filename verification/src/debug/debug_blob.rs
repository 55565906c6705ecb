//! A blob put into words: as text where it is text, and else as far as it is.

use vstd::prelude::*;
use vstd::slice::slice_subrange;
use vstd::string::StringExecFns;
use vstd::utf8::{decode_utf8, valid_utf8};
use crate::utf8::{decode, valid_up_to};

verus! {

/// Label of a blob that is UTF-8 text.
pub const VALID_UTF8_LABEL: &'static str = "VALID_UTF8";

/// Label of a blob that is not UTF-8 text.
pub const INVALID_UTF8_LABEL: &'static str = "INVALID_UTF8";

/// A blob to be put into words.
pub struct DebugBlob<'a> {
    blob: &'a [u8],
}

/// `blob` in words: its label and its text where it is UTF-8 text, and else
/// the other label and the text of its longest prefix that is.
pub open spec fn described(blob: Seq<u8>) -> Seq<char> {
    if valid_utf8(blob) {
        VALID_UTF8_LABEL@ + ": "@ + decode_utf8(blob)
    } else {
        INVALID_UTF8_LABEL@ + ", "@ + decode_utf8(blob.subrange(0, valid_up_to(blob)))
    }
}

impl<'a> DebugBlob<'a> {
    /// The bytes to be put into words.
    pub closed spec fn view(&self) -> Seq<u8> {
        self.blob@
    }

    pub fn new(blob: &'a [u8]) -> (r: DebugBlob<'a>)
        ensures
            r@ == blob@,
    {
        DebugBlob { blob }
    }

    /// The blob in words.
    pub fn to_text(&self) -> (r: String)
        ensures
            r@ == described(self@),
    {
        match decode(self.blob) {
            Ok(text) => {
                let mut words = String::from_str(VALID_UTF8_LABEL);
                words.append(": ");
                words.append(text);
                words
            },
            Err(e) => {
                let prefix = slice_subrange(self.blob, 0, e.valid_up_to);
                match decode(prefix) {
                    Ok(text) => {
                        let mut words = String::from_str(INVALID_UTF8_LABEL);
                        words.append(", ");
                        words.append(text);
                        words
                    },
                    Err(_) => vstd::pervasive::unreached(),
                }
            },
        }
    }
}

} // verus!
