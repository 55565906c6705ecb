//! Decoding of stored bytes as UTF-8 text.

use vstd::prelude::*;
use vstd::string::StringSliceAdditionalSpecFns;
use vstd::utf8::{decode_utf8, encode_utf8, is_ascii_chars, valid_utf8};

verus! {

/// Why a byte sequence is not UTF-8 text.
#[derive(Debug, Clone, Copy, PartialEq, Eq, Structural)]
pub struct Utf8Error {
    /// Length of the longest prefix of the input that is UTF-8 text.
    pub valid_up_to: usize,
}

/// The length of the longest prefix of `bytes` that is UTF-8 text is `k`.
pub open spec fn longest_valid_prefix(bytes: Seq<u8>, k: int) -> bool {
    &&& 0 <= k <= bytes.len()
    &&& valid_utf8(bytes.subrange(0, k))
    &&& forall|j: int| k < j <= bytes.len() ==> !valid_utf8(#[trigger] bytes.subrange(0, j))
}

/// The length of the longest prefix of `bytes` that is UTF-8 text.
pub open spec fn valid_up_to(bytes: Seq<u8>) -> int {
    choose|k: int| longest_valid_prefix(bytes, k)
}

/// A byte sequence has one longest prefix that is UTF-8 text.
pub proof fn lemma_valid_up_to(bytes: Seq<u8>, k: int)
    requires
        longest_valid_prefix(bytes, k),
    ensures
        valid_up_to(bytes) == k,
{
    let chosen = valid_up_to(bytes);
    assert(longest_valid_prefix(bytes, chosen));
    if chosen < k {
        assert(!valid_utf8(bytes.subrange(0, k)));
    }
    if k < chosen {
        assert(!valid_utf8(bytes.subrange(0, chosen)));
    }
}

proof fn lemma_search_valid_prefix(bytes: Seq<u8>, j: int)
    requires
        0 <= j <= bytes.len(),
        forall|i: int| j < i <= bytes.len() ==> !valid_utf8(#[trigger] bytes.subrange(0, i)),
    ensures
        exists|k: int| longest_valid_prefix(bytes, k),
    decreases j,
{
    if valid_utf8(bytes.subrange(0, j)) {
        assert(longest_valid_prefix(bytes, j));
    } else {
        if j == 0 {
            assert(bytes.subrange(0, 0).len() == 0);
        } else {
            lemma_search_valid_prefix(bytes, j - 1);
        }
    }
}

/// Every byte sequence has a longest prefix that is UTF-8 text; it is the
/// whole sequence exactly where the sequence is UTF-8 text.
pub proof fn lemma_valid_up_to_exists(bytes: Seq<u8>)
    ensures
        longest_valid_prefix(bytes, valid_up_to(bytes)),
        valid_utf8(bytes) <==> valid_up_to(bytes) == bytes.len(),
{
    lemma_search_valid_prefix(bytes, bytes.len() as int);
    assert(bytes.subrange(0, bytes.len() as int) =~= bytes);
}

/// Calls `core::str::from_utf8`, and reads `valid_up_to` off its error.
///
/// Trusted: the call succeeds exactly on well-formed UTF-8, the text it
/// returns is made of the very bytes it was given, and the error's offset is
/// the length of the longest well-formed prefix.
#[verifier::external_body]
fn from_utf8<'a>(bytes: &'a [u8]) -> (r: Result<&'a str, Utf8Error>)
    ensures
        r is Ok <==> valid_utf8(bytes@),
        r matches Ok(text) ==> text.spec_bytes() == bytes@,
        r matches Err(e) ==> longest_valid_prefix(bytes@, e.valid_up_to as int),
{
    match core::str::from_utf8(bytes) {
        Ok(text) => Ok(text),
        Err(e) => Err(Utf8Error { valid_up_to: e.valid_up_to() }),
    }
}

/// What decoding `bytes` gives: the text that they encode, or where they
/// stop being text.
pub open spec fn decoded(bytes: Seq<u8>) -> Result<Seq<char>, Utf8Error> {
    if valid_utf8(bytes) {
        Ok(decode_utf8(bytes))
    } else {
        Err(Utf8Error { valid_up_to: valid_up_to(bytes) as usize })
    }
}

/// Decodes `bytes` as UTF-8 text.
pub fn decode<'a>(bytes: &'a [u8]) -> (r: Result<&'a str, Utf8Error>)
    ensures
        match r {
            Ok(text) => decoded(bytes@) == Ok::<Seq<char>, Utf8Error>(text@) && text.spec_bytes()
                == bytes@,
            Err(e) => decoded(bytes@) == Err::<Seq<char>, Utf8Error>(e) && longest_valid_prefix(
                bytes@,
                e.valid_up_to as int,
            ),
        },
{
    let r = from_utf8(bytes);
    proof {
        match r {
            Ok(text) => {
                lemma_text_of_bytes(text, bytes@);
            },
            Err(e) => {
                lemma_valid_up_to(bytes@, e.valid_up_to as int);
            },
        }
    }
    r
}

/// The characters that a sequence of ASCII bytes stands for.
pub open spec fn ascii_chars(bytes: Seq<u8>) -> Seq<char> {
    Seq::new(bytes.len(), |i: int| bytes[i] as char)
}

/// Every byte of `bytes` is below 128.
pub open spec fn is_ascii_bytes(bytes: Seq<u8>) -> bool {
    forall|i: int| 0 <= i < bytes.len() ==> #[trigger] bytes[i] < 128
}

/// ASCII bytes are UTF-8 text, one character per byte.
pub proof fn lemma_ascii_is_utf8(bytes: Seq<u8>)
    requires
        is_ascii_bytes(bytes),
    ensures
        valid_utf8(bytes),
        decode_utf8(bytes) == ascii_chars(bytes),
        encode_utf8(ascii_chars(bytes)) == bytes,
{
    let chars = ascii_chars(bytes);
    assert(is_ascii_chars(chars)) by {
        assert forall|i: int| 0 <= i < chars.len() implies '\0' <= #[trigger] chars[i]
            <= '\u{7f}' by {
            assert(bytes[i] < 128);
        }
    }
    vstd::utf8::is_ascii_chars_encode_utf8(chars);
    assert(encode_utf8(chars) =~= bytes) by {
        assert forall|i: int| 0 <= i < bytes.len() implies encode_utf8(chars)[i] == bytes[i] by {
            assert(bytes[i] < 128);
            assert(chars[i] as u8 == bytes[i]);
        }
    }
    vstd::utf8::encode_utf8_valid_utf8(chars);
    vstd::utf8::encode_utf8_decode_utf8(chars);
}

/// What text decodes from is what it encodes to.
pub proof fn lemma_text_of_bytes(text: &str, bytes: Seq<u8>)
    requires
        text.spec_bytes() == bytes,
    ensures
        valid_utf8(bytes),
        text@ == decode_utf8(bytes),
{
    vstd::utf8::encode_utf8_valid_utf8(text@);
    vstd::utf8::encode_utf8_decode_utf8(text@);
}

} // verus!
