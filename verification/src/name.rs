//! The device's name: a fixed prefix followed by the hardware identifier in
//! upper-case hexadecimal.

use vstd::prelude::*;
use vstd::string::StringSliceAdditionalSpecFns;
use vstd::utf8::{decode_utf8, valid_utf8};
use crate::hex::{encode_to_slice_upper, hex_upper};
use crate::utf8::{ascii_chars, decode, is_ascii_bytes, lemma_ascii_is_utf8};

verus! {

/// The prefix of every device name.
pub const NAME_PREFIX: &'static str = "burp-";

/// Bytes of the hardware identifier.
pub const MAC_LENGTH: usize = 6;

/// Bytes of the prefix that every device name starts with.
pub const NAME_PREFIX_LEN: usize = 5;

/// Hexadecimal digits that follow the prefix.
pub const NAME_SUFFIX_LENGTH: usize = 12;

/// Bytes of a device name.
pub const NAME_LENGTH: usize = 17;

/// The bytes of `NAME_PREFIX`.
pub open spec fn name_prefix() -> Seq<u8> {
    seq![0x62u8, 0x75u8, 0x72u8, 0x70u8, 0x2du8]
}

/// The bytes of the name of the device whose hardware identifier is `mac`.
pub open spec fn name_bytes(mac: Seq<u8>) -> Seq<u8> {
    name_prefix() + hex_upper(mac)
}

/// The name of the device whose hardware identifier is `mac`.
pub open spec fn name_text(mac: Seq<u8>) -> Seq<char> {
    ascii_chars(name_bytes(mac))
}

/// A device name reads as the prefix followed by the hexadecimal digits.
pub proof fn lemma_name_text(mac: Seq<u8>)
    ensures
        ascii_chars(name_prefix()) == NAME_PREFIX@,
        name_text(mac) == NAME_PREFIX@ + ascii_chars(hex_upper(mac)),
{
    reveal_strlit("burp-");
    assert(ascii_chars(name_prefix()) =~= NAME_PREFIX@);
    assert(name_text(mac) =~= NAME_PREFIX@ + ascii_chars(hex_upper(mac)));
}

/// A device name is ASCII.
pub proof fn lemma_name_is_ascii(mac: Seq<u8>)
    ensures
        name_bytes(mac).len() == NAME_PREFIX_LEN + 2 * mac.len(),
        is_ascii_bytes(name_bytes(mac)),
        valid_utf8(name_bytes(mac)),
        decode_utf8(name_bytes(mac)) == name_text(mac),
{
    let b = name_bytes(mac);
    assert forall|i: int| 0 <= i < b.len() implies #[trigger] b[i] < 128 by {
        if i >= 5 {
            assert(b[i] == hex_upper(mac)[i - 5]);
        }
    }
    lemma_ascii_is_utf8(b);
}

fn create_name(base_mac_address: &[u8; MAC_LENGTH]) -> (r: [u8; NAME_LENGTH])
    ensures
        r@ == name_bytes(base_mac_address@),
{
    let mut digits = [0u8; NAME_SUFFIX_LENGTH];
    let encoded = encode_to_slice_upper(base_mac_address.as_slice(), &mut digits);
    assert(encoded is Ok);
    let mut name = [0u8; NAME_LENGTH];
    name[0] = 0x62;
    name[1] = 0x75;
    name[2] = 0x72;
    name[3] = 0x70;
    name[4] = 0x2d;
    let mut i: usize = 0;
    while i < NAME_SUFFIX_LENGTH
        invariant
            i <= NAME_SUFFIX_LENGTH,
            digits@ == hex_upper(base_mac_address@),
            forall|j: int| 0 <= j < NAME_PREFIX_LEN ==> name@[j] == name_prefix()[j],
            forall|j: int| 0 <= j < i ==> name@[NAME_PREFIX_LEN + j] == digits@[j],
        decreases NAME_SUFFIX_LENGTH - i,
    {
        name[NAME_PREFIX_LEN + i] = digits[i];
        i += 1;
    }
    assert(name@ =~= name_bytes(base_mac_address@));
    name
}

/// The name of one device, fixed when it is made.
pub struct Name {
    bytes: [u8; NAME_LENGTH],
}

impl Name {
    #[verifier::type_invariant]
    spec fn well_formed(&self) -> bool {
        is_ascii_bytes(self.bytes@)
    }

    /// The bytes of the name.
    pub closed spec fn bytes(&self) -> Seq<u8> {
        self.bytes@
    }

    /// The name as text.
    pub open spec fn view(&self) -> Seq<char> {
        ascii_chars(self.bytes())
    }

    /// The name as text.
    pub fn as_str(&self) -> (r: &str)
        ensures
            r@ == self@,
            r.spec_bytes() == self.bytes(),
    {
        proof {
            use_type_invariant(self);
            lemma_ascii_is_utf8(self.bytes@);
        }
        match decode(self.bytes.as_slice()) {
            Ok(text) => text,
            Err(_) => vstd::pervasive::unreached(),
        }
    }

    /// The bytes of the name.
    pub fn as_bytes(&self) -> (r: &[u8])
        ensures
            r@ == self.bytes(),
    {
        self.bytes.as_slice()
    }
}

/// Derives the device's name from its hardware identifier.
pub fn init_name(base_mac_address: &[u8; MAC_LENGTH]) -> (r: Name)
    ensures
        r.bytes() == name_bytes(base_mac_address@),
        r@ == name_text(base_mac_address@),
{
    let bytes = create_name(base_mac_address);
    proof {
        lemma_name_is_ascii(base_mac_address@);
    }
    Name { bytes }
}

/// The device's name as text.
pub fn get_name(name: &Name) -> (r: &str)
    ensures
        r@ == name@,
        r.spec_bytes() == name.bytes(),
{
    name.as_str()
}

} // verus!
