//! Upper-case hexadecimal, as the device name spells the hardware identifier.

use vstd::prelude::*;

verus! {

/// The upper-case hexadecimal digit for a value below sixteen.
pub open spec fn hex_digit_upper(nibble: int) -> u8 {
    if nibble < 10 {
        (0x30 + nibble) as u8
    } else {
        (0x41 + nibble - 10) as u8
    }
}

/// `bytes` in upper-case hexadecimal: two digits per byte, the high half first.
pub open spec fn hex_upper(bytes: Seq<u8>) -> Seq<u8> {
    Seq::new(
        2 * bytes.len(),
        |i: int|
            if i % 2 == 0 {
                hex_digit_upper(bytes[i / 2] as int / 16)
            } else {
                hex_digit_upper(bytes[i / 2] as int % 16)
            },
    )
}

/// `const_hex::FromHexError`, of which the library reads nothing.
#[verifier::external_type_specification]
#[verifier::external_body]
pub struct ExFromHexError(const_hex::FromHexError);

/// Calls `const_hex::encode_to_slice_upper`.
///
/// Trusted: the call fails, and writes nothing, unless `output` has room for
/// exactly two digits per input byte; otherwise it fills `output` with the
/// input in upper-case hexadecimal.
#[verifier::external_body]
pub(crate) fn encode_to_slice_upper(input: &[u8], output: &mut [u8]) -> (r: Result<
    (),
    const_hex::FromHexError,
>)
    requires
        2 * input@.len() <= usize::MAX,
    ensures
        r is Ok <==> old(output)@.len() == 2 * input@.len(),
        r is Ok ==> final(output)@ == hex_upper(input@),
        r is Err ==> final(output)@ == old(output)@,
{
    const_hex::encode_to_slice_upper(input, output)
}

} // verus!
