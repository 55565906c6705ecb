//! Copying into a caller's buffer.

use vstd::prelude::*;

verus! {

/// Copies `bytes` to the front of `buf`; what `buf` holds behind them stays.
pub fn fill(buf: &mut [u8], bytes: &[u8])
    requires
        bytes@.len() <= old(buf)@.len(),
    ensures
        final(buf)@ == bytes@ + old(buf)@.subrange(bytes@.len() as int, old(buf)@.len() as int),
{
    let len = bytes.len();
    let mut i: usize = 0;
    while i < len
        invariant
            i <= len,
            len == bytes@.len(),
            len <= buf@.len(),
            buf@.len() == old(buf)@.len(),
            forall|j: int| 0 <= j < i ==> buf@[j] == bytes@[j],
            forall|j: int| i <= j < buf@.len() ==> buf@[j] == old(buf)@[j],
        decreases len - i,
    {
        buf[i] = bytes[i];
        i += 1;
    }
    assert(buf@ =~= bytes@ + old(buf)@.subrange(len as int, old(buf)@.len() as int));
}

} // verus!
