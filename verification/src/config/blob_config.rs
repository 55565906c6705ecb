//! One configuration slot: a buffer of fixed capacity bound to one storage
//! key, with a default for when the storage has no entry.

use vstd::prelude::*;
use vstd::slice::slice_subrange;
use vstd::slice::slice_to_vec;
use crate::traits::read_write::ReadWrite;
use crate::traits::storage::{blob_readable, Storage, Stored};

verus! {

/// A value was longer than the slot it was meant for.
#[derive(Debug, Clone, Copy, PartialEq, Eq, Structural)]
pub struct CapacityError {
    /// The slot's capacity in bytes.
    pub max_bytes: usize,
    /// The length of the value that was refused.
    pub len: usize,
}

/// What a slot holds after it was read with success from a storage that
/// holds `entries`: the blob under `name`, or `default` where there is none.
pub open spec fn value_read(entries: Map<Seq<char>, Stored>, name: Seq<char>, default: Seq<u8>) -> Seq<
    u8,
> {
    if entries.contains_key(name) {
        entries[name]->Blob_0
    } else {
        default
    }
}

/// What a storage holds after a slot with the key `name` and the value
/// `value` was written to it with success.
pub open spec fn entries_written(entries: Map<Seq<char>, Stored>, name: Seq<char>, value: Seq<u8>) -> Map<
    Seq<char>,
    Stored,
> {
    entries.insert(name, Stored::Blob(value))
}

/// A slot of `N` bytes.
pub struct BlobConfig<const N: usize> {
    name: String,
    default: Vec<u8>,
    buffer: [u8; N],
    len: usize,
}

impl<const N: usize> BlobConfig<N> {
    #[verifier::type_invariant]
    spec fn well_formed(&self) -> bool {
        self.len <= N && self.default@.len() <= N
    }

    /// The bytes that the slot holds now.
    pub closed spec fn view(&self) -> Seq<u8> {
        self.buffer@.subrange(0, self.len as int)
    }

    /// The storage key that the slot is bound to.
    pub closed spec fn key(&self) -> Seq<char> {
        self.name@
    }

    /// The bytes that the slot falls back to.
    pub closed spec fn default_value(&self) -> Seq<u8> {
        self.default@
    }

    /// A slot bound to the key `name` that falls back to `default`. It holds
    /// nothing until it is set, reset or read.
    pub fn new(name: &str, default: &[u8]) -> (r: BlobConfig<N>)
        requires
            default@.len() <= N,
        ensures
            r.key() == name@,
            r.default_value() == default@,
            r@ == Seq::<u8>::empty(),
    {
        let slot = BlobConfig {
            name: name.to_owned(),
            default: slice_to_vec(default),
            buffer: [0_u8;N],
            len: 0,
        };
        assert(slot@ =~= Seq::<u8>::empty());
        slot
    }

    /// The bytes that the slot holds.
    pub fn get(&self) -> (r: &[u8])
        ensures
            r@ == self@,
            r@.len() <= N,
    {
        proof {
            use_type_invariant(self);
        }
        slice_subrange(self.buffer.as_slice(), 0, self.len)
    }

    /// Replaces what the slot holds by `blob`, unless `blob` is longer than
    /// the slot: then nothing changes.
    pub fn set(&mut self, blob: &[u8]) -> (r: Result<(), CapacityError>)
        ensures
            blob@.len() <= N ==> r is Ok && final(self)@ == blob@,
            blob@.len() > N ==> r == Err::<(), CapacityError>(
                CapacityError { max_bytes: N, len: blob@.len() as usize },
            ) && *final(self) == *old(self),
            final(self).key() == old(self).key(),
            final(self).default_value() == old(self).default_value(),
            final(self)@.len() <= N,
    {
        proof {
            use_type_invariant(&*self);
        }
        let len = blob.len();
        if len > N {
            return Err(CapacityError { max_bytes: N, len });
        }
        let mut i: usize = 0;
        while i < len
            invariant
                i <= len,
                len == blob@.len(),
                len <= N,
                self.len <= N,
                self.default@.len() <= N,
                self.name == old(self).name,
                self.default == old(self).default,
                forall|j: int| 0 <= j < i ==> self.buffer@[j] == blob@[j],
            decreases len - i,
        {
            self.buffer[i] = blob[i];
            i += 1;
        }
        self.len = len;
        assert(self@ =~= blob@);
        Ok(())
    }

    /// Replaces what the slot holds by its default.
    pub fn reset(&mut self)
        ensures
            final(self)@ == old(self).default_value(),
            final(self).key() == old(self).key(),
            final(self).default_value() == old(self).default_value(),
            final(self)@.len() <= N,
    {
        proof {
            use_type_invariant(&*self);
        }
        let len = self.default.len();
        let mut i: usize = 0;
        while i < len
            invariant
                i <= len,
                len == self.default@.len(),
                len <= N,
                self.len <= N,
                self.default@.len() <= N,
                self.name == old(self).name,
                self.default == old(self).default,
                forall|j: int| 0 <= j < i ==> self.buffer@[j] == self.default@[j],
            decreases len - i,
        {
            let byte = self.default[i];
            self.buffer[i] = byte;
            i += 1;
        }
        self.len = len;
        assert(self@ =~= self.default@);
    }

    /// The slot's capacity in bytes.
    pub fn max_bytes(&self) -> (r: usize)
        ensures
            r == N,
            self@.len() <= r,
    {
        proof {
            use_type_invariant(self);
        }
        N
    }

    /// The storage key that the slot is bound to.
    pub fn name(&self) -> (r: &str)
        ensures
            r@ == self.key(),
    {
        self.name.as_str()
    }

    /// Takes over what a storage answered to the request for the slot's
    /// blob: the blob, the default where the storage has none, and nothing
    /// where the storage failed. The blob must fit the slot, as every blob
    /// does that a storage read into a buffer of the slot's size.
    pub fn load<E>(&mut self, fetched: Result<Option<&[u8]>, E>) -> (r: Result<(), E>)
        requires
            fetched matches Ok(Some(blob)) ==> blob@.len() <= N,
        ensures
            match fetched {
                Ok(Some(blob)) => r is Ok && final(self)@ == blob@,
                Ok(None) => r is Ok && final(self)@ == old(self).default_value(),
                Err(e) => r == Err::<(), E>(e) && *final(self) == *old(self),
            },
            final(self).key() == old(self).key(),
            final(self).default_value() == old(self).default_value(),
            final(self)@.len() <= N,
    {
        proof {
            use_type_invariant(&*self);
        }
        match fetched {
            Ok(Some(blob)) => match self.set(blob) {
                Ok(()) => Ok(()),
                Err(_) => vstd::pervasive::unreached(),
            },
            Ok(None) => {
                self.reset();
                Ok(())
            },
            Err(e) => Err(e),
        }
    }
}

impl<const N: usize> ReadWrite for BlobConfig<N> {
    /// Asks `storage` for the blob under the slot's key, with room for `N`
    /// bytes, and takes over the answer as `load` does. It succeeds only
    /// where the storage holds nothing under the key or a blob that fits,
    /// and with a dependable storage it then does.
    fn read<S: Storage>(&mut self, storage: &S) -> (r: Result<(), S::Error>)
        ensures
            r is Ok ==> final(self)@ == value_read(
                storage.entries(),
                old(self).key(),
                old(self).default_value(),
            ),
            r is Ok ==> blob_readable(storage.entries(), old(self).key(), N as nat),
            storage.dependable() && blob_readable(storage.entries(), old(self).key(), N as nat)
                ==> r is Ok,
            r is Err ==> *final(self) == *old(self),
            final(self).key() == old(self).key(),
            final(self).default_value() == old(self).default_value(),
            final(self)@.len() <= N,
    {
        let mut buffer = [0_u8;N];
        let fetched = storage.get_blob(self.name.as_str(), &mut buffer);
        self.load(fetched)
    }

    /// Stores what the slot holds under the slot's key. With a dependable
    /// storage this succeeds.
    fn write<S: Storage>(&self, storage: &mut S) -> (r: Result<(), S::Error>)
        ensures
            r is Ok ==> final(storage).entries() == entries_written(
                old(storage).entries(),
                self.key(),
                self@,
            ),
            old(storage).dependable() ==> r is Ok && final(storage).dependable(),
    {
        storage.set_blob(self.name.as_str(), self.get())
    }
}

/// A slot read from a storage that has no entry under its key holds its
/// default.
pub proof fn lemma_read_absent_gives_default(
    entries: Map<Seq<char>, Stored>,
    name: Seq<char>,
    default: Seq<u8>,
)
    requires
        !entries.contains_key(name),
    ensures
        value_read(entries, name, default) == default,
{
}

/// A slot read from a storage that holds a blob under its key holds that
/// blob.
pub proof fn lemma_read_present_gives_stored(
    entries: Map<Seq<char>, Stored>,
    name: Seq<char>,
    default: Seq<u8>,
    blob: Seq<u8>,
)
    requires
        entries.contains_key(name),
        entries[name] == Stored::Blob(blob),
    ensures
        value_read(entries, name, default) == blob,
{
}

/// Writing a slot and reading it back gives what was written, whatever the
/// storage held before and whatever the slot's default is.
pub proof fn lemma_write_then_read(
    entries: Map<Seq<char>, Stored>,
    name: Seq<char>,
    default: Seq<u8>,
    value: Seq<u8>,
)
    ensures
        value_read(entries_written(entries, name, value), name, default) == value,
{
}

} // verus!
