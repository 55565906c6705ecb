//! The storage capability: named blobs and fixed-width integers that persist.

use vstd::prelude::*;

verus! {

/// What a storage holds under one key.
pub enum Stored {
    Blob(Seq<u8>),
    U8(u8),
    I8(i8),
    U16(u16),
    I16(i16),
    U32(u32),
    I32(i32),
    U64(u64),
    I64(i64),
}

/// `entries` can answer a request for the blob under `name` with room for
/// `capacity` bytes: there is nothing under `name`, or a blob that fits.
pub open spec fn blob_readable(entries: Map<Seq<char>, Stored>, name: Seq<char>, capacity: nat) -> bool {
    entries.contains_key(name) ==> entries[name] is Blob && entries[name]->Blob_0.len() <= capacity
}

/// A key/value store that persists.
///
/// Every getter tells three outcomes apart: the key is absent (`Ok(None)`),
/// the key holds a value of the kind asked for (`Ok(Some(..))`), or the call
/// failed (`Err`), be it that the medium failed, that the key holds a value of
/// another kind, or that the value does not fit the caller's buffer.
///
/// Success is owed by a dependable storage alone, and a storage is dependable
/// only where its implementation says so and proves it: of any other, no
/// contract here promises success, and it may fail at any call.
pub trait Storage {
    /// The storage's own error.
    type Error;

    /// What the storage holds, by key. An implementation that does not say
    /// holds something that no contract knows.
    open spec fn entries(&self) -> Map<Seq<char>, Stored> {
        arbitrary()
    }

    /// The storage fails no request that what it holds can answer, and no
    /// request to store. An implementation that does not say is not
    /// dependable.
    open spec fn dependable(&self) -> bool {
        false
    }

    /// Reads the blob under `name` into `buf` and hands back the part of
    /// `buf` that it filled. A blob longer than `buf` is never cut short.
    fn get_blob<'a>(&self, name: &str, buf: &'a mut [u8]) -> (r: Result<
        Option<&'a [u8]>,
        Self::Error,
    >)
        ensures
            r matches Ok(Some(blob)) ==> self.entries().contains_key(name@) && self.entries()[name@]
                == Stored::Blob(blob@) && blob@.len() <= old(buf)@.len(),
            r matches Ok(None) ==> !self.entries().contains_key(name@),
            self.dependable() && blob_readable(self.entries(), name@, old(buf)@.len()) ==> r is Ok,
    ;

    /// Stores `val` under `name`, in place of what was there.
    fn set_blob(&mut self, name: &str, val: &[u8]) -> (r: Result<(), Self::Error>)
        ensures
            r is Ok ==> final(self).entries() == old(self).entries().insert(
                name@,
                Stored::Blob(val@),
            ),
            old(self).dependable() ==> r is Ok && final(self).dependable(),
    ;

    fn get_u8(&self, name: &str) -> (r: Result<Option<u8>, Self::Error>)
        ensures
            r matches Ok(Some(val)) ==> self.entries().contains_key(name@) && self.entries()[name@]
                == Stored::U8(val),
            r matches Ok(None) ==> !self.entries().contains_key(name@),
            self.dependable() && (self.entries().contains_key(name@) ==> self.entries()[name@]
                is U8) ==> r is Ok,
    ;

    fn set_u8(&mut self, name: &str, val: u8) -> (r: Result<(), Self::Error>)
        ensures
            r is Ok ==> final(self).entries() == old(self).entries().insert(name@, Stored::U8(val)),
            old(self).dependable() ==> r is Ok && final(self).dependable(),
    ;

    fn get_i8(&self, name: &str) -> (r: Result<Option<i8>, Self::Error>)
        ensures
            r matches Ok(Some(val)) ==> self.entries().contains_key(name@) && self.entries()[name@]
                == Stored::I8(val),
            r matches Ok(None) ==> !self.entries().contains_key(name@),
            self.dependable() && (self.entries().contains_key(name@) ==> self.entries()[name@]
                is I8) ==> r is Ok,
    ;

    fn set_i8(&mut self, name: &str, val: i8) -> (r: Result<(), Self::Error>)
        ensures
            r is Ok ==> final(self).entries() == old(self).entries().insert(name@, Stored::I8(val)),
            old(self).dependable() ==> r is Ok && final(self).dependable(),
    ;

    fn get_u16(&self, name: &str) -> (r: Result<Option<u16>, Self::Error>)
        ensures
            r matches Ok(Some(val)) ==> self.entries().contains_key(name@) && self.entries()[name@]
                == Stored::U16(val),
            r matches Ok(None) ==> !self.entries().contains_key(name@),
            self.dependable() && (self.entries().contains_key(name@) ==> self.entries()[name@]
                is U16) ==> r is Ok,
    ;

    fn set_u16(&mut self, name: &str, val: u16) -> (r: Result<(), Self::Error>)
        ensures
            r is Ok ==> final(self).entries() == old(self).entries().insert(
                name@,
                Stored::U16(val),
            ),
            old(self).dependable() ==> r is Ok && final(self).dependable(),
    ;

    fn get_i16(&self, name: &str) -> (r: Result<Option<i16>, Self::Error>)
        ensures
            r matches Ok(Some(val)) ==> self.entries().contains_key(name@) && self.entries()[name@]
                == Stored::I16(val),
            r matches Ok(None) ==> !self.entries().contains_key(name@),
            self.dependable() && (self.entries().contains_key(name@) ==> self.entries()[name@]
                is I16) ==> r is Ok,
    ;

    fn set_i16(&mut self, name: &str, val: i16) -> (r: Result<(), Self::Error>)
        ensures
            r is Ok ==> final(self).entries() == old(self).entries().insert(
                name@,
                Stored::I16(val),
            ),
            old(self).dependable() ==> r is Ok && final(self).dependable(),
    ;

    fn get_u32(&self, name: &str) -> (r: Result<Option<u32>, Self::Error>)
        ensures
            r matches Ok(Some(val)) ==> self.entries().contains_key(name@) && self.entries()[name@]
                == Stored::U32(val),
            r matches Ok(None) ==> !self.entries().contains_key(name@),
            self.dependable() && (self.entries().contains_key(name@) ==> self.entries()[name@]
                is U32) ==> r is Ok,
    ;

    fn set_u32(&mut self, name: &str, val: u32) -> (r: Result<(), Self::Error>)
        ensures
            r is Ok ==> final(self).entries() == old(self).entries().insert(
                name@,
                Stored::U32(val),
            ),
            old(self).dependable() ==> r is Ok && final(self).dependable(),
    ;

    fn get_i32(&self, name: &str) -> (r: Result<Option<i32>, Self::Error>)
        ensures
            r matches Ok(Some(val)) ==> self.entries().contains_key(name@) && self.entries()[name@]
                == Stored::I32(val),
            r matches Ok(None) ==> !self.entries().contains_key(name@),
            self.dependable() && (self.entries().contains_key(name@) ==> self.entries()[name@]
                is I32) ==> r is Ok,
    ;

    fn set_i32(&mut self, name: &str, val: i32) -> (r: Result<(), Self::Error>)
        ensures
            r is Ok ==> final(self).entries() == old(self).entries().insert(
                name@,
                Stored::I32(val),
            ),
            old(self).dependable() ==> r is Ok && final(self).dependable(),
    ;

    fn get_u64(&self, name: &str) -> (r: Result<Option<u64>, Self::Error>)
        ensures
            r matches Ok(Some(val)) ==> self.entries().contains_key(name@) && self.entries()[name@]
                == Stored::U64(val),
            r matches Ok(None) ==> !self.entries().contains_key(name@),
            self.dependable() && (self.entries().contains_key(name@) ==> self.entries()[name@]
                is U64) ==> r is Ok,
    ;

    fn set_u64(&mut self, name: &str, val: u64) -> (r: Result<(), Self::Error>)
        ensures
            r is Ok ==> final(self).entries() == old(self).entries().insert(
                name@,
                Stored::U64(val),
            ),
            old(self).dependable() ==> r is Ok && final(self).dependable(),
    ;

    fn get_i64(&self, name: &str) -> (r: Result<Option<i64>, Self::Error>)
        ensures
            r matches Ok(Some(val)) ==> self.entries().contains_key(name@) && self.entries()[name@]
                == Stored::I64(val),
            r matches Ok(None) ==> !self.entries().contains_key(name@),
            self.dependable() && (self.entries().contains_key(name@) ==> self.entries()[name@]
                is I64) ==> r is Ok,
    ;

    fn set_i64(&mut self, name: &str, val: i64) -> (r: Result<(), Self::Error>)
        ensures
            r is Ok ==> final(self).entries() == old(self).entries().insert(
                name@,
                Stored::I64(val),
            ),
            old(self).dependable() ==> r is Ok && final(self).dependable(),
    ;
}

} // verus!
