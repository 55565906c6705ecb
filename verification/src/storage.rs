//! A storage capability for texts and blobs under names, with the error as
//! a parameter of the capability.

use vstd::prelude::*;

verus! {

/// What a storage of texts and blobs holds under one key.
pub enum Kept {
    Text(Seq<char>),
    Blob(Seq<u8>),
}

/// `kept` can answer a request for the text under `name` with room for
/// `capacity` bytes: there is nothing under `name`, or a text whose UTF-8
/// encoding fits.
pub open spec fn text_readable(kept: Map<Seq<char>, Kept>, name: Seq<char>, capacity: nat) -> bool {
    kept.contains_key(name) ==> kept[name] is Text && vstd::utf8::encode_utf8(
        kept[name]->Text_0,
    ).len() <= capacity
}

/// `kept` can answer a request for the blob under `name` with room for
/// `capacity` bytes: there is nothing under `name`, or a blob that fits.
pub open spec fn blob_readable(kept: Map<Seq<char>, Kept>, name: Seq<char>, capacity: nat) -> bool {
    kept.contains_key(name) ==> kept[name] is Blob && kept[name]->Blob_0.len() <= capacity
}

/// A key/value store that persists texts and blobs.
///
/// Each getter tells three outcomes apart: the key is absent (`Ok(None)`),
/// the key holds a value of the kind asked for (`Ok(Some(..))`), or the call
/// failed (`Err`).
///
/// Success is owed by a dependable storage alone, and a storage is dependable
/// only where its implementation says so and proves it: of any other, no
/// contract here promises success.
pub trait Storage<E> {
    /// What the storage holds, by key. An implementation that does not say
    /// holds something that no contract knows.
    open spec fn kept(&self) -> Map<Seq<char>, Kept> {
        arbitrary()
    }

    /// The storage fails no request that what it holds can answer, and no
    /// request to store. An implementation that does not say is not
    /// dependable.
    open spec fn dependable(&self) -> bool {
        false
    }

    /// Reads the text under `name` into `buf` and hands it back. A text that
    /// takes more bytes than `buf` has is never cut short.
    fn get_str<'a>(&self, name: &str, buf: &'a mut [u8]) -> (r: Result<Option<&'a str>, E>)
        ensures
            r matches Ok(Some(text)) ==> self.kept().contains_key(name@) && self.kept()[name@]
                == Kept::Text(text@) && vstd::utf8::encode_utf8(text@).len() <= old(buf)@.len(),
            r matches Ok(None) ==> !self.kept().contains_key(name@),
            self.dependable() && text_readable(self.kept(), name@, old(buf)@.len()) ==> r is Ok,
    ;

    /// Stores `val` under `name`, in place of what was there.
    fn set_str(&mut self, name: &str, val: &str) -> (r: Result<(), E>)
        ensures
            r is Ok ==> final(self).kept() == old(self).kept().insert(name@, Kept::Text(val@)),
            old(self).dependable() ==> r is Ok && final(self).dependable(),
    ;

    /// Reads the blob under `name` into `buf` and hands back the part of
    /// `buf` that it filled. A blob longer than `buf` is never cut short.
    fn get_blob<'a>(&self, name: &str, buf: &'a mut [u8]) -> (r: Result<Option<&'a [u8]>, E>)
        ensures
            r matches Ok(Some(blob)) ==> self.kept().contains_key(name@) && self.kept()[name@]
                == Kept::Blob(blob@) && blob@.len() <= old(buf)@.len(),
            r matches Ok(None) ==> !self.kept().contains_key(name@),
            self.dependable() && blob_readable(self.kept(), name@, old(buf)@.len()) ==> r is Ok,
    ;

    /// Stores `val` under `name`, in place of what was there.
    fn set_blob(&mut self, name: &str, val: &[u8]) -> (r: Result<(), E>)
        ensures
            r is Ok ==> final(self).kept() == old(self).kept().insert(name@, Kept::Blob(val@)),
            old(self).dependable() ==> r is Ok && final(self).dependable(),
    ;
}

} // verus!
