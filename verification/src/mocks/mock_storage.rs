//! A storage of texts and blobs that lives in memory. It fails only where
//! the key holds a value of the other kind, or one too long for the
//! caller's buffer.

use vstd::prelude::*;
use vstd::hash_map::StringHashMap;
use vstd::slice::slice_subrange;
use vstd::slice::slice_to_vec;
use crate::buffer::fill;
use crate::storage::{Kept, Storage};
use crate::utf8::decode;

verus! {

/// A value as the mock keeps it.
#[derive(Debug)]
pub enum MockStorageValue {
    StringValue(String),
    BlobValue(Vec<u8>),
}

impl MockStorageValue {
    /// The value as the storage capability speaks of it.
    pub open spec fn kept(&self) -> Kept {
        match self {
            MockStorageValue::StringValue(text) => Kept::Text(text@),
            MockStorageValue::BlobValue(bytes) => Kept::Blob(bytes@),
        }
    }

    /// A copy of the value.
    pub fn duplicate(&self) -> (r: MockStorageValue)
        ensures
            r.kept() == self.kept(),
    {
        match self {
            MockStorageValue::StringValue(text) => MockStorageValue::StringValue(text.clone()),
            MockStorageValue::BlobValue(bytes) => MockStorageValue::BlobValue(
                slice_to_vec(bytes.as_slice()),
            ),
        }
    }
}

/// Why the mock refused a read.
#[derive(Debug)]
pub enum MockStorageError {
    /// The key holds a value of the other kind.
    WrongType(String),
    /// The key holds a value longer than the buffer it was to be read into.
    TooLarge(String),
}

/// The map that results from storing `pairs` one after the other, so that of
/// two pairs with one key the later one stays.
pub open spec fn kept_of(pairs: Seq<(Seq<char>, Kept)>) -> Map<Seq<char>, Kept>
    decreases pairs.len(),
{
    if pairs.len() == 0 {
        Map::empty()
    } else {
        kept_of(pairs.drop_last()).insert(pairs.last().0, pairs.last().1)
    }
}

/// The pairs of `key_values` as the storage capability speaks of them.
pub open spec fn listed(key_values: Seq<(String, MockStorageValue)>) -> Seq<(Seq<char>, Kept)> {
    Seq::new(key_values.len(), |i: int| (key_values[i].0@, key_values[i].1.kept()))
}

/// What a map of the mock's values holds, as the storage capability speaks
/// of it.
pub open spec fn view_of(map: Map<Seq<char>, MockStorageValue>) -> Map<Seq<char>, Kept> {
    Map::new(|key: Seq<char>| map.contains_key(key), |key: Seq<char>| map[key].kept())
}

/// A storage in memory.
pub struct MockStorage {
    key_values: StringHashMap<MockStorageValue>,
}

impl MockStorage {
    /// A storage that holds nothing.
    pub fn new() -> (r: MockStorage)
        ensures
            r.kept() == Map::<Seq<char>, Kept>::empty(),
    {
        let storage = MockStorage { key_values: StringHashMap::new() };
        assert(storage.kept() =~= Map::<Seq<char>, Kept>::empty());
        storage
    }

    /// A storage that holds `key_values`; of two pairs with one key, the
    /// later one.
    pub fn from<const N: usize>(key_values: [(String, MockStorageValue); N]) -> (r: MockStorage)
        ensures
            r.kept() == kept_of(listed(key_values@)),
    {
        let mut map: StringHashMap<MockStorageValue> = StringHashMap::new();
        let ghost pairs = listed(key_values@);
        let mut i: usize = 0;
        assert(view_of(map@) =~= kept_of(pairs.take(0)));
        while i < N
            invariant
                i <= N,
                pairs == listed(key_values@),
                pairs.len() == N,
                view_of(map@) == kept_of(pairs.take(i as int)),
            decreases N - i,
        {
            let key = key_values[i].0.clone();
            let value = key_values[i].1.duplicate();
            map.insert(key, value);
            proof {
                let next = pairs.take(i + 1);
                assert(next.drop_last() =~= pairs.take(i as int));
                assert(next.last() == pairs[i as int]);
                assert(view_of(map@) =~= kept_of(next));
            }
            i += 1;
        }
        assert(pairs.take(N as int) =~= pairs);
        MockStorage { key_values: map }
    }

    fn lookup(&self, name: &str) -> (r: Option<&MockStorageValue>)
        ensures
            match r {
                Some(value) => self.kept().contains_key(name@) && self.kept()[name@]
                    == value.kept(),
                None => !self.kept().contains_key(name@),
            },
    {
        self.key_values.get(name)
    }

    fn store(&mut self, name: &str, value: MockStorageValue)
        ensures
            final(self).kept() == old(self).kept().insert(name@, value.kept()),
    {
        self.key_values.insert(name.to_owned(), value);
        assert(view_of(self.key_values@) =~= view_of(old(self).key_values@).insert(
            name@,
            value.kept(),
        ));
    }
}

impl Storage<MockStorageError> for MockStorage {
    /// The mock fails only where what it holds cannot answer.
    open spec fn dependable(&self) -> bool {
        true
    }

    closed spec fn kept(&self) -> Map<Seq<char>, Kept> {
        view_of(self.key_values@)
    }

    fn get_str<'a>(&self, name: &str, buf: &'a mut [u8]) -> (r: Result<
        Option<&'a str>,
        MockStorageError,
    >)
        ensures
            !self.kept().contains_key(name@) ==> r matches Ok(None),
            self.kept().contains_key(name@) ==> match self.kept()[name@] {
                Kept::Text(chars) => if vstd::utf8::encode_utf8(chars).len() <= old(buf)@.len() {
                    r matches Ok(Some(text)) && text@ == chars
                } else {
                    r matches Err(MockStorageError::TooLarge(message)) && message@
                        == "String too large"@
                },
                _ => r matches Err(MockStorageError::WrongType(message)) && message@ == "Not a String"@,
            },
    {
        match self.lookup(name) {
            None => Ok(None),
            Some(MockStorageValue::StringValue(value)) => {
                let bytes = value.as_str().as_bytes();
                let len = bytes.len();
                if len > buf.len() {
                    return Err(MockStorageError::TooLarge("String too large".to_owned()));
                }
                fill(buf, bytes);
                let filled = slice_subrange(buf, 0, len);
                proof {
                    assert(filled@ =~= bytes@);
                    vstd::utf8::encode_utf8_valid_utf8(value@);
                }
                match decode(filled) {
                    Ok(text) => {
                        proof {
                            vstd::utf8::encode_utf8_decode_utf8(value@);
                        }
                        Ok(Some(text))
                    },
                    Err(_) => vstd::pervasive::unreached(),
                }
            },
            Some(_) => Err(MockStorageError::WrongType("Not a String".to_owned())),
        }
    }

    fn set_str(&mut self, name: &str, val: &str) -> (r: Result<(), MockStorageError>)
        ensures
            r is Ok,
    {
        self.store(name, MockStorageValue::StringValue(val.to_owned()));
        Ok(())
    }

    fn get_blob<'a>(&self, name: &str, buf: &'a mut [u8]) -> (r: Result<
        Option<&'a [u8]>,
        MockStorageError,
    >)
        ensures
            !self.kept().contains_key(name@) ==> r matches Ok(None),
            self.kept().contains_key(name@) ==> match self.kept()[name@] {
                Kept::Blob(bytes) => if bytes.len() <= old(buf)@.len() {
                    r matches Ok(Some(blob)) && blob@ == bytes
                } else {
                    r matches Err(MockStorageError::TooLarge(message)) && message@
                        == "Blob too large"@
                },
                _ => r matches Err(MockStorageError::WrongType(message)) && message@ == "Not a Blob"@,
            },
    {
        match self.lookup(name) {
            None => Ok(None),
            Some(MockStorageValue::BlobValue(value)) => {
                let len = value.len();
                if len > buf.len() {
                    return Err(MockStorageError::TooLarge("Blob too large".to_owned()));
                }
                fill(buf, value.as_slice());
                let blob = slice_subrange(buf, 0, len);
                assert(blob@ =~= value@);
                Ok(Some(blob))
            },
            Some(_) => Err(MockStorageError::WrongType("Not a Blob".to_owned())),
        }
    }

    fn set_blob(&mut self, name: &str, val: &[u8]) -> (r: Result<(), MockStorageError>)
        ensures
            r is Ok,
    {
        self.store(name, MockStorageValue::BlobValue(slice_to_vec(val)));
        Ok(())
    }
}

} // verus!
