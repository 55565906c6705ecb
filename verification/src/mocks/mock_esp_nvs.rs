//! A storage that lives in memory and never fails on its own: it fails only
//! where the key holds a value of another kind, or a blob too long for the
//! caller's buffer.

use vstd::prelude::*;
use vstd::hash_map::StringHashMap;
use vstd::slice::slice_subrange;
use vstd::slice::slice_to_vec;
use crate::buffer::fill;
use crate::traits::storage::{Storage, Stored};

verus! {

/// A value as the mock keeps it.
#[derive(Debug)]
pub enum MockEspNvsValue {
    BlobValue(Vec<u8>),
    U8Value(u8),
    I8Value(i8),
    U16Value(u16),
    I16Value(i16),
    U32Value(u32),
    I32Value(i32),
    U64Value(u64),
    I64Value(i64),
}

impl MockEspNvsValue {
    /// The value as the storage capability speaks of it.
    pub open spec fn stored(&self) -> Stored {
        match self {
            MockEspNvsValue::BlobValue(bytes) => Stored::Blob(bytes@),
            MockEspNvsValue::U8Value(val) => Stored::U8(*val),
            MockEspNvsValue::I8Value(val) => Stored::I8(*val),
            MockEspNvsValue::U16Value(val) => Stored::U16(*val),
            MockEspNvsValue::I16Value(val) => Stored::I16(*val),
            MockEspNvsValue::U32Value(val) => Stored::U32(*val),
            MockEspNvsValue::I32Value(val) => Stored::I32(*val),
            MockEspNvsValue::U64Value(val) => Stored::U64(*val),
            MockEspNvsValue::I64Value(val) => Stored::I64(*val),
        }
    }

    /// A copy of the value.
    pub fn duplicate(&self) -> (r: MockEspNvsValue)
        ensures
            r.stored() == self.stored(),
    {
        match self {
            MockEspNvsValue::BlobValue(bytes) => MockEspNvsValue::BlobValue(
                slice_to_vec(bytes.as_slice()),
            ),
            MockEspNvsValue::U8Value(val) => MockEspNvsValue::U8Value(*val),
            MockEspNvsValue::I8Value(val) => MockEspNvsValue::I8Value(*val),
            MockEspNvsValue::U16Value(val) => MockEspNvsValue::U16Value(*val),
            MockEspNvsValue::I16Value(val) => MockEspNvsValue::I16Value(*val),
            MockEspNvsValue::U32Value(val) => MockEspNvsValue::U32Value(*val),
            MockEspNvsValue::I32Value(val) => MockEspNvsValue::I32Value(*val),
            MockEspNvsValue::U64Value(val) => MockEspNvsValue::U64Value(*val),
            MockEspNvsValue::I64Value(val) => MockEspNvsValue::I64Value(*val),
        }
    }
}

/// Why the mock refused a read.
#[derive(Debug)]
pub enum MockEspNvsStorageError {
    /// The key holds a value of another kind than the one asked for.
    WrongType(String),
    /// The key holds a blob longer than the buffer it was to be read into.
    TooLarge(String),
}

/// The map that results from storing `pairs` one after the other, so that of
/// two pairs with one key the later one stays.
pub open spec fn entries_of(pairs: Seq<(Seq<char>, Stored)>) -> Map<Seq<char>, Stored>
    decreases pairs.len(),
{
    if pairs.len() == 0 {
        Map::empty()
    } else {
        entries_of(pairs.drop_last()).insert(pairs.last().0, pairs.last().1)
    }
}

/// The pairs of `key_values` as the storage capability speaks of them.
pub open spec fn listed(key_values: Seq<(String, MockEspNvsValue)>) -> Seq<(Seq<char>, Stored)> {
    Seq::new(key_values.len(), |i: int| (key_values[i].0@, key_values[i].1.stored()))
}

/// A storage in memory.
pub struct MockEspNvs {
    key_values: StringHashMap<MockEspNvsValue>,
}

impl MockEspNvs {
    /// A storage that holds `key_values`; of two pairs with one key, the
    /// later one.
    pub fn from<const N: usize>(key_values: [(String, MockEspNvsValue); N]) -> (r: MockEspNvs)
        ensures
            r.entries() == entries_of(listed(key_values@)),
    {
        let mut map: StringHashMap<MockEspNvsValue> = StringHashMap::new();
        let ghost pairs = listed(key_values@);
        let mut i: usize = 0;
        assert(view_of(map@) =~= entries_of(pairs.take(0)));
        while i < N
            invariant
                i <= N,
                pairs == listed(key_values@),
                pairs.len() == N,
                view_of(map@) == entries_of(pairs.take(i as int)),
            decreases N - i,
        {
            let key = key_values[i].0.clone();
            let value = key_values[i].1.duplicate();
            map.insert(key, value);
            proof {
                let next = pairs.take(i + 1);
                assert(next.drop_last() =~= pairs.take(i as int));
                assert(next.last() == pairs[i as int]);
                assert(view_of(map@) =~= entries_of(next));
            }
            i += 1;
        }
        assert(pairs.take(N as int) =~= pairs);
        MockEspNvs { key_values: map }
    }

    fn lookup(&self, name: &str) -> (r: Option<&MockEspNvsValue>)
        ensures
            match r {
                Some(value) => self.entries().contains_key(name@) && self.entries()[name@]
                    == value.stored(),
                None => !self.entries().contains_key(name@),
            },
    {
        self.key_values.get(name)
    }

    fn store(&mut self, name: &str, value: MockEspNvsValue)
        ensures
            final(self).entries() == old(self).entries().insert(name@, value.stored()),
    {
        self.key_values.insert(name.to_owned(), value);
        assert(view_of(self.key_values@) =~= view_of(old(self).key_values@).insert(
            name@,
            value.stored(),
        ));
    }
}

/// What a map of the mock's values holds, as the storage capability speaks of
/// it.
pub open spec fn view_of(map: Map<Seq<char>, MockEspNvsValue>) -> Map<Seq<char>, Stored> {
    Map::new(|key: Seq<char>| map.contains_key(key), |key: Seq<char>| map[key].stored())
}

impl Storage for MockEspNvs {
    type Error = MockEspNvsStorageError;

    /// The mock fails only where what it holds cannot answer.
    open spec fn dependable(&self) -> bool {
        true
    }

    closed spec fn entries(&self) -> Map<Seq<char>, Stored> {
        view_of(self.key_values@)
    }

    fn get_blob<'a>(&self, name: &str, buf: &'a mut [u8]) -> (r: Result<
        Option<&'a [u8]>,
        Self::Error,
    >)
        ensures
            !self.entries().contains_key(name@) ==> r matches Ok(None),
            self.entries().contains_key(name@) ==> match self.entries()[name@] {
                Stored::Blob(bytes) => if bytes.len() <= old(buf)@.len() {
                    r matches Ok(Some(blob)) && blob@ == bytes
                } else {
                    r matches Err(MockEspNvsStorageError::TooLarge(message)) && message@
                        == "Blob too large"@
                },
                _ => r matches Err(MockEspNvsStorageError::WrongType(message)) && message@
                    == "Not a blob"@,
            },
    {
        match self.lookup(name) {
            None => Ok(None),
            Some(MockEspNvsValue::BlobValue(value)) => {
                let len = value.len();
                if len > buf.len() {
                    return Err(MockEspNvsStorageError::TooLarge("Blob too large".to_owned()));
                }
                fill(buf, value.as_slice());
                let blob = slice_subrange(buf, 0, len);
                assert(blob@ =~= value@);
                Ok(Some(blob))
            },
            Some(_) => Err(MockEspNvsStorageError::WrongType("Not a blob".to_owned())),
        }
    }

    fn set_blob(&mut self, name: &str, val: &[u8]) -> (r: Result<(), Self::Error>)
        ensures
            r is Ok,
    {
        self.store(name, MockEspNvsValue::BlobValue(slice_to_vec(val)));
        Ok(())
    }

    fn get_u8(&self, name: &str) -> (r: Result<Option<u8>, Self::Error>)
        ensures
            !self.entries().contains_key(name@) ==> r matches Ok(None),
            self.entries().contains_key(name@) ==> match self.entries()[name@] {
                Stored::U8(val) => r matches Ok(Some(got)) && got == val,
                _ => r matches Err(MockEspNvsStorageError::WrongType(message)) && message@
                    == "Not a u8"@,
            },
    {
        match self.lookup(name) {
            None => Ok(None),
            Some(MockEspNvsValue::U8Value(value)) => Ok(Some(*value)),
            Some(_) => Err(MockEspNvsStorageError::WrongType("Not a u8".to_owned())),
        }
    }

    fn set_u8(&mut self, name: &str, val: u8) -> (r: Result<(), Self::Error>)
        ensures
            r is Ok,
    {
        self.store(name, MockEspNvsValue::U8Value(val));
        Ok(())
    }

    fn get_i8(&self, name: &str) -> (r: Result<Option<i8>, Self::Error>)
        ensures
            !self.entries().contains_key(name@) ==> r matches Ok(None),
            self.entries().contains_key(name@) ==> match self.entries()[name@] {
                Stored::I8(val) => r matches Ok(Some(got)) && got == val,
                _ => r matches Err(MockEspNvsStorageError::WrongType(message)) && message@
                    == "Not a i8"@,
            },
    {
        match self.lookup(name) {
            None => Ok(None),
            Some(MockEspNvsValue::I8Value(value)) => Ok(Some(*value)),
            Some(_) => Err(MockEspNvsStorageError::WrongType("Not a i8".to_owned())),
        }
    }

    fn set_i8(&mut self, name: &str, val: i8) -> (r: Result<(), Self::Error>)
        ensures
            r is Ok,
    {
        self.store(name, MockEspNvsValue::I8Value(val));
        Ok(())
    }

    fn get_u16(&self, name: &str) -> (r: Result<Option<u16>, Self::Error>)
        ensures
            !self.entries().contains_key(name@) ==> r matches Ok(None),
            self.entries().contains_key(name@) ==> match self.entries()[name@] {
                Stored::U16(val) => r matches Ok(Some(got)) && got == val,
                _ => r matches Err(MockEspNvsStorageError::WrongType(message)) && message@
                    == "Not a u16"@,
            },
    {
        match self.lookup(name) {
            None => Ok(None),
            Some(MockEspNvsValue::U16Value(value)) => Ok(Some(*value)),
            Some(_) => Err(MockEspNvsStorageError::WrongType("Not a u16".to_owned())),
        }
    }

    fn set_u16(&mut self, name: &str, val: u16) -> (r: Result<(), Self::Error>)
        ensures
            r is Ok,
    {
        self.store(name, MockEspNvsValue::U16Value(val));
        Ok(())
    }

    fn get_i16(&self, name: &str) -> (r: Result<Option<i16>, Self::Error>)
        ensures
            !self.entries().contains_key(name@) ==> r matches Ok(None),
            self.entries().contains_key(name@) ==> match self.entries()[name@] {
                Stored::I16(val) => r matches Ok(Some(got)) && got == val,
                _ => r matches Err(MockEspNvsStorageError::WrongType(message)) && message@
                    == "Not a i16"@,
            },
    {
        match self.lookup(name) {
            None => Ok(None),
            Some(MockEspNvsValue::I16Value(value)) => Ok(Some(*value)),
            Some(_) => Err(MockEspNvsStorageError::WrongType("Not a i16".to_owned())),
        }
    }

    fn set_i16(&mut self, name: &str, val: i16) -> (r: Result<(), Self::Error>)
        ensures
            r is Ok,
    {
        self.store(name, MockEspNvsValue::I16Value(val));
        Ok(())
    }

    fn get_u32(&self, name: &str) -> (r: Result<Option<u32>, Self::Error>)
        ensures
            !self.entries().contains_key(name@) ==> r matches Ok(None),
            self.entries().contains_key(name@) ==> match self.entries()[name@] {
                Stored::U32(val) => r matches Ok(Some(got)) && got == val,
                _ => r matches Err(MockEspNvsStorageError::WrongType(message)) && message@
                    == "Not a u32"@,
            },
    {
        match self.lookup(name) {
            None => Ok(None),
            Some(MockEspNvsValue::U32Value(value)) => Ok(Some(*value)),
            Some(_) => Err(MockEspNvsStorageError::WrongType("Not a u32".to_owned())),
        }
    }

    fn set_u32(&mut self, name: &str, val: u32) -> (r: Result<(), Self::Error>)
        ensures
            r is Ok,
    {
        self.store(name, MockEspNvsValue::U32Value(val));
        Ok(())
    }

    fn get_i32(&self, name: &str) -> (r: Result<Option<i32>, Self::Error>)
        ensures
            !self.entries().contains_key(name@) ==> r matches Ok(None),
            self.entries().contains_key(name@) ==> match self.entries()[name@] {
                Stored::I32(val) => r matches Ok(Some(got)) && got == val,
                _ => r matches Err(MockEspNvsStorageError::WrongType(message)) && message@
                    == "Not a i32"@,
            },
    {
        match self.lookup(name) {
            None => Ok(None),
            Some(MockEspNvsValue::I32Value(value)) => Ok(Some(*value)),
            Some(_) => Err(MockEspNvsStorageError::WrongType("Not a i32".to_owned())),
        }
    }

    fn set_i32(&mut self, name: &str, val: i32) -> (r: Result<(), Self::Error>)
        ensures
            r is Ok,
    {
        self.store(name, MockEspNvsValue::I32Value(val));
        Ok(())
    }

    fn get_u64(&self, name: &str) -> (r: Result<Option<u64>, Self::Error>)
        ensures
            !self.entries().contains_key(name@) ==> r matches Ok(None),
            self.entries().contains_key(name@) ==> match self.entries()[name@] {
                Stored::U64(val) => r matches Ok(Some(got)) && got == val,
                _ => r matches Err(MockEspNvsStorageError::WrongType(message)) && message@
                    == "Not a u64"@,
            },
    {
        match self.lookup(name) {
            None => Ok(None),
            Some(MockEspNvsValue::U64Value(value)) => Ok(Some(*value)),
            Some(_) => Err(MockEspNvsStorageError::WrongType("Not a u64".to_owned())),
        }
    }

    fn set_u64(&mut self, name: &str, val: u64) -> (r: Result<(), Self::Error>)
        ensures
            r is Ok,
    {
        self.store(name, MockEspNvsValue::U64Value(val));
        Ok(())
    }

    fn get_i64(&self, name: &str) -> (r: Result<Option<i64>, Self::Error>)
        ensures
            !self.entries().contains_key(name@) ==> r matches Ok(None),
            self.entries().contains_key(name@) ==> match self.entries()[name@] {
                Stored::I64(val) => r matches Ok(Some(got)) && got == val,
                _ => r matches Err(MockEspNvsStorageError::WrongType(message)) && message@
                    == "Not a i64"@,
            },
    {
        match self.lookup(name) {
            None => Ok(None),
            Some(MockEspNvsValue::I64Value(value)) => Ok(Some(*value)),
            Some(_) => Err(MockEspNvsStorageError::WrongType("Not a i64".to_owned())),
        }
    }

    fn set_i64(&mut self, name: &str, val: i64) -> (r: Result<(), Self::Error>)
        ensures
            r is Ok,
    {
        self.store(name, MockEspNvsValue::I64Value(val));
        Ok(())
    }
}

} // verus!
