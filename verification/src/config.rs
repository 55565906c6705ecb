//! The device's configuration: a fixed set of slots that load and save
//! together.

use vstd::prelude::*;
use vstd::slice::slice_to_vec;
use vstd::string::StringSliceAdditionalSpecFns;
use crate::config::blob_config::{entries_written, value_read, BlobConfig};
use crate::name::{init_name, name_bytes, MAC_LENGTH};
use crate::traits::read_write::ReadWrite;
use crate::traits::storage::{blob_readable, Storage, Stored};

pub mod blob_config;
pub mod name_config;

verus! {

/// Storage key of the device name.
pub const NAME_FIELD: &'static str = "name";

/// Capacity of the device name's slot.
pub const NAME_MAX_BYTES: usize = 100;

/// Storage key of the network name.
pub const SSID_FIELD: &'static str = "ssid";

/// Capacity of the network name's slot.
pub const SSID_MAX_BYTES: usize = 32;

/// Storage key of the network's pre-shared key.
pub const PSK_FIELD: &'static str = "psk";

/// Capacity of the pre-shared key's slot.
pub const PSK_MAX_BYTES: usize = 64;

/// The credentials that the device was built with.
pub struct WifiConfig {
    pub wifi_ssid: &'static str,
    pub wifi_psk: &'static str,
}

impl Default for WifiConfig {
    /// No credentials: both texts are empty.
    fn default() -> (r: WifiConfig)
        ensures
            r.wifi_ssid@ == Seq::<char>::empty(),
            r.wifi_psk@ == Seq::<char>::empty(),
    {
        proof {
            reveal_strlit("");
        }
        WifiConfig { wifi_ssid: "", wifi_psk: "" }
    }
}

/// The slots of one device, in the order in which they load and save.
pub struct Config {
    pub name: BlobConfig<NAME_MAX_BYTES>,
    pub ssid: BlobConfig<SSID_MAX_BYTES>,
    pub psk: BlobConfig<PSK_MAX_BYTES>,
}

/// The name that a device falls back to: the one derived from its hardware
/// identifier.
pub fn create_default_name(base_mac_address: &[u8; MAC_LENGTH]) -> (r: Vec<u8>)
    ensures
        r@ == name_bytes(base_mac_address@),
{
    let name = init_name(base_mac_address);
    slice_to_vec(name.as_bytes())
}

impl Config {
    /// The configuration of the device whose hardware identifier is
    /// `base_mac_address`, with the credentials to fall back to. Every slot
    /// is empty until it is read.
    pub fn new(base_mac_address: &[u8; MAC_LENGTH], default_ssid: &str, default_psk: &str) -> (r:
        Config)
        requires
            default_ssid.spec_bytes().len() <= SSID_MAX_BYTES,
            default_psk.spec_bytes().len() <= PSK_MAX_BYTES,
        ensures
            r.name.key() == NAME_FIELD@,
            r.name.default_value() == name_bytes(base_mac_address@),
            r.name@ == Seq::<u8>::empty(),
            r.ssid.key() == SSID_FIELD@,
            r.ssid.default_value() == default_ssid.spec_bytes(),
            r.ssid@ == Seq::<u8>::empty(),
            r.psk.key() == PSK_FIELD@,
            r.psk.default_value() == default_psk.spec_bytes(),
            r.psk@ == Seq::<u8>::empty(),
    {
        let default_name = create_default_name(base_mac_address);
        proof {
            crate::name::lemma_name_is_ascii(base_mac_address@);
        }
        Config {
            name: BlobConfig::new(NAME_FIELD, default_name.as_slice()),
            ssid: BlobConfig::new(SSID_FIELD, default_ssid.as_bytes()),
            psk: BlobConfig::new(PSK_FIELD, default_psk.as_bytes()),
        }
    }

    /// A storage that holds `entries` can answer for the name's slot.
    pub open spec fn name_readable(&self, entries: Map<Seq<char>, Stored>) -> bool {
        blob_readable(entries, self.name.key(), NAME_MAX_BYTES as nat)
    }

    /// A storage that holds `entries` can answer for the network name's
    /// slot.
    pub open spec fn ssid_readable(&self, entries: Map<Seq<char>, Stored>) -> bool {
        blob_readable(entries, self.ssid.key(), SSID_MAX_BYTES as nat)
    }

    /// A storage that holds `entries` can answer for the pre-shared key's
    /// slot.
    pub open spec fn psk_readable(&self, entries: Map<Seq<char>, Stored>) -> bool {
        blob_readable(entries, self.psk.key(), PSK_MAX_BYTES as nat)
    }

    /// In `after` the name's slot holds what reading it from `entries`
    /// gives.
    pub open spec fn name_read(&self, after: &Config, entries: Map<Seq<char>, Stored>) -> bool {
        after.name@ == value_read(entries, self.name.key(), self.name.default_value())
    }

    /// In `after` the network name's slot holds what reading it from
    /// `entries` gives.
    pub open spec fn ssid_read(&self, after: &Config, entries: Map<Seq<char>, Stored>) -> bool {
        after.ssid@ == value_read(entries, self.ssid.key(), self.ssid.default_value())
    }

    /// In `after` the pre-shared key's slot holds what reading it from
    /// `entries` gives.
    pub open spec fn psk_read(&self, after: &Config, entries: Map<Seq<char>, Stored>) -> bool {
        after.psk@ == value_read(entries, self.psk.key(), self.psk.default_value())
    }

    /// No slot's key or default differs between `self` and `other`.
    pub open spec fn same_slots(&self, other: &Config) -> bool {
        &&& self.name.key() == other.name.key()
        &&& self.name.default_value() == other.name.default_value()
        &&& self.ssid.key() == other.ssid.key()
        &&& self.ssid.default_value() == other.ssid.default_value()
        &&& self.psk.key() == other.psk.key()
        &&& self.psk.default_value() == other.psk.default_value()
    }
}

impl ReadWrite for Config {
    /// Reads the name, then the network name, then the pre-shared key, and
    /// stops at the first slot that fails: the slots before it keep what they
    /// read, that slot and those after it keep what they held. It succeeds
    /// only where the storage can answer for every slot, and with a
    /// dependable storage it then does, and else fails at the first slot
    /// that the storage cannot answer for.
    fn read<S: Storage>(&mut self, storage: &S) -> (r: Result<(), S::Error>)
        ensures
            final(self).same_slots(old(self)),
            r is Ok ==> {
                &&& old(self).name_readable(storage.entries())
                &&& old(self).ssid_readable(storage.entries())
                &&& old(self).psk_readable(storage.entries())
                &&& old(self).name_read(final(self), storage.entries())
                &&& old(self).ssid_read(final(self), storage.entries())
                &&& old(self).psk_read(final(self), storage.entries())
            },
            r is Err ==> {
                ||| *final(self) == *old(self)
                ||| {
                    &&& old(self).name_read(final(self), storage.entries())
                    &&& final(self).ssid == old(self).ssid
                    &&& final(self).psk == old(self).psk
                }
                ||| {
                    &&& old(self).name_read(final(self), storage.entries())
                    &&& old(self).ssid_read(final(self), storage.entries())
                    &&& final(self).psk == old(self).psk
                }
            },
            storage.dependable() ==> {
                if !old(self).name_readable(storage.entries()) {
                    r is Err && *final(self) == *old(self)
                } else if !old(self).ssid_readable(storage.entries()) {
                    &&& r is Err
                    &&& old(self).name_read(final(self), storage.entries())
                    &&& final(self).ssid == old(self).ssid
                    &&& final(self).psk == old(self).psk
                } else if !old(self).psk_readable(storage.entries()) {
                    &&& r is Err
                    &&& old(self).name_read(final(self), storage.entries())
                    &&& old(self).ssid_read(final(self), storage.entries())
                    &&& final(self).psk == old(self).psk
                } else {
                    r is Ok
                }
            },
    {
        match self.name.read(storage) {
            Ok(()) => {},
            Err(e) => {
                return Err(e);
            },
        }
        match self.ssid.read(storage) {
            Ok(()) => {},
            Err(e) => {
                return Err(e);
            },
        }
        self.psk.read(storage)
    }

    /// Writes the name, then the network name, then the pre-shared key, and
    /// stops at the first slot that fails. With a dependable storage none
    /// fails.
    fn write<S: Storage>(&self, storage: &mut S) -> (r: Result<(), S::Error>)
        ensures
            r is Ok ==> final(storage).entries() == entries_written(
                entries_written(
                    entries_written(old(storage).entries(), self.name.key(), self.name@),
                    self.ssid.key(),
                    self.ssid@,
                ),
                self.psk.key(),
                self.psk@,
            ),
            old(storage).dependable() ==> r is Ok && final(storage).dependable(),
    {
        match self.name.write(storage) {
            Ok(()) => {},
            Err(e) => {
                return Err(e);
            },
        }
        match self.ssid.write(storage) {
            Ok(()) => {},
            Err(e) => {
                return Err(e);
            },
        }
        self.psk.write(storage)
    }
}

} // verus!
