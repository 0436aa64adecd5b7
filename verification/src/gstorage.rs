//! The keys under which the host's key-value store keeps accounts, code,
//! storage slots and block hashes, and the interface of such a store.

use crate::bytes::append_bytes;
use vstd::prelude::*;

verus! {

/// A failure of the host's store, with what the host said of it.
#[derive(Clone, Debug)]
pub struct BackendError {
    pub msg: String,
}

/// Access to the VM's backend storage, that is the chain.
pub trait Storage {
    /// `Ok(None)` where the key does not exist, `Ok(Some(..))` where it does.
    fn get(&self, key: &[u8]) -> Result<Option<Vec<u8>>, BackendError>;

    fn set(&mut self, key: &[u8], value: &[u8]) -> Result<(), BackendError>;

    /// Removes the entry at `key`, whether or not there was one.
    fn remove(&mut self, key: &[u8]) -> Result<(), BackendError>;
}

/// The first byte of a key, which tells what the key is for.
#[derive(Clone, Copy, Debug, PartialEq, Eq, Structural)]
pub enum EvmStoreKeyPrefix {
    AccountPrefix,
    CodePrefix,
    StoragePrefix,
    BlockPrefix,
}

impl EvmStoreKeyPrefix {
    /// The byte of this prefix.
    pub open spec fn spec_tag(self) -> u8 {
        match self {
            EvmStoreKeyPrefix::AccountPrefix => 1,
            EvmStoreKeyPrefix::CodePrefix => 2,
            EvmStoreKeyPrefix::StoragePrefix => 3,
            EvmStoreKeyPrefix::BlockPrefix => 4,
        }
    }

    /// Returns the byte of this prefix.
    pub fn tag(self) -> (t: u8)
        ensures
            t == self.spec_tag(),
    {
        match self {
            EvmStoreKeyPrefix::AccountPrefix => 1,
            EvmStoreKeyPrefix::CodePrefix => 2,
            EvmStoreKeyPrefix::StoragePrefix => 3,
            EvmStoreKeyPrefix::BlockPrefix => 4,
        }
    }
}

impl From<EvmStoreKeyPrefix> for u8 {
    fn from(value: EvmStoreKeyPrefix) -> (tag: Self) {
        value.tag()
    }
}

impl vstd::std_specs::convert::FromSpecImpl<EvmStoreKeyPrefix> for u8 {
    open spec fn obeys_from_spec() -> bool {
        true
    }

    open spec fn from_spec(value: EvmStoreKeyPrefix) -> Self {
        value.spec_tag()
    }
}

/// What a key of the host's store names.
#[derive(Clone, Copy, Debug)]
pub enum EvmStoreKey {
    /// The account at an address.
    Account([u8; 20]),
    /// The bytecode with a code hash.
    Code([u8; 32]),
    /// The slot of an account at an index.
    Storage([u8; 20], [u8; 32]),
    /// The hash of the block with a number.
    Block(u64),
}

impl EvmStoreKey {
    /// The stored form of the key: the prefix byte, then the address or the
    /// code hash. A slot's key ends with its account's address and a block's
    /// key is the prefix byte alone.
    pub open spec fn spec_key(self) -> Seq<u8> {
        match self {
            EvmStoreKey::Account(addr) => seq![EvmStoreKeyPrefix::AccountPrefix.spec_tag()]
                + addr@,
            EvmStoreKey::Code(hash) => seq![EvmStoreKeyPrefix::CodePrefix.spec_tag()] + hash@,
            EvmStoreKey::Storage(addr, _) => seq![EvmStoreKeyPrefix::StoragePrefix.spec_tag()]
                + addr@,
            EvmStoreKey::Block(_) => seq![EvmStoreKeyPrefix::BlockPrefix.spec_tag()],
        }
    }

    /// Writes the key in its stored form.
    pub fn key(self) -> (bytes: Vec<u8>)
        ensures
            bytes@ == self.spec_key(),
    {
        match self {
            EvmStoreKey::Account(addr) => {
                let mut result: Vec<u8> = Vec::new();
                result.push(EvmStoreKeyPrefix::AccountPrefix.tag());
                append_bytes(&mut result, addr.as_slice());
                result
            },
            EvmStoreKey::Code(hash) => {
                let mut result: Vec<u8> = Vec::new();
                result.push(EvmStoreKeyPrefix::CodePrefix.tag());
                append_bytes(&mut result, hash.as_slice());
                result
            },
            EvmStoreKey::Storage(addr, _) => {
                let mut result: Vec<u8> = Vec::new();
                result.push(EvmStoreKeyPrefix::StoragePrefix.tag());
                append_bytes(&mut result, addr.as_slice());
                result
            },
            EvmStoreKey::Block(_) => {
                let mut result: Vec<u8> = Vec::new();
                result.push(EvmStoreKeyPrefix::BlockPrefix.tag());
                result
            },
        }
    }
}

} // verus!
