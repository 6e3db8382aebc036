//! The values that pass through the wrapper.

use std::collections::hash_map::DefaultHasher;
use std::hash::Hasher;

use vstd::prelude::*;
use vstd::utf8::*;

use crate::keyed_map::MapKey;

verus! {

/// The hash that identifies a block.
#[derive(Debug, Clone, Copy, PartialEq, Eq, Hash)]
pub struct StacksBlockId(pub [u8; 32]);

/// The hash of a path in the authenticated trie under the store.
#[derive(Debug, Clone, Copy, PartialEq, Eq, Hash)]
pub struct TrieHash(pub [u8; 32]);

/// The hash of a contract's source.
#[derive(Debug, Clone, Copy, PartialEq, Eq, Hash)]
pub struct Sha512Trunc256Sum(pub [u8; 32]);

/// A contract, as far as the wrapper is concerned.
#[derive(Debug, PartialEq, Eq, Hash)]
pub struct QualifiedContractIdentifier {
    /// The qualified name of the contract.
    pub name: String,
    /// The data key under which the commitment to the contract's source is stored.
    pub hash_key: String,
}

/// The commitment to a contract's source that the store keeps.
#[derive(Debug, PartialEq, Eq)]
pub struct ContractCommitment {
    /// The hash of the source.
    pub hash: Sha512Trunc256Sum,
}

/// An epoch of the chain, as far as reading values depends on it.
#[derive(Debug, Clone, Copy, PartialEq, Eq)]
pub struct StacksEpochId {
    /// Whether values that are read in the epoch are sanitized.
    pub value_sanitizing: bool,
}

/// Result structure for fetched values from the underlying store.
#[derive(Debug)]
pub struct ValueResult<V> {
    /// The value.
    pub value: V,
    /// How many bytes its serialized form has.
    pub serialized_byte_len: u64,
}

impl View for StacksBlockId {
    type V = Seq<u8>;

    open spec fn view(&self) -> Seq<u8> {
        self.0@
    }
}

impl View for TrieHash {
    type V = Seq<u8>;

    open spec fn view(&self) -> Seq<u8> {
        self.0@
    }
}

impl View for Sha512Trunc256Sum {
    type V = Seq<u8>;

    open spec fn view(&self) -> Seq<u8> {
        self.0@
    }
}

/// What a contract identifier stands for.
pub struct ContractView {
    /// The qualified name of the contract.
    pub name: Seq<char>,
    /// The data key of the commitment to its source.
    pub hash_key: Seq<char>,
}

impl View for QualifiedContractIdentifier {
    type V = ContractView;

    open spec fn view(&self) -> ContractView {
        ContractView { name: self.name@, hash_key: self.hash_key@ }
    }
}

impl Clone for QualifiedContractIdentifier {
    fn clone(&self) -> (copy: Self)
        ensures
            copy@ == self@,
    {
        QualifiedContractIdentifier { name: self.name.clone(), hash_key: self.hash_key.clone() }
    }
}

/// The data key under which the commitment to the contract's source is stored.
pub fn make_contract_hash_key(contract: &QualifiedContractIdentifier) -> (key: String)
    ensures
        key@ == contract@.hash_key,
{
    contract.hash_key.clone()
}

impl StacksEpochId {
    /// Whether values that are read in the epoch are sanitized.
    pub fn value_sanitizing(&self) -> (sanitize: bool)
        ensures
            sanitize == self.value_sanitizing,
    {
        self.value_sanitizing
    }
}

impl MapKey for StacksBlockId {
    open spec fn hashed_bytes(key: Seq<u8>) -> Seq<Seq<u8>> {
        seq![key]
    }

    fn feed(&self, hasher: &mut DefaultHasher) {
        hasher.write(self.0.as_slice());
    }

    fn same_key(&self, other: &Self) -> (same: bool) {
        let mut i: usize = 0;
        while i < 32
            invariant
                i <= 32,
                forall|j: int| 0 <= j < i ==> self.0[j] == other.0[j],
            decreases 32 - i,
        {
            if self.0[i] != other.0[i] {
                assert(self@[i as int] != other@[i as int]);
                return false;
            }
            i = i + 1;
        }
        assert(self@ =~= other@);
        true
    }

    fn duplicate(&self) -> (copy: Self) {
        *self
    }
}

impl MapKey for QualifiedContractIdentifier {
    open spec fn hashed_bytes(key: ContractView) -> Seq<Seq<u8>> {
        seq![encode_utf8(key.name), encode_utf8(key.hash_key)]
    }

    fn feed(&self, hasher: &mut DefaultHasher) {
        hasher.write(self.name.as_str().as_bytes());
        hasher.write(self.hash_key.as_str().as_bytes());
    }

    fn same_key(&self, other: &Self) -> (same: bool) {
        self.name == other.name && self.hash_key == other.hash_key
    }

    fn duplicate(&self) -> (copy: Self) {
        self.clone()
    }
}

} // verus!
