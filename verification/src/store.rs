//! What the wrapper asks of its surroundings: a store to write to and to read from, and
//! types that can be read from stored text.

use vstd::prelude::*;

use crate::errors::VmExecutionError;
use crate::types::{ContractView, QualifiedContractIdentifier, Sha512Trunc256Sum, StacksBlockId, TrieHash};

verus! {

/// A key of the contract metadata: the contract, and the key within it.
pub type MetadataKey = (QualifiedContractIdentifier, String);

/// What a metadata key stands for.
pub type MetadataKeyView = (ContractView, Seq<char>);

/// The texts of a list of writes to data keys.
pub open spec fn data_items(items: Seq<(String, String)>) -> Seq<(Seq<char>, Seq<char>)> {
    items.map_values(|item: (String, String)| (item.0@, item.1@))
}

/// The texts of a list of writes to metadata keys.
pub open spec fn metadata_items(items: Seq<(MetadataKey, String)>) -> Seq<
    (MetadataKeyView, Seq<char>),
> {
    items.map_values(|item: (MetadataKey, String)| (item.0@, item.1@))
}

/// The store under the wrapper.
///
/// A store may answer as it likes, and change with every request. Each request has a
/// relation between the store before it, what was asked, the reply, and the store after
/// it. Nothing is presumed of the relation: it holds of anything, unless a store narrows it
/// to say how it answers.
pub trait ClarityBackingStore: Sized {
    /// What the store gives to those who treat some contract calls specially.
    type SpecialCaseHandler;

    /// How the store answers `put_all_data`.
    open spec fn put_all_data_step(
        pre: Self,
        items: Seq<(Seq<char>, Seq<char>)>,
        reply: Result<(), VmExecutionError>,
        post: Self,
    ) -> bool {
        true
    }

    /// How the store answers `get_data`.
    open spec fn get_data_step(
        pre: Self,
        key: Seq<char>,
        reply: Result<Option<String>, VmExecutionError>,
        post: Self,
    ) -> bool {
        true
    }

    /// How the store answers `get_data_from_path`.
    open spec fn get_data_from_path_step(
        pre: Self,
        hash: Seq<u8>,
        reply: Result<Option<String>, VmExecutionError>,
        post: Self,
    ) -> bool {
        true
    }

    /// How the store answers `get_data_with_proof`.
    open spec fn get_data_with_proof_step(
        pre: Self,
        key: Seq<char>,
        reply: Result<Option<(String, Vec<u8>)>, VmExecutionError>,
        post: Self,
    ) -> bool {
        true
    }

    /// How the store answers `get_data_with_proof_from_path`.
    open spec fn get_data_with_proof_from_path_step(
        pre: Self,
        hash: Seq<u8>,
        reply: Result<Option<(String, Vec<u8>)>, VmExecutionError>,
        post: Self,
    ) -> bool {
        true
    }

    /// How the store answers `has_entry`.
    open spec fn has_entry_step(
        pre: Self,
        key: Seq<char>,
        reply: Result<bool, VmExecutionError>,
        post: Self,
    ) -> bool {
        true
    }

    /// How the store answers `set_block_hash`.
    open spec fn set_block_hash_step(
        pre: Self,
        bhh: Seq<u8>,
        reply: Result<StacksBlockId, VmExecutionError>,
        post: Self,
    ) -> bool {
        true
    }

    /// How the store answers `get_block_at_height`.
    open spec fn get_block_at_height_step(
        pre: Self,
        height: u32,
        reply: Option<StacksBlockId>,
        post: Self,
    ) -> bool {
        true
    }

    /// How the store answers `get_current_block_height`.
    open spec fn get_current_block_height_step(pre: Self, reply: u32, post: Self) -> bool {
        true
    }

    /// How the store answers `make_contract_commitment`.
    open spec fn make_contract_commitment_step(
        pre: Self,
        contract_hash: Seq<u8>,
        reply: Seq<char>,
        post: Self,
    ) -> bool {
        true
    }

    /// How the store answers `put_all_metadata`.
    open spec fn put_all_metadata_step(
        pre: Self,
        items: Seq<(MetadataKeyView, Seq<char>)>,
        reply: Result<(), VmExecutionError>,
        post: Self,
    ) -> bool {
        true
    }

    /// How the store answers `get_metadata`.
    open spec fn get_metadata_step(
        pre: Self,
        contract: ContractView,
        key: Seq<char>,
        reply: Result<Option<String>, VmExecutionError>,
        post: Self,
    ) -> bool {
        true
    }

    /// How the store answers `get_metadata_manual`.
    open spec fn get_metadata_manual_step(
        pre: Self,
        at_height: u32,
        contract: ContractView,
        key: Seq<char>,
        reply: Result<Option<String>, VmExecutionError>,
        post: Self,
    ) -> bool {
        true
    }

    /// Which handler the store may answer `get_cc_special_cases_handler` with.
    open spec fn special_cases_handler_reply(
        self,
        reply: Option<Self::SpecialCaseHandler>,
    ) -> bool {
        true
    }

    /// Writes all the items to the store, in order.
    fn put_all_data(&mut self, items: Vec<(String, String)>) -> (reply: Result<
        (),
        VmExecutionError,
    >)
        ensures
            Self::put_all_data_step(*old(self), data_items(items@), reply, *final(self)),
    ;

    /// Reads a data key from the store.
    fn get_data(&mut self, key: &str) -> (reply: Result<Option<String>, VmExecutionError>)
        ensures
            Self::get_data_step(*old(self), key@, reply, *final(self)),
    ;

    /// Reads a data key from the store, given the hash of its path.
    fn get_data_from_path(&mut self, hash: &TrieHash) -> (reply: Result<
        Option<String>,
        VmExecutionError,
    >)
        ensures
            Self::get_data_from_path_step(*old(self), hash@, reply, *final(self)),
    ;

    /// Reads a data key from the store, with a proof that the value is committed to.
    fn get_data_with_proof(&mut self, key: &str) -> (reply: Result<
        Option<(String, Vec<u8>)>,
        VmExecutionError,
    >)
        ensures
            Self::get_data_with_proof_step(*old(self), key@, reply, *final(self)),
    ;

    /// Reads a data key from the store, given the hash of its path, with a proof that the
    /// value is committed to.
    fn get_data_with_proof_from_path(&mut self, hash: &TrieHash) -> (reply: Result<
        Option<(String, Vec<u8>)>,
        VmExecutionError,
    >)
        ensures
            Self::get_data_with_proof_from_path_step(*old(self), hash@, reply, *final(self)),
    ;

    /// Whether the store holds a data key.
    fn has_entry(&mut self, key: &str) -> (reply: Result<bool, VmExecutionError>)
        ensures
            Self::has_entry_step(*old(self), key@, reply, *final(self)),
    ;

    /// Makes a block the one that the store reads from, and gives back the one before it.
    fn set_block_hash(&mut self, bhh: StacksBlockId) -> (reply: Result<
        StacksBlockId,
        VmExecutionError,
    >)
        ensures
            Self::set_block_hash_step(*old(self), bhh@, reply, *final(self)),
    ;

    /// The block at a height.
    fn get_block_at_height(&mut self, height: u32) -> (reply: Option<StacksBlockId>)
        ensures
            Self::get_block_at_height_step(*old(self), height, reply, *final(self)),
    ;

    /// The height that is under construction.
    fn get_current_block_height(&mut self) -> (reply: u32)
        ensures
            Self::get_current_block_height_step(*old(self), reply, *final(self)),
    ;

    /// The text of a commitment to the source with the given hash.
    fn make_contract_commitment(&mut self, contract_hash: Sha512Trunc256Sum) -> (reply: String)
        ensures
            Self::make_contract_commitment_step(
                *old(self),
                contract_hash@,
                reply@,
                *final(self),
            ),
    ;

    /// Writes all the metadata items to the store, in order.
    fn put_all_metadata(&mut self, items: Vec<(MetadataKey, String)>) -> (reply: Result<
        (),
        VmExecutionError,
    >)
        ensures
            Self::put_all_metadata_step(*old(self), metadata_items(items@), reply, *final(self)),
    ;

    /// Reads a metadata key from the store.
    fn get_metadata(&mut self, contract: &QualifiedContractIdentifier, key: &str) -> (reply: Result<
        Option<String>,
        VmExecutionError,
    >)
        ensures
            Self::get_metadata_step(*old(self), contract@, key@, reply, *final(self)),
    ;

    /// Reads a metadata key from the store, as of a block height.
    fn get_metadata_manual(
        &mut self,
        at_height: u32,
        contract: &QualifiedContractIdentifier,
        key: &str,
    ) -> (reply: Result<Option<String>, VmExecutionError>)
        ensures
            Self::get_metadata_manual_step(
                *old(self),
                at_height,
                contract@,
                key@,
                reply,
                *final(self),
            ),
    ;

    /// The handler for contract calls that the store treats specially, if it has one.
    fn get_cc_special_cases_handler(&self) -> (reply: Option<Self::SpecialCaseHandler>)
        ensures
            self.special_cases_handler_reply(reply),
    ;
}

/// A reader of stored text, which makes values of type `T` of it.
///
/// Nothing is presumed of what it makes of a text, unless it says so itself.
pub trait ClarityDeserializable<T> {
    /// Which result reading `text` may give.
    open spec fn deserializes_to(text: Seq<char>, result: Result<T, VmExecutionError>) -> bool {
        true
    }

    /// Reads a value from stored text.
    fn deserialize(text: &str) -> (result: Result<T, VmExecutionError>)
        ensures
            Self::deserializes_to(text@, result),
    ;
}

/// Text is read as it is.
impl ClarityDeserializable<String> for String {
    open spec fn deserializes_to(text: Seq<char>, result: Result<String, VmExecutionError>) -> bool {
        result matches Ok(s) && s@ == text
    }

    fn deserialize(text: &str) -> (result: Result<String, VmExecutionError>) {
        Ok(text.to_string())
    }
}

} // verus!
