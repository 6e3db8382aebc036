//! What the wrapper remembers of its store is what the store would answer.

use vstd::prelude::*;

use crate::errors::{SerializationError, VmExecutionError, VmInternalError};
use crate::key_value_wrapper::{
    committed_to_store, data_read, data_written, deserialized, deserialized_reply,
    materialized_data_read, materialized_metadata_read, metadata_read, text_of, value_found,
    value_read, value_reply, WrapperView,
};
use crate::persisted_log::LogView;
use crate::store::{ClarityBackingStore, ClarityDeserializable, MetadataKeyView};
use crate::types::{ContractView, StacksBlockId, StacksEpochId, ValueResult};

verus! {

/// What a store answers to a read, in text.
pub type Answer = Result<Option<Seq<char>>, VmExecutionError>;

/// An answer of a store, in text.
pub open spec fn answer_text(reply: Result<Option<String>, VmExecutionError>) -> Answer {
    match reply {
        Ok(value) => Ok(text_of(value)),
        Err(e) => Err(e),
    }
}

/// What is in a store that answers by block.
#[verifier::reject_recursive_types(S)]
pub struct ByBlock<S> {
    /// The block that the store reads from.
    pub block: spec_fn(S) -> Seq<u8>,
    /// The answer to a read of a data key as of a block.
    pub data: spec_fn(S, Seq<u8>, Seq<char>) -> Answer,
    /// The answer to a read of a metadata key as of a block.
    pub metadata: spec_fn(S, Seq<u8>, MetadataKeyView) -> Answer,
}

impl<S: ClarityBackingStore> ByBlock<S> {
    /// Whether the data answers of two stores are the same.
    pub open spec fn same_data(self, a: S, b: S) -> bool {
        forall|block: Seq<u8>, key: Seq<char>| #[trigger]
            (self.data)(b, block, key) == (self.data)(a, block, key)
    }

    /// Whether the metadata answers of two stores are the same.
    pub open spec fn same_metadata(self, a: S, b: S) -> bool {
        forall|block: Seq<u8>, key: MetadataKeyView| #[trigger]
            (self.metadata)(b, block, key) == (self.metadata)(a, block, key)
    }

    /// Whether two stores read from the same block and give the same answers.
    pub open spec fn same(self, a: S, b: S) -> bool {
        &&& (self.block)(b) == (self.block)(a)
        &&& self.same_data(a, b)
        &&& self.same_metadata(a, b)
    }

    /// Whether the stores answer reads that succeed by their block and the key. Reads and
    /// other questions change nothing, nor does a request that is refused. Taking data writes changes only data
    /// answers, and taking metadata writes only metadata answers.
    pub open spec fn lawful(self) -> bool {
        &&& forall|a: S, key: Seq<char>, reply: Result<Option<String>, VmExecutionError>, b: S|
            #[trigger]
            S::get_data_step(a, key, reply, b) ==> self.same(a, b) && (reply is Ok ==> answer_text(
                reply,
            ) == (self.data)(a, (self.block)(a), key))
        &&& forall|
            a: S,
            contract: ContractView,
            key: Seq<char>,
            reply: Result<Option<String>, VmExecutionError>,
            b: S,
        | #[trigger]
            S::get_metadata_step(a, contract, key, reply, b) ==> self.same(a, b) && (reply is Ok
                ==> answer_text(reply) == (self.metadata)(a, (self.block)(a), (contract, key)))
        &&& forall|a: S, bhh: Seq<u8>, reply: Result<StacksBlockId, VmExecutionError>, b: S|
            #[trigger]
            S::set_block_hash_step(a, bhh, reply, b) ==> {
                &&& self.same_data(a, b)
                &&& self.same_metadata(a, b)
                &&& (self.block)(b) == if reply is Ok {
                    bhh
                } else {
                    (self.block)(a)
                }
            }
        &&& forall|
            a: S,
            items: Seq<(Seq<char>, Seq<char>)>,
            reply: Result<(), VmExecutionError>,
            b: S,
        | #[trigger]
            S::put_all_data_step(a, items, reply, b) ==> {
                &&& (self.block)(b) == (self.block)(a)
                &&& self.same_metadata(a, b)
                &&& reply is Err ==> self.same_data(a, b)
            }
        &&& forall|
            a: S,
            items: Seq<(MetadataKeyView, Seq<char>)>,
            reply: Result<(), VmExecutionError>,
            b: S,
        | #[trigger]
            S::put_all_metadata_step(a, items, reply, b) ==> {
                &&& (self.block)(b) == (self.block)(a)
                &&& self.same_data(a, b)
                &&& reply is Err ==> self.same_metadata(a, b)
            }
        &&& self.questions_change_nothing()
    }

    /// Whether the stores are the same after the requests that neither are plain reads, nor
    /// write, nor choose a block.
    pub open spec fn questions_change_nothing(self) -> bool {
        &&& forall|a: S, key: Seq<char>, reply: Result<bool, VmExecutionError>, b: S| #[trigger]
            S::has_entry_step(a, key, reply, b) ==> self.same(a, b)
        &&& forall|
            a: S,
            at_height: u32,
            contract: ContractView,
            key: Seq<char>,
            reply: Result<Option<String>, VmExecutionError>,
            b: S,
        | #[trigger]
            S::get_metadata_manual_step(a, at_height, contract, key, reply, b) ==> self.same(a, b)
        &&& forall|a: S, hash: Seq<u8>, reply: Result<Option<String>, VmExecutionError>, b: S|
            #[trigger]
            S::get_data_from_path_step(a, hash, reply, b) ==> self.same(a, b)
        &&& forall|
            a: S,
            key: Seq<char>,
            reply: Result<Option<(String, Vec<u8>)>, VmExecutionError>,
            b: S,
        | #[trigger]
            S::get_data_with_proof_step(a, key, reply, b) ==> self.same(a, b)
        &&& forall|
            a: S,
            hash: Seq<u8>,
            reply: Result<Option<(String, Vec<u8>)>, VmExecutionError>,
            b: S,
        | #[trigger]
            S::get_data_with_proof_from_path_step(a, hash, reply, b) ==> self.same(a, b)
        &&& forall|a: S, height: u32, reply: Option<StacksBlockId>, b: S| #[trigger]
            S::get_block_at_height_step(a, height, reply, b) ==> self.same(a, b)
        &&& forall|a: S, reply: u32, b: S| #[trigger]
            S::get_current_block_height_step(a, reply, b) ==> self.same(a, b)
        &&& forall|a: S, contract_hash: Seq<u8>, reply: Seq<char>, b: S| #[trigger]
            S::make_contract_commitment_step(a, contract_hash, reply, b) ==> self.same(a, b)
    }

    /// Whether the stores also fail data reads by their block and the key.
    pub open spec fn data_failures_lawful(self) -> bool {
        forall|a: S, key: Seq<char>, reply: Result<Option<String>, VmExecutionError>, b: S|
            #[trigger]
            S::get_data_step(a, key, reply, b) ==> answer_text(reply) == (self.data)(
                a,
                (self.block)(a),
                key,
            )
    }

    /// Whether the stores also fail metadata reads by their block and the key.
    pub open spec fn metadata_failures_lawful(self) -> bool {
        forall|
            a: S,
            contract: ContractView,
            key: Seq<char>,
            reply: Result<Option<String>, VmExecutionError>,
            b: S,
        | #[trigger]
            S::get_metadata_step(a, contract, key, reply, b) ==> answer_text(reply)
                == (self.metadata)(a, (self.block)(a), (contract, key))
    }

    /// Whether a wrapper knows which block its store reads from, if it knows any, and
    /// remembers only what the store would answer.
    pub open spec fn coherent(self, w: WrapperView, store: S) -> bool {
        &&& w.active_block_hash matches Some(block) ==> block == (self.block)(store)
        &&& forall|block: Seq<u8>, key: Seq<char>| #[trigger]
            w.data_cache.contains_key((block, key)) ==> (self.data)(store, block, key) == Ok::<
                Option<Seq<char>>,
                VmExecutionError,
            >(w.data_cache[(block, key)])
        &&& forall|block: Seq<u8>, key: MetadataKeyView| #[trigger]
            w.metadata_cache.contains_key((block, key)) ==> (self.metadata)(store, block, key)
                == Ok::<Option<Seq<char>>, VmExecutionError>(w.metadata_cache[(block, key)])
    }
}

/// A wrapper that starts out is coherent with any store.
pub proof fn law_coherent_at_first<S: ClarityBackingStore>(
    model: ByBlock<S>,
    log: LogView,
    store: S,
)
    ensures
        model.coherent(WrapperView::with_log(log), store),
{
}

/// Whatever happens to the pending writes, coherence stays, and so it does when the store goes
/// on to read from the same block and to give the same answers.
pub proof fn law_coherence_is_about_the_store<S: ClarityBackingStore>(
    model: ByBlock<S>,
    w: WrapperView,
    log: LogView,
    store: S,
    later_store: S,
)
    requires
        model.coherent(w, store),
        model.same(store, later_store),
    ensures
        model.coherent(WrapperView { log, ..w }, later_store),
{
}

/// A successful read of a data key past the pending writes gives what the store would answer,
/// remembered or not, and coherence stays.
pub proof fn law_materialized_read_is_the_answer<S: ClarityBackingStore>(
    model: ByBlock<S>,
    pre: WrapperView,
    pre_store: S,
    key: Seq<char>,
    reply: Result<Option<String>, VmExecutionError>,
    post: WrapperView,
    post_store: S,
)
    requires
        model.lawful(),
        model.coherent(pre, pre_store),
        materialized_data_read(pre, pre_store, key, reply, post, post_store),
    ensures
        reply is Ok ==> answer_text(reply) == (model.data)(
            pre_store,
            (model.block)(pre_store),
            key,
        ),
        model.same(pre_store, post_store),
        model.coherent(post, post_store),
{
}

/// A successful read of a metadata key past the pending writes gives what the store would
/// answer, remembered or not, and coherence stays.
pub proof fn law_materialized_metadata_read_is_the_answer<S: ClarityBackingStore>(
    model: ByBlock<S>,
    pre: WrapperView,
    pre_store: S,
    key: MetadataKeyView,
    reply: Result<Option<String>, VmExecutionError>,
    post: WrapperView,
    post_store: S,
)
    requires
        model.lawful(),
        model.coherent(pre, pre_store),
        materialized_metadata_read(pre, pre_store, key, reply, post, post_store),
    ensures
        reply is Ok ==> answer_text(reply) == (model.metadata)(
            pre_store,
            (model.block)(pre_store),
            key,
        ),
        model.same(pre_store, post_store),
        model.coherent(post, post_store),
{
}

/// Making another block the one to read from keeps coherence, and so does failing to.
pub proof fn law_set_block_hash_keeps_coherence<S: ClarityBackingStore>(
    model: ByBlock<S>,
    pre: WrapperView,
    pre_store: S,
    bhh: Seq<u8>,
    query_pending_data: bool,
    result: Result<StacksBlockId, VmExecutionError>,
    post: WrapperView,
    post_store: S,
)
    requires
        model.lawful(),
        model.coherent(pre, pre_store),
        S::set_block_hash_step(pre_store, bhh, result, post_store),
        post == match result {
            Ok(_) => WrapperView { query_pending_data, active_block_hash: Some(bhh), ..pre },
            Err(_) => pre,
        },
    ensures
        model.coherent(post, post_store),
{
}

/// A commit to the store keeps coherence, whether the store takes the writes or refuses some.
pub proof fn law_commit_keeps_coherence<S: ClarityBackingStore>(
    model: ByBlock<S>,
    pre: WrapperView,
    pre_store: S,
    result: Result<(), VmInternalError>,
    post: WrapperView,
    post_store: S,
)
    requires
        model.lawful(),
        model.coherent(pre, pre_store),
        pre.log.contexts.len() == 1,
        committed_to_store(pre, pre_store, result, post, post_store),
    ensures
        model.coherent(post, post_store),
{
}

/// What a wrapper without any memory of its store gives for a read of a data key as a `T`: the
/// pending value, where reads see one, and otherwise what the store answers, errors as they are.
pub open spec fn memoryless_data_read<S: ClarityBackingStore, T: ClarityDeserializable<T>>(
    model: ByBlock<S>,
    w: WrapperView,
    store: S,
    key: Seq<char>,
    result: Result<Option<T>, VmExecutionError>,
) -> bool {
    match w.visible_data(key) {
        Some(text) => deserialized(text, result),
        None => match (model.data)(store, (model.block)(store), key) {
            Ok(Some(text)) => deserialized(text, result),
            Ok(None) => result == Ok::<Option<T>, VmExecutionError>(None),
            Err(e) => result == Err::<Option<T>, VmExecutionError>(e),
        },
    }
}

/// Remembering does not show: a read of a data key gives what it would give without any memory
/// of the store. The store is asked at most once, and coherence stays.
pub proof fn law_data_read_as_without_memory<S: ClarityBackingStore, T: ClarityDeserializable<T>>(
    model: ByBlock<S>,
    pre: WrapperView,
    pre_store: S,
    key: Seq<char>,
    result: Result<Option<T>, VmExecutionError>,
    post: WrapperView,
    post_store: S,
)
    requires
        model.lawful(),
        model.data_failures_lawful(),
        model.coherent(pre, pre_store),
        pre.log.contexts.len() > 0,
        data_read(pre, pre_store, key, result, post, post_store),
    ensures
        memoryless_data_read(model, pre, pre_store, key, result),
        post_store == pre_store || exists|reply: Result<Option<String>, VmExecutionError>|
            #[trigger] S::get_data_step(pre_store, key, reply, post_store),
        model.coherent(post, post_store),
{
    if pre.visible_data(key) is None {
        let reply = choose|reply: Result<Option<String>, VmExecutionError>|
            {
                &&& #[trigger] materialized_data_read(pre, pre_store, key, reply, post, post_store)
                &&& deserialized_reply(reply, result)
            };
        law_materialized_read_is_the_answer(
            model,
            pre,
            pre_store,
            key,
            reply,
            post,
            post_store,
        );
    }
}

/// Remembering does not show: a read of a data key as a value decodes what it would decode
/// without any memory of the store. The store is asked at most once, and coherence stays.
pub proof fn law_value_read_as_without_memory<
    S: ClarityBackingStore,
    V,
    T,
    F: Fn(&str, &T, bool) -> Result<V, SerializationError>,
>(
    model: ByBlock<S>,
    pre: WrapperView,
    pre_store: S,
    key: Seq<char>,
    try_deserialize_hex: F,
    expected: &T,
    epoch: StacksEpochId,
    result: Result<Option<ValueResult<V>>, SerializationError>,
    post: WrapperView,
    post_store: S,
)
    requires
        model.lawful(),
        model.data_failures_lawful(),
        model.coherent(pre, pre_store),
        pre.log.contexts.len() > 0,
        value_read(
            pre,
            pre_store,
            key,
            try_deserialize_hex,
            expected,
            epoch,
            result,
            post,
            post_store,
        ),
    ensures
        match pre.visible_data(key) {
            Some(text) => value_found(try_deserialize_hex, text, expected, epoch, result),
            None => match (model.data)(pre_store, (model.block)(pre_store), key) {
                Ok(Some(text)) => value_found(try_deserialize_hex, text, expected, epoch, result),
                Ok(None) => result matches Ok(None),
                Err(_) => result matches Err(SerializationError::DeserializationFailure(words))
                    && words@ == "ERROR: Clarity backing store failure"@,
            },
        },
        post_store == pre_store || exists|reply: Result<Option<String>, VmExecutionError>|
            #[trigger] S::get_data_step(pre_store, key, reply, post_store),
        model.coherent(post, post_store),
{
    if pre.visible_data(key) is None {
        let reply = choose|reply: Result<Option<String>, VmExecutionError>|
            {
                &&& #[trigger] materialized_data_read(pre, pre_store, key, reply, post, post_store)
                &&& value_reply(try_deserialize_hex, reply, expected, epoch, result)
            };
        law_materialized_read_is_the_answer(
            model,
            pre,
            pre_store,
            key,
            reply,
            post,
            post_store,
        );
    }
}

/// Remembering does not show: a read of a metadata key gives what it would give without any
/// memory of the store. The store is asked at most once, and coherence stays.
pub proof fn law_metadata_read_as_without_memory<S: ClarityBackingStore>(
    model: ByBlock<S>,
    pre: WrapperView,
    pre_store: S,
    key: MetadataKeyView,
    result: Result<Option<String>, VmExecutionError>,
    post: WrapperView,
    post_store: S,
)
    requires
        model.lawful(),
        model.metadata_failures_lawful(),
        model.coherent(pre, pre_store),
        pre.log.contexts.len() > 0,
        metadata_read(pre, pre_store, key, result, post, post_store),
    ensures
        answer_text(result) == match pre.visible_metadata(key) {
            Some(text) => Ok(Some(text)),
            None => (model.metadata)(pre_store, (model.block)(pre_store), key),
        },
        post_store == pre_store || S::get_metadata_step(
            pre_store,
            key.0,
            key.1,
            result,
            post_store,
        ),
        model.coherent(post, post_store),
{
}

/// A call of a wrapper, with what decides what it does to the wrapper and to the store.
pub enum Call {
    /// `nest`.
    Nest,
    /// `rollback`.
    Rollback,
    /// `commit`.
    Commit,
    /// `put_data` of a value at a key.
    PutData(Seq<char>, Seq<char>),
    /// `insert_metadata` of a value at a key.
    InsertMetadata(MetadataKeyView, Seq<char>),
    /// `set_block_hash` with a block and whether reads are to see pending writes.
    SetBlockHash(Seq<u8>, bool),
    /// `get_data` or `get_value` of a key, or `get_contract_hash` of the contract whose hash key
    /// it is.
    ReadData(Seq<char>),
    /// `get_metadata` or `has_metadata_entry` of a key.
    ReadMetadata(MetadataKeyView),
    /// `get_metadata_manual` of a key as of a height.
    ReadMetadataManual(u32, MetadataKeyView),
    /// `has_entry` of a key.
    HasEntry(Seq<char>),
    /// `get_data_by_hash`.
    GetDataByHash(Seq<u8>),
    /// `get_data_with_proof`.
    GetDataWithProof(Seq<char>),
    /// `get_data_with_proof_by_hash`.
    GetDataWithProofByHash(Seq<u8>),
    /// `get_current_block_height`.
    GetCurrentBlockHeight,
    /// `get_block_header_hash` of a height.
    GetBlockHeaderHash(u32),
    /// `prepare_for_contract_metadata` of a contract and the hash of its source.
    PrepareForContractMetadata(ContractView, Seq<u8>),
}

/// Whether a call takes a wrapper and its store from one state to another.
pub open spec fn called<S: ClarityBackingStore>(
    call: Call,
    pre: WrapperView,
    pre_store: S,
    post: WrapperView,
    post_store: S,
) -> bool {
    let nothing = post == pre && post_store == pre_store;
    let depth = pre.log.contexts.len();
    match call {
        Call::Nest => post == (WrapperView { log: pre.log.nest(), ..pre }) && post_store
            == pre_store,
        Call::Rollback => if depth == 0 {
            nothing
        } else {
            post == (WrapperView { log: pre.log.rollback(), ..pre }) && post_store == pre_store
        },
        Call::Commit => if depth == 0 {
            nothing
        } else if depth == 1 {
            exists|result: Result<(), VmInternalError>| #[trigger]
                committed_to_store(pre, pre_store, result, post, post_store)
        } else {
            post == (WrapperView { log: pre.log.commit_to_parent(), ..pre }) && post_store
                == pre_store
        },
        Call::PutData(key, value) => {
            &&& exists|result: Result<(), VmExecutionError>| #[trigger]
                data_written(pre, key, value, result, post)
            &&& post_store == pre_store
        },
        Call::InsertMetadata(key, value) => if depth == 0 {
            nothing
        } else {
            post == (WrapperView { log: pre.log.insert_metadata(key, value), ..pre }) && post_store
                == pre_store
        },
        Call::SetBlockHash(bhh, query_pending_data) => exists|
            result: Result<StacksBlockId, VmExecutionError>,
        |
            {
                &&& #[trigger] S::set_block_hash_step(pre_store, bhh, result, post_store)
                &&& post == match result {
                    Ok(_) => WrapperView {
                        query_pending_data,
                        active_block_hash: Some(bhh),
                        ..pre
                    },
                    Err(_) => pre,
                }
            },
        Call::ReadData(key) => if depth == 0 || pre.visible_data(key) is Some {
            nothing
        } else {
            exists|reply: Result<Option<String>, VmExecutionError>| #[trigger]
                materialized_data_read(pre, pre_store, key, reply, post, post_store)
        },
        Call::ReadMetadata(key) => exists|read: Result<Option<String>, VmExecutionError>|
            #[trigger] metadata_read(pre, pre_store, key, read, post, post_store),
        Call::ReadMetadataManual(at_height, key) => {
            &&& post == pre
            &&& if depth == 0 || pre.visible_metadata(key) is Some {
                nothing
            } else {
                exists|reply: Result<Option<String>, VmExecutionError>| #[trigger]
                    S::get_metadata_manual_step(
                        pre_store,
                        at_height,
                        key.0,
                        key.1,
                        reply,
                        post_store,
                    )
            }
        },
        Call::HasEntry(key) => {
            &&& post == pre
            &&& if depth == 0 || pre.visible_data(key) is Some {
                nothing
            } else {
                exists|reply: Result<bool, VmExecutionError>| #[trigger]
                    S::has_entry_step(pre_store, key, reply, post_store)
            }
        },
        Call::GetDataByHash(hash) => {
            &&& post == pre
            &&& exists|reply: Result<Option<String>, VmExecutionError>| #[trigger]
                S::get_data_from_path_step(pre_store, hash, reply, post_store)
        },
        Call::GetDataWithProof(key) => {
            &&& post == pre
            &&& exists|reply: Result<Option<(String, Vec<u8>)>, VmExecutionError>| #[trigger]
                S::get_data_with_proof_step(pre_store, key, reply, post_store)
        },
        Call::GetDataWithProofByHash(hash) => {
            &&& post == pre
            &&& exists|reply: Result<Option<(String, Vec<u8>)>, VmExecutionError>| #[trigger]
                S::get_data_with_proof_from_path_step(pre_store, hash, reply, post_store)
        },
        Call::GetCurrentBlockHeight => {
            &&& post == pre
            &&& exists|height: u32| #[trigger]
                S::get_current_block_height_step(pre_store, height, post_store)
        },
        Call::GetBlockHeaderHash(block_height) => {
            &&& post == pre
            &&& exists|hash: Option<StacksBlockId>| #[trigger]
                S::get_block_at_height_step(pre_store, block_height, hash, post_store)
        },
        Call::PrepareForContractMetadata(contract, content_hash) => exists|
            value: Seq<char>,
            result: Result<(), VmExecutionError>,
        |
            {
                &&& #[trigger] S::make_contract_commitment_step(
                    pre_store,
                    content_hash,
                    value,
                    post_store,
                )
                &&& #[trigger] data_written(pre, contract.hash_key, value, result, post)
            },
    }
}

/// What a read of a data key as a `T` does is the call of a data read.
pub proof fn law_data_read_is_a_call<S: ClarityBackingStore, T: ClarityDeserializable<T>>(
    pre: WrapperView,
    pre_store: S,
    key: Seq<char>,
    result: Result<Option<T>, VmExecutionError>,
    post: WrapperView,
    post_store: S,
)
    requires
        data_read(pre, pre_store, key, result, post, post_store),
    ensures
        called(Call::ReadData(key), pre, pre_store, post, post_store),
{
}

/// What a read of a data key as a value does is the call of a data read.
pub proof fn law_value_read_is_a_call<
    S: ClarityBackingStore,
    V,
    T,
    F: Fn(&str, &T, bool) -> Result<V, SerializationError>,
>(
    pre: WrapperView,
    pre_store: S,
    key: Seq<char>,
    try_deserialize_hex: F,
    expected: &T,
    epoch: StacksEpochId,
    result: Result<Option<ValueResult<V>>, SerializationError>,
    post: WrapperView,
    post_store: S,
)
    requires
        value_read(
            pre,
            pre_store,
            key,
            try_deserialize_hex,
            expected,
            epoch,
            result,
            post,
            post_store,
        ),
    ensures
        called(Call::ReadData(key), pre, pre_store, post, post_store),
{
}

/// Every call keeps coherence.
pub proof fn law_calls_keep_coherence<S: ClarityBackingStore>(
    model: ByBlock<S>,
    call: Call,
    pre: WrapperView,
    pre_store: S,
    post: WrapperView,
    post_store: S,
)
    requires
        model.lawful(),
        model.coherent(pre, pre_store),
        called(call, pre, pre_store, post, post_store),
    ensures
        model.coherent(post, post_store),
{
}

/// A wrapper that starts out, with or without pending writes, is coherent with its store after
/// any calls. `states` are the wrapper and the store before the first call and after each.
pub proof fn law_runs_stay_coherent<S: ClarityBackingStore>(
    model: ByBlock<S>,
    log: LogView,
    calls: Seq<Call>,
    states: Seq<(WrapperView, S)>,
)
    requires
        model.lawful(),
        states.len() == calls.len() + 1,
        states[0].0 == WrapperView::with_log(log),
        forall|i: int|
            0 <= i < calls.len() ==> called(
                #[trigger] calls[i],
                states[i].0,
                states[i].1,
                states[i + 1].0,
                states[i + 1].1,
            ),
    ensures
        forall|i: int|
            0 <= i < states.len() ==> model.coherent((#[trigger] states[i]).0, states[i].1),
    decreases calls.len(),
{
    if calls.len() > 0 {
        let last = calls.len() - 1;
        let earlier = states.drop_last();
        assert forall|i: int| 0 <= i < calls.drop_last().len() implies called(
            #[trigger] calls.drop_last()[i],
            earlier[i].0,
            earlier[i].1,
            earlier[i + 1].0,
            earlier[i + 1].1,
        ) by {
            assert(calls.drop_last()[i] == calls[i]);
        }
        law_runs_stay_coherent(model, log, calls.drop_last(), earlier);
        assert(earlier[last] == states[last]);
        law_calls_keep_coherence(
            model,
            calls[last],
            states[last].0,
            states[last].1,
            states[last + 1].0,
            states[last + 1].1,
        );
        assert forall|i: int| 0 <= i < states.len() implies model.coherent(
            (#[trigger] states[i]).0,
            states[i].1,
        ) by {
            if i < earlier.len() {
                assert(earlier[i] == states[i]);
            }
        }
    }
}

} // verus!
