//! What reads, writes and commits are for, in terms of what goes in and what comes out.

use vstd::prelude::*;
use vstd::utf8::*;

use crate::errors::{str_debug_text, SerializationError, VmExecutionError, VmInternalError};
use crate::key_value_wrapper::{
    commit_failure_text, commit_meets_no_orphans, commit_result, commitment_hash,
    committed_to_store, data_put, data_read, data_written, deserialized_reply, deserialized_reply_with_proof,
    materialized_data_read, metadata_put, metadata_read, text_of, value_deserialized, value_found,
    value_read, value_reply, WrapperView,
};
use crate::operation_laws::{
    last_at, law_no_pending_data_without_write, law_no_pending_metadata_without_write,
    law_orphaned_metadata_is_pending, law_pending_data_is_the_newest_write,
    law_pending_metadata_is_the_newest_write, leaves_alone, newest_data_write,
    newest_metadata_write, no_data_write, no_metadata_write_in_contexts,
};
use crate::persisted_log::LogView;
use crate::store::{
    data_items, metadata_items, ClarityBackingStore, ClarityDeserializable, MetadataKey,
    MetadataKeyView,
};
use crate::types::{
    ContractCommitment, QualifiedContractIdentifier, Sha512Trunc256Sum, StacksBlockId,
    StacksEpochId, TrieHash, ValueResult,
};

verus! {

// ---- Values as they are ----

/// The texts of errors are the ones that they hold.
pub proof fn law_error_texts(words: String, e: VmExecutionError, text: Seq<char>)
    ensures
        VmInternalError::Expect(words).text() == words@,
        e.is_expect(text) <==> (e matches VmExecutionError::Internal(VmInternalError::Expect(held))
            && held@ == text),
        VmExecutionError::Other(words).spec_debug_text() == words@,
        VmExecutionError::Internal(VmInternalError::Expect(words)).spec_debug_text()
            == "Internal(Expect("@ + str_debug_text(words@) + "))"@,
        commit_failure_text(e) == "ERROR: Failed to commit data to sql store: "@
            + e.spec_debug_text(),
{
}

/// The items that a store is given are told one for one, in order.
pub proof fn law_items_one_for_one(
    items: Seq<(String, String)>,
    metadata: Seq<(MetadataKey, String)>,
)
    ensures
        data_items(items).len() == items.len(),
        forall|i: int|
            0 <= i < items.len() ==> #[trigger] data_items(items)[i] == (items[i].0@, items[i].1@),
        metadata_items(metadata).len() == metadata.len(),
        forall|i: int|
            0 <= i < metadata.len() ==> #[trigger] metadata_items(metadata)[i] == (
                (metadata[i].0.0@, metadata[i].0.1@),
                metadata[i].1@,
            ),
{
}

/// What is told of identifiers, hashes and missing strings is all that they hold.
pub proof fn law_views_are_faithful(
    contract: QualifiedContractIdentifier,
    block: StacksBlockId,
    path: TrieHash,
    hash: Sha512Trunc256Sum,
    words: String,
)
    ensures
        contract@.name == contract.name@,
        contract@.hash_key == contract.hash_key@,
        block@ == block.0@,
        path@ == path.0@,
        hash@ == hash.0@,
        text_of(Some(words)) == Some(words@),
        text_of(None) is None,
{
}

/// Stored text that is read as text is read as it is, whatever it is.
pub proof fn law_text_is_read_as_it_is(text: Seq<char>, result: Result<String, VmExecutionError>)
    requires
        <String as ClarityDeserializable<String>>::deserializes_to(text, result),
    ensures
        result matches Ok(words) && words@ == text,
{
}

/// A wrapper starts out with the pending writes that it is given, sees them, reads from no block
/// in particular, and remembers nothing.
pub proof fn law_wrapper_at_first(log: LogView)
    ensures
        ({
            let w = WrapperView::with_log(log);
            &&& w.log == log
            &&& w.query_pending_data
            &&& w.active_block_hash is None
            &&& forall|entry: (Seq<u8>, Seq<char>)| !#[trigger] w.data_cache.contains_key(entry)
            &&& forall|entry: (Seq<u8>, MetadataKeyView)|
                !#[trigger] w.metadata_cache.contains_key(entry)
        }),
        LogView::empty().contexts.len() == 0,
        LogView::empty().orphaned_metadata.len() == 0,
{
}

// ---- Reads of data ----

/// Whether `result` is what the reader of `T` makes of a text.
pub open spec fn read_as<T: ClarityDeserializable<T>>(
    text: Seq<char>,
    result: Result<Option<T>, VmExecutionError>,
) -> bool {
    match result {
        Ok(Some(value)) => T::deserializes_to(text, Ok(value)),
        Ok(None) => false,
        Err(e) => T::deserializes_to(text, Err(e)),
    }
}

/// Whether reads of a data key have to go past the pending writes.
pub open spec fn data_unseen(w: WrapperView, key: Seq<char>) -> bool {
    !w.query_pending_data || no_data_write(w.log, key)
}

/// Whether reads of a metadata key have to go past the pending writes.
pub open spec fn metadata_unseen(w: WrapperView, key: MetadataKeyView) -> bool {
    !w.query_pending_data || (no_metadata_write_in_contexts(w.log, key) && leaves_alone(
        w.log.orphaned_metadata,
        key,
    ))
}

/// Whether the answer for a data key is remembered for the block to read from.
pub open spec fn data_remembered(w: WrapperView, key: Seq<char>) -> bool {
    &&& !w.query_pending_data
    &&& w.active_block_hash matches Some(block) && w.data_cache.contains_key((block, key))
}

/// Whether the answer for a metadata key is remembered for the block to read from.
pub open spec fn metadata_remembered(w: WrapperView, key: MetadataKeyView) -> bool {
    &&& !w.query_pending_data
    &&& w.active_block_hash matches Some(block) && w.metadata_cache.contains_key((block, key))
}

/// Whether nothing but the data answers that are remembered has changed, and of these only that
/// a successful answer for `key` is remembered now if reads do not see pending writes and a
/// block to read from was chosen.
pub open spec fn data_answer_kept(
    pre: WrapperView,
    key: Seq<char>,
    reply: Result<Option<String>, VmExecutionError>,
    post: WrapperView,
) -> bool {
    &&& post.log == pre.log
    &&& post.query_pending_data == pre.query_pending_data
    &&& post.active_block_hash == pre.active_block_hash
    &&& post.metadata_cache == pre.metadata_cache
    &&& match (reply, pre.active_block_hash) {
        (Ok(Some(words)), Some(block)) if !pre.query_pending_data => post.data_cache
            == pre.data_cache.insert((block, key), Some(words@)),
        (Ok(None), Some(block)) if !pre.query_pending_data => post.data_cache
            == pre.data_cache.insert((block, key), None),
        _ => post.data_cache == pre.data_cache,
    }
}

/// Whether nothing but the metadata answers that are remembered has changed, and of these only
/// that a successful answer for `key` is remembered now if reads do not see pending writes and a
/// block to read from was chosen.
pub open spec fn metadata_answer_kept(
    pre: WrapperView,
    key: MetadataKeyView,
    reply: Result<Option<String>, VmExecutionError>,
    post: WrapperView,
) -> bool {
    &&& post.log == pre.log
    &&& post.query_pending_data == pre.query_pending_data
    &&& post.active_block_hash == pre.active_block_hash
    &&& post.data_cache == pre.data_cache
    &&& match (reply, pre.active_block_hash) {
        (Ok(Some(words)), Some(block)) if !pre.query_pending_data => post.metadata_cache
            == pre.metadata_cache.insert((block, key), Some(words@)),
        (Ok(None), Some(block)) if !pre.query_pending_data => post.metadata_cache
            == pre.metadata_cache.insert((block, key), None),
        _ => post.metadata_cache == pre.metadata_cache,
    }
}

/// A data read outside any context is an error, and changes nothing.
pub proof fn law_data_read_outside_contexts<S: ClarityBackingStore, T: ClarityDeserializable<T>>(
    pre: WrapperView,
    pre_store: S,
    key: Seq<char>,
    result: Result<Option<T>, VmExecutionError>,
    post: WrapperView,
    post_store: S,
)
    requires
        pre.log.contexts.len() == 0,
        data_read(pre, pre_store, key, result, post, post_store),
    ensures
        result matches Err(VmExecutionError::Internal(VmInternalError::Expect(words))) && words@
            == "ERROR: Clarity VM attempted GET on non-nested context."@,
        post == pre,
        post_store == pre_store,
{
}

/// While reads see pending writes, a data read gives the value of the newest write to its key,
/// at every depth, as its reader reads it. The store is not asked, and nothing changes.
pub proof fn law_data_read_gives_newest_write<S: ClarityBackingStore, T: ClarityDeserializable<T>>(
    pre: WrapperView,
    pre_store: S,
    key: Seq<char>,
    result: Result<Option<T>, VmExecutionError>,
    post: WrapperView,
    post_store: S,
    c: int,
    p: int,
)
    requires
        pre.query_pending_data,
        newest_data_write(pre.log, key, c, p),
        data_read(pre, pre_store, key, result, post, post_store),
    ensures
        read_as(pre.log.contexts[c].edits[p].1, result),
        post == pre,
        post_store == pre_store,
{
    law_pending_data_is_the_newest_write(pre.log, key, c, p);
}

/// A data read that goes past the pending writes gives the answer that is remembered for the
/// block to read from, as its reader reads it. The store is not asked, and nothing changes.
pub proof fn law_data_read_gives_remembered_answer<
    S: ClarityBackingStore,
    T: ClarityDeserializable<T>,
>(
    pre: WrapperView,
    pre_store: S,
    key: Seq<char>,
    result: Result<Option<T>, VmExecutionError>,
    post: WrapperView,
    post_store: S,
    block: Seq<u8>,
)
    requires
        pre.log.contexts.len() > 0,
        !pre.query_pending_data,
        pre.active_block_hash == Some(block),
        pre.data_cache.contains_key((block, key)),
        data_read(pre, pre_store, key, result, post, post_store),
    ensures
        match pre.data_cache[(block, key)] {
            Some(text) => read_as(text, result),
            None => result matches Ok(None),
        },
        post == pre,
        post_store == pre_store,
{
}

/// A data read that goes past the pending writes, with no answer remembered, asks the store for
/// its key once. It gives the store's answer as its reader reads it, and the store's error as it
/// is. A successful answer is remembered where it should be, and nothing else changes.
pub proof fn law_data_read_asks_the_store<S: ClarityBackingStore, T: ClarityDeserializable<T>>(
    pre: WrapperView,
    pre_store: S,
    key: Seq<char>,
    result: Result<Option<T>, VmExecutionError>,
    post: WrapperView,
    post_store: S,
) -> (reply: Result<Option<String>, VmExecutionError>)
    requires
        pre.log.contexts.len() > 0,
        data_unseen(pre, key),
        !data_remembered(pre, key),
        data_read(pre, pre_store, key, result, post, post_store),
    ensures
        S::get_data_step(pre_store, key, reply, post_store),
        match reply {
            Ok(Some(words)) => read_as(words@, result),
            Ok(None) => result matches Ok(None),
            Err(e) => result == Err::<Option<T>, VmExecutionError>(e),
        },
        data_answer_kept(pre, key, reply, post),
{
    if pre.query_pending_data {
        law_no_pending_data_without_write(pre.log, key);
    }
    choose|reply: Result<Option<String>, VmExecutionError>|
        {
            &&& #[trigger] materialized_data_read(pre, pre_store, key, reply, post, post_store)
            &&& deserialized_reply(reply, result)
        }
}

// ---- Reads of metadata ----

/// A metadata read outside any context is an error, and changes nothing.
pub proof fn law_metadata_read_outside_contexts<S: ClarityBackingStore>(
    pre: WrapperView,
    pre_store: S,
    key: MetadataKeyView,
    result: Result<Option<String>, VmExecutionError>,
    post: WrapperView,
    post_store: S,
)
    requires
        pre.log.contexts.len() == 0,
        metadata_read(pre, pre_store, key, result, post, post_store),
    ensures
        result matches Err(VmExecutionError::Internal(VmInternalError::Expect(words))) && words@
            == "ERROR: Clarity VM attempted GET on non-nested context."@,
        post == pre,
        post_store == pre_store,
{
}

/// While reads see pending writes, what they see of a metadata key is the value of the newest
/// write to it, at every depth; of a data key likewise. While they do not, they see nothing.
pub proof fn law_visible_is_the_newest_write(
    w: WrapperView,
    key: MetadataKeyView,
    data_key: Seq<char>,
    c: int,
    p: int,
)
    ensures
        w.query_pending_data && newest_metadata_write(w.log, key, c, p) ==> w.visible_metadata(key)
            == Some(w.log.contexts[c].metadata_edits[p].1),
        w.query_pending_data && no_metadata_write_in_contexts(w.log, key) && last_at(
            w.log.orphaned_metadata,
            key,
            p,
        ) ==> w.visible_metadata(key) == Some(w.log.orphaned_metadata[p].1),
        metadata_unseen(w, key) ==> w.visible_metadata(key) is None,
        w.query_pending_data && newest_data_write(w.log, data_key, c, p) ==> w.visible_data(
            data_key,
        ) == Some(w.log.contexts[c].edits[p].1),
        data_unseen(w, data_key) ==> w.visible_data(data_key) is None,
{
    if newest_metadata_write(w.log, key, c, p) {
        law_pending_metadata_is_the_newest_write(w.log, key, c, p);
    }
    if no_metadata_write_in_contexts(w.log, key) && last_at(w.log.orphaned_metadata, key, p) {
        law_orphaned_metadata_is_pending(w.log, key, p);
    }
    if no_metadata_write_in_contexts(w.log, key) && leaves_alone(w.log.orphaned_metadata, key) {
        law_no_pending_metadata_without_write(w.log, key);
    }
    if newest_data_write(w.log, data_key, c, p) {
        law_pending_data_is_the_newest_write(w.log, data_key, c, p);
    }
    if no_data_write(w.log, data_key) {
        law_no_pending_data_without_write(w.log, data_key);
    }
}

/// While reads see pending writes, a metadata read gives the value of the newest write of the
/// open contexts to its key, at every depth. The store is not asked, and nothing changes.
pub proof fn law_metadata_read_gives_newest_write<S: ClarityBackingStore>(
    pre: WrapperView,
    pre_store: S,
    key: MetadataKeyView,
    result: Result<Option<String>, VmExecutionError>,
    post: WrapperView,
    post_store: S,
    c: int,
    p: int,
)
    requires
        pre.query_pending_data,
        newest_metadata_write(pre.log, key, c, p),
        metadata_read(pre, pre_store, key, result, post, post_store),
    ensures
        result matches Ok(Some(words)) && words@ == pre.log.contexts[c].metadata_edits[p].1,
        post == pre,
        post_store == pre_store,
{
    law_pending_metadata_is_the_newest_write(pre.log, key, c, p);
}

/// While reads see pending writes, a metadata read of a key that no open context writes to gives
/// the value of the newest write to it that was left without a context. The store is not asked,
/// and nothing changes.
pub proof fn law_metadata_read_gives_orphaned_write<S: ClarityBackingStore>(
    pre: WrapperView,
    pre_store: S,
    key: MetadataKeyView,
    result: Result<Option<String>, VmExecutionError>,
    post: WrapperView,
    post_store: S,
    p: int,
)
    requires
        pre.log.contexts.len() > 0,
        pre.query_pending_data,
        no_metadata_write_in_contexts(pre.log, key),
        last_at(pre.log.orphaned_metadata, key, p),
        metadata_read(pre, pre_store, key, result, post, post_store),
    ensures
        result matches Ok(Some(words)) && words@ == pre.log.orphaned_metadata[p].1,
        post == pre,
        post_store == pre_store,
{
    law_orphaned_metadata_is_pending(pre.log, key, p);
}

/// A metadata read that goes past the pending writes gives the answer that is remembered for
/// the block to read from. The store is not asked, and nothing changes.
pub proof fn law_metadata_read_gives_remembered_answer<S: ClarityBackingStore>(
    pre: WrapperView,
    pre_store: S,
    key: MetadataKeyView,
    result: Result<Option<String>, VmExecutionError>,
    post: WrapperView,
    post_store: S,
    block: Seq<u8>,
)
    requires
        pre.log.contexts.len() > 0,
        !pre.query_pending_data,
        pre.active_block_hash == Some(block),
        pre.metadata_cache.contains_key((block, key)),
        metadata_read(pre, pre_store, key, result, post, post_store),
    ensures
        match pre.metadata_cache[(block, key)] {
            Some(text) => result matches Ok(Some(words)) && words@ == text,
            None => result matches Ok(None),
        },
        post == pre,
        post_store == pre_store,
{
}

/// A metadata read that goes past the pending writes, with no answer remembered, asks the store
/// for its key once, and gives the store's answer as it is. A successful answer is remembered
/// where it should be, and nothing else changes.
pub proof fn law_metadata_read_asks_the_store<S: ClarityBackingStore>(
    pre: WrapperView,
    pre_store: S,
    key: MetadataKeyView,
    result: Result<Option<String>, VmExecutionError>,
    post: WrapperView,
    post_store: S,
)
    requires
        pre.log.contexts.len() > 0,
        metadata_unseen(pre, key),
        !metadata_remembered(pre, key),
        metadata_read(pre, pre_store, key, result, post, post_store),
    ensures
        S::get_metadata_step(pre_store, key.0, key.1, result, post_store),
        metadata_answer_kept(pre, key, result, post),
{
    if pre.query_pending_data {
        law_no_pending_metadata_without_write(pre.log, key);
    }
}

// ---- Reads of values ----

/// Whether `result` is what a decoder makes of a text: never that nothing is there, and with a
/// decoded value the number of whole bytes that two digits each spell.
pub open spec fn decoded_as<V, T, F: Fn(&str, &T, bool) -> Result<V, SerializationError>>(
    decoder: F,
    text: Seq<char>,
    expected: &T,
    epoch: StacksEpochId,
    result: Result<Option<ValueResult<V>>, SerializationError>,
) -> bool {
    exists|digits: &str|
        {
            &&& #[trigger] digits@ == text
            &&& match result {
                Ok(Some(found)) => {
                    &&& call_ensures(
                        decoder,
                        (digits, expected, epoch.value_sanitizing),
                        Ok(found.value),
                    )
                    &&& 2 * found.serialized_byte_len <= encode_utf8(text).len()
                    &&& encode_utf8(text).len() <= 2 * found.serialized_byte_len + 1
                },
                Ok(None) => false,
                Err(e) => call_ensures(
                    decoder,
                    (digits, expected, epoch.value_sanitizing),
                    Err(e),
                ),
            }
        }
}

/// Decoding a text gives what the decoder gives for that text, that type and whether the epoch
/// sanitizes, with the number of whole bytes that two digits each spell.
pub proof fn law_value_is_what_the_decoder_gives<
    V,
    T,
    F: Fn(&str, &T, bool) -> Result<V, SerializationError>,
>(
    decoder: F,
    digits: &str,
    expected: &T,
    epoch: StacksEpochId,
    result: Result<ValueResult<V>, SerializationError>,
)
    requires
        value_deserialized(decoder, digits, expected, epoch, result),
    ensures
        match result {
            Ok(found) => {
                &&& call_ensures(
                    decoder,
                    (digits, expected, epoch.value_sanitizing),
                    Ok(found.value),
                )
                &&& 2 * found.serialized_byte_len <= encode_utf8(digits@).len()
                &&& encode_utf8(digits@).len() <= 2 * found.serialized_byte_len + 1
            },
            Err(e) => call_ensures(
                decoder,
                (digits, expected, epoch.value_sanitizing),
                Err(e),
            ),
        },
{
}

/// A text that was found is decoded.
proof fn lemma_found_is_decoded<V, T, F: Fn(&str, &T, bool) -> Result<V, SerializationError>>(
    decoder: F,
    text: Seq<char>,
    expected: &T,
    epoch: StacksEpochId,
    result: Result<Option<ValueResult<V>>, SerializationError>,
)
    requires
        value_found(decoder, text, expected, epoch, result),
    ensures
        decoded_as(decoder, text, expected, epoch, result),
{
}

/// What becomes of an answer of the store in a read of a value: a text is decoded, whatever it
/// is, nothing is nothing, and a failure of the store is told as such.
pub proof fn law_value_of_an_answer<V, T, F: Fn(&str, &T, bool) -> Result<V, SerializationError>>(
    decoder: F,
    reply: Result<Option<String>, VmExecutionError>,
    expected: &T,
    epoch: StacksEpochId,
    result: Result<Option<ValueResult<V>>, SerializationError>,
)
    requires
        value_reply(decoder, reply, expected, epoch, result),
    ensures
        match reply {
            Ok(Some(words)) => decoded_as(decoder, words@, expected, epoch, result),
            Ok(None) => result matches Ok(None),
            Err(_) => result matches Err(SerializationError::DeserializationFailure(told)) && told@
                == "ERROR: Clarity backing store failure"@,
        },
{
}

/// A read of a value outside any context is an error, and changes nothing.
pub proof fn law_value_read_outside_contexts<
    S: ClarityBackingStore,
    V,
    T,
    F: Fn(&str, &T, bool) -> Result<V, SerializationError>,
>(
    pre: WrapperView,
    pre_store: S,
    key: Seq<char>,
    decoder: F,
    expected: &T,
    epoch: StacksEpochId,
    result: Result<Option<ValueResult<V>>, SerializationError>,
    post: WrapperView,
    post_store: S,
)
    requires
        pre.log.contexts.len() == 0,
        value_read(pre, pre_store, key, decoder, expected, epoch, result, post, post_store),
    ensures
        result matches Err(SerializationError::DeserializationFailure(words)) && words@
            == "ERROR: Clarity VM attempted GET on non-nested context."@,
        post == pre,
        post_store == pre_store,
{
}

/// While reads see pending writes, a read of a value decodes the value of the newest write to
/// its key, at every depth and of every length. The store is not asked, and nothing changes.
pub proof fn law_value_read_decodes_newest_write<
    S: ClarityBackingStore,
    V,
    T,
    F: Fn(&str, &T, bool) -> Result<V, SerializationError>,
>(
    pre: WrapperView,
    pre_store: S,
    key: Seq<char>,
    decoder: F,
    expected: &T,
    epoch: StacksEpochId,
    result: Result<Option<ValueResult<V>>, SerializationError>,
    post: WrapperView,
    post_store: S,
    c: int,
    p: int,
)
    requires
        pre.query_pending_data,
        newest_data_write(pre.log, key, c, p),
        value_read(pre, pre_store, key, decoder, expected, epoch, result, post, post_store),
    ensures
        decoded_as(decoder, pre.log.contexts[c].edits[p].1, expected, epoch, result),
        post == pre,
        post_store == pre_store,
{
    law_pending_data_is_the_newest_write(pre.log, key, c, p);
    lemma_found_is_decoded(decoder, pre.log.contexts[c].edits[p].1, expected, epoch, result);
}

/// A read of a value that goes past the pending writes decodes the answer that is remembered for
/// the block to read from. The store is not asked, and nothing changes.
pub proof fn law_value_read_decodes_remembered_answer<
    S: ClarityBackingStore,
    V,
    T,
    F: Fn(&str, &T, bool) -> Result<V, SerializationError>,
>(
    pre: WrapperView,
    pre_store: S,
    key: Seq<char>,
    decoder: F,
    expected: &T,
    epoch: StacksEpochId,
    result: Result<Option<ValueResult<V>>, SerializationError>,
    post: WrapperView,
    post_store: S,
    block: Seq<u8>,
)
    requires
        pre.log.contexts.len() > 0,
        !pre.query_pending_data,
        pre.active_block_hash == Some(block),
        pre.data_cache.contains_key((block, key)),
        value_read(pre, pre_store, key, decoder, expected, epoch, result, post, post_store),
    ensures
        match pre.data_cache[(block, key)] {
            Some(text) => decoded_as(decoder, text, expected, epoch, result),
            None => result matches Ok(None),
        },
        post == pre,
        post_store == pre_store,
{
    let reply = choose|reply: Result<Option<String>, VmExecutionError>|
        {
            &&& #[trigger] materialized_data_read(pre, pre_store, key, reply, post, post_store)
            &&& value_reply(decoder, reply, expected, epoch, result)
        };
    law_value_of_an_answer(decoder, reply, expected, epoch, result);
}

/// A read of a value that goes past the pending writes, with no answer remembered, asks the
/// store for its key once. It decodes the text that the store answers, of whatever length, and
/// tells a failure of the store as such. A successful answer is remembered where it should be,
/// and nothing else changes.
pub proof fn law_value_read_asks_the_store<
    S: ClarityBackingStore,
    V,
    T,
    F: Fn(&str, &T, bool) -> Result<V, SerializationError>,
>(
    pre: WrapperView,
    pre_store: S,
    key: Seq<char>,
    decoder: F,
    expected: &T,
    epoch: StacksEpochId,
    result: Result<Option<ValueResult<V>>, SerializationError>,
    post: WrapperView,
    post_store: S,
) -> (reply: Result<Option<String>, VmExecutionError>)
    requires
        pre.log.contexts.len() > 0,
        data_unseen(pre, key),
        !data_remembered(pre, key),
        value_read(pre, pre_store, key, decoder, expected, epoch, result, post, post_store),
    ensures
        S::get_data_step(pre_store, key, reply, post_store),
        match reply {
            Ok(Some(words)) => decoded_as(decoder, words@, expected, epoch, result),
            Ok(None) => result matches Ok(None),
            Err(_) => result matches Err(SerializationError::DeserializationFailure(told)) && told@
                == "ERROR: Clarity backing store failure"@,
        },
        data_answer_kept(pre, key, reply, post),
{
    if pre.query_pending_data {
        law_no_pending_data_without_write(pre.log, key);
    }
    let reply = choose|reply: Result<Option<String>, VmExecutionError>|
        {
            &&& #[trigger] materialized_data_read(pre, pre_store, key, reply, post, post_store)
            &&& value_reply(decoder, reply, expected, epoch, result)
        };
    law_value_of_an_answer(decoder, reply, expected, epoch, result);
    reply
}

// ---- Answers that are read on ----

/// An answer of the store is given as its reader reads it, nothing as nothing, and an error as
/// it is.
pub proof fn law_answer_is_read_as_it_is<T: ClarityDeserializable<T>>(
    reply: Result<Option<String>, VmExecutionError>,
    result: Result<Option<T>, VmExecutionError>,
)
    requires
        deserialized_reply(reply, result),
    ensures
        match reply {
            Ok(Some(words)) => read_as(words@, result),
            Ok(None) => result matches Ok(None),
            Err(e) => result == Err::<Option<T>, VmExecutionError>(e),
        },
{
}

/// The proof that is given with a value has the bytes of the store's proof, each in its place
/// and no others, and the value is what its reader makes of the store's text. Nothing is nothing,
/// and an error is given as it is.
pub proof fn law_proof_is_passed_on_whole<T: ClarityDeserializable<T>>(
    reply: Result<Option<(String, Vec<u8>)>, VmExecutionError>,
    result: Result<Option<(T, Vec<u8>)>, VmExecutionError>,
)
    requires
        deserialized_reply_with_proof(reply, result),
    ensures
        match reply {
            Ok(Some((words, proof))) => match result {
                Ok(Some((value, given))) => {
                    &&& T::deserializes_to(words@, Ok(value))
                    &&& given@.len() == proof@.len()
                    &&& forall|i: int| 0 <= i < proof@.len() ==> #[trigger] given@[i] == proof@[i]
                },
                Ok(None) => false,
                Err(e) => T::deserializes_to(words@, Err(e)),
            },
            Ok(None) => result matches Ok(None),
            Err(e) => result == Err::<Option<(T, Vec<u8>)>, VmExecutionError>(e),
        },
{
}

/// The hash that is given for a contract is the one in its commitment. Without a commitment there
/// is none, and an error is given as it is.
pub proof fn law_hash_is_the_committed_one<D: ClarityDeserializable<ContractCommitment>>(
    read: Result<Option<String>, VmExecutionError>,
    result: Result<Option<Sha512Trunc256Sum>, VmExecutionError>,
)
    requires
        commitment_hash::<D>(read, result),
    ensures
        match read {
            Ok(Some(words)) => match result {
                Ok(Some(hash)) => D::deserializes_to(words@, Ok(ContractCommitment { hash })),
                Ok(None) => false,
                Err(e) => D::deserializes_to(words@, Err(e)),
            },
            Ok(None) => result matches Ok(None),
            Err(e) => result == Err::<Option<Sha512Trunc256Sum>, VmExecutionError>(e),
        },
{
}

// ---- Writes ----

/// A data write succeeds exactly in an open context. It then adds itself as the newest of the
/// innermost context, and nothing else changes. Outside it is an error, and nothing changes.
pub proof fn law_data_write_outcome(
    pre: WrapperView,
    key: Seq<char>,
    value: Seq<char>,
    result: Result<(), VmExecutionError>,
    post: WrapperView,
)
    requires
        data_written(pre, key, value, result, post),
    ensures
        result is Ok <==> pre.log.contexts.len() > 0,
        result matches Err(e) ==> {
            &&& e matches VmExecutionError::Internal(VmInternalError::Expect(words)) && words@
                == "ERROR: Clarity VM attempted PUT on non-nested context."@
            &&& post == pre
        },
        result is Ok ==> {
            let top = pre.log.contexts.len() - 1;
            &&& post.log.contexts.len() == pre.log.contexts.len()
            &&& forall|i: int|
                0 <= i < top ==> #[trigger] post.log.contexts[i] == pre.log.contexts[i]
            &&& post.log.contexts[top].edits == pre.log.contexts[top].edits.push((key, value))
            &&& post.log.contexts[top].metadata_edits == pre.log.contexts[top].metadata_edits
            &&& post.log.orphaned_metadata == pre.log.orphaned_metadata
            &&& post.query_pending_data == pre.query_pending_data
            &&& post.active_block_hash == pre.active_block_hash
            &&& post.data_cache == pre.data_cache
            &&& post.metadata_cache == pre.metadata_cache
        },
{
}

/// What was written at a data key last is what a read of it gives next, at every depth, and the
/// store is not asked.
pub proof fn law_written_data_is_read_next<S: ClarityBackingStore>(
    pre: WrapperView,
    key: Seq<char>,
    value: Seq<char>,
    mid: WrapperView,
    store: S,
    result: Result<Option<String>, VmExecutionError>,
    post: WrapperView,
    post_store: S,
)
    requires
        pre.query_pending_data,
        data_written(pre, key, value, Ok(()), mid),
        data_read::<S, String>(mid, store, key, result, post, post_store),
    ensures
        result matches Ok(Some(words)) && words@ == value,
        post == mid,
        post_store == store,
{
    law_data_write_outcome(pre, key, value, Ok(()), mid);
    let top = mid.log.contexts.len() - 1;
    let p = mid.log.contexts[top].edits.len() - 1;
    assert(newest_data_write(mid.log, key, top, p));
    law_data_read_gives_newest_write::<S, String>(
        mid,
        store,
        key,
        result,
        post,
        post_store,
        top,
        p,
    );
}

/// What was written at a metadata key last is what a read of it gives next, at every depth, and
/// the store is not asked.
pub proof fn law_written_metadata_is_read_next<S: ClarityBackingStore>(
    pre: WrapperView,
    key: MetadataKeyView,
    value: Seq<char>,
    store: S,
    result: Result<Option<String>, VmExecutionError>,
    post: WrapperView,
    post_store: S,
)
    requires
        pre.query_pending_data,
        pre.log.contexts.len() > 0,
        metadata_read(
            WrapperView { log: pre.log.insert_metadata(key, value), ..pre },
            store,
            key,
            result,
            post,
            post_store,
        ),
    ensures
        result matches Ok(Some(words)) && words@ == value,
        post_store == store,
{
    let mid = WrapperView { log: pre.log.insert_metadata(key, value), ..pre };
    let top = mid.log.contexts.len() - 1;
    let p = mid.log.contexts[top].metadata_edits.len() - 1;
    assert(newest_metadata_write(mid.log, key, top, p));
    law_metadata_read_gives_newest_write(mid, store, key, result, post, post_store, top, p);
}

// ---- Commits to the store ----

/// Whether the store took the data writes of a context, which goes without asking if there are
/// none.
pub open spec fn data_taken<S: ClarityBackingStore>(
    pre: S,
    items: Seq<(Seq<char>, Seq<char>)>,
    post: S,
) -> bool {
    if items.len() > 0 {
        S::put_all_data_step(pre, items, Ok(()), post)
    } else {
        post == pre
    }
}

/// Whether the store took the metadata writes of a context, which goes without asking if there
/// are none.
pub open spec fn metadata_taken<S: ClarityBackingStore>(
    pre: S,
    items: Seq<(MetadataKeyView, Seq<char>)>,
    post: S,
) -> bool {
    if items.len() > 0 {
        S::put_all_metadata_step(pre, items, Ok(()), post)
    } else {
        post == pre
    }
}

/// Whether an error tells of a commit that the store refused with `e`.
pub open spec fn tells_of_refusal(error: VmInternalError, e: VmExecutionError) -> bool {
    &&& error matches VmInternalError::Expect(words)
    &&& words@ == "ERROR: Failed to commit data to sql store: "@ + match e {
        VmExecutionError::Internal(VmInternalError::Expect(told)) => "Internal(Expect("@
            + str_debug_text(told@) + "))"@,
        VmExecutionError::Other(told) => told@,
    }
}

/// Whether the wrapper has closed its last context with its data writes taken: no write is
/// pending any more, and of the data nothing is remembered if any was written.
pub open spec fn closed_with_data_taken(pre: WrapperView, post: WrapperView) -> bool {
    &&& post.log.contexts.len() == 0
    &&& post.log.orphaned_metadata.len() == 0
    &&& post.query_pending_data == pre.query_pending_data
    &&& post.active_block_hash == pre.active_block_hash
    &&& pre.log.contexts[0].edits.len() == 0 ==> post.data_cache == pre.data_cache
    &&& pre.log.contexts[0].edits.len() > 0 ==> forall|entry: (Seq<u8>, Seq<char>)|
        !#[trigger] post.data_cache.contains_key(entry)
}

/// How a commit to the store can end: the store takes all the data writes and all the metadata
/// writes, each in the order of writing, and the commit succeeds; or it takes the data writes,
/// refuses the metadata writes, and the commit fails with that; or it refuses the data writes,
/// is not asked about the metadata writes, and the commit fails with that. Nothing else.
pub proof fn law_commit_outcomes<S: ClarityBackingStore>(
    pre: WrapperView,
    pre_store: S,
    result: Result<(), VmInternalError>,
    post: WrapperView,
    post_store: S,
)
    requires
        pre.log.contexts.len() == 1,
        committed_to_store(pre, pre_store, result, post, post_store),
    ensures
        ({
            let edits = pre.log.contexts[0].edits;
            let metadata = pre.log.contexts[0].metadata_edits;
            ||| {
                &&& result is Ok
                &&& exists|mid: S|
                    #![trigger data_taken(pre_store, edits, mid)]
                    data_taken(pre_store, edits, mid) && metadata_taken(mid, metadata, post_store)
                &&& closed_with_data_taken(pre, post)
                &&& metadata.len() == 0 ==> post.metadata_cache == pre.metadata_cache
                &&& metadata.len() > 0 ==> forall|entry: (Seq<u8>, MetadataKeyView)|
                    !#[trigger] post.metadata_cache.contains_key(entry)
            }
            ||| {
                &&& metadata.len() > 0
                &&& exists|mid: S, e: VmExecutionError|
                    {
                        &&& #[trigger] S::put_all_metadata_step(mid, metadata, Err(e), post_store)
                        &&& data_taken(pre_store, edits, mid)
                        &&& result matches Err(error) && tells_of_refusal(error, e)
                    }
                &&& closed_with_data_taken(pre, post)
                &&& post.metadata_cache == pre.metadata_cache
            }
            ||| {
                &&& edits.len() > 0
                &&& exists|e: VmExecutionError|
                    {
                        &&& #[trigger] S::put_all_data_step(pre_store, edits, Err(e), post_store)
                        &&& result matches Err(error) && tells_of_refusal(error, e)
                    }
                &&& post.log.contexts.len() == 0
                &&& post.log.orphaned_metadata == pre.log.orphaned_metadata + metadata
                &&& post.query_pending_data == pre.query_pending_data
                &&& post.active_block_hash == pre.active_block_hash
                &&& post.data_cache == pre.data_cache
                &&& post.metadata_cache == pre.metadata_cache
            }
        }),
{
    let edits = pre.log.contexts[0].edits;
    let metadata = pre.log.contexts[0].metadata_edits;
    let (data_reply, mid) = choose|data_reply: Result<(), VmExecutionError>, mid: S|
        {
            &&& #[trigger] data_put(pre_store, edits, data_reply, mid)
            &&& match data_reply {
                Err(_) => {
                    &&& commit_result(data_reply, result)
                    &&& post == pre.after_data_refused()
                    &&& post_store == mid
                },
                Ok(_) => exists|metadata_reply: Result<(), VmExecutionError>|
                    {
                        &&& #[trigger] metadata_put(mid, metadata, metadata_reply, post_store)
                        &&& commit_result(metadata_reply, result)
                        &&& post == pre.after_metadata_put(metadata_reply)
                    },
            }
        };
    match data_reply {
        Err(e) => {
            assert(S::put_all_data_step(pre_store, edits, Err(e), post_store));
        },
        Ok(unit) => {
            assert(unit == ());
            assert(data_taken(pre_store, edits, mid));
            let metadata_reply = choose|metadata_reply: Result<(), VmExecutionError>|
                {
                    &&& #[trigger] metadata_put(mid, metadata, metadata_reply, post_store)
                    &&& commit_result(metadata_reply, result)
                    &&& post == pre.after_metadata_put(metadata_reply)
                };
            match metadata_reply {
                Err(e) => {
                    assert(S::put_all_metadata_step(mid, metadata, Err(e), post_store));
                },
                Ok(unit) => {
                    assert(unit == ());
                },
            }
        },
    }
}

/// A commit to the store fails only where the store was asked to take its data writes or its
/// metadata writes and refused, and tells with what.
pub proof fn law_commit_fails_only_if_refused<S: ClarityBackingStore>(
    pre: WrapperView,
    pre_store: S,
    error: VmInternalError,
    post: WrapperView,
    post_store: S,
)
    requires
        pre.log.contexts.len() == 1,
        committed_to_store(pre, pre_store, Err(error), post, post_store),
    ensures
        ({
            let edits = pre.log.contexts[0].edits;
            let metadata = pre.log.contexts[0].metadata_edits;
            ||| edits.len() > 0 && exists|e: VmExecutionError|
                {
                    &&& #[trigger] S::put_all_data_step(pre_store, edits, Err(e), post_store)
                    &&& tells_of_refusal(error, e)
                }
            ||| metadata.len() > 0 && exists|asked: S, e: VmExecutionError|
                {
                    &&& #[trigger] S::put_all_metadata_step(asked, metadata, Err(e), post_store)
                    &&& data_taken(pre_store, edits, asked)
                    &&& tells_of_refusal(error, e)
                }
        }),
{
    law_commit_outcomes(pre, pre_store, Err(error), post, post_store);
}

/// A commit to a store that takes everything succeeds, and the store holds what was pending.
///
/// `held` and `metadata_held` tell what a store holds. A store that takes writes holds at each
/// key that they name the value that they write to it last, and elsewhere what it held.
pub proof fn law_accepting_store_holds_all_after_commit<S: ClarityBackingStore>(
    held: spec_fn(S, Seq<char>) -> Option<Seq<char>>,
    metadata_held: spec_fn(S, MetadataKeyView) -> Option<Seq<char>>,
    pre: WrapperView,
    pre_store: S,
    result: Result<(), VmInternalError>,
    post: WrapperView,
    post_store: S,
)
    requires
        pre.log.contexts.len() == 1,
        committed_to_store(pre, pre_store, result, post, post_store),
        forall|a: S, items: Seq<(Seq<char>, Seq<char>)>, reply: Result<(), VmExecutionError>, b: S|
            #[trigger]
            S::put_all_data_step(a, items, reply, b) ==> {
                &&& reply is Ok
                &&& forall|key: Seq<char>, p: int| #[trigger]
                    last_at(items, key, p) ==> held(b, key) == Some(items[p].1)
                &&& forall|key: Seq<char>| #[trigger]
                    leaves_alone(items, key) ==> held(b, key) == held(a, key)
                &&& forall|key: MetadataKeyView| #[trigger]
                    metadata_held(b, key) == metadata_held(a, key)
            },
        forall|
            a: S,
            items: Seq<(MetadataKeyView, Seq<char>)>,
            reply: Result<(), VmExecutionError>,
            b: S,
        | #[trigger]
            S::put_all_metadata_step(a, items, reply, b) ==> {
                &&& reply is Ok
                &&& forall|key: MetadataKeyView, p: int| #[trigger]
                    last_at(items, key, p) ==> metadata_held(b, key) == Some(items[p].1)
                &&& forall|key: MetadataKeyView| #[trigger]
                    leaves_alone(items, key) ==> metadata_held(b, key) == metadata_held(a, key)
                &&& forall|key: Seq<char>| #[trigger] held(b, key) == held(a, key)
            },
    ensures
        result is Ok,
        forall|key: Seq<char>, p: int| #[trigger]
            last_at(pre.log.contexts[0].edits, key, p) ==> held(post_store, key) == Some(
                pre.log.contexts[0].edits[p].1,
            ),
        forall|key: Seq<char>| #[trigger]
            leaves_alone(pre.log.contexts[0].edits, key) ==> held(post_store, key) == held(
                pre_store,
                key,
            ),
        forall|key: MetadataKeyView, p: int| #[trigger]
            last_at(pre.log.contexts[0].metadata_edits, key, p) ==> metadata_held(post_store, key)
                == Some(pre.log.contexts[0].metadata_edits[p].1),
        forall|key: MetadataKeyView| #[trigger]
            leaves_alone(pre.log.contexts[0].metadata_edits, key) ==> metadata_held(post_store, key)
                == metadata_held(pre_store, key),
{
    law_commit_outcomes(pre, pre_store, result, post, post_store);
    let edits = pre.log.contexts[0].edits;
    let metadata = pre.log.contexts[0].metadata_edits;
    assert(result is Ok);
    let mid = choose|mid: S|
        #![trigger data_taken(pre_store, edits, mid)]
        data_taken(pre_store, edits, mid) && metadata_taken(mid, metadata, post_store);
    assert(data_taken(pre_store, edits, mid) && metadata_taken(mid, metadata, post_store));
}

/// A commit may be asked for whenever no metadata writes are without a context, and whenever
/// another number of contexts than one is open.
pub proof fn law_commit_is_open_without_orphans<S: ClarityBackingStore>(w: WrapperView, store: S)
    ensures
        w.log.orphaned_metadata.len() == 0 ==> commit_meets_no_orphans(w, store),
        w.log.contexts.len() != 1 ==> commit_meets_no_orphans(w, store),
{
}

} // verus!
