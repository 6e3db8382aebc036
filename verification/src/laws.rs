//! What holds of the wrapper over several operations.

use vstd::prelude::*;

use crate::edit_log::{last_write, lemma_history_push};
use crate::errors::{VmExecutionError, VmInternalError};
use crate::key_value_wrapper::{
    commitment_hash, committed_to_store, data_put, data_read, data_written, deserialized_reply,
    materialized_data_read, materialized_metadata_read, metadata_put, metadata_read, text_of,
    WrapperView,
};
use crate::persisted_log::{
    data_writes, lemma_commit_to_parent, lemma_insert_metadata, lemma_nest, lemma_put_data,
    metadata_writes, LogView,
};
use crate::store::{ClarityBackingStore, ClarityDeserializable, MetadataKeyView};
use crate::types::{ContractCommitment, ContractView, Sha512Trunc256Sum};

verus! {

/// A data write is what a read of its key sees, and changes nothing that a read of another
/// data key or of any metadata key sees.
pub proof fn law_data_write_is_read(
    log: LogView,
    key: Seq<char>,
    value: Seq<char>,
    other: Seq<char>,
    metadata_key: MetadataKeyView,
)
    requires
        log.contexts.len() > 0,
    ensures
        log.put_data(key, value).pending_data(key) == Some(value),
        other != key ==> log.put_data(key, value).pending_data(other) == log.pending_data(other),
        log.put_data(key, value).pending_metadata(metadata_key) == log.pending_metadata(
            metadata_key,
        ),
{
    lemma_put_data(log, key, value);
    lemma_history_push(log.data_log(), key, value, key);
    lemma_history_push(log.data_log(), key, value, other);
}

/// A metadata write is what a read of its key sees, and changes nothing that a read of another
/// metadata key or of any data key sees.
pub proof fn law_metadata_write_is_read(
    log: LogView,
    key: MetadataKeyView,
    value: Seq<char>,
    other: MetadataKeyView,
    data_key: Seq<char>,
)
    requires
        log.contexts.len() > 0,
    ensures
        log.insert_metadata(key, value).pending_metadata(key) == Some(value),
        other != key ==> log.insert_metadata(key, value).pending_metadata(other)
            == log.pending_metadata(other),
        log.insert_metadata(key, value).pending_data(data_key) == log.pending_data(data_key),
{
    lemma_insert_metadata(log, key, value);
    lemma_history_push(log.metadata_log(), key, value, key);
    lemma_history_push(log.metadata_log(), key, value, other);
}

/// Without open contexts and without writes left behind, nothing is pending.
pub proof fn law_nothing_pending_at_first(key: Seq<char>, metadata_key: MetadataKeyView)
    ensures
        LogView::empty().pending_data(key) is None,
        LogView::empty().pending_metadata(metadata_key) is None,
{
    assert(LogView::empty().metadata_log() =~= Seq::empty());
}

/// Opening a context changes nothing that a read sees.
pub proof fn law_nest_keeps_reads(log: LogView, key: Seq<char>, metadata_key: MetadataKeyView)
    ensures
        log.nest().pending_data(key) == log.pending_data(key),
        log.nest().pending_metadata(metadata_key) == log.pending_metadata(metadata_key),
{
    lemma_nest(log);
}

/// Committing a context to the one around it changes nothing that a read sees.
pub proof fn law_commit_to_parent_keeps_reads(
    log: LogView,
    key: Seq<char>,
    metadata_key: MetadataKeyView,
)
    requires
        log.contexts.len() >= 2,
    ensures
        log.commit_to_parent().pending_data(key) == log.pending_data(key),
        log.commit_to_parent().pending_metadata(metadata_key) == log.pending_metadata(metadata_key),
{
    lemma_commit_to_parent(log);
}

/// Contexts are opened and closed one at a time.
pub proof fn law_depth(log: LogView)
    ensures
        log.nest().contexts.len() == log.contexts.len() + 1,
        log.contexts.len() > 0 ==> log.rollback().contexts.len() == log.contexts.len() - 1,
        log.contexts.len() >= 2 ==> log.commit_to_parent().contexts.len() == log.contexts.len() - 1,
{
}

/// One operation on the pending writes.
pub enum LogStep {
    /// Opens a context.
    Nest,
    /// Writes a data key.
    PutData(Seq<char>, Seq<char>),
    /// Writes a metadata key.
    InsertMetadata(MetadataKeyView, Seq<char>),
    /// Closes the innermost context and forgets its writes.
    Rollback,
    /// Closes the innermost context and hands its writes to the one around it.
    Commit,
}

/// The pending writes after one operation.
pub open spec fn after_step(log: LogView, step: LogStep) -> LogView {
    match step {
        LogStep::Nest => log.nest(),
        LogStep::PutData(key, value) => log.put_data(key, value),
        LogStep::InsertMetadata(key, value) => log.insert_metadata(key, value),
        LogStep::Rollback => log.rollback(),
        LogStep::Commit => log.commit_to_parent(),
    }
}

/// The pending writes after several operations.
pub open spec fn after_steps(log: LogView, steps: Seq<LogStep>) -> LogView
    decreases steps.len(),
{
    if steps.len() == 0 {
        log
    } else {
        after_step(after_steps(log, steps.drop_last()), steps.last())
    }
}

/// Whether the outermost `depth` contexts stay open, and another one in them, through all the
/// operations.
pub open spec fn stays_within(log: LogView, steps: Seq<LogStep>, depth: nat) -> bool {
    forall|n: int|
        0 <= n <= steps.len() ==> (#[trigger] after_steps(log, steps.take(n))).contexts.len()
            > depth
}

/// A rollback forgets everything since the context that it closes was opened, whatever was
/// written, and in whatever contexts within it, rolled back or committed: the pending writes
/// are what they were.
pub proof fn law_rollback_undoes_all_since_nest(log: LogView, steps: Seq<LogStep>)
    requires
        stays_within(log.nest(), steps, log.contexts.len()),
        after_steps(log.nest(), steps).contexts.len() == log.contexts.len() + 1,
    ensures
        after_steps(log.nest(), steps).rollback() == log,
{
    let depth = log.contexts.len();
    lemma_outer_contexts_kept(log.nest(), steps, depth);
    let end = after_steps(log.nest(), steps);
    assert(end.contexts.drop_last() =~= end.contexts.take(depth as int));
    assert(log.nest().contexts.take(depth as int) =~= log.contexts);
    assert(end.rollback() =~= log);
}

/// Operations within a context leave the contexts around it alone.
proof fn lemma_outer_contexts_kept(log: LogView, steps: Seq<LogStep>, depth: nat)
    requires
        stays_within(log, steps, depth),
    ensures
        after_steps(log, steps).contexts.len() > depth,
        after_steps(log, steps).contexts.take(depth as int) == log.contexts.take(depth as int),
        after_steps(log, steps).orphaned_metadata == log.orphaned_metadata,
    decreases steps.len(),
{
    assert(steps.take(steps.len() as int) =~= steps);
    if steps.len() > 0 {
        let earlier = steps.drop_last();
        assert forall|n: int| 0 <= n <= earlier.len() implies (#[trigger] after_steps(
            log,
            earlier.take(n),
        )).contexts.len() > depth by {
            assert(earlier.take(n) =~= steps.take(n));
        }
        lemma_outer_contexts_kept(log, earlier, depth);
        let before = after_steps(log, earlier);
        let after = after_step(before, steps.last());
        assert(after == after_steps(log, steps));
        assert(after.contexts.take(depth as int) =~= before.contexts.take(depth as int));
    }
}

/// What a map holds after some writes, one after the other.
pub open spec fn written<K>(held: Map<K, Seq<char>>, writes: Seq<(K, Seq<char>)>) -> Map<K, Seq<char>>
    decreases writes.len(),
{
    if writes.len() == 0 {
        held
    } else {
        written(held, writes.drop_last()).insert(writes.last().0, writes.last().1)
    }
}

/// What is held at a key, if anything.
pub open spec fn held_at<K>(held: Map<K, Seq<char>>, key: K) -> Option<Seq<char>> {
    if held.contains_key(key) {
        Some(held[key])
    } else {
        None
    }
}

/// Writes that are made one after the other leave at each key the value that was pending
/// there, and leave the other keys alone.
pub proof fn law_writes_in_order_leave_pending_values<K>(
    held: Map<K, Seq<char>>,
    writes: Seq<(K, Seq<char>)>,
    key: K,
)
    ensures
        held_at(written(held, writes), key) == match last_write(writes, key) {
            Some(value) => Some(value),
            None => held_at(held, key),
        },
    decreases writes.len(),
{
    if writes.len() > 0 {
        law_writes_in_order_leave_pending_values(held, writes.drop_last(), key);
    }
}

/// A commit to the store that succeeds consists of two steps that the store takes.
proof fn lemma_committed_steps<S: ClarityBackingStore>(
    pre: WrapperView,
    pre_store: S,
    post: WrapperView,
    post_store: S,
) -> (mid_store: S)
    requires
        pre.log.contexts.len() == 1,
        committed_to_store(pre, pre_store, Ok(()), post, post_store),
    ensures
        data_put(pre_store, pre.log.contexts[0].edits, Ok(()), mid_store),
        metadata_put(mid_store, pre.log.contexts[0].metadata_edits, Ok(()), post_store),
        post == pre.after_metadata_put(Ok(())),
{
    let context = pre.log.contexts[0];
    let (data_reply, mid_store) = choose|data_reply: Result<(), VmExecutionError>, mid_store: S|
        {
            &&& #[trigger] data_put(pre_store, context.edits, data_reply, mid_store)
            &&& data_reply is Ok
            &&& exists|metadata_reply: Result<(), VmExecutionError>|
                {
                    &&& #[trigger] metadata_put(
                        mid_store,
                        context.metadata_edits,
                        metadata_reply,
                        post_store,
                    )
                    &&& metadata_reply is Ok
                    &&& post == pre.after_metadata_put(metadata_reply)
                }
        };
    let metadata_reply = choose|metadata_reply: Result<(), VmExecutionError>|
        {
            &&& #[trigger] metadata_put(
                mid_store,
                context.metadata_edits,
                metadata_reply,
                post_store,
            )
            &&& metadata_reply is Ok
            &&& post == pre.after_metadata_put(metadata_reply)
        };
    assert(data_reply->Ok_0 == ());
    assert(metadata_reply->Ok_0 == ());
    mid_store
}

/// What was read before the outermost context was committed is what the store holds after it,
/// where the store writes the items that it takes, in order. `contents` tells what a store
/// holds at its data keys.
pub proof fn law_commit_keeps_reads<S: ClarityBackingStore>(
    contents: spec_fn(S) -> Map<Seq<char>, Seq<char>>,
    pre: WrapperView,
    pre_store: S,
    post: WrapperView,
    post_store: S,
    key: Seq<char>,
)
    requires
        forall|a: S, items: Seq<(Seq<char>, Seq<char>)>, b: S| #[trigger]
            S::put_all_data_step(a, items, Ok(()), b) ==> contents(b) == written(
                contents(a),
                items,
            ),
        forall|a: S, items: Seq<(MetadataKeyView, Seq<char>)>, b: S| #[trigger]
            S::put_all_metadata_step(a, items, Ok(()), b) ==> contents(b) == contents(a),
        pre.log.contexts.len() == 1,
        committed_to_store(pre, pre_store, Ok(()), post, post_store),
    ensures
        held_at(contents(post_store), key) == match pre.log.pending_data(key) {
            Some(value) => Some(value),
            None => held_at(contents(pre_store), key),
        },
        post.log == LogView::empty(),
{
    let context = pre.log.contexts[0];
    assert(pre.log.data_log() =~= context.edits) by {
        reveal_with_fuel(data_writes, 2);
    }
    let _ = lemma_committed_steps(pre, pre_store, post, post_store);
    law_writes_in_order_leave_pending_values(contents(pre_store), context.edits, key);
}

/// What was read of the metadata before the outermost context was committed is what the store
/// holds after it, where the store writes the items that it takes, in order. `contents` tells
/// what a store holds at its metadata keys.
pub proof fn law_commit_keeps_metadata_reads<S: ClarityBackingStore>(
    contents: spec_fn(S) -> Map<MetadataKeyView, Seq<char>>,
    pre: WrapperView,
    pre_store: S,
    post: WrapperView,
    post_store: S,
    key: MetadataKeyView,
)
    requires
        forall|a: S, items: Seq<(Seq<char>, Seq<char>)>, b: S| #[trigger]
            S::put_all_data_step(a, items, Ok(()), b) ==> contents(b) == contents(a),
        forall|a: S, items: Seq<(MetadataKeyView, Seq<char>)>, b: S| #[trigger]
            S::put_all_metadata_step(a, items, Ok(()), b) ==> contents(b) == written(
                contents(a),
                items,
            ),
        pre.log.contexts.len() == 1,
        pre.log.orphaned_metadata.len() == 0,
        committed_to_store(pre, pre_store, Ok(()), post, post_store),
    ensures
        held_at(contents(post_store), key) == match pre.log.pending_metadata(key) {
            Some(value) => Some(value),
            None => held_at(contents(pre_store), key),
        },
{
    let context = pre.log.contexts[0];
    assert(pre.log.metadata_log() =~= context.metadata_edits) by {
        reveal_with_fuel(metadata_writes, 2);
    }
    let _ = lemma_committed_steps(pre, pre_store, post, post_store);
    law_writes_in_order_leave_pending_values(contents(pre_store), context.metadata_edits, key);
}

/// A commit to the store that succeeds forgets what was remembered of the keys that it writes
/// to: of all data keys if it writes to any, and of all metadata keys if it writes to any.
pub proof fn law_commit_forgets_remembered_reads<S: ClarityBackingStore>(
    pre: WrapperView,
    pre_store: S,
    post: WrapperView,
    post_store: S,
    key: Seq<char>,
    metadata_key: MetadataKeyView,
)
    requires
        pre.log.contexts.len() == 1,
        committed_to_store(pre, pre_store, Ok(()), post, post_store),
    ensures
        post.cached_data(key) == if pre.log.contexts[0].edits.len() > 0 {
            None
        } else {
            pre.cached_data(key)
        },
        post.cached_metadata(metadata_key) == if pre.log.contexts[0].metadata_edits.len() > 0 {
            None
        } else {
            pre.cached_metadata(metadata_key)
        },
{
    let _ = lemma_committed_steps(pre, pre_store, post, post_store);
}

/// A commit that the store refuses closes the context all the same. No data write is pending
/// any more. If it was the data that was refused, the metadata writes are still pending;
/// otherwise none of these is either.
pub proof fn law_refused_commit<S: ClarityBackingStore>(
    pre: WrapperView,
    pre_store: S,
    error: VmInternalError,
    post: WrapperView,
    post_store: S,
    key: Seq<char>,
    metadata_key: MetadataKeyView,
)
    requires
        pre.log.contexts.len() == 1,
        committed_to_store(pre, pre_store, Err(error), post, post_store),
    ensures
        post.log.contexts.len() == 0,
        post.log.pending_data(key) is None,
        ({
            ||| post == pre.after_data_refused() && post.log.pending_metadata(metadata_key)
                == pre.log.pending_metadata(metadata_key)
            ||| post.log == LogView::empty() && post.log.pending_metadata(metadata_key) is None
        }),
{
    let context = pre.log.contexts[0];
    reveal_with_fuel(metadata_writes, 2);
    assert(pre.log.metadata_log() =~= pre.log.orphaned_metadata + context.metadata_edits);
    assert(post.log.metadata_log() =~= post.log.orphaned_metadata);
}

/// While reads do not see pending writes, what they give does not depend on them, and neither
/// does what they remember.
pub proof fn law_reads_past_pending_ignore_writes<
    S: ClarityBackingStore,
    T: ClarityDeserializable<T>,
>(
    pre: WrapperView,
    pre_store: S,
    key: Seq<char>,
    result: Result<Option<T>, VmExecutionError>,
    post: WrapperView,
    post_store: S,
    log: LogView,
)
    requires
        !pre.query_pending_data,
        pre.log.contexts.len() > 0,
        log.contexts.len() > 0,
        data_read(pre, pre_store, key, result, post, post_store),
    ensures
        data_read(
            WrapperView { log, ..pre },
            pre_store,
            key,
            result,
            WrapperView { log, ..post },
            post_store,
        ),
{
    let reply = choose|reply: Result<Option<String>, VmExecutionError>|
        {
            &&& #[trigger] materialized_data_read(pre, pre_store, key, reply, post, post_store)
            &&& deserialized_reply(reply, result)
        };
    assert(materialized_data_read(
        WrapperView { log, ..pre },
        pre_store,
        key,
        reply,
        WrapperView { log, ..post },
        post_store,
    ));
}

/// While reads do not see pending writes, what metadata reads give does not depend on them, and
/// neither does what they remember.
pub proof fn law_metadata_reads_past_pending_ignore_writes<S: ClarityBackingStore>(
    pre: WrapperView,
    pre_store: S,
    key: MetadataKeyView,
    result: Result<Option<String>, VmExecutionError>,
    post: WrapperView,
    post_store: S,
    log: LogView,
)
    requires
        !pre.query_pending_data,
        pre.log.contexts.len() > 0,
        log.contexts.len() > 0,
        metadata_read(pre, pre_store, key, result, post, post_store),
    ensures
        metadata_read(
            WrapperView { log, ..pre },
            pre_store,
            key,
            result,
            WrapperView { log, ..post },
            post_store,
        ),
{
}

/// A read that was remembered for a block is given again as it was whenever that block is
/// the one to read from, as long as what is remembered is kept. The store is not asked, and
/// nothing changes.
pub proof fn law_remembered_read_is_repeated<S: ClarityBackingStore>(
    pre: WrapperView,
    pre_store: S,
    key: Seq<char>,
    first: Option<String>,
    mid: WrapperView,
    mid_store: S,
    later: WrapperView,
    later_store: S,
    second: Result<Option<String>, VmExecutionError>,
    post: WrapperView,
    post_store: S,
)
    requires
        pre.cached_block() is Some,
        materialized_data_read(pre, pre_store, key, Ok(first), mid, mid_store),
        later.cached_block() == pre.cached_block(),
        mid.data_cache.submap_of(later.data_cache),
        materialized_data_read(later, later_store, key, second, post, post_store),
    ensures
        second matches Ok(value) && text_of(value) == text_of(first),
        post == later,
        post_store == later_store,
{
    let entry = (pre.cached_block()->0, key);
    assert(mid.data_cache.dom().contains(entry));
    assert(later.data_cache[entry] == mid.data_cache[entry]);
}

/// A metadata read that was remembered for a block is given again as it was whenever that block is
/// the one to read from, as long as what is remembered is kept. The store is not asked, and
/// nothing changes.
pub proof fn law_remembered_metadata_read_is_repeated<S: ClarityBackingStore>(
    pre: WrapperView,
    pre_store: S,
    key: MetadataKeyView,
    first: Option<String>,
    mid: WrapperView,
    mid_store: S,
    later: WrapperView,
    later_store: S,
    second: Result<Option<String>, VmExecutionError>,
    post: WrapperView,
    post_store: S,
)
    requires
        pre.cached_block() is Some,
        materialized_metadata_read(pre, pre_store, key, Ok(first), mid, mid_store),
        later.cached_block() == pre.cached_block(),
        mid.metadata_cache.submap_of(later.metadata_cache),
        materialized_metadata_read(later, later_store, key, second, post, post_store),
    ensures
        second matches Ok(value) && text_of(value) == text_of(first),
        post == later,
        post_store == later_store,
{
    let entry = (pre.cached_block()->0, key);
    assert(mid.metadata_cache.dom().contains(entry));
    assert(later.metadata_cache[entry] == mid.metadata_cache[entry]);
}

/// Reads forget nothing that was remembered, for whichever block.
pub proof fn law_reads_keep_what_is_remembered<S: ClarityBackingStore>(
    pre: WrapperView,
    pre_store: S,
    key: Seq<char>,
    reply: Result<Option<String>, VmExecutionError>,
    post: WrapperView,
    post_store: S,
)
    requires
        materialized_data_read(pre, pre_store, key, reply, post, post_store),
    ensures
        pre.data_cache.submap_of(post.data_cache),
        post.metadata_cache == pre.metadata_cache,
        post.log == pre.log,
{
}

/// Metadata reads forget nothing that was remembered, for whichever block.
pub proof fn law_metadata_reads_keep_what_is_remembered<S: ClarityBackingStore>(
    pre: WrapperView,
    pre_store: S,
    key: MetadataKeyView,
    reply: Result<Option<String>, VmExecutionError>,
    post: WrapperView,
    post_store: S,
)
    requires
        materialized_metadata_read(pre, pre_store, key, reply, post, post_store),
    ensures
        pre.metadata_cache.submap_of(post.metadata_cache),
        post.data_cache == pre.data_cache,
        post.log == pre.log,
{
}

/// Where reads see pending writes, or no block was made the one to read from, nothing is
/// remembered, and the store is asked each time.
pub proof fn law_nothing_is_remembered_outside_at_block<S: ClarityBackingStore>(
    pre: WrapperView,
    pre_store: S,
    key: Seq<char>,
    reply: Result<Option<String>, VmExecutionError>,
    post: WrapperView,
    post_store: S,
)
    requires
        pre.query_pending_data || pre.active_block_hash is None,
        materialized_data_read(pre, pre_store, key, reply, post, post_store),
    ensures
        post == pre,
        S::get_data_step(pre_store, key, reply, post_store),
{
}

/// Where reads see pending writes, or no block was made the one to read from, nothing is
/// remembered of the metadata, and the store is asked each time.
pub proof fn law_no_metadata_is_remembered_outside_at_block<S: ClarityBackingStore>(
    pre: WrapperView,
    pre_store: S,
    key: MetadataKeyView,
    reply: Result<Option<String>, VmExecutionError>,
    post: WrapperView,
    post_store: S,
)
    requires
        pre.query_pending_data || pre.active_block_hash is None,
        materialized_metadata_read(pre, pre_store, key, reply, post, post_store),
    ensures
        post == pre,
        S::get_metadata_step(pre_store, key.0, key.1, reply, post_store),
{
}

/// A wrapper that goes on with the pending writes of another one reads what that one read of
/// them, and has forgotten everything else.
pub proof fn law_persisted_log_keeps_pending_writes(
    before: WrapperView,
    key: Seq<char>,
    metadata_key: MetadataKeyView,
)
    requires
        before.query_pending_data,
    ensures
        WrapperView::with_log(before.log).visible_data(key) == before.visible_data(key),
        WrapperView::with_log(before.log).visible_metadata(metadata_key)
            == before.visible_metadata(metadata_key),
        WrapperView::with_log(before.log).log == before.log,
        WrapperView::with_log(before.log).cached_data(key) is None,
        WrapperView::with_log(before.log).cached_metadata(metadata_key) is None,
{
}

/// The commitment that was written for a contract is the one that its hash is read from.
pub proof fn law_prepared_commitment_is_read<
    S: ClarityBackingStore,
    D: ClarityDeserializable<ContractCommitment>,
>(
    pre: WrapperView,
    contract: ContractView,
    commitment: Seq<char>,
    mid: WrapperView,
    store: S,
    read: Result<Option<String>, VmExecutionError>,
    result: Result<Option<Sha512Trunc256Sum>, VmExecutionError>,
    post: WrapperView,
    post_store: S,
)
    requires
        pre.query_pending_data,
        data_written(pre, contract.hash_key, commitment, Ok(()), mid),
        data_read::<S, String>(mid, store, contract.hash_key, read, post, post_store),
        commitment_hash::<D>(read, result),
    ensures
        match result {
            Ok(Some(hash)) => D::deserializes_to(commitment, Ok(ContractCommitment { hash })),
            Ok(None) => false,
            Err(e) => D::deserializes_to(commitment, Err(e)),
        },
        post == mid,
        post_store == store,
{
    lemma_put_data(pre.log, contract.hash_key, commitment);
    lemma_history_push(
        pre.log.data_log(),
        contract.hash_key,
        commitment,
        contract.hash_key,
    );
}

} // verus!
