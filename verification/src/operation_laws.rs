//! What the operations on contexts are for, and which value is pending.

use vstd::prelude::*;

use crate::edit_log::{history, last_write, lemma_history_concat};
use crate::laws::{after_steps, law_rollback_undoes_all_since_nest, LogStep};
use crate::persisted_log::{data_writes, metadata_writes, LogView};
use crate::store::MetadataKeyView;

verus! {

// ---- Contexts ----

/// A data write adds itself as the newest of the innermost context. The number of open contexts
/// stays, every other context is left alone, and so are the metadata writes.
pub proof fn law_data_write_touches_innermost_only(log: LogView, key: Seq<char>, value: Seq<char>)
    requires
        log.contexts.len() > 0,
    ensures
        ({
            let after = log.put_data(key, value);
            let top = log.contexts.len() - 1;
            let before = log.contexts[top].edits;
            &&& after.contexts.len() == log.contexts.len()
            &&& forall|i: int| 0 <= i < top ==> #[trigger] after.contexts[i] == log.contexts[i]
            &&& after.contexts[top].edits.len() == before.len() + 1
            &&& forall|j: int|
                0 <= j < before.len() ==> #[trigger] after.contexts[top].edits[j] == before[j]
            &&& after.contexts[top].edits[before.len() as int] == (key, value)
            &&& after.contexts[top].metadata_edits == log.contexts[top].metadata_edits
            &&& after.orphaned_metadata == log.orphaned_metadata
        }),
{
}

/// A metadata write adds itself as the newest of the innermost context. The number of open
/// contexts stays, every other context is left alone, and so are the data writes.
pub proof fn law_metadata_write_touches_innermost_only(
    log: LogView,
    key: MetadataKeyView,
    value: Seq<char>,
)
    requires
        log.contexts.len() > 0,
    ensures
        ({
            let after = log.insert_metadata(key, value);
            let top = log.contexts.len() - 1;
            let before = log.contexts[top].metadata_edits;
            &&& after.contexts.len() == log.contexts.len()
            &&& forall|i: int| 0 <= i < top ==> #[trigger] after.contexts[i] == log.contexts[i]
            &&& after.contexts[top].metadata_edits.len() == before.len() + 1
            &&& forall|j: int|
                0 <= j < before.len() ==> #[trigger] after.contexts[top].metadata_edits[j]
                    == before[j]
            &&& after.contexts[top].metadata_edits[before.len() as int] == (key, value)
            &&& after.contexts[top].edits == log.contexts[top].edits
            &&& after.orphaned_metadata == log.orphaned_metadata
        }),
{
}

/// A new context is the innermost, holds no writes, and leaves the others alone.
pub proof fn law_nest_adds_an_empty_context(log: LogView)
    ensures
        ({
            let after = log.nest();
            let n = log.contexts.len();
            &&& after.contexts.len() == n + 1
            &&& forall|i: int| 0 <= i < n ==> #[trigger] after.contexts[i] == log.contexts[i]
            &&& after.contexts[n as int].edits.len() == 0
            &&& after.contexts[n as int].metadata_edits.len() == 0
            &&& after.orphaned_metadata == log.orphaned_metadata
        }),
{
}

/// A rollback takes the innermost context away, and leaves the others alone.
pub proof fn law_rollback_removes_innermost_only(log: LogView)
    requires
        log.contexts.len() > 0,
    ensures
        ({
            let after = log.rollback();
            &&& after.contexts.len() == log.contexts.len() - 1
            &&& forall|i: int|
                0 <= i < log.contexts.len() - 1 ==> #[trigger] after.contexts[i] == log.contexts[i]
            &&& after.orphaned_metadata == log.orphaned_metadata
        }),
{
}

/// A commit to the parent puts the writes of the innermost context behind those of the one
/// around it, in order, all of them and no others, and leaves the other contexts alone.
pub proof fn law_commit_appends_to_parent(log: LogView)
    requires
        log.contexts.len() >= 2,
    ensures
        ({
            let after = log.commit_to_parent();
            let n = log.contexts.len() as int;
            let parent = log.contexts[n - 2];
            let child = log.contexts[n - 1];
            let merged = after.contexts[n - 2];
            &&& after.contexts.len() == n - 1
            &&& forall|i: int| 0 <= i < n - 2 ==> #[trigger] after.contexts[i] == log.contexts[i]
            &&& merged.edits.len() == parent.edits.len() + child.edits.len()
            &&& forall|j: int|
                0 <= j < parent.edits.len() ==> #[trigger] merged.edits[j] == parent.edits[j]
            &&& forall|j: int|
                0 <= j < child.edits.len() ==> merged.edits[parent.edits.len() + j]
                    == #[trigger] child.edits[j]
            &&& merged.metadata_edits.len() == parent.metadata_edits.len()
                + child.metadata_edits.len()
            &&& forall|j: int|
                0 <= j < parent.metadata_edits.len() ==> #[trigger] merged.metadata_edits[j]
                    == parent.metadata_edits[j]
            &&& forall|j: int|
                0 <= j < child.metadata_edits.len() ==> merged.metadata_edits[
                parent.metadata_edits.len() + j] == #[trigger] child.metadata_edits[j]
            &&& after.orphaned_metadata == log.orphaned_metadata
        }),
{
}

/// How many contexts a step opens.
pub open spec fn opens(step: LogStep) -> int {
    match step {
        LogStep::Nest => 1,
        LogStep::Rollback => -1,
        LogStep::Commit => -1,
        LogStep::PutData(_, _) => 0,
        LogStep::InsertMetadata(_, _) => 0,
    }
}

/// How many more contexts some steps open than they close.
pub open spec fn net_opened(steps: Seq<LogStep>) -> int
    decreases steps.len(),
{
    if steps.len() == 0 {
        0
    } else {
        net_opened(steps.drop_last()) + opens(steps.last())
    }
}

/// Whether steps never close more contexts than they have opened.
pub open spec fn never_below(steps: Seq<LogStep>) -> bool {
    forall|n: int| 0 <= n <= steps.len() ==> net_opened(#[trigger] steps.take(n)) >= 0
}

/// As many contexts are open after some steps as the steps opened and did not close.
pub proof fn law_depth_counts_nests_and_closes(log: LogView, steps: Seq<LogStep>)
    requires
        log.contexts.len() > 0,
        never_below(steps),
    ensures
        after_steps(log, steps).contexts.len() == log.contexts.len() + net_opened(steps),
    decreases steps.len(),
{
    assert(steps.take(steps.len() as int) =~= steps);
    if steps.len() > 0 {
        let earlier = steps.drop_last();
        assert forall|n: int| 0 <= n <= earlier.len() implies net_opened(
            #[trigger] earlier.take(n),
        ) >= 0 by {
            assert(earlier.take(n) =~= steps.take(n));
        }
        law_depth_counts_nests_and_closes(log, earlier);
        assert(net_opened(steps) >= 0);
    }
}

/// A context is opened, any steps follow that close what they open and no more, and the context
/// is rolled back: the pending writes are what they were before.
pub proof fn law_rollback_undoes_balanced_steps(log: LogView, steps: Seq<LogStep>)
    requires
        never_below(steps),
        net_opened(steps) == 0,
    ensures
        after_steps(log.nest(), steps).rollback() == log,
{
    law_depth_counts_nests_and_closes(log.nest(), steps);
    assert forall|n: int| 0 <= n <= steps.len() implies (#[trigger] after_steps(
        log.nest(),
        steps.take(n),
    )).contexts.len() > log.contexts.len() by {
        let first = steps.take(n);
        assert forall|m: int| 0 <= m <= first.len() implies net_opened(
            #[trigger] first.take(m),
        ) >= 0 by {
            assert(first.take(m) =~= steps.take(m));
        }
        law_depth_counts_nests_and_closes(log.nest(), first);
        assert(net_opened(steps.take(n)) >= 0);
    }
    law_rollback_undoes_all_since_nest(log, steps);
}

/// A context is opened, anything is written in it, and it is rolled back: the pending writes are
/// what they were before.
pub proof fn law_rollback_undoes_writes(log: LogView, writes: Seq<LogStep>)
    requires
        forall|i: int|
            0 <= i < writes.len() ==> (#[trigger] writes[i]) is PutData
                || writes[i] is InsertMetadata,
    ensures
        after_steps(log.nest(), writes).rollback() == log,
{
    assert forall|n: int| 0 <= n <= writes.len() implies net_opened(#[trigger] writes.take(n))
        == 0 by {
        lemma_writes_open_nothing(writes, n);
    }
    assert(writes.take(writes.len() as int) =~= writes);
    law_rollback_undoes_balanced_steps(log, writes);
}

/// Writes open no contexts and close none.
proof fn lemma_writes_open_nothing(writes: Seq<LogStep>, n: int)
    requires
        0 <= n <= writes.len(),
        forall|i: int|
            0 <= i < writes.len() ==> (#[trigger] writes[i]) is PutData
                || writes[i] is InsertMetadata,
    ensures
        net_opened(writes.take(n)) == 0,
    decreases n,
{
    if n > 0 {
        lemma_writes_open_nothing(writes, n - 1);
        assert(writes.take(n).drop_last() =~= writes.take(n - 1));
        assert(writes.take(n).last() == writes[n - 1]);
    }
}

// ---- Which value is pending ----

/// Whether some writes write to a key last at position `p`.
pub open spec fn last_at<K>(writes: Seq<(K, Seq<char>)>, key: K, p: int) -> bool {
    &&& 0 <= p < writes.len()
    &&& writes[p].0 == key
    &&& forall|q: int| p < q < writes.len() ==> (#[trigger] writes[q]).0 != key
}

/// Whether some writes leave a key alone.
pub open spec fn leaves_alone<K>(writes: Seq<(K, Seq<char>)>, key: K) -> bool {
    forall|q: int| 0 <= q < writes.len() ==> (#[trigger] writes[q]).0 != key
}

/// Whether the newest pending write to a data key is the one at position `p` of context `c`.
pub open spec fn newest_data_write(log: LogView, key: Seq<char>, c: int, p: int) -> bool {
    &&& 0 <= c < log.contexts.len()
    &&& last_at(log.contexts[c].edits, key, p)
    &&& forall|d: int|
        c < d < log.contexts.len() ==> leaves_alone((#[trigger] log.contexts[d]).edits, key)
}

/// Whether no data write to a key is pending.
pub open spec fn no_data_write(log: LogView, key: Seq<char>) -> bool {
    forall|d: int|
        0 <= d < log.contexts.len() ==> leaves_alone((#[trigger] log.contexts[d]).edits, key)
}

/// Whether the newest pending write to a metadata key is the one at position `p` of context `c`.
pub open spec fn newest_metadata_write(
    log: LogView,
    key: MetadataKeyView,
    c: int,
    p: int,
) -> bool {
    &&& 0 <= c < log.contexts.len()
    &&& last_at(log.contexts[c].metadata_edits, key, p)
    &&& forall|d: int|
        c < d < log.contexts.len() ==> leaves_alone(
            (#[trigger] log.contexts[d]).metadata_edits,
            key,
        )
}

/// Whether no open context writes to a metadata key.
pub open spec fn no_metadata_write_in_contexts(log: LogView, key: MetadataKeyView) -> bool {
    forall|d: int|
        0 <= d < log.contexts.len() ==> leaves_alone(
            (#[trigger] log.contexts[d]).metadata_edits,
            key,
        )
}

/// Writes that leave a key alone give it no value.
proof fn lemma_leaves_alone<K>(writes: Seq<(K, Seq<char>)>, key: K)
    requires
        leaves_alone(writes, key),
    ensures
        history(writes, key).len() == 0,
    decreases writes.len(),
{
    if writes.len() > 0 {
        assert(writes.last() == writes[writes.len() - 1]);
        assert forall|q: int| 0 <= q < writes.drop_last().len() implies (
        #[trigger] writes.drop_last()[q]).0 != key by {
            assert(writes.drop_last()[q] == writes[q]);
        }
        lemma_leaves_alone(writes.drop_last(), key);
    }
}

/// The write that is last at a key gives it its value.
proof fn lemma_last_at<K>(writes: Seq<(K, Seq<char>)>, key: K, p: int)
    requires
        last_at(writes, key, p),
    ensures
        last_write(writes, key) == Some(writes[p].1),
    decreases writes.len(),
{
    assert(writes.last() == writes[writes.len() - 1]);
    if p < writes.len() - 1 {
        let shorter = writes.drop_last();
        assert forall|q: int| p < q < shorter.len() implies (#[trigger] shorter[q]).0 != key by {
            assert(shorter[q] == writes[q]);
        }
        lemma_last_at(shorter, key, p);
    }
}

/// Of writes after other writes, the later ones decide.
proof fn lemma_later_writes_decide<K>(
    first: Seq<(K, Seq<char>)>,
    second: Seq<(K, Seq<char>)>,
    key: K,
)
    ensures
        last_write(first + second, key) == match last_write(second, key) {
            Some(value) => Some(value),
            None => last_write(first, key),
        },
{
    lemma_history_concat(first, second, key);
    if history(second, key).len() == 0 {
        assert(history(first, key) + history(second, key) =~= history(first, key));
    }
}

/// The newest pending write to a data key is its pending value.
pub proof fn law_pending_data_is_the_newest_write(log: LogView, key: Seq<char>, c: int, p: int)
    requires
        newest_data_write(log, key, c, p),
    ensures
        log.pending_data(key) == Some(log.contexts[c].edits[p].1),
    decreases log.contexts.len(),
{
    let n = log.contexts.len() as int;
    let outer = LogView { contexts: log.contexts.drop_last(), ..log };
    lemma_later_writes_decide(data_writes(outer.contexts), log.contexts[n - 1].edits, key);
    if c == n - 1 {
        lemma_last_at(log.contexts[c].edits, key, p);
    } else {
        lemma_leaves_alone(log.contexts[n - 1].edits, key);
        law_pending_data_is_the_newest_write(outer, key, c, p);
    }
}

/// A data key that no pending write names has no pending value.
pub proof fn law_no_pending_data_without_write(log: LogView, key: Seq<char>)
    requires
        no_data_write(log, key),
    ensures
        log.pending_data(key) is None,
    decreases log.contexts.len(),
{
    let n = log.contexts.len() as int;
    if n > 0 {
        let outer = LogView { contexts: log.contexts.drop_last(), ..log };
        assert(log.contexts[n - 1] == log.contexts.last());
        lemma_later_writes_decide(data_writes(outer.contexts), log.contexts[n - 1].edits, key);
        lemma_leaves_alone(log.contexts[n - 1].edits, key);
        law_no_pending_data_without_write(outer, key);
    }
}

/// The newest write of some contexts to a metadata key decides.
proof fn lemma_newest_metadata_write(log: LogView, key: MetadataKeyView, c: int, p: int)
    requires
        newest_metadata_write(log, key, c, p),
    ensures
        last_write(metadata_writes(log.contexts), key) == Some(
            log.contexts[c].metadata_edits[p].1,
        ),
    decreases log.contexts.len(),
{
    let n = log.contexts.len() as int;
    let outer = LogView { contexts: log.contexts.drop_last(), ..log };
    lemma_later_writes_decide(
        metadata_writes(outer.contexts),
        log.contexts[n - 1].metadata_edits,
        key,
    );
    if c == n - 1 {
        lemma_last_at(log.contexts[c].metadata_edits, key, p);
    } else {
        lemma_leaves_alone(log.contexts[n - 1].metadata_edits, key);
        lemma_newest_metadata_write(outer, key, c, p);
    }
}

/// Contexts that leave a metadata key alone give it no value.
proof fn lemma_no_metadata_write(log: LogView, key: MetadataKeyView)
    requires
        no_metadata_write_in_contexts(log, key),
    ensures
        last_write(metadata_writes(log.contexts), key) is None,
    decreases log.contexts.len(),
{
    let n = log.contexts.len() as int;
    if n > 0 {
        let outer = LogView { contexts: log.contexts.drop_last(), ..log };
        assert(log.contexts[n - 1] == log.contexts.last());
        lemma_later_writes_decide(
            metadata_writes(outer.contexts),
            log.contexts[n - 1].metadata_edits,
            key,
        );
        lemma_leaves_alone(log.contexts[n - 1].metadata_edits, key);
        lemma_no_metadata_write(outer, key);
    }
}

/// The newest write of the open contexts to a metadata key is its pending value.
pub proof fn law_pending_metadata_is_the_newest_write(
    log: LogView,
    key: MetadataKeyView,
    c: int,
    p: int,
)
    requires
        newest_metadata_write(log, key, c, p),
    ensures
        log.pending_metadata(key) == Some(log.contexts[c].metadata_edits[p].1),
{
    lemma_newest_metadata_write(log, key, c, p);
    lemma_later_writes_decide(log.orphaned_metadata, metadata_writes(log.contexts), key);
}

/// Where no open context writes to a metadata key, the newest write without a context is its
/// pending value.
pub proof fn law_orphaned_metadata_is_pending(log: LogView, key: MetadataKeyView, p: int)
    requires
        no_metadata_write_in_contexts(log, key),
        last_at(log.orphaned_metadata, key, p),
    ensures
        log.pending_metadata(key) == Some(log.orphaned_metadata[p].1),
{
    lemma_no_metadata_write(log, key);
    lemma_last_at(log.orphaned_metadata, key, p);
    lemma_later_writes_decide(log.orphaned_metadata, metadata_writes(log.contexts), key);
}

/// A metadata key that no pending write names has no pending value.
pub proof fn law_no_pending_metadata_without_write(log: LogView, key: MetadataKeyView)
    requires
        no_metadata_write_in_contexts(log, key),
        leaves_alone(log.orphaned_metadata, key),
    ensures
        log.pending_metadata(key) is None,
{
    lemma_no_metadata_write(log, key);
    lemma_leaves_alone(log.orphaned_metadata, key);
    lemma_later_writes_decide(log.orphaned_metadata, metadata_writes(log.contexts), key);
}

} // verus!
