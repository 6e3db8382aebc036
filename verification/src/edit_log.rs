//! Logs of writes, and the lookup map that keeps, for each key, the history of its values.

use vstd::prelude::*;

use crate::errors::VmInternalError;
use crate::keyed_map::{KeyedMap, MapKey};

verus! {

/// The value that an edit wrote. It is there for the proof alone, and shows that the value
/// that an edit is undone or committed with is the one that it wrote.
pub type RollbackValueCheck = Ghost<Seq<char>>;

/// The writes that a list of edits stands for, oldest first.
pub open spec fn edit_log<T: MapKey>(edits: Seq<(T, RollbackValueCheck)>) -> Seq<
    (T::V, Seq<char>),
> {
    edits.map_values(|edit: (T, RollbackValueCheck)| (edit.0@, edit.1@))
}

/// The values that a log writes to a key, oldest first.
pub open spec fn history<K>(log: Seq<(K, Seq<char>)>, key: K) -> Seq<Seq<char>>
    decreases log.len(),
{
    if log.len() == 0 {
        Seq::empty()
    } else {
        let earlier = history(log.drop_last(), key);
        if log.last().0 == key {
            earlier.push(log.last().1)
        } else {
            earlier
        }
    }
}

/// The value that a log leaves at a key: the one that was written last.
pub open spec fn last_write<K>(log: Seq<(K, Seq<char>)>, key: K) -> Option<Seq<char>> {
    if history(log, key).len() > 0 {
        Some(history(log, key).last())
    } else {
        None
    }
}

/// The texts of a list of strings.
pub open spec fn texts(strings: Seq<String>) -> Seq<Seq<char>> {
    strings.map_values(|s: String| s@)
}

/// Whether a lookup map holds, for each key, the values that a log writes to it. A key that
/// the log does not write to is not in the map.
pub open spec fn tracks<T: MapKey>(
    lookup_map: KeyedMap<T, Vec<String>>,
    log: Seq<(T::V, Seq<char>)>,
) -> bool {
    &&& lookup_map.wf()
    &&& forall|key: T::V| #[trigger]
        lookup_map@.contains_key(key) <==> history(log, key).len() > 0
    &&& forall|key: T::V| #[trigger]
        lookup_map@.contains_key(key) ==> texts(lookup_map@[key]@) == history(log, key)
}

/// The history of one log after another is the one history after the other.
pub proof fn lemma_history_concat<K>(
    first: Seq<(K, Seq<char>)>,
    second: Seq<(K, Seq<char>)>,
    key: K,
)
    ensures
        history(first + second, key) == history(first, key) + history(second, key),
    decreases second.len(),
{
    if second.len() == 0 {
        assert(first + second =~= first);
    } else {
        assert((first + second).drop_last() =~= first + second.drop_last());
        assert((first + second).last() == second.last());
        lemma_history_concat(first, second.drop_last(), key);
    }
}

/// The oldest write of a log gives the oldest value of its key, and adds to no other history.
proof fn lemma_history_first<K>(log: Seq<(K, Seq<char>)>, key: K)
    requires
        log.len() > 0,
    ensures
        history(log, key) == if log[0].0 == key {
            seq![log[0].1] + history(log.skip(1), key)
        } else {
            history(log.skip(1), key)
        },
{
    assert(log =~= log.take(1) + log.skip(1));
    lemma_history_concat(log.take(1), log.skip(1), key);
    reveal_with_fuel(history, 2);
    assert(log.take(1).drop_last() =~= Seq::empty());
    if log[0].0 == key {
        assert(history(log.take(1), key) =~= seq![log[0].1]);
    } else {
        assert(history(log.take(1), key) =~= Seq::empty());
        assert(history(log, key) =~= history(log.skip(1), key));
    }
}

/// A write adds its value to the history of its key, and to no other.
pub proof fn lemma_history_push<K>(log: Seq<(K, Seq<char>)>, written: K, value: Seq<char>, key: K)
    ensures
        history(log.push((written, value)), key) == if written == key {
            history(log, key).push(value)
        } else {
            history(log, key)
        },
{
    assert(log.push((written, value)).drop_last() =~= log);
}

/// Where the newest value of the key of the newest write has been taken from the map, the map
/// tracks the log without that write.
proof fn lemma_tracks_drop_last<T: MapKey>(
    before: KeyedMap<T, Vec<String>>,
    after: KeyedMap<T, Vec<String>>,
    log: Seq<(T::V, Seq<char>)>,
)
    requires
        tracks(before, log),
        log.len() > 0,
        after.wf(),
        newest_taken(before, after, log.last().0),
    ensures
        tracks(after, log.drop_last()),
{
    let key = log.last().0;
    let shorter = log.drop_last();
    assert(texts(before@[key]@.drop_last()) =~= texts(before@[key]@).drop_last());
    assert(history(log, key).drop_last() =~= history(shorter, key));
    assert forall|k: T::V| #[trigger] after@.contains_key(k) <==> history(shorter, k).len() > 0 by {
        if k != key {
            assert(before@.contains_key(k) <==> history(log, k).len() > 0);
        }
    }
    assert forall|k: T::V| #[trigger] after@.contains_key(k) implies texts(after@[k]@) == history(
        shorter,
        k,
    ) by {
        if k != key {
            assert(before@.contains_key(k));
        }
    }
}

/// Whether `after` is `before` without the newest value of `key`. A key whose last value is
/// taken leaves the map.
pub open spec fn newest_taken<T: MapKey>(
    before: KeyedMap<T, Vec<String>>,
    after: KeyedMap<T, Vec<String>>,
    key: T::V,
) -> bool {
    &&& before@.contains_key(key)
    &&& before@[key]@.len() > 0
    &&& if before@[key]@.len() == 1 {
        after@ == before@.remove(key)
    } else {
        &&& after@.contains_key(key)
        &&& after@[key]@ == before@[key]@.drop_last()
        &&& after@ == before@.insert(key, after@[key])
    }
}

/// Where the newest value of its key has been written to the map, the map tracks the log with
/// that write.
pub proof fn lemma_tracks_push<T: MapKey>(
    before: KeyedMap<T, Vec<String>>,
    after: KeyedMap<T, Vec<String>>,
    log: Seq<(T::V, Seq<char>)>,
    key: T::V,
    value: Seq<char>,
)
    requires
        tracks(before, log),
        after.wf(),
        newest_added(before, after, key, value),
    ensures
        tracks(after, log.push((key, value))),
{
    let longer = log.push((key, value));
    assert forall|k: T::V| #[trigger]
        after@.contains_key(k) <==> history(longer, k).len() > 0 by {
        lemma_history_push(log, key, value, k);
        if k != key {
            assert(before@.contains_key(k) <==> history(log, k).len() > 0);
        }
    }
    assert forall|k: T::V| #[trigger] after@.contains_key(k) implies texts(after@[k]@) == history(
        longer,
        k,
    ) by {
        lemma_history_push(log, key, value, k);
        if k == key {
            assert(before@.contains_key(k) <==> history(log, k).len() > 0);
        } else {
            assert(before@.contains_key(k));
        }
    }
}

/// Whether `after` is `before` with `value` as the newest value of `key`.
pub open spec fn newest_added<T: MapKey>(
    before: KeyedMap<T, Vec<String>>,
    after: KeyedMap<T, Vec<String>>,
    key: T::V,
    value: Seq<char>,
) -> bool {
    let earlier = if before@.contains_key(key) {
        texts(before@[key]@)
    } else {
        Seq::empty()
    };
    &&& after@.contains_key(key)
    &&& texts(after@[key]@) == earlier.push(value)
    &&& after@ == before@.insert(key, after@[key])
}

/// Holds the value that an edit is undone or committed with against the one that it wrote.
pub(crate) fn rollback_value_check(value: &str, check: &RollbackValueCheck)
    requires
        value@ == check@,
{
}

/// Logs a write.
pub(crate) fn rollback_edits_push<T: MapKey>(
    edits: &mut Vec<(T, RollbackValueCheck)>,
    key: T,
    value: &str,
)
    ensures
        edit_log(final(edits)@) == edit_log(old(edits)@).push((key@, value@)),
{
    edits.push((key, Ghost(value@)));
    assert(edit_log(edits@) =~= edit_log(old(edits)@).push((key@, value@)));
}

/// Takes the newest value of a key from the lookup map.
pub(crate) fn rollback_lookup_map<T: MapKey>(
    key: &T,
    value: &RollbackValueCheck,
    lookup_map: &mut KeyedMap<T, Vec<String>>,
) -> (result: Result<String, VmInternalError>)
    requires
        old(lookup_map).wf(),
        old(lookup_map)@.contains_key(key@) && old(lookup_map)@[key@]@.len() > 0
            ==> old(lookup_map)@[key@]@.last()@ == value@,
    ensures
        final(lookup_map).wf(),
        match result {
            Ok(popped) => {
                &&& newest_taken(*old(lookup_map), *final(lookup_map), key@)
                &&& popped@ == old(lookup_map)@[key@]@.last()@
            },
            Err(e) => {
                &&& final(lookup_map)@ == old(lookup_map)@
                &&& if !old(lookup_map)@.contains_key(key@) {
                    e.text() == "ERROR: Clarity VM had edit log entry, but not lookup_map entry"@
                } else {
                    &&& old(lookup_map)@[key@]@.len() == 0
                    &&& e.text() == "ERROR: expected value in edit history"@
                }
            },
        },
{
    match lookup_map.get(key) {
        None => {
            return Err(
                VmInternalError::expect(
                    "ERROR: Clarity VM had edit log entry, but not lookup_map entry",
                ),
            );
        },
        Some(key_edit_history) => {
            if key_edit_history.is_empty() {
                return Err(VmInternalError::expect("ERROR: expected value in edit history"));
            }
        },
    }
    let mut key_edit_history = match lookup_map.remove(key) {
        Some(key_edit_history) => key_edit_history,
        None => Vec::new(),
    };
    let popped_value = match key_edit_history.pop() {
        Some(popped_value) => popped_value,
        None => String::new(),
    };
    rollback_value_check(popped_value.as_str(), value);
    if !key_edit_history.is_empty() {
        lookup_map.insert(key.duplicate(), key_edit_history);
        assert(lookup_map@ =~= old(lookup_map)@.insert(key@, lookup_map@[key@]));
    }
    Ok(popped_value)
}

/// Undoes edits, from the newest to the oldest. The lookup map then tracks what was written
/// before them.
pub(crate) fn undo_edits<T: MapKey>(
    edits: Vec<(T, RollbackValueCheck)>,
    lookup_map: &mut KeyedMap<T, Vec<String>>,
    Ghost(earlier): Ghost<Seq<(T::V, Seq<char>)>>,
) -> (result: Result<(), VmInternalError>)
    requires
        tracks(*old(lookup_map), earlier + edit_log(edits@)),
    ensures
        tracks(*final(lookup_map), earlier),
        result is Ok,
{
    let mut rest = edits;
    while rest.len() > 0
        invariant
            tracks(*lookup_map, earlier + edit_log(rest@)),
        decreases rest.len(),
    {
        let ghost before = *lookup_map;
        let ghost log = earlier + edit_log(rest@);
        if let Some((key, check)) = rest.pop() {
            proof {
                assert(log.last() == (key@, check@));
                assert(before@.contains_key(key@));
                assert(texts(before@[key@]@).last() == before@[key@]@.last()@);
            }
            rollback_lookup_map(&key, &check, lookup_map)?;
            proof {
                lemma_tracks_drop_last(before, *lookup_map, log);
                assert(log.drop_last() =~= earlier + edit_log(rest@));
            }
        }
    }
    assert(earlier + edit_log(rest@) =~= earlier);
    Ok(())
}

/// Writes a value: logs the edit, and makes the value the newest of its key.
pub(crate) fn inner_put_data<T: MapKey>(
    lookup_map: &mut KeyedMap<T, Vec<String>>,
    edits: &mut Vec<(T, RollbackValueCheck)>,
    key: T,
    value: String,
)
    requires
        old(lookup_map).wf(),
    ensures
        final(lookup_map).wf(),
        newest_added(*old(lookup_map), *final(lookup_map), key@, value@),
        edit_log(final(edits)@) == edit_log(old(edits)@).push((key@, value@)),
{
    let mut key_edit_deque = match lookup_map.remove(&key) {
        Some(key_edit_deque) => key_edit_deque,
        None => Vec::new(),
    };
    rollback_edits_push(edits, key.duplicate(), value.as_str());
    let ghost earlier = key_edit_deque@;
    key_edit_deque.push(value);
    assert(texts(key_edit_deque@) =~= texts(earlier).push(value@));
    assert(texts(Seq::<String>::empty()) =~= Seq::<Seq<char>>::empty());
    let ghost written = key@;
    lookup_map.insert(key, key_edit_deque);
    assert(lookup_map@ =~= old(lookup_map)@.insert(written, lookup_map@[written]));
}

/// The newest value that a lookup map holds of a key.
pub(crate) fn newest<'b, T: MapKey>(
    lookup_map: &'b KeyedMap<T, Vec<String>>,
    key: &T,
    Ghost(log): Ghost<Seq<(T::V, Seq<char>)>>,
) -> (value: Option<&'b String>)
    requires
        tracks(*lookup_map, log),
    ensures
        match value {
            Some(v) => last_write(log, key@) == Some(v@),
            None => last_write(log, key@) is None,
        },
{
    match lookup_map.get(key) {
        Some(history) => {
            assert(texts(history@).last() == history@.last()@);
            history.last()
        },
        None => None,
    }
}

/// The items of a list, in reverse order.
fn reversed<X>(items: Vec<X>) -> (out: Vec<X>)
    ensures
        out@ == items@.reverse(),
{
    let mut rest = items;
    let mut out: Vec<X> = Vec::new();
    while rest.len() > 0
        invariant
            rest@.len() + out@.len() == items@.len(),
            rest@ == items@.take(rest@.len() as int),
            out@ == items@.reverse().take(out@.len() as int),
        decreases rest.len(),
    {
        if let Some(item) = rest.pop() {
            out.push(item);
        }
        assert(rest@ =~= items@.take(rest@.len() as int));
        assert(out@ =~= items@.reverse().take(out@.len() as int));
    }
    assert(out@ =~= items@.reverse());
    out
}

/// Whether a lookup map holds the values of the first edits of a log, of all of them or of
/// fewer.
pub open spec fn tracks_prefix<T: MapKey>(
    lookup_map: KeyedMap<T, Vec<String>>,
    log: Seq<(T::V, Seq<char>)>,
) -> bool {
    exists|n: int| 0 <= n <= log.len() && tracks(lookup_map, #[trigger] log.take(n))
}

/// A lookup map that tracks a log tracks its first edits.
pub proof fn lemma_tracks_prefix<T: MapKey>(
    lookup_map: KeyedMap<T, Vec<String>>,
    log: Seq<(T::V, Seq<char>)>,
)
    requires
        tracks(lookup_map, log),
    ensures
        tracks_prefix(lookup_map, log),
{
    assert(log.take(log.len() as int) =~= log);
}

/// A lookup map that tracks fewer than all edits of a log does not track the log.
proof fn lemma_tracks_fewer<T: MapKey>(
    lookup_map: KeyedMap<T, Vec<String>>,
    log: Seq<(T::V, Seq<char>)>,
    n: int,
)
    requires
        0 <= n < log.len(),
        tracks(lookup_map, log.take(n)),
    ensures
        !tracks(lookup_map, log),
{
    let key = log[n].0;
    assert(log =~= log.take(n) + log.skip(n));
    lemma_history_concat(log.take(n), log.skip(n), key);
    lemma_history_first(log.skip(n), key);
    if tracks(lookup_map, log) {
        assert(lookup_map@.contains_key(key));
        assert(history(log, key).len() > history(log.take(n), key).len());
    }
}

/// Whether a lookup map holds, for each key, the values that a log writes to it, the oldest at
/// the tail.
spec fn tracks_reversed<T: MapKey>(
    lookup_map: KeyedMap<T, Vec<String>>,
    log: Seq<(T::V, Seq<char>)>,
) -> bool {
    &&& lookup_map.wf()
    &&& forall|key: T::V| #[trigger]
        lookup_map@.contains_key(key) <==> history(log, key).len() > 0
    &&& forall|key: T::V| #[trigger]
        lookup_map@.contains_key(key) ==> texts(lookup_map@[key]@) == history(log, key).reverse()
}

/// A lookup map that tracks no writes is empty.
proof fn lemma_tracks_nothing<T: MapKey>(
    lookup_map: KeyedMap<T, Vec<String>>,
    log: Seq<(T::V, Seq<char>)>,
)
    requires
        tracks_reversed(lookup_map, log),
        log.len() == 0,
    ensures
        lookup_map@ == Map::<T::V, Vec<String>>::empty(),
{
    assert forall|key: T::V| !#[trigger] lookup_map@.contains_key(key) by {
        assert(history(log, key).len() == 0);
    }
    assert(lookup_map@ =~= Map::empty());
}

/// Where the oldest value of the key of the oldest write has been taken from the tail of its
/// history, the map tracks the log without that write.
proof fn lemma_tracks_drop_first<T: MapKey>(
    before: KeyedMap<T, Vec<String>>,
    after: KeyedMap<T, Vec<String>>,
    log: Seq<(T::V, Seq<char>)>,
)
    requires
        tracks_reversed(before, log),
        log.len() > 0,
        after.wf(),
        newest_taken(before, after, log[0].0),
    ensures
        tracks_reversed(after, log.skip(1)),
{
    let key = log[0].0;
    let shorter = log.skip(1);
    lemma_history_first(log, key);
    assert(texts(before@[key]@.drop_last()) =~= texts(before@[key]@).drop_last());
    assert(history(log, key).reverse().drop_last() =~= history(shorter, key).reverse());
    assert forall|k: T::V| #[trigger] after@.contains_key(k) <==> history(shorter, k).len() > 0 by {
        lemma_history_first(log, k);
        if k != key {
            assert(before@.contains_key(k) <==> history(log, k).len() > 0);
        }
    }
    assert forall|k: T::V| #[trigger] after@.contains_key(k) implies texts(after@[k]@) == history(
        shorter,
        k,
    ).reverse() by {
        lemma_history_first(log, k);
        if k != key {
            assert(before@.contains_key(k));
        }
    }
}

/// Every key that a log gives a history occurs in it.
proof fn lemma_written_key_occurs<K>(log: Seq<(K, Seq<char>)>, key: K) -> (i: int)
    requires
        history(log, key).len() > 0,
    ensures
        0 <= i < log.len(),
        log[i].0 == key,
    decreases log.len(),
{
    if log.last().0 == key {
        log.len() - 1
    } else {
        lemma_written_key_occurs(log.drop_last(), key)
    }
}

/// Reverses every history of a lookup map, when each key is one that was edited.
fn reverse_histories<T: MapKey>(
    edits: &Vec<(T, RollbackValueCheck)>,
    lookup_map: &mut KeyedMap<T, Vec<String>>,
)
    requires
        old(lookup_map).wf(),
        forall|key: T::V| #[trigger]
            old(lookup_map)@.contains_key(key) ==> exists|i: int|
                0 <= i < edits@.len() && (#[trigger] edits@[i]).0@ == key,
    ensures
        final(lookup_map).wf(),
        forall|key: T::V| #[trigger]
            final(lookup_map)@.contains_key(key) <==> old(lookup_map)@.contains_key(key),
        forall|key: T::V| #[trigger]
            final(lookup_map)@.contains_key(key) ==> final(lookup_map)@[key]@ == old(
                lookup_map,
            )@[key]@.reverse(),
{
    let ghost before = lookup_map@;
    let mut oldest_last: KeyedMap<T, Vec<String>> = KeyedMap::new();
    let mut i: usize = 0;
    while i < edits.len()
        invariant
            i <= edits.len(),
            lookup_map.wf(),
            oldest_last.wf(),
            forall|key: T::V| #[trigger]
                before.contains_key(key) <==> lookup_map@.contains_key(key)
                    || oldest_last@.contains_key(key),
            forall|key: T::V| #[trigger]
                lookup_map@.contains_key(key) ==> lookup_map@[key] == before[key] && forall|j: int|
                    0 <= j < i ==> (#[trigger] edits@[j]).0@ != key,
            forall|key: T::V| #[trigger]
                oldest_last@.contains_key(key) ==> before.contains_key(key)
                    && oldest_last@[key]@ == before[key]@.reverse(),
        decreases edits.len() - i,
    {
        if let Some(edit_history) = lookup_map.remove(&edits[i].0) {
            oldest_last.insert(edits[i].0.duplicate(), reversed(edit_history));
        }
        i = i + 1;
    }
    *lookup_map = oldest_last;
}

/// Gives each edit its value, when the lookup map holds no other values. This is for the commit
/// at the bottom, to the underlying store. The lookup map is empty afterwards.
pub(crate) fn rollback_check_pre_bottom_commit<T: MapKey>(
    edits: Vec<(T, RollbackValueCheck)>,
    lookup_map: &mut KeyedMap<T, Vec<String>>,
) -> (result: Result<Vec<(T, String)>, VmInternalError>)
    requires
        tracks_prefix(*old(lookup_map), edit_log(edits@)),
    ensures
        final(lookup_map).wf(),
        final(lookup_map)@ == Map::<T::V, Vec<String>>::empty(),
        match result {
            Ok(items) => {
                &&& tracks(*old(lookup_map), edit_log(edits@))
                &&& items@.map_values(|item: (T, String)| (item.0@, item.1@)) == edit_log(edits@)
            },
            Err(e) => {
                &&& !tracks(*old(lookup_map), edit_log(edits@))
                &&& e.text() == "ERROR: Clarity VM had edit log entry, but not lookup_map entry"@
            },
        },
{
    let ghost all = edit_log(edits@);
    let ghost n = choose|n: int| 0 <= n <= all.len() && tracks(*lookup_map, #[trigger] all.take(n));
    let ghost log = all.take(n);
    proof {
        assert forall|key: T::V| #[trigger] lookup_map@.contains_key(key) implies exists|i: int|
            0 <= i < edits@.len() && (#[trigger] edits@[i]).0@ == key by {
            let i = lemma_written_key_occurs(log, key);
            assert(log[i] == (edits@[i].0@, edits@[i].1@));
        }
        assert(log.skip(0) =~= log);
    }
    reverse_histories(&edits, lookup_map);
    assert(tracks_reversed(*lookup_map, log)) by {
        assert forall|key: T::V| #[trigger] lookup_map@.contains_key(key) implies texts(
            lookup_map@[key]@,
        ) == history(log, key).reverse() by {
            assert(old(lookup_map)@.contains_key(key));
            assert(texts(lookup_map@[key]@) =~= texts(old(lookup_map)@[key]@).reverse());
        }
    }

    let mut rest = reversed(edits);
    let mut items: Vec<(T, String)> = Vec::new();
    while rest.len() > 0
        invariant
            all == edit_log(edits@),
            0 <= n <= all.len(),
            log == all.take(n),
            tracks(*old(lookup_map), log),
            rest@.len() + items@.len() == all.len(),
            items@.len() <= n,
            rest@ == edits@.reverse().take(rest@.len() as int),
            tracks_reversed(*lookup_map, log.skip(items@.len() as int)),
            forall|i: int|
                0 <= i < items@.len() ==> ((#[trigger] items@[i]).0@, items@[i].1@) == all[i],
        decreases rest.len(),
    {
        let ghost before = *lookup_map;
        let ghost done = items@.len() as int;
        let ghost remaining = log.skip(done);
        if let Some((key, check)) = rest.pop() {
            proof {
                assert(all[done] == (key@, check@));
                if done < n {
                    assert(remaining[0] == (key@, check@));
                    lemma_history_first(remaining, key@);
                    assert(before@.contains_key(key@));
                    assert(texts(before@[key@]@).last() == before@[key@]@.last()@);
                } else {
                    assert(history(remaining, key@).len() == 0);
                    assert(!before@.contains_key(key@));
                }
            }
            match rollback_lookup_map(&key, &check, lookup_map) {
                Ok(value) => {
                    proof {
                        lemma_tracks_drop_first(before, *lookup_map, remaining);
                        assert(remaining.skip(1) =~= log.skip(done + 1));
                    }
                    items.push((key, value));
                },
                Err(e) => {
                    proof {
                        lemma_tracks_fewer(*old(lookup_map), all, n);
                        lemma_tracks_nothing(*lookup_map, remaining);
                    }
                    return Err(e);
                },
            }
        }
    }
    proof {
        assert(all.take(n) =~= all);
        lemma_tracks_nothing(*lookup_map, log.skip(n));
        assert(items@.map_values(|item: (T, String)| (item.0@, item.1@)) =~= all);
    }
    Ok(items)
}

} // verus!
