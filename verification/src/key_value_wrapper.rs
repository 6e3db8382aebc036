//! The wrapper: nested, revocable writes over a backing store.

use vstd::prelude::*;
use vstd::std_specs::convert::FromSpecImpl;
use vstd::string::*;
use vstd::utf8::*;

use crate::errors::{SerializationError, VmExecutionError, VmInternalError};
use crate::keyed_map::KeyedMap;
use crate::persisted_log::{LogView, RollbackWrapperPersistedLog};
use crate::store::{ClarityBackingStore, ClarityDeserializable, MetadataKey, MetadataKeyView};
use crate::types::{
    make_contract_hash_key, ContractCommitment, QualifiedContractIdentifier,
    Sha512Trunc256Sum, StacksBlockId, StacksEpochId, TrieHash, ValueResult,
};

verus! {

/// The text of a string that may be missing.
pub open spec fn text_of(value: Option<String>) -> Option<Seq<char>> {
    match value {
        Some(s) => Some(s@),
        None => None,
    }
}

/// What a wrapper holds besides its store.
#[verifier::ext_equal]
pub struct WrapperView {
    /// The pending writes.
    pub log: LogView,
    /// Whether reads see pending writes.
    pub query_pending_data: bool,
    /// The block that was last made the one to read from.
    pub active_block_hash: Option<Seq<u8>>,
    /// What the store held at a data key as of a block, where it is known.
    pub data_cache: Map<(Seq<u8>, Seq<char>), Option<Seq<char>>>,
    /// What the store held at a metadata key as of a block, where it is known.
    pub metadata_cache: Map<(Seq<u8>, MetadataKeyView), Option<Seq<char>>>,
}

impl WrapperView {
    /// A wrapper that starts out with some pending writes.
    pub open spec fn with_log(log: LogView) -> WrapperView {
        WrapperView {
            log,
            query_pending_data: true,
            active_block_hash: None,
            data_cache: Map::empty(),
            metadata_cache: Map::empty(),
        }
    }

    /// The block for which reads are remembered, if they are.
    pub open spec fn cached_block(self) -> Option<Seq<u8>> {
        if self.query_pending_data {
            None
        } else {
            self.active_block_hash
        }
    }

    /// The pending value of a data key, where reads see it.
    pub open spec fn visible_data(self, key: Seq<char>) -> Option<Seq<char>> {
        if self.query_pending_data {
            self.log.pending_data(key)
        } else {
            None
        }
    }

    /// The pending value of a metadata key, where reads see it.
    pub open spec fn visible_metadata(self, key: MetadataKeyView) -> Option<Seq<char>> {
        if self.query_pending_data {
            self.log.pending_metadata(key)
        } else {
            None
        }
    }

    /// The remembered answer of the store for a data key, if there is one.
    pub open spec fn cached_data(self, key: Seq<char>) -> Option<Option<Seq<char>>> {
        match self.cached_block() {
            Some(block) if self.data_cache.contains_key((block, key)) => Some(
                self.data_cache[(block, key)],
            ),
            _ => None,
        }
    }

    /// The remembered answer of the store for a metadata key, if there is one.
    pub open spec fn cached_metadata(self, key: MetadataKeyView) -> Option<Option<Seq<char>>> {
        match self.cached_block() {
            Some(block) if self.metadata_cache.contains_key((block, key)) => Some(
                self.metadata_cache[(block, key)],
            ),
            _ => None,
        }
    }

    /// With the answer of the store for a data key remembered, where reads are.
    pub open spec fn remember_data(self, key: Seq<char>, value: Option<Seq<char>>) -> WrapperView {
        match self.cached_block() {
            Some(block) => WrapperView {
                data_cache: self.data_cache.insert((block, key), value),
                ..self
            },
            None => self,
        }
    }

    /// With the answer of the store for a metadata key remembered, where reads are.
    pub open spec fn remember_metadata(
        self,
        key: MetadataKeyView,
        value: Option<Seq<char>>,
    ) -> WrapperView {
        match self.cached_block() {
            Some(block) => WrapperView {
                metadata_cache: self.metadata_cache.insert((block, key), value),
                ..self
            },
            None => self,
        }
    }
}

/// Whether `reply` is what a read of a data key past the pending writes gives. A remembered
/// answer is given again, without a word to the store. Otherwise the store is asked, and its
/// answer is remembered.
pub open spec fn materialized_data_read<S: ClarityBackingStore>(
    pre: WrapperView,
    pre_store: S,
    key: Seq<char>,
    reply: Result<Option<String>, VmExecutionError>,
    post: WrapperView,
    post_store: S,
) -> bool {
    match pre.cached_data(key) {
        Some(value) => {
            &&& reply matches Ok(v) && text_of(v) == value
            &&& post == pre
            &&& post_store == pre_store
        },
        None => {
            &&& S::get_data_step(pre_store, key, reply, post_store)
            &&& post == match reply {
                Ok(v) => pre.remember_data(key, text_of(v)),
                Err(_) => pre,
            }
        },
    }
}

/// Whether `reply` is what a read of a metadata key past the pending writes gives. A remembered
/// answer is given again, without a word to the store. Otherwise the store is asked, and its
/// answer is remembered.
pub open spec fn materialized_metadata_read<S: ClarityBackingStore>(
    pre: WrapperView,
    pre_store: S,
    key: MetadataKeyView,
    reply: Result<Option<String>, VmExecutionError>,
    post: WrapperView,
    post_store: S,
) -> bool {
    match pre.cached_metadata(key) {
        Some(value) => {
            &&& reply matches Ok(v) && text_of(v) == value
            &&& post == pre
            &&& post_store == pre_store
        },
        None => {
            &&& S::get_metadata_step(pre_store, key.0, key.1, reply, post_store)
            &&& post == match reply {
                Ok(v) => pre.remember_metadata(key, text_of(v)),
                Err(_) => pre,
            }
        },
    }
}

/// Whether `result` is what reading stored text as a `T` gives.
pub open spec fn deserialized<T: ClarityDeserializable<T>>(
    text: Seq<char>,
    result: Result<Option<T>, VmExecutionError>,
) -> bool {
    match result {
        Ok(Some(value)) => T::deserializes_to(text, Ok(value)),
        Ok(None) => false,
        Err(e) => T::deserializes_to(text, Err(e)),
    }
}

/// Whether `result` is what becomes of an answer of the store when its text is read as a `T`.
pub open spec fn deserialized_reply<T: ClarityDeserializable<T>>(
    reply: Result<Option<String>, VmExecutionError>,
    result: Result<Option<T>, VmExecutionError>,
) -> bool {
    match reply {
        Ok(Some(text)) => deserialized(text@, result),
        Ok(None) => result == Ok::<Option<T>, VmExecutionError>(None),
        Err(e) => result == Err::<Option<T>, VmExecutionError>(e),
    }
}

/// Whether `result` is what becomes of an answer of the store with a proof when its text is
/// read as a `T`.
pub open spec fn deserialized_reply_with_proof<T: ClarityDeserializable<T>>(
    reply: Result<Option<(String, Vec<u8>)>, VmExecutionError>,
    result: Result<Option<(T, Vec<u8>)>, VmExecutionError>,
) -> bool {
    match reply {
        Ok(Some((text, proof))) => match result {
            Ok(Some((value, given))) => T::deserializes_to(text@, Ok(value)) && given == proof,
            Ok(None) => false,
            Err(e) => T::deserializes_to(text@, Err(e)),
        },
        Ok(None) => result == Ok::<Option<(T, Vec<u8>)>, VmExecutionError>(None),
        Err(e) => result == Err::<Option<(T, Vec<u8>)>, VmExecutionError>(e),
    }
}

/// Reads the text of an answer of the store as a `T`.
pub fn deserialize_reply<T: ClarityDeserializable<T>>(
    reply: Result<Option<String>, VmExecutionError>,
) -> (result: Result<Option<T>, VmExecutionError>)
    ensures
        deserialized_reply::<T>(reply, result),
{
    match reply {
        Ok(Some(text)) => match T::deserialize(text.as_str()) {
            Ok(value) => Ok(Some(value)),
            Err(e) => Err(e),
        },
        Ok(None) => Ok(None),
        Err(e) => Err(e),
    }
}

/// Reads the text of an answer of the store with a proof as a `T`, and passes the proof on.
pub fn deserialize_reply_with_proof<T: ClarityDeserializable<T>>(
    reply: Result<Option<(String, Vec<u8>)>, VmExecutionError>,
) -> (result: Result<Option<(T, Vec<u8>)>, VmExecutionError>)
    ensures
        deserialized_reply_with_proof::<T>(reply, result),
{
    match reply {
        Ok(Some((text, proof))) => match T::deserialize(text.as_str()) {
            Ok(value) => Ok(Some((value, proof))),
            Err(e) => Err(e),
        },
        Ok(None) => Ok(None),
        Err(e) => Err(e),
    }
}

/// Whether `result` is what a read of a data key as a `T` gives.
pub open spec fn data_read<S: ClarityBackingStore, T: ClarityDeserializable<T>>(
    pre: WrapperView,
    pre_store: S,
    key: Seq<char>,
    result: Result<Option<T>, VmExecutionError>,
    post: WrapperView,
    post_store: S,
) -> bool {
    if pre.log.contexts.len() == 0 {
        &&& result matches Err(e) && e.is_expect(
            "ERROR: Clarity VM attempted GET on non-nested context."@,
        )
        &&& post == pre
        &&& post_store == pre_store
    } else {
        match pre.visible_data(key) {
            Some(text) => {
                &&& deserialized(text, result)
                &&& post == pre
                &&& post_store == pre_store
            },
            None => exists|reply: Result<Option<String>, VmExecutionError>|
                {
                    &&& #[trigger] materialized_data_read(
                        pre,
                        pre_store,
                        key,
                        reply,
                        post,
                        post_store,
                    )
                    &&& deserialized_reply(reply, result)
                },
        }
    }
}

/// Whether `result` is what a read of a metadata key gives.
pub open spec fn metadata_read<S: ClarityBackingStore>(
    pre: WrapperView,
    pre_store: S,
    key: MetadataKeyView,
    result: Result<Option<String>, VmExecutionError>,
    post: WrapperView,
    post_store: S,
) -> bool {
    if pre.log.contexts.len() == 0 {
        &&& result matches Err(e) && e.is_expect(
            "ERROR: Clarity VM attempted GET on non-nested context."@,
        )
        &&& post == pre
        &&& post_store == pre_store
    } else {
        match pre.visible_metadata(key) {
            Some(text) => {
                &&& result matches Ok(Some(s)) && s@ == text
                &&& post == pre
                &&& post_store == pre_store
            },
            None => materialized_metadata_read(pre, pre_store, key, result, post, post_store),
        }
    }
}

/// Whether `result` is what a write to a data key gives.
pub open spec fn data_written(
    pre: WrapperView,
    key: Seq<char>,
    value: Seq<char>,
    result: Result<(), VmExecutionError>,
    post: WrapperView,
) -> bool {
    match result {
        Ok(()) => {
            &&& pre.log.contexts.len() > 0
            &&& post == (WrapperView { log: pre.log.put_data(key, value), ..pre })
        },
        Err(e) => {
            &&& pre.log.contexts.len() == 0
            &&& post == pre
            &&& e.is_expect("ERROR: Clarity VM attempted PUT on non-nested context."@)
        },
    }
}

/// How a store takes writes to data keys. Without writes it is not asked.
pub open spec fn data_put<S: ClarityBackingStore>(
    pre: S,
    items: Seq<(Seq<char>, Seq<char>)>,
    reply: Result<(), VmExecutionError>,
    post: S,
) -> bool {
    if items.len() == 0 {
        reply is Ok && post == pre
    } else {
        S::put_all_data_step(pre, items, reply, post)
    }
}

/// How a store takes writes to metadata keys. Without writes it is not asked.
pub open spec fn metadata_put<S: ClarityBackingStore>(
    pre: S,
    items: Seq<(MetadataKeyView, Seq<char>)>,
    reply: Result<(), VmExecutionError>,
    post: S,
) -> bool {
    if items.len() == 0 {
        reply is Ok && post == pre
    } else {
        S::put_all_metadata_step(pre, items, reply, post)
    }
}

/// The words of the error for a commit that the store refuses.
pub open spec fn commit_failure_text(e: VmExecutionError) -> Seq<char> {
    "ERROR: Failed to commit data to sql store: "@ + e.spec_debug_text()
}

/// The error for a commit that the store refuses.
pub fn commit_failure(e: &VmExecutionError) -> (error: VmInternalError)
    ensures
        error.text() == commit_failure_text(*e),
{
    let text = "ERROR: Failed to commit data to sql store: ".to_string().concat(
        e.debug_text().as_str(),
    );
    VmInternalError::Expect(text)
}

impl WrapperView {
    /// The outermost context is closed, and the store has refused its data writes. Its
    /// metadata writes are left without a context, after those that already were.
    pub open spec fn after_data_refused(self) -> WrapperView {
        WrapperView {
            log: LogView {
                contexts: Seq::empty(),
                orphaned_metadata: self.log.orphaned_metadata
                    + self.log.contexts[0].metadata_edits,
            },
            ..self
        }
    }

    /// The outermost context is closed, the store has taken its data writes, and has answered
    /// `reply` to its metadata writes. What was remembered of the store goes with the writes.
    pub open spec fn after_metadata_put(self, reply: Result<(), VmExecutionError>) -> WrapperView {
        let context = self.log.contexts[0];
        WrapperView {
            log: LogView::empty(),
            data_cache: if context.edits.len() > 0 {
                Map::empty()
            } else {
                self.data_cache
            },
            metadata_cache: if context.metadata_edits.len() > 0 && reply is Ok {
                Map::empty()
            } else {
                self.metadata_cache
            },
            ..self
        }
    }
}

/// Whether a result is success where the store took the writes, and the error for a refused
/// commit where it did not.
pub open spec fn commit_result(
    reply: Result<(), VmExecutionError>,
    result: Result<(), VmInternalError>,
) -> bool {
    match reply {
        Ok(()) => result is Ok,
        Err(e) => result matches Err(error) && error.text() == commit_failure_text(e),
    }
}

/// Whether a commit cannot come upon metadata writes without a context, which it could not tell
/// from those of the outermost context. It does not when there are none, nor when the store is
/// bound to refuse the data writes, so that the metadata writes are not looked at.
pub open spec fn commit_meets_no_orphans<S: ClarityBackingStore>(
    pre: WrapperView,
    store: S,
) -> bool {
    pre.log.contexts.len() == 1 && pre.log.orphaned_metadata.len() > 0 ==> {
        let edits = pre.log.contexts[0].edits;
        &&& edits.len() > 0
        &&& forall|reply: Result<(), VmExecutionError>, post: S| #[trigger]
            S::put_all_data_step(store, edits, reply, post) ==> reply is Err
    }
}

/// Whether a commit of the outermost context to the store ends with `result`. The data writes
/// go to the store first, then the metadata writes, each in the order in which they were made.
/// If the store refuses the data writes, it is not asked about the metadata writes.
pub open spec fn committed_to_store<S: ClarityBackingStore>(
    pre: WrapperView,
    pre_store: S,
    result: Result<(), VmInternalError>,
    post: WrapperView,
    post_store: S,
) -> bool {
    let context = pre.log.contexts[0];
    exists|data_reply: Result<(), VmExecutionError>, mid_store: S|
        {
            &&& #[trigger] data_put(pre_store, context.edits, data_reply, mid_store)
            &&& match data_reply {
                Err(_) => {
                    &&& commit_result(data_reply, result)
                    &&& post == pre.after_data_refused()
                    &&& post_store == mid_store
                },
                Ok(_) => exists|metadata_reply: Result<(), VmExecutionError>|
                    {
                        &&& #[trigger] metadata_put(
                            mid_store,
                            context.metadata_edits,
                            metadata_reply,
                            post_store,
                        )
                        &&& commit_result(metadata_reply, result)
                        &&& post == pre.after_metadata_put(metadata_reply)
                    },
            }
        }
}

/// Whether `result` is what a decoder of values makes of some text, with the length of the
/// bytes that the text spells in hexadecimal digits.
pub open spec fn value_deserialized<V, T, F: Fn(&str, &T, bool) -> Result<V, SerializationError>>(
    try_deserialize_hex: F,
    value_hex: &str,
    expected: &T,
    epoch: StacksEpochId,
    result: Result<ValueResult<V>, SerializationError>,
) -> bool {
    match result {
        Ok(found) => {
            &&& call_ensures(
                try_deserialize_hex,
                (value_hex, expected, epoch.value_sanitizing),
                Ok(found.value),
            )
            &&& found.serialized_byte_len == encode_utf8(value_hex@).len() as int / 2
        },
        Err(e) => call_ensures(
            try_deserialize_hex,
            (value_hex, expected, epoch.value_sanitizing),
            Err(e),
        ),
    }
}

/// Whether `result` is what a decoder of values makes of a text that is there.
pub open spec fn value_found<V, T, F: Fn(&str, &T, bool) -> Result<V, SerializationError>>(
    try_deserialize_hex: F,
    text: Seq<char>,
    expected: &T,
    epoch: StacksEpochId,
    result: Result<Option<ValueResult<V>>, SerializationError>,
) -> bool {
    exists|value_hex: &str|
        {
            &&& #[trigger] value_hex@ == text
            &&& match result {
                Ok(Some(found)) => value_deserialized(
                    try_deserialize_hex,
                    value_hex,
                    expected,
                    epoch,
                    Ok(found),
                ),
                Ok(None) => false,
                Err(e) => value_deserialized(
                    try_deserialize_hex,
                    value_hex,
                    expected,
                    epoch,
                    Err(e),
                ),
            }
        }
}

/// Whether `result` is what becomes of an answer of the store when its text is decoded as a
/// value.
pub open spec fn value_reply<V, T, F: Fn(&str, &T, bool) -> Result<V, SerializationError>>(
    try_deserialize_hex: F,
    reply: Result<Option<String>, VmExecutionError>,
    expected: &T,
    epoch: StacksEpochId,
    result: Result<Option<ValueResult<V>>, SerializationError>,
) -> bool {
    match reply {
        Ok(Some(text)) => value_found(try_deserialize_hex, text@, expected, epoch, result),
        Ok(None) => result matches Ok(None),
        Err(_) => result matches Err(SerializationError::DeserializationFailure(words)) && words@
            == "ERROR: Clarity backing store failure"@,
    }
}

/// Whether `result` is what a read of a data key as a value gives.
pub open spec fn value_read<
    S: ClarityBackingStore,
    V,
    T,
    F: Fn(&str, &T, bool) -> Result<V, SerializationError>,
>(
    pre: WrapperView,
    pre_store: S,
    key: Seq<char>,
    try_deserialize_hex: F,
    expected: &T,
    epoch: StacksEpochId,
    result: Result<Option<ValueResult<V>>, SerializationError>,
    post: WrapperView,
    post_store: S,
) -> bool {
    if pre.log.contexts.len() == 0 {
        &&& result matches Err(SerializationError::DeserializationFailure(words)) && words@
            == "ERROR: Clarity VM attempted GET on non-nested context."@
        &&& post == pre
        &&& post_store == pre_store
    } else {
        match pre.visible_data(key) {
            Some(text) => {
                &&& value_found(try_deserialize_hex, text, expected, epoch, result)
                &&& post == pre
                &&& post_store == pre_store
            },
            None => exists|reply: Result<Option<String>, VmExecutionError>|
                {
                    &&& #[trigger] materialized_data_read(
                        pre,
                        pre_store,
                        key,
                        reply,
                        post,
                        post_store,
                    )
                    &&& value_reply(try_deserialize_hex, reply, expected, epoch, result)
                },
        }
    }
}

/// Whether `result` is the hash in what was read of a contract's commitment.
pub open spec fn commitment_hash<D: ClarityDeserializable<ContractCommitment>>(
    read: Result<Option<String>, VmExecutionError>,
    result: Result<Option<Sha512Trunc256Sum>, VmExecutionError>,
) -> bool {
    match read {
        Ok(Some(text)) => match result {
            Ok(Some(hash)) => D::deserializes_to(text@, Ok(ContractCommitment { hash })),
            Ok(None) => false,
            Err(e) => D::deserializes_to(text@, Err(e)),
        },
        Ok(None) => result == Ok::<Option<Sha512Trunc256Sum>, VmExecutionError>(None),
        Err(e) => result == Err::<Option<Sha512Trunc256Sum>, VmExecutionError>(e),
    }
}

/// Reads the hash of a contract's source from what was read of its commitment.
pub fn hash_of_commitment<D: ClarityDeserializable<ContractCommitment>>(
    read: Result<Option<String>, VmExecutionError>,
) -> (result: Result<Option<Sha512Trunc256Sum>, VmExecutionError>)
    ensures
        commitment_hash::<D>(read, result),
{
    match read {
        Ok(Some(text)) => match D::deserialize(text.as_str()) {
            Ok(cc) => Ok(Some(cc.hash)),
            Err(e) => Err(e),
        },
        Ok(None) => Ok(None),
        Err(e) => Err(e),
    }
}

/// What a wrapper holds besides its store.
pub struct WrapperState {
    log: RollbackWrapperPersistedLog,
    query_pending_data: bool,
    active_block_hash: Option<StacksBlockId>,
    materialized_read_cache: KeyedMap<(StacksBlockId, String), Option<String>>,
    materialized_metadata_cache: KeyedMap<(StacksBlockId, MetadataKey), Option<String>>,
}

impl View for WrapperState {
    type V = WrapperView;

    closed spec fn view(&self) -> WrapperView {
        WrapperView {
            log: self.log@,
            query_pending_data: self.query_pending_data,
            active_block_hash: match self.active_block_hash {
                Some(block) => Some(block@),
                None => None,
            },
            data_cache: self.materialized_read_cache@.map_values(|v: Option<String>| text_of(v)),
            metadata_cache: self.materialized_metadata_cache@.map_values(
                |v: Option<String>| text_of(v),
            ),
        }
    }
}

impl WrapperState {
    /// The parts are well formed.
    pub closed spec fn wf(self) -> bool {
        &&& self.log.wf()
        &&& self.materialized_read_cache.wf()
        &&& self.materialized_metadata_cache.wf()
    }

    /// The state of a wrapper that starts out with some pending writes.
    fn with_log(log: RollbackWrapperPersistedLog) -> (state: WrapperState)
        requires
            log.wf(),
        ensures
            state.wf(),
            state@ == WrapperView::with_log(log@),
    {
        let state = WrapperState {
            log,
            query_pending_data: true,
            active_block_hash: None,
            materialized_read_cache: KeyedMap::new(),
            materialized_metadata_cache: KeyedMap::new(),
        };
        assert(state@ =~= WrapperView::with_log(log@));
        state
    }
}

/// A wrapper around a store, which holds writes back until they are committed.
///
/// The fields are public so that contracts can tell what becomes of the borrowed store. All
/// that the wrapper keeps for itself is hidden in the state.
pub struct RollbackWrapper<'a, S: ClarityBackingStore> {
    /// The underlying key-value storage.
    pub store: &'a mut S,
    /// Everything else.
    pub state: WrapperState,
}

impl<'a, S: ClarityBackingStore> View for RollbackWrapper<'a, S> {
    type V = WrapperView;

    open spec fn view(&self) -> WrapperView {
        self.state@
    }
}

impl<'a, S: ClarityBackingStore> RollbackWrapper<'a, S> {
    /// The state is well formed.
    pub open spec fn wf(self) -> bool {
        self.state.wf()
    }

    /// The store as it is now.
    pub open spec fn current_store(self) -> S {
        *self.store
    }

    /// The pending writes as they are kept.
    pub closed spec fn persisted_log(self) -> RollbackWrapperPersistedLog {
        self.state.log
    }

    /// A wrapper without pending writes.
    pub fn new(store: &'a mut S) -> (wrapper: RollbackWrapper<'a, S>)
        ensures
            wrapper.wf(),
            wrapper@ == WrapperView::with_log(LogView::empty()),
            *wrapper.store == *old(store),
            *final(wrapper.store) == *final(store),
    {
        RollbackWrapper { store, state: WrapperState::with_log(RollbackWrapperPersistedLog::new()) }
    }

    /// A wrapper that goes on with the pending writes of an earlier one.
    pub fn from_persisted_log(store: &'a mut S, log: RollbackWrapperPersistedLog) -> (wrapper:
        RollbackWrapper<'a, S>)
        requires
            log.wf(),
        ensures
            wrapper.wf(),
            wrapper@ == WrapperView::with_log(log@),
            *wrapper.store == *old(store),
            *final(wrapper.store) == *final(store),
    {
        RollbackWrapper { store, state: WrapperState::with_log(log) }
    }

    fn get_materialized_data(&mut self, key: &str) -> (result: Result<
        Option<String>,
        VmExecutionError,
    >)
        requires
            old(self).wf(),
        ensures
            final(self).wf(),
            materialized_data_read(
                old(self)@,
                *old(self).store,
                key@,
                result,
                final(self)@,
                *final(self).store,
            ),
            *final(final(self).store) == *final(old(self).store),
    {
        if self.state.query_pending_data {
            return self.store.get_data(key);
        }
        let active_block_hash = match self.state.active_block_hash {
            Some(active_block_hash) => active_block_hash,
            None => {
                return self.store.get_data(key);
            },
        };
        let cache_key = (active_block_hash, key.to_string());
        if let Some(value) = self.state.materialized_read_cache.get(&cache_key) {
            return Ok(value.clone());
        }
        let value = self.store.get_data(key)?;
        self.state.materialized_read_cache.insert(cache_key, value.clone());
        proof {
            assert(self@.data_cache =~= old(self)@.remember_data(key@, text_of(value)).data_cache);
        }
        Ok(value)
    }

    fn get_materialized_metadata(
        &mut self,
        contract: &QualifiedContractIdentifier,
        key: &str,
    ) -> (result: Result<Option<String>, VmExecutionError>)
        requires
            old(self).wf(),
        ensures
            final(self).wf(),
            materialized_metadata_read(
                old(self)@,
                *old(self).store,
                (contract@, key@),
                result,
                final(self)@,
                *final(self).store,
            ),
            *final(final(self).store) == *final(old(self).store),
    {
        if self.state.query_pending_data {
            return self.store.get_metadata(contract, key);
        }
        let active_block_hash = match self.state.active_block_hash {
            Some(active_block_hash) => active_block_hash,
            None => {
                return self.store.get_metadata(contract, key);
            },
        };
        let cache_key = (active_block_hash, (contract.clone(), key.to_string()));
        if let Some(value) = self.state.materialized_metadata_cache.get(&cache_key) {
            return Ok(value.clone());
        }
        let value = self.store.get_metadata(contract, key)?;
        self.state.materialized_metadata_cache.insert(cache_key, value.clone());
        proof {
            assert(self@.metadata_cache =~= old(self)@.remember_metadata(
                (contract@, key@),
                text_of(value),
            ).metadata_cache);
        }
        Ok(value)
    }

    /// The handler for contract calls that the store treats specially, if it has one.
    pub fn get_cc_special_cases_handler(&self) -> (handler: Option<S::SpecialCaseHandler>)
        ensures
            self.current_store().special_cases_handler_reply(handler),
    {
        self.store.get_cc_special_cases_handler()
    }

    /// Opens a context.
    pub fn nest(&mut self)
        requires
            old(self).wf(),
        ensures
            final(self).wf(),
            final(self)@ == (WrapperView { log: old(self)@.log.nest(), ..old(self)@ }),
            *final(self).store == *old(self).store,
            *final(final(self).store) == *final(old(self).store),
    {
        self.state.log.nest();
        assert(self@ =~= WrapperView { log: old(self)@.log.nest(), ..old(self)@ });
    }

    /// Rollback the child's edits.
    /// This clears all edits from the child's edit queue,
    /// and removes any of those edits from the lookup map.
    pub fn rollback(&mut self) -> (result: Result<(), VmInternalError>)
        requires
            old(self).wf(),
        ensures
            final(self).wf(),
            match result {
                Ok(()) => {
                    &&& old(self)@.log.contexts.len() > 0
                    &&& final(self)@ == (WrapperView {
                        log: old(self)@.log.rollback(),
                        ..old(self)@
                    })
                },
                Err(e) => {
                    &&& old(self)@.log.contexts.len() == 0
                    &&& final(self)@ == old(self)@
                    &&& e.text() == "ERROR: Clarity VM attempted to commit past the stack."@
                },
            },
            *final(self).store == *old(self).store,
            *final(final(self).store) == *final(old(self).store),
    {
        self.state.log.rollback()
    }

    /// How many contexts are open.
    pub fn depth(&self) -> (depth: usize)
        ensures
            depth == self@.log.contexts.len(),
    {
        self.state.log.depth()
    }

    /// Closes the innermost context and hands its writes on: to the context around it, or to
    /// the store if there is none.
    ///
    /// Metadata writes that an earlier commit left without a context must not be met when the
    /// outermost context is committed.
    pub fn commit(&mut self) -> (result: Result<(), VmInternalError>)
        requires
            old(self).wf(),
            commit_meets_no_orphans(old(self)@, *old(self).store),
        ensures
            final(self).wf(),
            if old(self)@.log.contexts.len() == 0 {
                &&& result matches Err(e) && e.text()
                    == "ERROR: Clarity VM attempted to commit past the stack."@
                &&& final(self)@ == old(self)@
                &&& *final(self).store == *old(self).store
            } else if old(self)@.log.contexts.len() == 1 {
                committed_to_store(
                    old(self)@,
                    *old(self).store,
                    result,
                    final(self)@,
                    *final(self).store,
                )
            } else {
                &&& result is Ok
                &&& final(self)@ == (WrapperView {
                    log: old(self)@.log.commit_to_parent(),
                    ..old(self)@
                })
                &&& *final(self).store == *old(self).store
            },
            *final(final(self).store) == *final(old(self).store),
    {
        let depth: usize = self.state.log.depth();
        if depth == 0 {
            return Err(
                VmInternalError::expect("ERROR: Clarity VM attempted to commit past the stack."),
            );
        }
        if depth > 1 {
            // bubble up to the next item in the stack
            self.state.log.commit_to_parent();
            return Ok(());
        }
        // stack is empty, committing to the backing store

        let ghost context = self@.log.contexts[0];
        let (all_edits, metadata_edits) = self.state.log.take_outermost_data()?;
        let ghost pre_store = *self.store;
        let ghost mut data_reply: Result<(), VmExecutionError> = Ok(());
        if !all_edits.is_empty() {
            let reply = self.store.put_all_data(all_edits);
            proof {
                data_reply = reply;
            }
            if let Err(e) = reply {
                assert(data_put(pre_store, context.edits, data_reply, *self.store));
                assert(self@ =~= old(self)@.after_data_refused());
                return Err(commit_failure(&e));
            }
            self.state.materialized_read_cache.clear();
        }
        let ghost mid_store = *self.store;
        assert(data_put(pre_store, context.edits, data_reply, mid_store));
        assert(self@.log.orphaned_metadata =~= context.metadata_edits);

        let metadata_edits = self.state.log.take_orphaned_metadata(metadata_edits)?;
        let ghost mut metadata_reply: Result<(), VmExecutionError> = Ok(());
        if !metadata_edits.is_empty() {
            let reply = self.store.put_all_metadata(metadata_edits);
            proof {
                metadata_reply = reply;
            }
            if let Err(e) = reply {
                assert(metadata_put(
                    mid_store,
                    context.metadata_edits,
                    metadata_reply,
                    *self.store,
                ));
                assert(self@ =~= old(self)@.after_metadata_put(metadata_reply));
                return Err(commit_failure(&e));
            }
            self.state.materialized_metadata_cache.clear();
        }
        assert(metadata_put(mid_store, context.metadata_edits, metadata_reply, *self.store));
        assert(self@ =~= old(self)@.after_metadata_put(metadata_reply));
        Ok(())
    }

    /// Writes a data key in the innermost context.
    pub fn put_data(&mut self, key: &str, value: &str) -> (result: Result<(), VmExecutionError>)
        requires
            old(self).wf(),
        ensures
            final(self).wf(),
            data_written(old(self)@, key@, value@, result, final(self)@),
            *final(self).store == *old(self).store,
            *final(final(self).store) == *final(old(self).store),
    {
        match self.state.log.put_data(key.to_string(), value.to_string()) {
            Ok(()) => Ok(()),
            Err(e) => Err(VmExecutionError::from(e)),
        }
    }

    /// Makes a block the one to read from, and gives back the one before it.
    ///
    /// `query_pending_data` indicates whether the rollback wrapper should query the rollback
    /// wrapper's pending data on reads. This is set to `false` during (at-block ...) closures,
    /// and `true` otherwise.
    pub fn set_block_hash(&mut self, bhh: StacksBlockId, query_pending_data: bool) -> (result:
        Result<StacksBlockId, VmExecutionError>)
        requires
            old(self).wf(),
        ensures
            final(self).wf(),
            S::set_block_hash_step(*old(self).store, bhh@, result, *final(self).store),
            final(self)@ == match result {
                Ok(_) => WrapperView {
                    query_pending_data,
                    active_block_hash: Some(bhh@),
                    ..old(self)@
                },
                Err(_) => old(self)@,
            },
            *final(final(self).store) == *final(old(self).store),
    {
        let result = self.store.set_block_hash(bhh);
        if result.is_ok() {
            self.state.query_pending_data = query_pending_data;
            self.state.active_block_hash = Some(bhh);
        }
        result
    }

    /// This function will only return commitment proofs for values _already_ materialized
    /// in the underlying store. Otherwise it returns None.
    pub fn get_data_with_proof<T: ClarityDeserializable<T>>(&mut self, key: &str) -> (result:
        Result<Option<(T, Vec<u8>)>, VmExecutionError>)
        requires
            old(self).wf(),
        ensures
            final(self).wf(),
            final(self)@ == old(self)@,
            exists|reply: Result<Option<(String, Vec<u8>)>, VmExecutionError>|
                {
                    &&& #[trigger] S::get_data_with_proof_step(
                        *old(self).store,
                        key@,
                        reply,
                        *final(self).store,
                    )
                    &&& deserialized_reply_with_proof::<T>(reply, result)
                },
            *final(final(self).store) == *final(old(self).store),
    {
        let reply = self.store.get_data_with_proof(key);
        assert(S::get_data_with_proof_step(*old(self).store, key@, reply, *self.store));
        deserialize_reply_with_proof(reply)
    }

    /// This function will only return commitment proofs for values _already_ materialized
    /// in the underlying store. Otherwise it returns None.
    pub fn get_data_with_proof_by_hash<T: ClarityDeserializable<T>>(&mut self, hash: &TrieHash) -> (result:
        Result<Option<(T, Vec<u8>)>, VmExecutionError>)
        requires
            old(self).wf(),
        ensures
            final(self).wf(),
            final(self)@ == old(self)@,
            exists|reply: Result<Option<(String, Vec<u8>)>, VmExecutionError>|
                {
                    &&& #[trigger] S::get_data_with_proof_from_path_step(
                        *old(self).store,
                        hash@,
                        reply,
                        *final(self).store,
                    )
                    &&& deserialized_reply_with_proof::<T>(reply, result)
                },
            *final(final(self).store) == *final(old(self).store),
    {
        let reply = self.store.get_data_with_proof_from_path(hash);
        assert(S::get_data_with_proof_from_path_step(*old(self).store, hash@, reply, *self.store));
        deserialize_reply_with_proof(reply)
    }

    /// Reads a data key: its pending value, where reads see pending writes and there is one,
    /// and otherwise what the store holds.
    pub fn get_data<T: ClarityDeserializable<T>>(&mut self, key: &str) -> (result: Result<
        Option<T>,
        VmExecutionError,
    >)
        requires
            old(self).wf(),
        ensures
            final(self).wf(),
            data_read::<S, T>(
                old(self)@,
                *old(self).store,
                key@,
                result,
                final(self)@,
                *final(self).store,
            ),
            *final(final(self).store) == *final(old(self).store),
    {
        if self.state.log.depth() == 0 {
            return Err(
                VmExecutionError::from(
                    VmInternalError::expect(
                        "ERROR: Clarity VM attempted GET on non-nested context.",
                    ),
                ),
            );
        }
        if self.state.query_pending_data {
            if let Some(pending_value) = self.state.log.pending_data(&key.to_string()) {
                // if there's pending data and we're querying pending data, return here
                return match T::deserialize(pending_value.as_str()) {
                    Ok(value) => Ok(Some(value)),
                    Err(e) => Err(e),
                };
            }
        }
        // otherwise, lookup from store

        let reply = self.get_materialized_data(key);
        deserialize_reply(reply)
    }

    /// DO NOT USE IN CONSENSUS CODE.
    ///
    /// Load data directly from the underlying store, given its trie hash.  The lookup map will not
    /// be used.
    ///
    /// This should never be called from within the Clarity VM, or via block-processing.  It's only
    /// meant to be used by the RPC system.
    pub fn get_data_by_hash<T: ClarityDeserializable<T>>(&mut self, hash: &TrieHash) -> (result:
        Result<Option<T>, VmExecutionError>)
        requires
            old(self).wf(),
        ensures
            final(self).wf(),
            final(self)@ == old(self)@,
            exists|reply: Result<Option<String>, VmExecutionError>|
                {
                    &&& #[trigger] S::get_data_from_path_step(
                        *old(self).store,
                        hash@,
                        reply,
                        *final(self).store,
                    )
                    &&& deserialized_reply::<T>(reply, result)
                },
            *final(final(self).store) == *final(old(self).store),
    {
        let reply = self.store.get_data_from_path(hash);
        assert(S::get_data_from_path_step(*old(self).store, hash@, reply, *self.store));
        deserialize_reply(reply)
    }

    /// Decodes a value from hexadecimal digits. The decoder is told which type to expect, and
    /// whether to sanitize the value.
    pub fn deserialize_value<V, T, F: Fn(&str, &T, bool) -> Result<V, SerializationError>>(
        value_hex: &str,
        expected: &T,
        epoch: &StacksEpochId,
        try_deserialize_hex: F,
    ) -> (result: Result<ValueResult<V>, SerializationError>)
        requires
            call_requires(try_deserialize_hex, (value_hex, expected, epoch.value_sanitizing)),
        ensures
            value_deserialized(try_deserialize_hex, value_hex, expected, *epoch, result),
    {
        let serialized_byte_len = value_hex.as_bytes().len() as u64 / 2;
        let sanitize = epoch.value_sanitizing();
        let value = try_deserialize_hex(value_hex, expected, sanitize)?;

        Ok(ValueResult { value, serialized_byte_len })
    }

    /// Decodes a value from the text of an answer of the store.
    pub fn deserialize_value_reply<V, T, F: Fn(&str, &T, bool) -> Result<V, SerializationError>>(
        reply: Result<Option<String>, VmExecutionError>,
        expected: &T,
        epoch: &StacksEpochId,
        try_deserialize_hex: F,
    ) -> (result: Result<Option<ValueResult<V>>, SerializationError>)
        requires
            forall|value_hex: &str|
                call_requires(try_deserialize_hex, (value_hex, expected, epoch.value_sanitizing)),
        ensures
            value_reply(try_deserialize_hex, reply, expected, *epoch, result),
    {
        let stored_data = match reply {
            Ok(stored_data) => stored_data,
            Err(_) => {
                return Err(
                    SerializationError::DeserializationFailure(
                        "ERROR: Clarity backing store failure".to_string(),
                    ),
                );
            },
        };
        match stored_data {
            Some(x) => {
                let value = Self::deserialize_value(
                    x.as_str(),
                    expected,
                    epoch,
                    try_deserialize_hex,
                )?;
                Ok(Some(value))
            },
            None => Ok(None),
        }
    }

    /// Get a Clarity value from the underlying Clarity KV store.
    /// Returns Some if found, with the Clarity Value and the serialized byte length of the value.
    pub fn get_value<V, T, F: Fn(&str, &T, bool) -> Result<V, SerializationError>>(
        &mut self,
        key: &str,
        expected: &T,
        epoch: &StacksEpochId,
        try_deserialize_hex: F,
    ) -> (result: Result<Option<ValueResult<V>>, SerializationError>)
        requires
            old(self).wf(),
            forall|value_hex: &str|
                call_requires(try_deserialize_hex, (value_hex, expected, epoch.value_sanitizing)),
        ensures
            final(self).wf(),
            value_read(
                old(self)@,
                *old(self).store,
                key@,
                try_deserialize_hex,
                expected,
                *epoch,
                result,
                final(self)@,
                *final(self).store,
            ),
            *final(final(self).store) == *final(old(self).store),
    {
        if self.state.log.depth() == 0 {
            return Err(
                SerializationError::DeserializationFailure(
                    "ERROR: Clarity VM attempted GET on non-nested context.".to_string(),
                ),
            );
        }
        if self.state.query_pending_data {
            if let Some(x) = self.state.log.pending_data(&key.to_string()) {
                let value = Self::deserialize_value(
                    x.as_str(),
                    expected,
                    epoch,
                    try_deserialize_hex,
                )?;
                return Ok(Some(value));
            }
        }
        let reply = self.get_materialized_data(key);
        Self::deserialize_value_reply(reply, expected, epoch, try_deserialize_hex)
    }

    /// This is the height we are currently constructing. It comes from the MARF.
    pub fn get_current_block_height(&mut self) -> (height: u32)
        requires
            old(self).wf(),
        ensures
            final(self).wf(),
            final(self)@ == old(self)@,
            S::get_current_block_height_step(*old(self).store, height, *final(self).store),
            *final(final(self).store) == *final(old(self).store),
    {
        self.store.get_current_block_height()
    }

    /// Is None if `block_height` >= the "currently" under construction Stacks block height.
    pub fn get_block_header_hash(&mut self, block_height: u32) -> (hash: Option<StacksBlockId>)
        requires
            old(self).wf(),
        ensures
            final(self).wf(),
            final(self)@ == old(self)@,
            S::get_block_at_height_step(*old(self).store, block_height, hash, *final(self).store),
            *final(final(self).store) == *final(old(self).store),
    {
        self.store.get_block_at_height(block_height)
    }

    /// The hash of a contract's source, as the commitment to it says, read by `D`.
    pub fn get_contract_hash<D: ClarityDeserializable<ContractCommitment>>(
        &mut self,
        contract: &QualifiedContractIdentifier,
    ) -> (result: Result<Option<Sha512Trunc256Sum>, VmExecutionError>)
        requires
            old(self).wf(),
        ensures
            final(self).wf(),
            exists|read: Result<Option<String>, VmExecutionError>|
                {
                    &&& #[trigger] data_read::<S, String>(
                        old(self)@,
                        *old(self).store,
                        contract@.hash_key,
                        read,
                        final(self)@,
                        *final(self).store,
                    )
                    &&& commitment_hash::<D>(read, result)
                },
            *final(final(self).store) == *final(old(self).store),
    {
        let key = make_contract_hash_key(contract);
        let read = self.get_data::<String>(key.as_str());
        hash_of_commitment::<D>(read)
    }

    /// Writes the commitment to a contract's source, as the store makes it of the source's hash.
    pub fn prepare_for_contract_metadata(
        &mut self,
        contract: &QualifiedContractIdentifier,
        content_hash: Sha512Trunc256Sum,
    ) -> (result: Result<(), VmExecutionError>)
        requires
            old(self).wf(),
        ensures
            final(self).wf(),
            exists|value: Seq<char>|
                {
                    &&& #[trigger] S::make_contract_commitment_step(
                        *old(self).store,
                        content_hash@,
                        value,
                        *final(self).store,
                    )
                    &&& data_written(
                        old(self)@,
                        contract@.hash_key,
                        value,
                        result,
                        final(self)@,
                    )
                },
            *final(final(self).store) == *final(old(self).store),
    {
        let key = make_contract_hash_key(contract);
        let value = self.store.make_contract_commitment(content_hash);
        self.put_data(key.as_str(), value.as_str())
    }

    /// Writes a metadata key in the innermost context.
    pub fn insert_metadata(
        &mut self,
        contract: &QualifiedContractIdentifier,
        key: &str,
        value: &str,
    ) -> (result: Result<(), VmInternalError>)
        requires
            old(self).wf(),
        ensures
            final(self).wf(),
            match result {
                Ok(()) => {
                    &&& old(self)@.log.contexts.len() > 0
                    &&& final(self)@ == (WrapperView {
                        log: old(self)@.log.insert_metadata((contract@, key@), value@),
                        ..old(self)@
                    })
                },
                Err(e) => {
                    &&& old(self)@.log.contexts.len() == 0
                    &&& final(self)@ == old(self)@
                    &&& e.text() == "ERROR: Clarity VM attempted PUT on non-nested context."@
                },
            },
            *final(self).store == *old(self).store,
            *final(final(self).store) == *final(old(self).store),
    {
        let metadata_key = (contract.clone(), key.to_string());
        self.state.log.insert_metadata(metadata_key, value.to_string())
    }

    /// Throws a NoSuchContract error if contract doesn't exist,
    /// returns None if there is no such metadata field.
    pub fn get_metadata(&mut self, contract: &QualifiedContractIdentifier, key: &str) -> (result:
        Result<Option<String>, VmExecutionError>)
        requires
            old(self).wf(),
        ensures
            final(self).wf(),
            metadata_read(
                old(self)@,
                *old(self).store,
                (contract@, key@),
                result,
                final(self)@,
                *final(self).store,
            ),
            *final(final(self).store) == *final(old(self).store),
    {
        if self.state.log.depth() == 0 {
            return Err(
                VmExecutionError::from(
                    VmInternalError::expect(
                        "ERROR: Clarity VM attempted GET on non-nested context.",
                    ),
                ),
            );
        }
        let metadata_key = (contract.clone(), key.to_string());
        if self.state.query_pending_data {
            if let Some(x) = self.state.log.pending_metadata(&metadata_key) {
                return Ok(Some(x.clone()));
            }
        }
        self.get_materialized_metadata(contract, key)
    }

    /// Throws a NoSuchContract error if contract doesn't exist,
    /// returns None if there is no such metadata field.
    pub fn get_metadata_manual(
        &mut self,
        at_height: u32,
        contract: &QualifiedContractIdentifier,
        key: &str,
    ) -> (result: Result<Option<String>, VmExecutionError>)
        requires
            old(self).wf(),
        ensures
            final(self).wf(),
            final(self)@ == old(self)@,
            if old(self)@.log.contexts.len() == 0 {
                &&& result matches Err(e) && e.is_expect(
                    "ERROR: Clarity VM attempted GET on non-nested context."@,
                )
                &&& *final(self).store == *old(self).store
            } else {
                match old(self)@.visible_metadata((contract@, key@)) {
                    Some(text) => {
                        &&& result matches Ok(Some(s)) && s@ == text
                        &&& *final(self).store == *old(self).store
                    },
                    None => S::get_metadata_manual_step(
                        *old(self).store,
                        at_height,
                        contract@,
                        key@,
                        result,
                        *final(self).store,
                    ),
                }
            },
            *final(final(self).store) == *final(old(self).store),
    {
        if self.state.log.depth() == 0 {
            return Err(
                VmExecutionError::from(
                    VmInternalError::expect(
                        "ERROR: Clarity VM attempted GET on non-nested context.",
                    ),
                ),
            );
        }
        let metadata_key = (contract.clone(), key.to_string());
        if self.state.query_pending_data {
            if let Some(x) = self.state.log.pending_metadata(&metadata_key) {
                return Ok(Some(x.clone()));
            }
        }
        self.store.get_metadata_manual(at_height, contract, key)
    }

    /// Whether a data key has a value: a pending one that reads see, or one in the store.
    pub fn has_entry(&mut self, key: &str) -> (result: Result<bool, VmExecutionError>)
        requires
            old(self).wf(),
        ensures
            final(self).wf(),
            final(self)@ == old(self)@,
            if old(self)@.log.contexts.len() == 0 {
                &&& result matches Err(e) && e.is_expect(
                    "ERROR: Clarity VM attempted GET on non-nested context."@,
                )
                &&& *final(self).store == *old(self).store
            } else if old(self)@.visible_data(key@) is Some {
                &&& result == Ok::<bool, VmExecutionError>(true)
                &&& *final(self).store == *old(self).store
            } else {
                S::has_entry_step(*old(self).store, key@, result, *final(self).store)
            },
            *final(final(self).store) == *final(old(self).store),
    {
        if self.state.log.depth() == 0 {
            return Err(
                VmExecutionError::from(
                    VmInternalError::expect(
                        "ERROR: Clarity VM attempted GET on non-nested context.",
                    ),
                ),
            );
        }
        if self.state.query_pending_data && self.state.log.pending_data(
            &key.to_string(),
        ).is_some() {
            Ok(true)
        } else {
            self.store.has_entry(key)
        }
    }

    /// Whether a read of a metadata key finds a value. A read that fails finds none.
    pub fn has_metadata_entry(&mut self, contract: &QualifiedContractIdentifier, key: &str) -> (found:
        bool)
        requires
            old(self).wf(),
        ensures
            final(self).wf(),
            exists|read: Result<Option<String>, VmExecutionError>|
                {
                    &&& #[trigger] metadata_read(
                        old(self)@,
                        *old(self).store,
                        (contract@, key@),
                        read,
                        final(self)@,
                        *final(self).store,
                    )
                    &&& found == (read matches Ok(Some(_)))
                },
            *final(final(self).store) == *final(old(self).store),
    {
        let read = self.get_metadata(contract, key);
        matches!(read, Ok(Some(_)))
    }
}

impl<'a, S: ClarityBackingStore> FromSpecImpl<RollbackWrapper<'a, S>> for RollbackWrapperPersistedLog {
    open spec fn obeys_from_spec() -> bool {
        true
    }

    open spec fn from_spec(o: RollbackWrapper<'a, S>) -> Self {
        o.persisted_log()
    }
}

/// The pending writes of a wrapper can go on without it.
impl<'a, S: ClarityBackingStore> From<RollbackWrapper<'a, S>> for RollbackWrapperPersistedLog {
    fn from(o: RollbackWrapper<'a, S>) -> (log: RollbackWrapperPersistedLog)
        ensures
            log@ == o@.log,
            o.wf() ==> log.wf(),
            *final(o.store) == o.current_store(),
    {
        o.state.log
    }
}

} // verus!
