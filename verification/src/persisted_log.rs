//! The pending writes of a wrapper, kept apart from its store.

use vstd::prelude::*;

use crate::edit_log::{
    edit_log, inner_put_data, last_write, lemma_tracks_prefix, lemma_tracks_push, newest,
    rollback_check_pre_bottom_commit, tracks, undo_edits, RollbackValueCheck,
};
use crate::errors::VmInternalError;
use crate::keyed_map::KeyedMap;
use crate::store::{data_items, metadata_items, MetadataKey, MetadataKeyView};

verus! {

/// The writes that were made in one context.
#[verifier::ext_equal]
pub struct ContextView {
    /// The writes to data keys, oldest first.
    pub edits: Seq<(Seq<char>, Seq<char>)>,
    /// The writes to metadata keys, oldest first.
    pub metadata_edits: Seq<(MetadataKeyView, Seq<char>)>,
}

/// The pending writes.
#[verifier::ext_equal]
pub struct LogView {
    /// The open contexts, outermost first.
    pub contexts: Seq<ContextView>,
    /// Writes to metadata keys whose context is gone. A commit to the store leaves them
    /// behind when the store refuses the data that goes with them.
    pub orphaned_metadata: Seq<(MetadataKeyView, Seq<char>)>,
}

/// The data writes of some contexts, oldest first.
pub open spec fn data_writes(contexts: Seq<ContextView>) -> Seq<(Seq<char>, Seq<char>)>
    decreases contexts.len(),
{
    if contexts.len() == 0 {
        Seq::empty()
    } else {
        data_writes(contexts.drop_last()) + contexts.last().edits
    }
}

/// The metadata writes of some contexts, oldest first.
pub open spec fn metadata_writes(contexts: Seq<ContextView>) -> Seq<(MetadataKeyView, Seq<char>)>
    decreases contexts.len(),
{
    if contexts.len() == 0 {
        Seq::empty()
    } else {
        metadata_writes(contexts.drop_last()) + contexts.last().metadata_edits
    }
}

impl ContextView {
    /// The context without writes.
    pub open spec fn empty() -> ContextView {
        ContextView { edits: Seq::empty(), metadata_edits: Seq::empty() }
    }
}

impl LogView {
    /// No open context, and no writes.
    pub open spec fn empty() -> LogView {
        LogView { contexts: Seq::empty(), orphaned_metadata: Seq::empty() }
    }

    /// All pending data writes, oldest first.
    pub open spec fn data_log(self) -> Seq<(Seq<char>, Seq<char>)> {
        data_writes(self.contexts)
    }

    /// All pending metadata writes, oldest first.
    pub open spec fn metadata_log(self) -> Seq<(MetadataKeyView, Seq<char>)> {
        self.orphaned_metadata + metadata_writes(self.contexts)
    }

    /// The pending value of a data key.
    pub open spec fn pending_data(self, key: Seq<char>) -> Option<Seq<char>> {
        last_write(self.data_log(), key)
    }

    /// The pending value of a metadata key.
    pub open spec fn pending_metadata(self, key: MetadataKeyView) -> Option<Seq<char>> {
        last_write(self.metadata_log(), key)
    }

    /// With a new innermost context.
    pub open spec fn nest(self) -> LogView {
        LogView { contexts: self.contexts.push(ContextView::empty()), ..self }
    }

    /// With a data write in the innermost context.
    pub open spec fn put_data(self, key: Seq<char>, value: Seq<char>) -> LogView {
        let current = self.contexts.last();
        LogView {
            contexts: self.contexts.drop_last().push(
                ContextView { edits: current.edits.push((key, value)), ..current },
            ),
            ..self
        }
    }

    /// With a metadata write in the innermost context.
    pub open spec fn insert_metadata(self, key: MetadataKeyView, value: Seq<char>) -> LogView {
        let current = self.contexts.last();
        LogView {
            contexts: self.contexts.drop_last().push(
                ContextView { metadata_edits: current.metadata_edits.push((key, value)), ..current },
            ),
            ..self
        }
    }

    /// Without the innermost context and its writes.
    pub open spec fn rollback(self) -> LogView {
        LogView { contexts: self.contexts.drop_last(), ..self }
    }

    /// With the writes of the innermost context in the one around it.
    pub open spec fn commit_to_parent(self) -> LogView {
        let child = self.contexts.last();
        let outer = self.contexts.drop_last();
        let parent = outer.last();
        LogView {
            contexts: outer.drop_last().push(
                ContextView {
                    edits: parent.edits + child.edits,
                    metadata_edits: parent.metadata_edits + child.metadata_edits,
                },
            ),
            ..self
        }
    }
}

/// A data write adds to the data writes, and leaves the metadata writes as they are.
pub proof fn lemma_put_data(log: LogView, key: Seq<char>, value: Seq<char>)
    requires
        log.contexts.len() > 0,
    ensures
        log.put_data(key, value).data_log() == log.data_log().push((key, value)),
        log.put_data(key, value).metadata_log() == log.metadata_log(),
{
    let after = log.put_data(key, value);
    assert(after.contexts.drop_last() =~= log.contexts.drop_last());
    assert(after.data_log() =~= log.data_log().push((key, value)));
}

/// A metadata write adds to the metadata writes, and leaves the data writes as they are.
pub proof fn lemma_insert_metadata(log: LogView, key: MetadataKeyView, value: Seq<char>)
    requires
        log.contexts.len() > 0,
    ensures
        log.insert_metadata(key, value).metadata_log() == log.metadata_log().push((key, value)),
        log.insert_metadata(key, value).data_log() == log.data_log(),
{
    let after = log.insert_metadata(key, value);
    assert(after.contexts.drop_last() =~= log.contexts.drop_last());
    assert(after.metadata_log() =~= log.metadata_log().push((key, value)));
}

/// Opening a context changes no writes.
pub proof fn lemma_nest(log: LogView)
    ensures
        log.nest().data_log() == log.data_log(),
        log.nest().metadata_log() == log.metadata_log(),
{
    assert(log.nest().contexts.drop_last() =~= log.contexts);
    assert(log.nest().data_log() =~= log.data_log());
    assert(log.nest().metadata_log() =~= log.metadata_log());
}

/// A commit to the parent changes no writes, nor their order.
pub proof fn lemma_commit_to_parent(log: LogView)
    requires
        log.contexts.len() >= 2,
    ensures
        log.commit_to_parent().data_log() == log.data_log(),
        log.commit_to_parent().metadata_log() == log.metadata_log(),
{
    let after = log.commit_to_parent();
    let outer = log.contexts.drop_last();
    assert(after.contexts.drop_last() =~= outer.drop_last());
    reveal_with_fuel(data_writes, 3);
    reveal_with_fuel(metadata_writes, 3);
    assert(after.data_log() =~= log.data_log());
    assert(after.metadata_log() =~= log.metadata_log());
}

/// The edits of one context.
pub struct RollbackContext {
    edits: Vec<(String, RollbackValueCheck)>,
    metadata_edits: Vec<(MetadataKey, RollbackValueCheck)>,
}

impl View for RollbackContext {
    type V = ContextView;

    closed spec fn view(&self) -> ContextView {
        ContextView { edits: edit_log(self.edits@), metadata_edits: edit_log(self.metadata_edits@) }
    }
}

impl RollbackContext {
    /// A context without edits.
    fn new() -> (context: RollbackContext)
        ensures
            context@ == ContextView::empty(),
    {
        let context = RollbackContext { edits: Vec::new(), metadata_edits: Vec::new() };
        assert(context@ =~= ContextView::empty());
        context
    }
}

/// The pending writes of a wrapper, which can outlive the wrapper and its store.
pub struct RollbackWrapperPersistedLog {
    /// For each data key its pending values, the newest at the tail.
    lookup_map: KeyedMap<String, Vec<String>>,
    /// For each metadata key its pending values, the newest at the tail.
    metadata_lookup_map: KeyedMap<MetadataKey, Vec<String>>,
    /// The open contexts, which tell which edits were made in which of them.
    stack: Vec<RollbackContext>,
    /// Metadata edits that are in the lookup map but in no context.
    orphaned_metadata: Ghost<Seq<(MetadataKeyView, Seq<char>)>>,
}

impl View for RollbackWrapperPersistedLog {
    type V = LogView;

    closed spec fn view(&self) -> LogView {
        LogView {
            contexts: self.stack@.map_values(|context: RollbackContext| context@),
            orphaned_metadata: self.orphaned_metadata@,
        }
    }
}

impl Default for RollbackWrapperPersistedLog {
    fn default() -> (log: Self)
        ensures
            log.wf(),
            log@ == LogView::empty(),
    {
        RollbackWrapperPersistedLog::new()
    }
}

impl RollbackWrapperPersistedLog {
    /// The lookup maps hold the histories of what the contexts log.
    pub closed spec fn wf(self) -> bool {
        &&& tracks(self.lookup_map, self@.data_log())
        &&& tracks(self.metadata_lookup_map, self@.metadata_log())
    }

    /// The log of a wrapper that has done nothing yet.
    pub fn new() -> (log: RollbackWrapperPersistedLog)
        ensures
            log.wf(),
            log@ == LogView::empty(),
    {
        let log = RollbackWrapperPersistedLog {
            lookup_map: KeyedMap::new(),
            metadata_lookup_map: KeyedMap::new(),
            stack: Vec::new(),
            orphaned_metadata: Ghost(Seq::empty()),
        };
        assert(log@ =~= LogView::empty());
        assert(log@.metadata_log() =~= Seq::empty());
        log
    }

    /// Opens a context.
    pub fn nest(&mut self)
        requires
            old(self).wf(),
        ensures
            final(self).wf(),
            final(self)@ == old(self)@.nest(),
    {
        self.stack.push(RollbackContext::new());
        proof {
            assert(self@ =~= old(self)@.nest());
            lemma_nest(old(self)@);
        }
    }

    /// How many contexts are open.
    pub(crate) fn depth(&self) -> (depth: usize)
        ensures
            depth == self@.contexts.len(),
    {
        self.stack.len()
    }

    /// The pending value of a data key.
    pub(crate) fn pending_data(&self, key: &String) -> (value: Option<&String>)
        requires
            self.wf(),
        ensures
            match value {
                Some(v) => self@.pending_data(key@) == Some(v@),
                None => self@.pending_data(key@) is None,
            },
    {
        newest(&self.lookup_map, key, Ghost(self@.data_log()))
    }

    /// The pending value of a metadata key.
    pub(crate) fn pending_metadata(&self, key: &MetadataKey) -> (value: Option<&String>)
        requires
            self.wf(),
        ensures
            match value {
                Some(v) => self@.pending_metadata(key@) == Some(v@),
                None => self@.pending_metadata(key@) is None,
            },
    {
        newest(&self.metadata_lookup_map, key, Ghost(self@.metadata_log()))
    }

    /// Writes a data key in the innermost context.
    pub(crate) fn put_data(&mut self, key: String, value: String) -> (result: Result<
        (),
        VmInternalError,
    >)
        requires
            old(self).wf(),
        ensures
            final(self).wf(),
            match result {
                Ok(()) => {
                    &&& old(self)@.contexts.len() > 0
                    &&& final(self)@ == old(self)@.put_data(key@, value@)
                },
                Err(e) => {
                    &&& old(self)@.contexts.len() == 0
                    &&& final(self)@ == old(self)@
                    &&& e.text() == "ERROR: Clarity VM attempted PUT on non-nested context."@
                },
            },
    {
        let mut current = match self.stack.pop() {
            Some(current) => current,
            None => {
                return Err(
                    VmInternalError::expect(
                        "ERROR: Clarity VM attempted PUT on non-nested context.",
                    ),
                );
            },
        };
        let ghost written = key@;
        let ghost text = value@;
        inner_put_data(&mut self.lookup_map, &mut current.edits, key, value);
        self.stack.push(current);
        proof {
            assert(self@ =~= old(self)@.put_data(written, text));
            lemma_put_data(old(self)@, written, text);
            lemma_tracks_push(
                old(self).lookup_map,
                self.lookup_map,
                old(self)@.data_log(),
                written,
                text,
            );
        }
        Ok(())
    }

    /// Writes a metadata key in the innermost context.
    pub(crate) fn insert_metadata(&mut self, key: MetadataKey, value: String) -> (result: Result<
        (),
        VmInternalError,
    >)
        requires
            old(self).wf(),
        ensures
            final(self).wf(),
            match result {
                Ok(()) => {
                    &&& old(self)@.contexts.len() > 0
                    &&& final(self)@ == old(self)@.insert_metadata(key@, value@)
                },
                Err(e) => {
                    &&& old(self)@.contexts.len() == 0
                    &&& final(self)@ == old(self)@
                    &&& e.text() == "ERROR: Clarity VM attempted PUT on non-nested context."@
                },
            },
    {
        let mut current = match self.stack.pop() {
            Some(current) => current,
            None => {
                return Err(
                    VmInternalError::expect(
                        "ERROR: Clarity VM attempted PUT on non-nested context.",
                    ),
                );
            },
        };
        let ghost written = key@;
        let ghost text = value@;
        inner_put_data(&mut self.metadata_lookup_map, &mut current.metadata_edits, key, value);
        self.stack.push(current);
        proof {
            assert(self@ =~= old(self)@.insert_metadata(written, text));
            lemma_insert_metadata(old(self)@, written, text);
            lemma_tracks_push(
                old(self).metadata_lookup_map,
                self.metadata_lookup_map,
                old(self)@.metadata_log(),
                written,
                text,
            );
        }
        Ok(())
    }

    /// Closes the innermost context and forgets its writes. With no open context, nothing
    /// changes, and that is the error.
    pub(crate) fn rollback(&mut self) -> (result: Result<(), VmInternalError>)
        requires
            old(self).wf(),
        ensures
            final(self).wf(),
            match result {
                Ok(()) => {
                    &&& old(self)@.contexts.len() > 0
                    &&& final(self)@ == old(self)@.rollback()
                },
                Err(e) => {
                    &&& old(self)@.contexts.len() == 0
                    &&& final(self)@ == old(self)@
                    &&& e.text() == "ERROR: Clarity VM attempted to commit past the stack."@
                },
            },
    {
        let last_item = match self.stack.pop() {
            Some(last_item) => last_item,
            None => {
                return Err(
                    VmInternalError::expect(
                        "ERROR: Clarity VM attempted to commit past the stack.",
                    ),
                );
            },
        };
        let ghost outer = old(self)@.contexts.drop_last();
        let ghost orphaned = self.orphaned_metadata@;
        proof {
            assert(self@.contexts =~= outer);
            assert(orphaned + metadata_writes(outer) + last_item@.metadata_edits
                =~= old(self)@.metadata_log());
        }
        undo_edits(last_item.edits, &mut self.lookup_map, Ghost(data_writes(outer)))?;
        undo_edits(
            last_item.metadata_edits,
            &mut self.metadata_lookup_map,
            Ghost(orphaned + metadata_writes(outer)),
        )?;
        proof {
            assert(self@ =~= old(self)@.rollback());
        }
        Ok(())
    }

    /// Hands the writes of the innermost context to the one around it.
    pub(crate) fn commit_to_parent(&mut self)
        requires
            old(self).wf(),
            old(self)@.contexts.len() >= 2,
        ensures
            final(self).wf(),
            final(self)@ == old(self)@.commit_to_parent(),
    {
        if let Some(mut last_item) = self.stack.pop() {
            if let Some(mut next_up) = self.stack.pop() {
                let ghost parent = next_up@;
                let ghost child = last_item@;
                next_up.edits.append(&mut last_item.edits);
                next_up.metadata_edits.append(&mut last_item.metadata_edits);
                assert(next_up@.edits =~= parent.edits + child.edits);
                assert(next_up@.metadata_edits =~= parent.metadata_edits + child.metadata_edits);
                self.stack.push(next_up);
                proof {
                    assert(self@ =~= old(self)@.commit_to_parent());
                    lemma_commit_to_parent(old(self)@);
                }
            }
        }
    }

    /// Closes the outermost context. Its data writes are given out; its metadata edits are
    /// given out too, but their values stay behind.
    pub(crate) fn take_outermost_data(&mut self) -> (result: Result<
        (Vec<(String, String)>, Vec<(MetadataKey, RollbackValueCheck)>),
        VmInternalError,
    >)
        requires
            old(self).wf(),
            old(self)@.contexts.len() == 1,
        ensures
            final(self).wf(),
            final(self)@ == (LogView {
                contexts: Seq::empty(),
                orphaned_metadata: old(self)@.orphaned_metadata
                    + old(self)@.contexts[0].metadata_edits,
            }),
            match result {
                Ok((items, metadata_edits)) => {
                    &&& data_items(items@) == old(self)@.contexts[0].edits
                    &&& edit_log(metadata_edits@) == old(self)@.contexts[0].metadata_edits
                },
                Err(_) => false,
            },
    {
        let last_item = match self.stack.pop() {
            Some(last_item) => last_item,
            None => RollbackContext::new(),
        };
        let ghost outermost = last_item@;
        proof {
            let orphaned = self.orphaned_metadata@ + outermost.metadata_edits;
            self.orphaned_metadata@ = orphaned;
            let contexts = old(self)@.contexts;
            assert(contexts.last() == outermost);
            reveal_with_fuel(data_writes, 2);
            reveal_with_fuel(metadata_writes, 2);
            assert(old(self)@.data_log() =~= outermost.edits);
            assert(old(self)@.metadata_log() =~= orphaned);
            assert(self@ =~= LogView { contexts: Seq::empty(), orphaned_metadata: orphaned });
            assert(self@.metadata_log() =~= orphaned);
            lemma_tracks_prefix(self.lookup_map, outermost.edits);
        }
        let items = rollback_check_pre_bottom_commit(last_item.edits, &mut self.lookup_map)?;
        Ok((items, last_item.metadata_edits))
    }

    /// Gives out the metadata writes whose context has been closed.
    pub(crate) fn take_orphaned_metadata(
        &mut self,
        metadata_edits: Vec<(MetadataKey, RollbackValueCheck)>,
    ) -> (result: Result<Vec<(MetadataKey, String)>, VmInternalError>)
        requires
            old(self).wf(),
            old(self)@.contexts.len() == 0,
            old(self)@.orphaned_metadata == edit_log(metadata_edits@),
        ensures
            final(self).wf(),
            final(self)@ == LogView::empty(),
            match result {
                Ok(items) => metadata_items(items@) == old(self)@.orphaned_metadata,
                Err(_) => false,
            },
    {
        proof {
            assert(old(self)@.metadata_log() =~= edit_log(metadata_edits@));
            lemma_tracks_prefix(self.metadata_lookup_map, edit_log(metadata_edits@));
            self.orphaned_metadata@ = Seq::empty();
            assert(self@ =~= LogView::empty());
            assert(self@.metadata_log() =~= Seq::empty());
        }
        rollback_check_pre_bottom_commit(metadata_edits, &mut self.metadata_lookup_map)
    }
}

} // verus!
