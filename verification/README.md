# rollback_wrapper

Nested, revocable writes over a key-value backing store, verified with Verus.

A `RollbackWrapper` borrows a store and holds writes back in nested contexts. Rolling a
context back forgets its writes. Committing it hands them to the context around it or, from
the outermost one, to the store. Reads see pending writes first, unless the wrapper reads as of
another block; then what the store answers is remembered per block.

- `src/key_value_wrapper.rs`: the wrapper, and what each of its operations does.
- `src/persisted_log.rs`: the pending writes, which can outlive a wrapper.
- `src/edit_log.rs`: logs of writes, and the lookup map with the history of each key.
- `src/keyed_map.rs`: the map under the lookup maps and the caches.
- `src/store.rs`: what is asked of a store, and of types that are read from stored text.
- `src/types.rs`, `src/errors.rs`: the values and errors that pass through.
- `src/laws.rs`: what holds over several operations.
- `src/cache_laws.rs`: what is remembered of the store is what the store would answer.
