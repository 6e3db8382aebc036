//! Nested contexts: what reads see, and what reaches the store.

use std::collections::HashMap;

use rollback_wrapper::errors::{SerializationError, VmExecutionError, VmInternalError};
use rollback_wrapper::key_value_wrapper::RollbackWrapper;
use rollback_wrapper::persisted_log::RollbackWrapperPersistedLog;
use rollback_wrapper::store::{ClarityBackingStore, ClarityDeserializable, MetadataKey};
use rollback_wrapper::types::{
    make_contract_hash_key, ContractCommitment, QualifiedContractIdentifier, Sha512Trunc256Sum,
    StacksBlockId, StacksEpochId, TrieHash,
};

/// A store that keeps what it is given, and can be told to refuse requests.
#[derive(Default)]
struct TestStore {
    data: HashMap<String, String>,
    metadata: HashMap<MetadataKey, String>,
    /// Each list of items that was written, in order.
    data_puts: Vec<Vec<(String, String)>>,
    metadata_puts: Vec<Vec<(MetadataKey, String)>>,
    reads: usize,
    manual_reads: Vec<u32>,
    paths: HashMap<[u8; 32], String>,
    blocks: Vec<[u8; 32]>,
    refuse_data: Option<VmExecutionError>,
    refuse_metadata: Option<VmExecutionError>,
    refuse_reads: bool,
    refuse_block: bool,
}

fn refused() -> VmExecutionError {
    VmExecutionError::Other("refused".to_string())
}

impl ClarityBackingStore for TestStore {
    type SpecialCaseHandler = &'static str;

    fn put_all_data(&mut self, items: Vec<(String, String)>) -> Result<(), VmExecutionError> {
        if let Some(e) = self.refuse_data.take() {
            return Err(e);
        }
        for (key, value) in items.iter() {
            self.data.insert(key.clone(), value.clone());
        }
        self.data_puts.push(items);
        Ok(())
    }

    fn get_data(&mut self, key: &str) -> Result<Option<String>, VmExecutionError> {
        self.reads += 1;
        if self.refuse_reads {
            return Err(refused());
        }
        Ok(self.data.get(key).cloned())
    }

    fn get_data_from_path(&mut self, hash: &TrieHash) -> Result<Option<String>, VmExecutionError> {
        Ok(self.paths.get(&hash.0).cloned())
    }

    fn get_data_with_proof(
        &mut self,
        key: &str,
    ) -> Result<Option<(String, Vec<u8>)>, VmExecutionError> {
        Ok(self.data.get(key).map(|value| (value.clone(), vec![1, 2])))
    }

    fn get_data_with_proof_from_path(
        &mut self,
        hash: &TrieHash,
    ) -> Result<Option<(String, Vec<u8>)>, VmExecutionError> {
        Ok(self.paths.get(&hash.0).map(|value| (value.clone(), vec![3])))
    }

    fn has_entry(&mut self, key: &str) -> Result<bool, VmExecutionError> {
        if self.refuse_reads {
            return Err(refused());
        }
        Ok(self.data.contains_key(key))
    }

    fn set_block_hash(&mut self, bhh: StacksBlockId) -> Result<StacksBlockId, VmExecutionError> {
        if self.refuse_block {
            return Err(refused());
        }
        let prior = self.blocks.last().copied().unwrap_or([0; 32]);
        self.blocks.push(bhh.0);
        Ok(StacksBlockId(prior))
    }

    fn get_block_at_height(&mut self, height: u32) -> Option<StacksBlockId> {
        if height < 7 {
            Some(StacksBlockId([height as u8; 32]))
        } else {
            None
        }
    }

    fn get_current_block_height(&mut self) -> u32 {
        7
    }

    fn make_contract_commitment(&mut self, contract_hash: Sha512Trunc256Sum) -> String {
        format!("commitment {}", contract_hash.0[0])
    }

    fn put_all_metadata(
        &mut self,
        items: Vec<(MetadataKey, String)>,
    ) -> Result<(), VmExecutionError> {
        if let Some(e) = self.refuse_metadata.take() {
            return Err(e);
        }
        for (key, value) in items.iter() {
            self.metadata.insert(key.clone(), value.clone());
        }
        self.metadata_puts.push(items);
        Ok(())
    }

    fn get_metadata(
        &mut self,
        contract: &QualifiedContractIdentifier,
        key: &str,
    ) -> Result<Option<String>, VmExecutionError> {
        self.reads += 1;
        if self.refuse_reads {
            return Err(refused());
        }
        Ok(self
            .metadata
            .get(&(contract.clone(), key.to_string()))
            .cloned())
    }

    fn get_metadata_manual(
        &mut self,
        at_height: u32,
        _contract: &QualifiedContractIdentifier,
        key: &str,
    ) -> Result<Option<String>, VmExecutionError> {
        self.manual_reads.push(at_height);
        Ok(Some(format!("{} at {}", key, at_height)))
    }

    fn get_cc_special_cases_handler(&self) -> Option<&'static str> {
        Some("handler")
    }
}

/// Reads the commitments that `TestStore` makes.
struct Commitments;

impl ClarityDeserializable<ContractCommitment> for Commitments {
    fn deserialize(text: &str) -> Result<ContractCommitment, VmExecutionError> {
        match text.strip_prefix("commitment ").and_then(|n| n.parse::<u8>().ok()) {
            Some(n) => Ok(ContractCommitment {
                hash: Sha512Trunc256Sum([n; 32]),
            }),
            None => Err(VmExecutionError::Other("bad commitment".to_string())),
        }
    }
}

/// A number, read from its digits.
#[derive(Debug, PartialEq)]
struct Number(u64);

impl ClarityDeserializable<Number> for Number {
    fn deserialize(text: &str) -> Result<Number, VmExecutionError> {
        match text.parse::<u64>() {
            Ok(n) => Ok(Number(n)),
            Err(_) => Err(VmExecutionError::Other("no number".to_string())),
        }
    }
}

fn contract(name: &str) -> QualifiedContractIdentifier {
    QualifiedContractIdentifier {
        name: name.to_string(),
        hash_key: format!("hash-of-{}", name),
    }
}

fn read(wrapper: &mut RollbackWrapper<'_, TestStore>, key: &str) -> Option<String> {
    wrapper.get_data::<String>(key).unwrap()
}

fn items(pairs: &[(&str, &str)]) -> Vec<(String, String)> {
    pairs
        .iter()
        .map(|(key, value)| (key.to_string(), value.to_string()))
        .collect()
}

fn expected(text: &str) -> VmInternalError {
    VmInternalError::Expect(text.to_string())
}

const GET_OUTSIDE: &str = "ERROR: Clarity VM attempted GET on non-nested context.";
const PUT_OUTSIDE: &str = "ERROR: Clarity VM attempted PUT on non-nested context.";
const PAST_STACK: &str = "ERROR: Clarity VM attempted to commit past the stack.";

#[test]
fn a_write_is_read_and_others_are_not_touched() {
    let mut store = TestStore::default();
    store.data.insert("stored".to_string(), "s".to_string());
    let id = contract("c");
    let mut wrapper = RollbackWrapper::new(&mut store);
    wrapper.nest();
    wrapper.put_data("a", "1").unwrap();
    wrapper.put_data("b", "2").unwrap();
    wrapper.put_data("a", "3").unwrap();
    assert_eq!(read(&mut wrapper, "a"), Some("3".to_string()));
    assert_eq!(read(&mut wrapper, "b"), Some("2".to_string()));
    assert_eq!(read(&mut wrapper, "stored"), Some("s".to_string()));
    assert_eq!(read(&mut wrapper, "none"), None);
    assert_eq!(wrapper.get_metadata(&id, "a").unwrap(), None);
    wrapper.insert_metadata(&id, "a", "m").unwrap();
    assert_eq!(wrapper.get_metadata(&id, "a").unwrap(), Some("m".to_string()));
    assert_eq!(wrapper.get_metadata(&contract("d"), "a").unwrap(), None);
    assert_eq!(read(&mut wrapper, "a"), Some("3".to_string()));
}

#[test]
fn pending_reads_do_not_ask_the_store() {
    let mut store = TestStore::default();
    let mut wrapper = RollbackWrapper::new(&mut store);
    wrapper.nest();
    wrapper.put_data("a", "1").unwrap();
    assert_eq!(read(&mut wrapper, "a"), Some("1".to_string()));
    drop(wrapper);
    assert_eq!(store.reads, 0);
}

#[test]
fn rollback_restores_what_was_there() {
    let mut store = TestStore::default();
    let id = contract("c");
    let mut wrapper = RollbackWrapper::new(&mut store);
    wrapper.nest();
    wrapper.put_data("a", "1").unwrap();
    wrapper.insert_metadata(&id, "k", "m").unwrap();
    wrapper.nest();
    assert_eq!(wrapper.depth(), 2);
    wrapper.put_data("a", "2").unwrap();
    wrapper.put_data("a", "3").unwrap();
    wrapper.put_data("b", "4").unwrap();
    wrapper.insert_metadata(&id, "k", "n").unwrap();
    assert_eq!(read(&mut wrapper, "a"), Some("3".to_string()));
    wrapper.rollback().unwrap();
    assert_eq!(wrapper.depth(), 1);
    assert_eq!(read(&mut wrapper, "a"), Some("1".to_string()));
    assert_eq!(read(&mut wrapper, "b"), None);
    assert_eq!(wrapper.get_metadata(&id, "k").unwrap(), Some("m".to_string()));
    wrapper.rollback().unwrap();
    wrapper.nest();
    assert_eq!(read(&mut wrapper, "a"), None);
    drop(wrapper);
    assert!(store.data_puts.is_empty());
}

#[test]
fn rollback_undoes_inner_commits() {
    let mut store = TestStore::default();
    let mut wrapper = RollbackWrapper::new(&mut store);
    wrapper.nest();
    wrapper.put_data("a", "1").unwrap();
    wrapper.nest();
    wrapper.nest();
    wrapper.put_data("a", "2").unwrap();
    wrapper.commit().unwrap();
    wrapper.nest();
    wrapper.put_data("a", "3").unwrap();
    wrapper.rollback().unwrap();
    assert_eq!(read(&mut wrapper, "a"), Some("2".to_string()));
    wrapper.rollback().unwrap();
    assert_eq!(read(&mut wrapper, "a"), Some("1".to_string()));
}

#[test]
fn commits_reach_the_store_in_order_of_writing() {
    let mut store = TestStore::default();
    let id = contract("c");
    let mut wrapper = RollbackWrapper::new(&mut store);
    wrapper.nest();
    wrapper.put_data("a", "1").unwrap();
    wrapper.put_data("b", "2").unwrap();
    wrapper.nest();
    wrapper.put_data("a", "3").unwrap();
    wrapper.insert_metadata(&id, "k", "m").unwrap();
    wrapper.commit().unwrap();
    assert_eq!(wrapper.depth(), 1);
    assert_eq!(read(&mut wrapper, "a"), Some("3".to_string()));
    wrapper.put_data("b", "4").unwrap();
    wrapper.insert_metadata(&id, "k", "n").unwrap();
    wrapper.commit().unwrap();
    assert_eq!(wrapper.depth(), 0);
    wrapper.nest();
    assert_eq!(read(&mut wrapper, "a"), Some("3".to_string()));
    assert_eq!(read(&mut wrapper, "b"), Some("4".to_string()));
    drop(wrapper);
    assert_eq!(
        store.data_puts,
        vec![items(&[("a", "1"), ("b", "2"), ("a", "3"), ("b", "4")])]
    );
    let key = (id.clone(), "k".to_string());
    assert_eq!(
        store.metadata_puts,
        vec![vec![
            (key.clone(), "m".to_string()),
            (key.clone(), "n".to_string())
        ]]
    );
    assert_eq!(store.metadata.get(&key), Some(&"n".to_string()));
}

#[test]
fn a_commit_without_writes_does_not_ask_the_store() {
    let mut store = TestStore::default();
    store.refuse_data = Some(refused());
    store.refuse_metadata = Some(refused());
    let mut wrapper = RollbackWrapper::new(&mut store);
    wrapper.nest();
    assert_eq!(wrapper.commit(), Ok(()));
    assert_eq!(wrapper.depth(), 0);
    drop(wrapper);
    assert!(store.refuse_data.is_some());
    assert!(store.refuse_metadata.is_some());
}

#[test]
fn many_keys_are_kept_apart() {
    let mut store = TestStore::default();
    let mut wrapper = RollbackWrapper::new(&mut store);
    wrapper.nest();
    for i in 0..300 {
        wrapper.put_data(&format!("key-{}", i), &format!("{}", i)).unwrap();
    }
    wrapper.nest();
    for i in 0..300 {
        wrapper.put_data(&format!("key-{}", i), &format!("{}", i + 1000)).unwrap();
    }
    for i in 0..300 {
        assert_eq!(read(&mut wrapper, &format!("key-{}", i)), Some(format!("{}", i + 1000)));
    }
    wrapper.rollback().unwrap();
    for i in 0..300 {
        assert_eq!(read(&mut wrapper, &format!("key-{}", i)), Some(format!("{}", i)));
    }
    wrapper.commit().unwrap();
    drop(wrapper);
    assert_eq!(store.data_puts[0].len(), 300);
    assert_eq!(store.data_puts[0][299], ("key-299".to_string(), "299".to_string()));
}

#[test]
fn operations_outside_any_context_are_errors() {
    let mut store = TestStore::default();
    let id = contract("c");
    let mut wrapper = RollbackWrapper::new(&mut store);
    assert_eq!(wrapper.depth(), 0);
    assert_eq!(wrapper.commit(), Err(expected(PAST_STACK)));
    assert_eq!(wrapper.rollback(), Err(expected(PAST_STACK)));
    assert_eq!(
        wrapper.put_data("a", "1"),
        Err(VmExecutionError::Internal(expected(PUT_OUTSIDE)))
    );
    assert_eq!(
        wrapper.insert_metadata(&id, "a", "1"),
        Err(expected(PUT_OUTSIDE))
    );
    let get_error = || VmExecutionError::Internal(expected(GET_OUTSIDE));
    assert_eq!(wrapper.get_data::<String>("a"), Err(get_error()));
    assert_eq!(wrapper.get_metadata(&id, "a"), Err(get_error()));
    assert_eq!(wrapper.get_metadata_manual(3, &id, "a"), Err(get_error()));
    assert_eq!(wrapper.has_entry("a"), Err(get_error()));
    assert!(!wrapper.has_metadata_entry(&id, "a"));
    assert_eq!(wrapper.get_contract_hash::<Commitments>(&id), Err(get_error()));
    assert_eq!(
        wrapper.prepare_for_contract_metadata(&id, Sha512Trunc256Sum([1; 32])),
        Err(VmExecutionError::Internal(expected(PUT_OUTSIDE)))
    );
    let value = wrapper.get_value("a", &(), &StacksEpochId { value_sanitizing: true }, decode);
    assert_eq!(
        value.unwrap_err(),
        SerializationError::DeserializationFailure(GET_OUTSIDE.to_string())
    );
    drop(wrapper);
    assert_eq!(store.reads, 0);
}

#[test]
fn refused_data_leaves_the_metadata_readable() {
    let mut store = TestStore::default();
    store.refuse_data = Some(VmExecutionError::Internal(expected("no \"room\"")));
    let id = contract("c");
    let mut wrapper = RollbackWrapper::new(&mut store);
    wrapper.nest();
    wrapper.put_data("a", "1").unwrap();
    wrapper.insert_metadata(&id, "k", "m").unwrap();
    assert_eq!(
        wrapper.commit(),
        Err(expected(
            "ERROR: Failed to commit data to sql store: Internal(Expect(\"no \\\"room\\\"\"))"
        ))
    );
    assert_eq!(wrapper.depth(), 0);
    wrapper.nest();
    assert_eq!(read(&mut wrapper, "a"), None);
    assert_eq!(wrapper.get_metadata(&id, "k").unwrap(), Some("m".to_string()));
    wrapper.insert_metadata(&id, "k", "n").unwrap();
    wrapper.rollback().unwrap();
    wrapper.nest();
    assert_eq!(wrapper.get_metadata(&id, "k").unwrap(), Some("m".to_string()));
    drop(wrapper);
    assert!(store.metadata_puts.is_empty());
}

#[test]
fn data_refused_again_adds_to_the_metadata_left_behind() {
    let mut store = TestStore::default();
    store.refuse_data = Some(refused());
    let id = contract("c");
    let mut wrapper = RollbackWrapper::new(&mut store);
    wrapper.nest();
    wrapper.put_data("a", "1").unwrap();
    wrapper.insert_metadata(&id, "k", "m").unwrap();
    wrapper.insert_metadata(&id, "l", "m").unwrap();
    assert!(wrapper.commit().is_err());
    wrapper.store.refuse_data = Some(refused());
    wrapper.nest();
    wrapper.put_data("a", "2").unwrap();
    wrapper.insert_metadata(&id, "k", "n").unwrap();
    assert_eq!(
        wrapper.commit(),
        Err(expected("ERROR: Failed to commit data to sql store: refused"))
    );
    assert_eq!(wrapper.depth(), 0);
    wrapper.nest();
    assert_eq!(read(&mut wrapper, "a"), None);
    assert_eq!(wrapper.get_metadata(&id, "k").unwrap(), Some("n".to_string()));
    assert_eq!(wrapper.get_metadata(&id, "l").unwrap(), Some("m".to_string()));
    drop(wrapper);
    assert!(store.data_puts.is_empty());
    assert!(store.metadata_puts.is_empty());
}

#[test]
fn refused_metadata_is_gone() {
    let mut store = TestStore::default();
    store.refuse_metadata = Some(refused());
    let id = contract("c");
    let mut wrapper = RollbackWrapper::new(&mut store);
    wrapper.nest();
    wrapper.put_data("a", "1").unwrap();
    wrapper.insert_metadata(&id, "k", "m").unwrap();
    assert_eq!(
        wrapper.commit(),
        Err(expected("ERROR: Failed to commit data to sql store: refused"))
    );
    wrapper.nest();
    assert_eq!(read(&mut wrapper, "a"), Some("1".to_string()));
    assert_eq!(wrapper.get_metadata(&id, "k").unwrap(), None);
    assert_eq!(wrapper.commit(), Ok(()));
    drop(wrapper);
    assert_eq!(store.data_puts, vec![items(&[("a", "1")])]);
}

#[test]
fn debug_text_is_the_one_of_the_error() {
    let text = "tab\t, quote\" and \u{e9}";
    let e = VmExecutionError::Internal(expected(text));
    assert_eq!(e.debug_text(), format!("{:?}", e));
    assert_eq!(refused().debug_text(), "refused");
    assert_eq!(VmExecutionError::from(expected(text)), e);
}

#[test]
fn a_commit_with_data_forgets_remembered_reads() {
    let block = StacksBlockId([9; 32]);
    let mut store = TestStore::default();
    store.data.insert("a".to_string(), "0".to_string());
    let id = contract("c");
    let mut wrapper = RollbackWrapper::new(&mut store);
    wrapper.nest();
    wrapper.set_block_hash(block, false).unwrap();
    assert_eq!(read(&mut wrapper, "a"), Some("0".to_string()));
    assert_eq!(read(&mut wrapper, "none"), None);
    assert_eq!(read(&mut wrapper, "none"), None);
    assert_eq!(wrapper.get_metadata(&id, "k").unwrap(), None);
    assert_eq!(wrapper.store.reads, 3);
    wrapper.put_data("a", "1").unwrap();
    assert_eq!(read(&mut wrapper, "a"), Some("0".to_string()));
    wrapper.commit().unwrap();
    wrapper.nest();
    assert_eq!(read(&mut wrapper, "a"), Some("1".to_string()));
    assert_eq!(wrapper.store.reads, 4);
    // the metadata was not written
    assert_eq!(wrapper.get_metadata(&id, "k").unwrap(), None);
    assert_eq!(wrapper.store.reads, 4);
    wrapper.insert_metadata(&id, "k", "m").unwrap();
    wrapper.commit().unwrap();
    wrapper.nest();
    assert_eq!(wrapper.get_metadata(&id, "k").unwrap(), Some("m".to_string()));
    assert_eq!(wrapper.store.reads, 5);
    assert_eq!(read(&mut wrapper, "a"), Some("1".to_string()));
    assert_eq!(wrapper.store.reads, 5);
}

#[test]
fn nothing_is_remembered_while_pending_data_is_queried() {
    let block = StacksBlockId([9; 32]);
    let mut store = TestStore::default();
    let mut wrapper = RollbackWrapper::new(&mut store);
    wrapper.nest();
    assert_eq!(read(&mut wrapper, "a"), None);
    assert_eq!(read(&mut wrapper, "a"), None);
    wrapper.set_block_hash(block, true).unwrap();
    assert_eq!(read(&mut wrapper, "a"), None);
    assert_eq!(read(&mut wrapper, "a"), None);
    assert_eq!(wrapper.store.reads, 4);
}

#[test]
fn failed_reads_are_not_remembered() {
    let block = StacksBlockId([9; 32]);
    let mut store = TestStore::default();
    store.refuse_reads = true;
    let id = contract("c");
    let mut wrapper = RollbackWrapper::new(&mut store);
    wrapper.nest();
    wrapper.set_block_hash(block, false).unwrap();
    assert_eq!(wrapper.get_data::<String>("a"), Err(refused()));
    assert_eq!(wrapper.get_metadata(&id, "a"), Err(refused()));
    assert!(!wrapper.has_metadata_entry(&id, "a"));
    assert_eq!(wrapper.has_entry("a"), Err(refused()));
    let value = wrapper.get_value("a", &(), &StacksEpochId { value_sanitizing: true }, decode);
    assert_eq!(
        value.unwrap_err(),
        SerializationError::DeserializationFailure(
            "ERROR: Clarity backing store failure".to_string()
        )
    );
    wrapper.store.refuse_reads = false;
    assert_eq!(wrapper.get_data::<String>("a"), Ok(None));
}

#[test]
fn a_refused_block_changes_nothing() {
    let mut store = TestStore::default();
    let mut wrapper = RollbackWrapper::new(&mut store);
    wrapper.nest();
    wrapper.put_data("a", "1").unwrap();
    assert_eq!(
        wrapper.set_block_hash(StacksBlockId([1; 32]), true),
        Ok(StacksBlockId([0; 32]))
    );
    wrapper.store.refuse_block = true;
    assert_eq!(
        wrapper.set_block_hash(StacksBlockId([2; 32]), false),
        Err(refused())
    );
    assert_eq!(read(&mut wrapper, "a"), Some("1".to_string()));
    wrapper.store.refuse_block = false;
    assert_eq!(
        wrapper.set_block_hash(StacksBlockId([3; 32]), false),
        Ok(StacksBlockId([1; 32]))
    );
    assert_eq!(read(&mut wrapper, "a"), None);
}

#[test]
fn pending_writes_outlive_the_wrapper() {
    let mut store = TestStore::default();
    let mut wrapper = RollbackWrapper::new(&mut store);
    wrapper.nest();
    wrapper.put_data("a", "1").unwrap();
    wrapper.nest();
    wrapper.put_data("a", "2").unwrap();
    wrapper.set_block_hash(StacksBlockId([1; 32]), false).unwrap();
    let mut log = RollbackWrapperPersistedLog::from(wrapper);
    log.nest();
    let mut other = TestStore::default();
    let mut wrapper = RollbackWrapper::from_persisted_log(&mut other, log);
    assert_eq!(wrapper.depth(), 3);
    assert_eq!(read(&mut wrapper, "a"), Some("2".to_string()));
    wrapper.commit().unwrap();
    wrapper.rollback().unwrap();
    wrapper.commit().unwrap();
    drop(wrapper);
    assert_eq!(other.data_puts, vec![items(&[("a", "1")])]);
    assert!(store.data_puts.is_empty());

    let mut fresh = RollbackWrapper::from_persisted_log(&mut store, RollbackWrapperPersistedLog::default());
    assert_eq!(fresh.depth(), 0);
    fresh.nest();
    assert_eq!(read(&mut fresh, "a"), None);
    let log = RollbackWrapperPersistedLog::new();
    assert_eq!(RollbackWrapper::from_persisted_log(&mut other, log).depth(), 0);
}

#[test]
fn values_of_other_types_are_read_from_their_text() {
    let mut store = TestStore::default();
    store.data.insert("n".to_string(), "42".to_string());
    store.paths.insert([5; 32], "43".to_string());
    let mut wrapper = RollbackWrapper::new(&mut store);
    // these go past the pending writes, and need no context
    assert_eq!(
        wrapper.get_data_with_proof::<Number>("n"),
        Ok(Some((Number(42), vec![1, 2])))
    );
    assert_eq!(wrapper.get_data_with_proof::<Number>("m"), Ok(None));
    assert_eq!(
        wrapper.get_data_with_proof_by_hash::<Number>(&TrieHash([5; 32])),
        Ok(Some((Number(43), vec![3])))
    );
    assert_eq!(
        wrapper.get_data_by_hash::<Number>(&TrieHash([5; 32])),
        Ok(Some(Number(43)))
    );
    assert_eq!(wrapper.get_data_by_hash::<Number>(&TrieHash([6; 32])), Ok(None));
    wrapper.nest();
    wrapper.put_data("n", "44").unwrap();
    assert_eq!(wrapper.get_data::<Number>("n"), Ok(Some(Number(44))));
    assert_eq!(
        wrapper.get_data_with_proof::<Number>("n"),
        Ok(Some((Number(42), vec![1, 2])))
    );
    wrapper.put_data("n", "many").unwrap();
    assert_eq!(
        wrapper.get_data::<Number>("n"),
        Err(VmExecutionError::Other("no number".to_string()))
    );
}

/// Tells what it was given, and fails on an empty text.
fn decode(hex: &str, _expected: &(), sanitize: bool) -> Result<String, SerializationError> {
    if hex.is_empty() {
        Err(SerializationError::Other("empty".to_string()))
    } else {
        Ok(format!("{} {}", hex, sanitize))
    }
}

#[test]
fn clarity_values_come_with_their_length() {
    let mut store = TestStore::default();
    store.data.insert("stored".to_string(), "0a0b0c".to_string());
    let sanitizing = StacksEpochId { value_sanitizing: true };
    let plain = StacksEpochId { value_sanitizing: false };
    let mut wrapper = RollbackWrapper::new(&mut store);
    wrapper.nest();
    wrapper.put_data("a", "0a0b").unwrap();
    wrapper.put_data("empty", "").unwrap();
    let found = wrapper.get_value("a", &(), &sanitizing, decode).unwrap().unwrap();
    assert_eq!(found.value, "0a0b true");
    assert_eq!(found.serialized_byte_len, 2);
    let found = wrapper.get_value("stored", &(), &plain, decode).unwrap().unwrap();
    assert_eq!(found.value, "0a0b0c false");
    assert_eq!(found.serialized_byte_len, 3);
    assert!(wrapper.get_value("none", &(), &plain, decode).unwrap().is_none());
    assert_eq!(
        wrapper.get_value("empty", &(), &plain, decode).unwrap_err(),
        SerializationError::Other("empty".to_string())
    );
    let found =
        RollbackWrapper::<TestStore>::deserialize_value("\u{e9}1", &(), &plain, decode).unwrap();
    assert_eq!(found.serialized_byte_len, 1);
}

#[test]
fn contract_hashes_go_through_their_commitments() {
    let mut store = TestStore::default();
    let id = contract("c");
    assert_eq!(make_contract_hash_key(&id), "hash-of-c");
    let mut wrapper = RollbackWrapper::new(&mut store);
    wrapper.nest();
    assert_eq!(wrapper.get_contract_hash::<Commitments>(&id), Ok(None));
    wrapper
        .prepare_for_contract_metadata(&id, Sha512Trunc256Sum([8; 32]))
        .unwrap();
    assert_eq!(read(&mut wrapper, "hash-of-c"), Some("commitment 8".to_string()));
    assert_eq!(
        wrapper.get_contract_hash::<Commitments>(&id),
        Ok(Some(Sha512Trunc256Sum([8; 32])))
    );
    wrapper.put_data("hash-of-c", "garbled").unwrap();
    assert_eq!(
        wrapper.get_contract_hash::<Commitments>(&id),
        Err(VmExecutionError::Other("bad commitment".to_string()))
    );
}

#[test]
fn entries_are_found_where_reads_find_them() {
    let mut store = TestStore::default();
    store.data.insert("stored".to_string(), "s".to_string());
    let id = contract("c");
    let mut wrapper = RollbackWrapper::new(&mut store);
    wrapper.nest();
    assert_eq!(wrapper.has_entry("stored"), Ok(true));
    assert_eq!(wrapper.has_entry("a"), Ok(false));
    assert!(!wrapper.has_metadata_entry(&id, "k"));
    wrapper.put_data("a", "1").unwrap();
    wrapper.insert_metadata(&id, "k", "m").unwrap();
    assert_eq!(wrapper.has_entry("a"), Ok(true));
    assert!(wrapper.has_metadata_entry(&id, "k"));
    wrapper.set_block_hash(StacksBlockId([1; 32]), false).unwrap();
    assert_eq!(wrapper.has_entry("a"), Ok(false));
    assert!(!wrapper.has_metadata_entry(&id, "k"));
}

#[test]
fn manual_metadata_reads_see_pending_writes_and_heights() {
    let mut store = TestStore::default();
    let id = contract("c");
    let mut wrapper = RollbackWrapper::new(&mut store);
    wrapper.nest();
    assert_eq!(
        wrapper.get_metadata_manual(5, &id, "k"),
        Ok(Some("k at 5".to_string()))
    );
    wrapper.insert_metadata(&id, "k", "m").unwrap();
    assert_eq!(wrapper.get_metadata_manual(6, &id, "k"), Ok(Some("m".to_string())));
    wrapper.set_block_hash(StacksBlockId([1; 32]), false).unwrap();
    assert_eq!(
        wrapper.get_metadata_manual(7, &id, "k"),
        Ok(Some("k at 7".to_string()))
    );
    drop(wrapper);
    assert_eq!(store.manual_reads, vec![5, 7]);
}

#[test]
fn chain_questions_go_to_the_store() {
    let mut store = TestStore::default();
    let mut wrapper = RollbackWrapper::new(&mut store);
    assert_eq!(wrapper.get_current_block_height(), 7);
    assert_eq!(wrapper.get_block_header_hash(3), Some(StacksBlockId([3; 32])));
    assert_eq!(wrapper.get_block_header_hash(7), None);
    assert_eq!(wrapper.get_cc_special_cases_handler(), Some("handler"));
}
