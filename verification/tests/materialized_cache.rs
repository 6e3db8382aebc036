//! Reads past the pending writes: what is remembered of the store, and when.

use std::collections::HashMap;

use rollback_wrapper::errors::{SerializationError, VmExecutionError};
use rollback_wrapper::key_value_wrapper::RollbackWrapper;
use rollback_wrapper::store::{ClarityBackingStore, MetadataKey};
use rollback_wrapper::types::{
    QualifiedContractIdentifier, Sha512Trunc256Sum, StacksBlockId, StacksEpochId, TrieHash,
};

struct CountingBackingStore {
    active_block_hash: StacksBlockId,
    data: HashMap<StacksBlockId, HashMap<String, String>>,
    metadata: HashMap<StacksBlockId, HashMap<(QualifiedContractIdentifier, String), String>>,
    data_reads: HashMap<(StacksBlockId, String), usize>,
    metadata_reads: HashMap<(StacksBlockId, QualifiedContractIdentifier, String), usize>,
}

impl CountingBackingStore {
    fn new(active_block_hash: StacksBlockId) -> Self {
        Self {
            active_block_hash,
            data: HashMap::new(),
            metadata: HashMap::new(),
            data_reads: HashMap::new(),
            metadata_reads: HashMap::new(),
        }
    }

    fn insert_data(&mut self, block_hash: StacksBlockId, key: &str, value: &str) {
        self.data
            .entry(block_hash)
            .or_default()
            .insert(key.to_string(), value.to_string());
    }

    fn insert_metadata(
        &mut self,
        block_hash: StacksBlockId,
        contract: QualifiedContractIdentifier,
        key: &str,
        value: &str,
    ) {
        self.metadata
            .entry(block_hash)
            .or_default()
            .insert((contract, key.to_string()), value.to_string());
    }

    fn data_read_count(&self, block_hash: &StacksBlockId, key: &str) -> usize {
        self.data_reads
            .get(&(block_hash.clone(), key.to_string()))
            .copied()
            .unwrap_or(0)
    }

    fn metadata_read_count(
        &self,
        block_hash: &StacksBlockId,
        contract: &QualifiedContractIdentifier,
        key: &str,
    ) -> usize {
        self.metadata_reads
            .get(&(block_hash.clone(), contract.clone(), key.to_string()))
            .copied()
            .unwrap_or(0)
    }
}

impl ClarityBackingStore for CountingBackingStore {
    type SpecialCaseHandler = ();

    fn put_all_data(&mut self, items: Vec<(String, String)>) -> Result<(), VmExecutionError> {
        let data = self.data.entry(self.active_block_hash.clone()).or_default();
        for (key, value) in items {
            data.insert(key, value);
        }
        Ok(())
    }

    fn get_data(&mut self, key: &str) -> Result<Option<String>, VmExecutionError> {
        *self
            .data_reads
            .entry((self.active_block_hash.clone(), key.to_string()))
            .or_default() += 1;
        Ok(self
            .data
            .get(&self.active_block_hash)
            .and_then(|data| data.get(key).cloned()))
    }

    fn get_data_from_path(
        &mut self,
        _hash: &TrieHash,
    ) -> Result<Option<String>, VmExecutionError> {
        Ok(None)
    }

    fn get_data_with_proof(
        &mut self,
        key: &str,
    ) -> Result<Option<(String, Vec<u8>)>, VmExecutionError> {
        Ok(self.get_data(key)?.map(|value| (value, Vec::new())))
    }

    fn get_data_with_proof_from_path(
        &mut self,
        _hash: &TrieHash,
    ) -> Result<Option<(String, Vec<u8>)>, VmExecutionError> {
        Ok(None)
    }

    fn has_entry(&mut self, key: &str) -> Result<bool, VmExecutionError> {
        Ok(self.get_data(key)?.is_some())
    }

    fn set_block_hash(&mut self, bhh: StacksBlockId) -> Result<StacksBlockId, VmExecutionError> {
        let prior = self.active_block_hash.clone();
        self.active_block_hash = bhh;
        Ok(prior)
    }

    fn get_block_at_height(&mut self, _height: u32) -> Option<StacksBlockId> {
        None
    }

    fn get_current_block_height(&mut self) -> u32 {
        0
    }

    fn make_contract_commitment(&mut self, _contract_hash: Sha512Trunc256Sum) -> String {
        String::new()
    }

    fn put_all_metadata(
        &mut self,
        items: Vec<(MetadataKey, String)>,
    ) -> Result<(), VmExecutionError> {
        let metadata = self
            .metadata
            .entry(self.active_block_hash.clone())
            .or_default();
        for (key, value) in items {
            metadata.insert(key, value);
        }
        Ok(())
    }

    fn get_metadata(
        &mut self,
        contract: &QualifiedContractIdentifier,
        key: &str,
    ) -> Result<Option<String>, VmExecutionError> {
        *self
            .metadata_reads
            .entry((
                self.active_block_hash.clone(),
                contract.clone(),
                key.to_string(),
            ))
            .or_default() += 1;
        Ok(self
            .metadata
            .get(&self.active_block_hash)
            .and_then(|data| data.get(&(contract.clone(), key.to_string())).cloned()))
    }

    fn get_metadata_manual(
        &mut self,
        _at_height: u32,
        contract: &QualifiedContractIdentifier,
        key: &str,
    ) -> Result<Option<String>, VmExecutionError> {
        self.get_metadata(contract, key)
    }

    fn get_cc_special_cases_handler(&self) -> Option<()> {
        None
    }
}

fn transient() -> QualifiedContractIdentifier {
    QualifiedContractIdentifier {
        name: "S1G2081040G2081040G2081040G208105NK8PE5.__transient".to_string(),
        hash_key: "hash-of-transient".to_string(),
    }
}

#[derive(Debug, PartialEq)]
enum Value {
    Int(i128),
}

enum TypeSignature {
    IntType,
}

impl Value {
    fn serialize_to_vec(&self) -> Vec<u8> {
        match self {
            Value::Int(n) => {
                let mut bytes = vec![0u8];
                bytes.extend_from_slice(&n.to_be_bytes());
                bytes
            }
        }
    }

    fn try_deserialize_hex(
        hex: &str,
        expected: &TypeSignature,
        _sanitize: bool,
    ) -> Result<Value, SerializationError> {
        let failure = || SerializationError::Other("unexpected bytes".to_string());
        let mut bytes: Vec<u8> = Vec::new();
        for i in 0..hex.len() / 2 {
            let byte = u8::from_str_radix(&hex[2 * i..2 * i + 2], 16).map_err(|_| failure())?;
            bytes.push(byte);
        }
        match expected {
            TypeSignature::IntType => {
                if bytes.len() != 17 || bytes[0] != 0 {
                    return Err(failure());
                }
                let mut digits = [0u8; 16];
                digits.copy_from_slice(&bytes[1..]);
                Ok(Value::Int(i128::from_be_bytes(digits)))
            }
        }
    }
}

fn to_hex(bytes: &[u8]) -> String {
    bytes.iter().map(|b| format!("{:02x}", b)).collect()
}

/// An epoch that sanitizes values.
const EPOCH25: StacksEpochId = StacksEpochId { value_sanitizing: true };

#[test]
fn materialized_reads_are_cached_by_block_hash() {
    let block_a = StacksBlockId([1; 32]);
    let block_b = StacksBlockId([2; 32]);
    let mut store = CountingBackingStore::new(block_a.clone());
    store.insert_data(block_a.clone(), "key", "block-a");
    store.insert_data(block_b.clone(), "key", "block-b");

    {
        let mut wrapper = RollbackWrapper::new(&mut store);
        wrapper.nest();

        wrapper.set_block_hash(block_a.clone(), false).unwrap();
        assert_eq!(
            wrapper.get_data::<String>("key").unwrap(),
            Some("block-a".to_string())
        );
        assert_eq!(
            wrapper.get_data::<String>("key").unwrap(),
            Some("block-a".to_string())
        );

        wrapper.set_block_hash(block_b.clone(), false).unwrap();
        assert_eq!(
            wrapper.get_data::<String>("key").unwrap(),
            Some("block-b".to_string())
        );

        wrapper.set_block_hash(block_a.clone(), false).unwrap();
        assert_eq!(
            wrapper.get_data::<String>("key").unwrap(),
            Some("block-a".to_string())
        );
    }

    assert_eq!(store.data_read_count(&block_a, "key"), 1);
    assert_eq!(store.data_read_count(&block_b, "key"), 1);
}

#[test]
fn materialized_read_cache_ignores_surrounding_pending_writes() {
    let block = StacksBlockId([3; 32]);
    let mut store = CountingBackingStore::new(block.clone());
    store.insert_data(block.clone(), "key", "committed");

    {
        let mut wrapper = RollbackWrapper::new(&mut store);
        wrapper.nest();

        wrapper.set_block_hash(block.clone(), false).unwrap();
        assert_eq!(
            wrapper.get_data::<String>("key").unwrap(),
            Some("committed".to_string())
        );

        wrapper.set_block_hash(block.clone(), true).unwrap();
        wrapper.put_data("key", "pending").unwrap();
        assert_eq!(
            wrapper.get_data::<String>("key").unwrap(),
            Some("pending".to_string())
        );

        wrapper.set_block_hash(block.clone(), false).unwrap();
        assert_eq!(
            wrapper.get_data::<String>("key").unwrap(),
            Some("committed".to_string())
        );

        wrapper.set_block_hash(block.clone(), true).unwrap();
        assert_eq!(
            wrapper.get_data::<String>("key").unwrap(),
            Some("pending".to_string())
        );
    }

    assert_eq!(store.data_read_count(&block, "key"), 1);
}

#[test]
fn materialized_cache_is_used_by_value_reads() {
    let block = StacksBlockId([4; 32]);
    let mut store = CountingBackingStore::new(block.clone());
    let serialized = to_hex(&Value::Int(123).serialize_to_vec());
    store.insert_data(block.clone(), "value-key", &serialized);

    {
        let mut wrapper = RollbackWrapper::new(&mut store);
        wrapper.nest();
        wrapper.set_block_hash(block.clone(), false).unwrap();

        let first = wrapper
            .get_value(
                "value-key",
                &TypeSignature::IntType,
                &EPOCH25,
                Value::try_deserialize_hex,
            )
            .unwrap()
            .unwrap();
        let second = wrapper
            .get_value(
                "value-key",
                &TypeSignature::IntType,
                &EPOCH25,
                Value::try_deserialize_hex,
            )
            .unwrap()
            .unwrap();

        assert_eq!(first.value, Value::Int(123));
        assert_eq!(second.value, Value::Int(123));
        assert_eq!(first.serialized_byte_len, second.serialized_byte_len);
        assert_eq!(first.serialized_byte_len, 17);
    }

    assert_eq!(store.data_read_count(&block, "value-key"), 1);
}

#[test]
fn materialized_metadata_reads_are_cached_by_block_hash() {
    let block_a = StacksBlockId([5; 32]);
    let block_b = StacksBlockId([6; 32]);
    let contract = transient();
    let mut store = CountingBackingStore::new(block_a.clone());
    store.insert_metadata(block_a.clone(), contract.clone(), "meta-key", "meta-a");
    store.insert_metadata(block_b.clone(), contract.clone(), "meta-key", "meta-b");

    {
        let mut wrapper = RollbackWrapper::new(&mut store);
        wrapper.nest();

        wrapper.set_block_hash(block_a.clone(), false).unwrap();
        assert_eq!(
            wrapper.get_metadata(&contract, "meta-key").unwrap(),
            Some("meta-a".to_string())
        );
        assert_eq!(
            wrapper.get_metadata(&contract, "meta-key").unwrap(),
            Some("meta-a".to_string())
        );

        wrapper.set_block_hash(block_b.clone(), false).unwrap();
        assert_eq!(
            wrapper.get_metadata(&contract, "meta-key").unwrap(),
            Some("meta-b".to_string())
        );
    }

    assert_eq!(
        store.metadata_read_count(&block_a, &contract, "meta-key"),
        1
    );
    assert_eq!(
        store.metadata_read_count(&block_b, &contract, "meta-key"),
        1
    );
}

#[test]
fn remembered_reads_are_what_the_store_would_answer() {
    let block_a = StacksBlockId([7; 32]);
    let block_b = StacksBlockId([8; 32]);
    let contract = transient();
    let mut store = CountingBackingStore::new(block_a);
    store.insert_data(block_a, "key", "a");
    store.insert_data(block_b, "key", "b");
    store.insert_data(block_b, "only-b", "c");
    store.insert_metadata(block_b, contract.clone(), "key", "m");

    let mut wrapper = RollbackWrapper::new(&mut store);
    wrapper.nest();
    for block in [block_a, block_b, block_a, block_b] {
        wrapper.set_block_hash(block, false).unwrap();
        for key in ["key", "only-b", "none"] {
            for _ in 0..2 {
                let read = wrapper.get_data::<String>(key).unwrap();
                assert_eq!(read, wrapper.store.data[&block].get(key).cloned());
            }
        }
        let found = wrapper.get_metadata(&contract, "key").unwrap();
        let expected = if block == block_b { Some("m".to_string()) } else { None };
        assert_eq!(found, expected);
    }
    assert_eq!(wrapper.store.data_read_count(&block_a, "none"), 1);

    wrapper.put_data("key", "written").unwrap();
    wrapper.commit().unwrap();
    wrapper.nest();
    assert_eq!(
        wrapper.get_data::<String>("key").unwrap(),
        Some("written".to_string())
    );
    wrapper.set_block_hash(block_a, false).unwrap();
    assert_eq!(wrapper.get_data::<String>("key").unwrap(), Some("a".to_string()));
}
