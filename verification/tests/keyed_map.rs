//! The map under the lookup maps and the caches.

use rollback_wrapper::keyed_map::{KeyedMap, MapKey};
use rollback_wrapper::types::{QualifiedContractIdentifier, StacksBlockId};

#[test]
fn entries_come_and_go() {
    let mut map: KeyedMap<String, u64> = KeyedMap::new();
    assert_eq!(map.get(&"a".to_string()), None);
    assert_eq!(map.remove(&"a".to_string()), None);
    map.insert("a".to_string(), 1);
    map.insert("b".to_string(), 2);
    map.insert("a".to_string(), 3);
    assert_eq!(map.get(&"a".to_string()), Some(&3));
    assert!(map.contains_key(&"b".to_string()));
    assert_eq!(map.remove(&"a".to_string()), Some(3));
    assert!(!map.contains_key(&"a".to_string()));
    assert_eq!(map.get(&"b".to_string()), Some(&2));
    map.clear();
    assert!(!map.contains_key(&"b".to_string()));
}

#[test]
fn pairs_are_compared_part_by_part() {
    let mut map: KeyedMap<(StacksBlockId, String), u64> = KeyedMap::new();
    let mut bytes = [1u8; 32];
    map.insert((StacksBlockId(bytes), "a".to_string()), 1);
    bytes[31] = 2;
    map.insert((StacksBlockId(bytes), "a".to_string()), 2);
    assert_eq!(map.get(&(StacksBlockId(bytes), "a".to_string())), Some(&2));
    assert_eq!(map.get(&(StacksBlockId(bytes), "b".to_string())), None);
    bytes[31] = 1;
    assert_eq!(map.get(&(StacksBlockId(bytes), "a".to_string())), Some(&1));
}

#[test]
fn contracts_differ_by_either_part() {
    let id = |name: &str, key: &str| QualifiedContractIdentifier {
        name: name.to_string(),
        hash_key: key.to_string(),
    };
    assert!(id("a", "k").same_key(&id("a", "k").duplicate()));
    assert!(!id("a", "k").same_key(&id("b", "k")));
    assert!(!id("a", "k").same_key(&id("a", "l")));
    assert_eq!(id("a", "k").clone(), id("a", "k"));
}
