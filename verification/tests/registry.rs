use whitelist::{CallHash, Error, WhitelistRegistry};

fn hash(fill: u8) -> CallHash {
    CallHash::from_bytes([fill; 32])
}

#[test]
fn call_hash_keeps_its_bytes() {
    let mut bytes = [0u8; 32];
    for (i, b) in bytes.iter_mut().enumerate() {
        *b = i as u8;
    }
    let h = CallHash::from_bytes(bytes);
    assert_eq!(h.to_bytes(), bytes);
}

#[test]
fn call_hashes_are_equal_when_all_bytes_are() {
    let mut bytes = [9u8; 32];
    assert_eq!(CallHash::from_bytes(bytes), hash(9));
    bytes[31] = 8;
    assert_ne!(CallHash::from_bytes(bytes), hash(9));
    bytes[31] = 9;
    bytes[0] = 8;
    assert_ne!(CallHash::from_bytes(bytes), hash(9));
}

#[test]
fn new_registry_is_empty() {
    let registry = WhitelistRegistry::new();
    assert_eq!(registry.len(), 0);
    assert!(registry.hashes().is_empty());
    assert!(!registry.contains(&hash(1)));
}

#[test]
fn whitelisted_hash_is_contained() {
    let mut registry = WhitelistRegistry::new();
    registry.whitelist(hash(1));
    assert!(registry.contains(&hash(1)));
    assert!(!registry.contains(&hash(2)));
    assert_eq!(registry.len(), 1);
}

#[test]
fn whitelisting_twice_keeps_one_entry() {
    let mut registry = WhitelistRegistry::new();
    registry.whitelist(hash(1));
    registry.whitelist(hash(1));
    assert_eq!(registry.len(), 1);
    assert_eq!(registry.hashes(), vec![hash(1)]);
    assert_eq!(registry.remove(&hash(1)), Ok(()));
    assert!(!registry.contains(&hash(1)));
}

#[test]
fn remove_takes_the_hash_off() {
    let mut registry = WhitelistRegistry::new();
    registry.whitelist(hash(1));
    registry.whitelist(hash(2));
    registry.whitelist(hash(3));
    assert_eq!(registry.remove(&hash(2)), Ok(()));
    assert!(registry.contains(&hash(1)));
    assert!(!registry.contains(&hash(2)));
    assert!(registry.contains(&hash(3)));
    assert_eq!(registry.len(), 2);
}

#[test]
fn remove_of_absent_hash_fails_and_keeps_the_rest() {
    let mut registry = WhitelistRegistry::new();
    registry.whitelist(hash(1));
    assert_eq!(registry.remove(&hash(2)), Err(Error::CallIsNotWhitelisted));
    assert!(registry.contains(&hash(1)));
    assert_eq!(registry.len(), 1);
}

#[test]
fn remove_succeeds_once_only() {
    let mut registry = WhitelistRegistry::new();
    registry.whitelist(hash(7));
    assert_eq!(registry.remove(&hash(7)), Ok(()));
    assert_eq!(registry.remove(&hash(7)), Err(Error::CallIsNotWhitelisted));
}

#[test]
fn removed_hash_can_be_whitelisted_anew() {
    let mut registry = WhitelistRegistry::new();
    registry.whitelist(hash(7));
    assert_eq!(registry.remove(&hash(7)), Ok(()));
    registry.whitelist(hash(7));
    assert!(registry.contains(&hash(7)));
}

#[test]
fn hashes_lists_each_whitelisted_hash_once() {
    let mut registry = WhitelistRegistry::new();
    registry.whitelist(hash(3));
    registry.whitelist(hash(1));
    registry.whitelist(hash(3));
    registry.whitelist(hash(2));
    let mut listed: Vec<[u8; 32]> = registry.hashes().iter().map(|h| h.to_bytes()).collect();
    listed.sort();
    assert_eq!(listed, vec![[1u8; 32], [2u8; 32], [3u8; 32]]);
}

#[test]
fn registry_can_be_rebuilt_from_its_hashes() {
    let mut registry = WhitelistRegistry::new();
    registry.whitelist(hash(4));
    registry.whitelist(hash(5));
    let stored = registry.hashes();
    let mut rebuilt = WhitelistRegistry::new();
    for h in stored {
        rebuilt.whitelist(h);
    }
    assert!(rebuilt.contains(&hash(4)));
    assert!(rebuilt.contains(&hash(5)));
    assert_eq!(rebuilt.len(), 2);
}
