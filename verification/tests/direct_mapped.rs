use rulette::CacheError;
use rulette::IdentityDigest;
use rulette::Rulette;

fn cell(capacity: usize) -> Rulette<u64, &'static str, IdentityDigest> {
    Rulette::with_capacity_and_hasher(capacity, IdentityDigest).unwrap()
}

#[test]
fn example_scenario() {
    // Capacity 4 with the transparent strategy: keys 5 and 9 share slot 1.
    let mut c = cell(4);
    assert_eq!(c.insert(5, "a"), None);
    assert_eq!(c.insert(9, "b"), Some((5, "a")));
    assert_eq!(c.get(&5), None);
    assert_eq!(c.get(&9), Some(&"b"));
    assert_eq!(c.remove(&5), None);
    assert_eq!(c.get(&9), Some(&"b"));
}

#[test]
fn slot_uniqueness() {
    // Two distinct keys on one slot: only the later one is retrievable,
    // and its insertion reports the earlier pair as evicted.
    let mut c = cell(8);
    assert_eq!(c.insert(3, "first"), None);
    assert_eq!(c.insert(11, "second"), Some((3, "first")));
    assert_eq!(c.get(&11), Some(&"second"));
    assert_eq!(c.get(&3), None);
}

#[test]
fn slot_index_determinism() {
    let c = cell(7);
    let first = c.get_ix(&29);
    let second = c.get_ix(&29);
    assert_eq!(first, second);
    assert_eq!(first, 29 % 7);
}

#[test]
fn insert_then_get_round_trip() {
    let mut c = cell(16);
    assert_eq!(c.insert(10, "x"), None);
    assert_eq!(c.get(&10), Some(&"x"));
}

#[test]
fn collision_miss() {
    let mut c = cell(4);
    assert_eq!(c.insert(2, "kept"), None);
    assert_eq!(c.insert(6, "winner"), Some((2, "kept")));
    assert_eq!(c.get(&2), None);
}

#[test]
fn update_same_key_returns_prior_pair() {
    let mut c = cell(4);
    assert_eq!(c.insert(2, "old"), None);
    assert_eq!(c.insert(2, "new"), Some((2, "old")));
    assert_eq!(c.get(&2), Some(&"new"));
}

#[test]
fn remove_nonoccupant_leaves_occupant() {
    let mut c = cell(4);
    assert_eq!(c.insert(9, "stays"), None);
    // Key 5 shares slot 1 with key 9 but is not the occupant.
    assert_eq!(c.remove(&5), None);
    assert_eq!(c.get(&9), Some(&"stays"));
    // A matching removal clears the slot and hands the pair back.
    assert_eq!(c.remove(&9), Some((9, "stays")));
    assert_eq!(c.get(&9), None);
}

#[test]
fn remove_from_empty_slot() {
    let mut c = cell(4);
    assert_eq!(c.remove(&1), None);
}

#[test]
fn get_mut_updates_in_place() {
    let mut c: Rulette<u64, u64, IdentityDigest> =
        Rulette::with_capacity_and_hasher(3, IdentityDigest).unwrap();
    assert_eq!(c.insert(7, 1), None);
    match c.get_mut(&7) {
        Some(v) => *v = 2,
        None => panic!("key 7 was just inserted"),
    }
    assert_eq!(c.get(&7), Some(&2));
    // A colliding key misses and changes nothing: 4 shares slot 1 with 7.
    assert_eq!(c.get_mut(&4), None);
    assert_eq!(c.get(&7), Some(&2));
}

#[test]
fn clear_totality() {
    let mut c = cell(4);
    c.insert(1, "a");
    c.insert(2, "b");
    c.insert(7, "c");
    c.clear();
    assert_eq!(c.get(&1), None);
    assert_eq!(c.get(&2), None);
    assert_eq!(c.get(&7), None);
    // The table keeps its capacity and stays usable.
    assert_eq!(c.insert(2, "again"), None);
    assert_eq!(c.get(&2), Some(&"again"));
}

#[test]
fn zero_capacity_is_rejected() {
    let zero: Result<Rulette<u64, &'static str, IdentityDigest>, CacheError> =
        Rulette::with_capacity_and_hasher(0, IdentityDigest);
    assert!(matches!(zero, Err(CacheError::InvalidCapacity)));
    let default_path: Result<Rulette<u64, &'static str>, CacheError> = Rulette::with_capacity(0);
    assert!(matches!(default_path, Err(CacheError::InvalidCapacity)));
}

#[test]
fn capacity_one_is_a_single_cell() {
    let mut c = cell(1);
    assert_eq!(c.get_ix(&0), 0);
    assert_eq!(c.get_ix(&41), 0);
    assert_eq!(c.get_ix(&u64::MAX), 0);
    assert_eq!(c.insert(100, "a"), None);
    assert_eq!(c.insert(200, "b"), Some((100, "a")));
    assert_eq!(c.get(&200), Some(&"b"));
    assert_eq!(c.get(&100), None);
}
