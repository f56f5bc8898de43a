use fennec::cache::Cache;
use fennec::cache::make_handle_text;
use fennec::cache::Handle;
use std::collections::HashSet;

#[test]
fn handles_grow_by_one_from_one() {
    let mut cache: Cache<u32> = Cache::new();
    let a = cache.insert(10);
    let b = cache.insert(20);
    let c = cache.insert(30);
    assert_eq!(a.index(), 1);
    assert_eq!(b.index(), 2);
    assert_eq!(c.index(), 3);
}

#[test]
fn handles_grow_across_removals() {
    let mut cache: Cache<&str> = Cache::new();
    let a = cache.insert("a");
    assert_eq!(cache.remove(a), Some("a"));
    let b = cache.insert("b");
    assert!(b.index() > a.index());
    assert_eq!(cache.remove(b), Some("b"));
    let c = cache.insert("c");
    assert!(c.index() > b.index());
}

#[test]
fn removed_handle_stays_absent() {
    let mut cache: Cache<u32> = Cache::new();
    let h = cache.insert(1);
    assert_eq!(cache.remove(h), Some(1));
    assert_eq!(cache.get(h), None);
    assert_eq!(cache.remove(h), None);
    for value in 0..100 {
        let fresh = cache.insert(value);
        assert!(fresh != h);
        assert_eq!(cache.get(h), None);
    }
}

#[test]
fn get_and_get_mut_reach_the_value() {
    let mut cache: Cache<u32> = Cache::new();
    let h = cache.insert(5);
    assert_eq!(cache.get(h), Some(&5));
    if let Some(value) = cache.get_mut(h) {
        *value = 6;
    }
    assert_eq!(cache.get(h), Some(&6));
    assert!(cache.contains(h));
    assert_eq!(cache.len(), 1);
}

#[test]
fn unknown_handle_is_absent() {
    let mut cache: Cache<u32> = Cache::new();
    let stranger: Handle<u32> = Handle::new(7);
    assert_eq!(cache.get(stranger), None);
    assert!(cache.get_mut(stranger).is_none());
    assert_eq!(cache.remove(stranger), None);
    assert!(!cache.contains(stranger));
}

#[test]
fn iter_lists_every_live_entry_once() {
    let mut cache: Cache<u32> = Cache::new();
    let a = cache.insert(1);
    let b = cache.insert(2);
    let c = cache.insert(3);
    cache.remove(b);
    let mut seen: Vec<(u64, u32)> = cache.iter().into_iter().map(|(h, v)| (h.index(), *v)).collect();
    seen.sort();
    assert_eq!(seen, vec![(a.index(), 1), (c.index(), 3)]);
}

#[test]
fn handles_compare_by_index() {
    let a: Handle<u32> = Handle::new(4);
    let b: Handle<u32> = Handle::new(4);
    let c: Handle<u32> = Handle::new(5);
    assert!(a == b);
    assert!(a != c);
    let copy = a;
    assert_eq!(copy.index(), a.index());
}

#[test]
fn issued_counts_every_insert() {
    let mut cache: Cache<u8> = Cache::new();
    assert_eq!(cache.issued(), 0);
    let a = cache.insert(1);
    cache.insert(2);
    assert_eq!(cache.remove(a), Some(1));
    assert_eq!(cache.issued(), 2);
    assert_eq!(cache.len(), 1);
}

#[test]
fn handles_hash_by_index() {
    let mut seen: HashSet<Handle<u32>> = HashSet::new();
    assert!(seen.insert(Handle::new(4)));
    assert!(!seen.insert(Handle::new(4)));
    assert!(seen.insert(Handle::new(5)));
    assert_eq!(seen.len(), 2);
    assert_eq!(make_handle_text(4), "Handle { index: 4 }");
    assert_eq!(make_handle_text(0), "Handle { index: 0 }");
}

#[test]
fn length_follows_inserts_and_removals() {
    let mut cache: Cache<u8> = Cache::new();
    assert_eq!(cache.len(), 0);
    let a = cache.insert(1);
    assert_eq!(cache.len(), 1);
    cache.insert(2);
    assert_eq!(cache.len(), 2);
    cache.remove(a);
    assert_eq!(cache.len(), 1);
    cache.remove(a);
    assert_eq!(cache.len(), 1);
}
