use actix_async::util::slab::Slab;

#[test]
fn slab_stores_and_reuses_keys() {
    let mut slab: Slab<&str> = Slab::with_capacity(4);
    assert!(slab.is_empty());
    assert_eq!(slab.insert("a"), 0);
    assert_eq!(slab.insert("b"), 1);
    assert_eq!(slab.insert("c"), 2);
    assert_eq!(slab.len(), 3);
    assert_eq!(slab.get(1), Some(&"b"));
    assert_eq!(slab.remove(0), "a");
    assert_eq!(slab.remove(1), "b");
    assert!(!slab.contains(0));
    assert!(slab.contains(2));
    // The key that was freed last comes first.
    assert_eq!(slab.insert("d"), 1);
    assert_eq!(slab.insert("e"), 0);
    assert_eq!(slab.insert("f"), 3);
    assert_eq!(slab.len(), 4);
}

#[test]
fn slab_values_change_in_place() {
    let mut slab: Slab<u32> = Slab::with_capacity(0);
    let key = slab.insert(1);
    if let Some(val) = slab.get_mut(key) {
        *val += 41;
    }
    assert_eq!(slab.get(key), Some(&42));
    assert!(slab.get_mut(7).is_none());
    assert!(slab.get(7).is_none());
    let copy = slab.clone();
    slab.clear();
    assert!(slab.is_empty());
    assert!(slab.get(key).is_none());
    assert_eq!(slab.insert(5), 0);
    assert_eq!(copy.get(key), Some(&42));
}
