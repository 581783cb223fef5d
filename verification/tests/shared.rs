use zbin::shared::SharedStore;
use zbin::store::{DEFAULT_MAX_LEN, DEFAULT_TTL_SECS};

#[test]
fn shared_round_trip() {
    let st = SharedStore::new(DEFAULT_MAX_LEN, DEFAULT_TTL_SECS);
    let id = st.put("shared blob".to_owned());
    assert_eq!(id.chars().count(), 21);
    assert_eq!(st.get(&id), Some("shared blob".to_owned()));
    // A live read mutates nothing: it still succeeds afterwards.
    assert_eq!(st.get(&id), Some("shared blob".to_owned()));
}

#[test]
fn shared_absent_id() {
    let st = SharedStore::new(DEFAULT_MAX_LEN, DEFAULT_TTL_SECS);
    let key = "missing".to_owned();
    assert_eq!(st.get(&key), None);
}

#[test]
fn shared_seeded_entry_expires() {
    // An entry seeded with an absolute expiry of zero is expired for any
    // later read, which removes it.
    let st = SharedStore::new(DEFAULT_MAX_LEN, DEFAULT_TTL_SECS);
    st.insert_with("seed".to_owned(), "test".to_owned(), 0);
    assert_eq!(st.len(), 1);
    let key = "seed".to_owned();
    assert_eq!(st.get(&key), None);
    assert_eq!(st.len(), 0);
}

#[test]
fn shared_capacity_bound_holds() {
    let st = SharedStore::new(2, DEFAULT_TTL_SECS);
    for i in 0..10 {
        let _ = st.put(format!("blob-{}", i));
        assert!(st.len() <= 3);
    }
}

#[test]
fn shared_distinct_ids() {
    let st = SharedStore::new(DEFAULT_MAX_LEN, DEFAULT_TTL_SECS);
    let a = st.put("one".to_owned());
    let b = st.put("two".to_owned());
    let c = st.put("three".to_owned());
    assert_ne!(a, b);
    assert_ne!(a, c);
    assert_ne!(b, c);
    assert_eq!(st.get(&a), Some("one".to_owned()));
    assert_eq!(st.get(&b), Some("two".to_owned()));
    assert_eq!(st.get(&c), Some("three".to_owned()));
}
