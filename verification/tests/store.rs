use zbin::store::Store;

#[test]
fn round_trip_immediate() {
    let mut st = Store::new(10, 604800);
    st.put_at("hello world".to_owned(), "id-one".to_owned(), 100);
    let key = "id-one".to_owned();
    assert_eq!(st.get_at(&key, 100), Some("hello world".to_owned()));
}

#[test]
fn empty_content_round_trip() {
    let mut st = Store::new(10, 604800);
    st.put_at(String::new(), "id-empty".to_owned(), 0);
    let key = "id-empty".to_owned();
    assert_eq!(st.get_at(&key, 0), Some(String::new()));
}

#[test]
fn absent_id_not_found() {
    let mut st = Store::new(10, 604800);
    let key = "no-such-id".to_owned();
    assert_eq!(st.get_at(&key, 0), None);
    assert_eq!(st.len(), 0);
}

#[test]
fn expiry_boundary() {
    // TTL of 10 seconds, inserted at t = 0: live at 9, gone from 10 on.
    let mut st = Store::new(10, 10);
    st.put_at("blob".to_owned(), "id-ttl".to_owned(), 0);
    let key = "id-ttl".to_owned();
    assert_eq!(st.get_at(&key, 9), Some("blob".to_owned()));
    assert_eq!(st.get_at(&key, 10), None);
}

#[test]
fn ttl_scenario_five_then_eleven() {
    // TTL = 10 seconds, insert at t = 0; a read at t = 5 succeeds with the
    // original content; a read at t = 11 finds nothing and shrinks the
    // store by one.
    let mut st = Store::new(10, 10);
    st.put_at("scenario".to_owned(), "id-s".to_owned(), 0);
    let key = "id-s".to_owned();
    assert_eq!(st.get_at(&key, 5), Some("scenario".to_owned()));
    assert_eq!(st.len(), 1);
    assert_eq!(st.get_at(&key, 11), None);
    assert_eq!(st.len(), 0);
}

#[test]
fn live_read_does_not_mutate() {
    let mut st = Store::new(10, 10);
    st.put_at("keep".to_owned(), "id-live".to_owned(), 0);
    let key = "id-live".to_owned();
    assert_eq!(st.get_at(&key, 5), Some("keep".to_owned()));
    assert_eq!(st.get_at(&key, 5), Some("keep".to_owned()));
    assert_eq!(st.len(), 1);
}

#[test]
fn lazy_deletion_idempotent() {
    let mut st = Store::new(10, 10);
    st.put_at("first".to_owned(), "id-a".to_owned(), 0);
    st.put_at("second".to_owned(), "id-b".to_owned(), 0);
    assert_eq!(st.len(), 2);
    let key = "id-a".to_owned();
    // One expired read removes exactly one entry.
    assert_eq!(st.get_at(&key, 10), None);
    assert_eq!(st.len(), 1);
    // A second read of the same identifier is NotFound and removes nothing.
    assert_eq!(st.get_at(&key, 10), None);
    assert_eq!(st.len(), 1);
    // The other entry is untouched.
    let other = "id-b".to_owned();
    assert_eq!(st.get_at(&other, 5), Some("second".to_owned()));
}

#[test]
fn capacity_overshoot_tolerated() {
    // The eviction check fires only when the size already exceeds the
    // bound, so the store transiently holds max_len + 1 entries.
    let mut st = Store::new(2, 604800);
    st.put_at("a".to_owned(), "id1".to_owned(), 0);
    st.put_at("b".to_owned(), "id2".to_owned(), 0);
    st.put_at("c".to_owned(), "id3".to_owned(), 0);
    assert_eq!(st.len(), 3);
    let k1 = "id1".to_owned();
    let k2 = "id2".to_owned();
    let k3 = "id3".to_owned();
    assert_eq!(st.get_at(&k1, 1), Some("a".to_owned()));
    assert_eq!(st.get_at(&k2, 1), Some("b".to_owned()));
    assert_eq!(st.get_at(&k3, 1), Some("c".to_owned()));
}

#[test]
fn fifo_eviction_oldest_first() {
    // Once over the bound, the next insertion evicts the oldest entry by
    // insertion order, regardless of its remaining time-to-live.
    let mut st = Store::new(2, 604800);
    st.put_at("a".to_owned(), "id1".to_owned(), 0);
    st.put_at("b".to_owned(), "id2".to_owned(), 0);
    st.put_at("c".to_owned(), "id3".to_owned(), 0);
    st.put_at("d".to_owned(), "id4".to_owned(), 0);
    assert_eq!(st.len(), 3);
    let k1 = "id1".to_owned();
    let k2 = "id2".to_owned();
    let k3 = "id3".to_owned();
    let k4 = "id4".to_owned();
    assert_eq!(st.get_at(&k1, 1), None);
    assert_eq!(st.get_at(&k2, 1), Some("b".to_owned()));
    assert_eq!(st.get_at(&k3, 1), Some("c".to_owned()));
    assert_eq!(st.get_at(&k4, 1), Some("d".to_owned()));
}

#[test]
fn fifo_eviction_in_sequence() {
    // Keep inserting: the survivors are always the most recent ones.
    let mut st = Store::new(2, 604800);
    let mut keys: Vec<String> = Vec::new();
    for i in 0..6 {
        let key = format!("key-{}", i);
        st.put_at(format!("content-{}", i), key.clone(), 0);
        keys.push(key);
        assert!(st.len() <= 3);
    }
    // After six insertions the three newest survive.
    for (i, key) in keys.iter().enumerate() {
        let expect = if i < 3 { None } else { Some(format!("content-{}", i)) };
        assert_eq!(st.get_at(key, 1), expect);
    }
}

#[test]
fn saturating_expiry_stays_live() {
    // An insertion whose expiry would overflow saturates instead of
    // wrapping, so the entry stays retrievable.
    let mut st = Store::new(10, u64::MAX);
    st.put_at("forever".to_owned(), "id-max".to_owned(), u64::MAX - 1);
    let key = "id-max".to_owned();
    assert_eq!(st.get_at(&key, u64::MAX - 1), Some("forever".to_owned()));
}

#[test]
fn replacing_same_id_keeps_size() {
    // A repeated identifier replaces the stored value in place.
    let mut st = Store::new(10, 10);
    st.put_at("old".to_owned(), "id-r".to_owned(), 0);
    st.put_at("new".to_owned(), "id-r".to_owned(), 0);
    assert_eq!(st.len(), 1);
    let key = "id-r".to_owned();
    assert_eq!(st.get_at(&key, 1), Some("new".to_owned()));
}

#[test]
fn generated_ids_are_distinct() {
    // put generates a fresh identifier per call; 100 calls give 100
    // distinct ids of 21 characters each.
    let mut st = Store::new(1000, 604800);
    let mut ids: Vec<String> = Vec::new();
    for i in 0..100 {
        let id = st.put(format!("blob-{}", i));
        assert_eq!(id.chars().count(), 21);
        ids.push(id);
    }
    for i in 0..ids.len() {
        for j in (i + 1)..ids.len() {
            assert_ne!(ids[i], ids[j]);
        }
    }
    assert_eq!(st.len(), 100);
}

#[test]
fn put_then_get_real_clock() {
    // With the default seven-day time-to-live, an entry stored through the
    // real clock is immediately retrievable.
    let mut st = Store::new(zbin::store::DEFAULT_MAX_LEN, zbin::store::DEFAULT_TTL_SECS);
    let id = st.put("through the clock".to_owned());
    assert_eq!(st.get(&id), Some("through the clock".to_owned()));
}
