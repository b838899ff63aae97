use duraflow_rs::{sanitize_key, MemoryStore, Storage};

#[test]
fn memory_store_reads_back_what_was_saved() {
    let mut store = MemoryStore::new();
    store.save_raw("foo", "bar").unwrap();
    assert_eq!(store.get_raw("foo"), Some("bar".to_string()));
}

#[test]
fn memory_store_missing_key_reads_none() {
    let mut store = MemoryStore::new();
    assert_eq!(store.get_raw("foo"), None);
    store.save_raw("foo", "1").unwrap();
    assert_eq!(store.get_raw("fo"), None);
    assert_eq!(store.get_raw("foo2"), None);
}

#[test]
fn memory_store_last_write_wins_and_other_keys_stay() {
    let mut store = MemoryStore::new();
    store.save_raw("a", "1").unwrap();
    store.save_raw("b", "2").unwrap();
    store.save_raw("a", "3").unwrap();
    assert_eq!(store.get_raw("a"), Some("3".to_string()));
    assert_eq!(store.get_raw("b"), Some("2".to_string()));
}

#[test]
fn memory_store_keeps_many_keys() {
    let mut store = MemoryStore::new();
    for i in 0..50 {
        store.save_raw(&format!("k{}", i), &format!("{}", i * 2)).unwrap();
    }
    for i in 0..50 {
        assert_eq!(store.get_raw(&format!("k{}", i)), Some(format!("{}", i * 2)));
    }
}

#[test]
fn sanitize_keeps_safe_characters() {
    assert_eq!(sanitize_key("load-5_ABC_xyz09"), "load-5_ABC_xyz09");
}

#[test]
fn sanitize_replaces_unsafe_characters() {
    assert_eq!(sanitize_key("a/b c.json"), "a_b_c_json");
    assert_eq!(sanitize_key("../etc"), "___etc");
    assert_eq!(sanitize_key("héllo"), "h_llo");
    assert_eq!(sanitize_key(""), "");
}

#[test]
fn sanitize_is_idempotent_and_keeps_length() {
    for key in ["sum_1_2", "a b/c", "日本語", "x:y?z*"] {
        let once = sanitize_key(key);
        assert_eq!(sanitize_key(&once), once);
        assert_eq!(once.chars().count(), key.chars().count());
    }
}
