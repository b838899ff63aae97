use duraflow_rs::{
    finish_extract, finish_run, finish_run_result, persist_and_mark, try_cached_and_mark, Context,
    DuraflowError, MemoryStore, Storage,
};

// A store whose writes always fail.
struct FailingStore;

impl Storage for FailingStore {
    fn get_raw(&self, _key: &str) -> Option<String> {
        None
    }

    fn save_raw(&mut self, _key: &str, _value: &str) -> std::io::Result<()> {
        Err(std::io::Error::new(std::io::ErrorKind::Other, "simulated write failure"))
    }
}

fn decode_i32(s: String) -> Option<i32> {
    serde_json::from_str(&s).ok()
}

fn encode_i32(v: &i32) -> Result<String, serde_json::Error> {
    serde_json::to_string(v)
}

fn json_error() -> serde_json::Error {
    serde_json::from_str::<i32>("not json").unwrap_err()
}

fn memory_context() -> Context<MemoryStore> {
    Context { db: MemoryStore::new(), completed_count: 0 }
}

#[test]
fn context_get_reads_what_save_wrote() {
    let mut ctx = memory_context();
    ctx.save("load-5", &5, encode_i32).unwrap();
    assert_eq!(ctx.get("load-5", decode_i32), Some(5));
    assert_eq!(ctx.db.get_raw("load-5"), Some("5".to_string()));
    assert_eq!(ctx.completed_count, 0);
}

#[test]
fn context_get_of_missing_or_undecodable_is_none() {
    let mut ctx = memory_context();
    assert_eq!(ctx.get("k", decode_i32), None);
    ctx.db.save_raw("k", "\"text\"").unwrap();
    assert_eq!(ctx.get("k", decode_i32), None);
    let as_string: Option<String> = ctx.get("k", |s: String| serde_json::from_str(&s).ok());
    assert_eq!(as_string, Some("text".to_string()));
}

#[test]
fn context_save_reports_encoding_failure_and_keeps_store() {
    let mut ctx = memory_context();
    ctx.save("k", &1, encode_i32).unwrap();
    let r = ctx.save("k", &2, |_v: &i32| Err(json_error()));
    let e = r.unwrap_err();
    assert_eq!(e.to_string(), format!("serialize error: {}", json_error()));
    assert_eq!(e.kind(), std::io::ErrorKind::Other);
    assert_eq!(ctx.get("k", decode_i32), Some(1));
}

#[test]
fn cache_miss_leaves_count() {
    let mut ctx = memory_context();
    assert!(try_cached_and_mark(&mut ctx, "t1", decode_i32).is_none());
    assert_eq!(ctx.completed_count, 0);
}

#[test]
fn persist_then_cache_hit_counts_both() {
    let mut ctx = memory_context();
    assert_eq!(persist_and_mark(&mut ctx, "t3", &42, encode_i32).unwrap(), 1);
    assert_eq!(ctx.get("t3", decode_i32), Some(42));
    assert_eq!(try_cached_and_mark(&mut ctx, "t3", decode_i32), Some((42, 2)));
    assert_eq!(ctx.completed_count, 2);
}

#[test]
fn persisted_value_wins_on_rerun() {
    // The first run persisted 5; a rerun of a task that would now give 999
    // finds 5 and does not run.
    let mut ctx = memory_context();
    let (v, n) = finish_run_result(&mut ctx, "load-5", 5, encode_i32).unwrap();
    assert_eq!((v, n), (5, 1));
    let rerun = try_cached_and_mark(&mut ctx, "load-5", decode_i32);
    assert_eq!(rerun, Some((5, 2)));
}

#[test]
fn undecodable_cached_text_is_a_miss() {
    let mut ctx = memory_context();
    ctx.db.save_raw("t", "{broken").unwrap();
    assert_eq!(try_cached_and_mark(&mut ctx, "t", decode_i32), None);
    assert_eq!(ctx.completed_count, 0);
}

#[test]
fn persist_failure_names_the_task_and_keeps_count() {
    let mut ctx = Context { db: FailingStore, completed_count: 7 };
    match persist_and_mark(&mut ctx, "t2", &42, encode_i32) {
        Err(DuraflowError::Persist { key, .. }) => assert_eq!(key, "t2"),
        other => panic!("unexpected result: {:?}", other),
    }
    assert_eq!(ctx.completed_count, 7);
}

#[test]
fn run_result_propagates_persist_error() {
    let mut ctx = Context { db: FailingStore, completed_count: 0 };
    let res = finish_run_result(&mut ctx, "t2", 42, encode_i32);
    assert!(res.is_err());
    match res.err().unwrap() {
        DuraflowError::Persist { key, .. } => assert_eq!(key, "t2"),
        other => panic!("unexpected error variant: {:?}", other),
    }
}

#[test]
fn extract_and_run_propagates_persist_error() {
    let mut ctx = Context { db: FailingStore, completed_count: 0 };
    let res = finish_extract(&mut ctx, "t1", Ok(42), encode_i32);
    assert!(res.is_err());
    let m = res.err().unwrap();
    assert!(m.contains("persist failed"));
    assert_eq!(m, "persist failed for t1: simulated write failure");
}

#[test]
fn extract_hands_on_inner_failure_without_persisting() {
    let mut ctx = memory_context();
    let res = finish_extract(&mut ctx, "t1", Err("Failed to extract input".to_string()), encode_i32);
    assert_eq!(res, Err("Failed to extract input".to_string()));
    assert_eq!(ctx.db.get_raw("t1"), None);
    assert_eq!(ctx.completed_count, 0);
}

#[test]
fn persist_and_cache_work_and_progress_called() {
    let mut ctx = memory_context();
    let (out, n) = finish_extract(&mut ctx, "t3", Ok(42), encode_i32).unwrap();
    assert_eq!(out, 42);
    assert_eq!(n, 1);
    let stored: Option<i32> = ctx.get("t3", decode_i32);
    assert_eq!(stored, Some(42));
    assert_eq!(try_cached_and_mark(&mut ctx, "t3", decode_i32), Some((42, 2)));
}

#[test]
fn plain_run_keeps_output_and_warns_on_failure() {
    let mut ctx = Context { db: FailingStore, completed_count: 3 };
    let (out, note) = finish_run(&mut ctx, "t4", 9, encode_i32);
    assert_eq!(out, 9);
    assert_eq!(note, Err("persist failed for t4: persist failed for t4: simulated write failure".to_string()));
    assert_eq!(ctx.completed_count, 3);

    let mut ctx = memory_context();
    let (out, note) = finish_run(&mut ctx, "t4", 9, encode_i32);
    assert_eq!((out, note), (9, Ok(1)));
}

#[test]
fn ten_tasks_count_ten() {
    let mut ctx = memory_context();
    for i in 0..10 {
        let key = format!("k{}", i);
        assert!(try_cached_and_mark(&mut ctx, &key, decode_i32).is_none());
        persist_and_mark(&mut ctx, &key, &i, encode_i32).unwrap();
    }
    for i in 0..10 {
        assert_eq!(ctx.get(&format!("k{}", i), decode_i32), Some(i));
    }
    assert_eq!(ctx.completed_count, 10);
}

#[test]
fn error_messages_name_their_cause() {
    let io = DuraflowError::from(std::io::Error::new(std::io::ErrorKind::Other, "disk"));
    assert_eq!(io.message(), "io error: disk");
    let ser = DuraflowError::from(json_error());
    assert!(ser.message().starts_with("serialize error: "));
    assert!(matches!(ser, DuraflowError::Serialize(_)));
    let persist = DuraflowError::Persist {
        key: "k".to_string(),
        source: std::io::Error::new(std::io::ErrorKind::Other, "full"),
    };
    assert_eq!(persist.message(), "persist failed for k: full");
    assert_eq!(DuraflowError::Other("plain words".to_string()).message(), "plain words");
}
