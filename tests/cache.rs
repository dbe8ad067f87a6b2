use std::sync::Mutex;

use serde_json::Value;
use world_monitor::cache::{CacheError, PersistentCache};

fn num(n: u64) -> Value {
    Value::from(n)
}

#[test]
fn missing_or_malformed_file_gives_empty_cache() {
    for contents in [None, Some(""), Some("not json"), Some("[1,2,3]"), Some("42")] {
        let c = PersistentCache::load(contents);
        assert_eq!(c.get("a"), None);
        assert_eq!(c.flush_text(), None);
    }
}

#[test]
fn loads_an_object() {
    let c = PersistentCache::load(Some(r#"{"a":1,"b":{"c":[true,null]}}"#));
    assert_eq!(c.get("a"), Some(num(1)));
    let b: Value = serde_json::from_str(r#"{"c":[true,null]}"#).unwrap();
    assert_eq!(c.get("b"), Some(b));
    assert_eq!(c.get("z"), None);
}

#[test]
fn put_then_get_gives_the_value() {
    let mut c = PersistentCache::load(None);
    let text = c.put("k".to_string(), r#"{"x":[1,2]}"#).unwrap();
    let expected: Value = serde_json::from_str(r#"{"x":[1,2]}"#).unwrap();
    assert_eq!(c.get("k"), Some(expected));
    assert_eq!(text, r#"{"k":{"x":[1,2]}}"#);
    c.put("k".to_string(), "7").unwrap();
    assert_eq!(c.get("k"), Some(num(7)));
}

#[test]
fn invalid_payload_is_refused() {
    let mut c = PersistentCache::load(Some(r#"{"k":1}"#));
    assert_eq!(c.put("k".to_string(), "{oops"), Err(CacheError::InvalidPayload));
    assert_eq!(c.put("j".to_string(), ""), Err(CacheError::InvalidPayload));
    assert_eq!(c.get("k"), Some(num(1)));
    assert_eq!(c.get("j"), None);
    assert_eq!(c.flush_text(), None);
}

#[test]
fn written_document_reloads_with_the_value() {
    let mut c = PersistentCache::load(Some(r#"{"old":"v"}"#));
    let text = c.put("new".to_string(), r#""fresh""#).unwrap();
    c.mark_clean();
    let reloaded = PersistentCache::load(Some(&text));
    assert_eq!(reloaded.get("new"), Some(Value::from("fresh")));
    assert_eq!(reloaded.get("old"), Some(Value::from("v")));
}

#[test]
fn delete_waits_for_flush() {
    let file = r#"{"a":1,"b":2}"#.to_string();
    let mut c = PersistentCache::load(Some(&file));
    c.delete("a");
    assert_eq!(c.get("a"), None);
    assert_eq!(PersistentCache::load(Some(&file)).get("a"), Some(num(1)));
    let flushed = c.flush_text().expect("dirty after delete");
    c.mark_clean();
    assert_eq!(c.flush_text(), None);
    let reloaded = PersistentCache::load(Some(&flushed));
    assert_eq!(reloaded.get("a"), None);
    assert_eq!(reloaded.get("b"), Some(num(2)));
}

#[test]
fn deleting_an_absent_key_still_marks_dirty() {
    let mut c = PersistentCache::load(Some(r#"{"a":1}"#));
    c.delete("zzz");
    assert_eq!(c.flush_text(), Some(r#"{"a":1}"#.to_string()));
}

#[test]
fn distinct_puts_all_stay() {
    let cache = Mutex::new(PersistentCache::load(None));
    let mut last = String::new();
    for i in 0..32u64 {
        let mut c = cache.lock().unwrap();
        last = c.put(format!("key{i}"), &i.to_string()).unwrap();
        c.mark_clean();
    }
    let c = cache.lock().unwrap();
    let reloaded = PersistentCache::load(Some(&last));
    for i in 0..32u64 {
        assert_eq!(c.get(&format!("key{i}")), Some(num(i)));
        assert_eq!(reloaded.get(&format!("key{i}")), Some(num(i)));
    }
}

#[test]
fn document_nested_past_the_parser_limit_does_not_reload() {
    let payload = format!("{}{}", "[".repeat(127), "]".repeat(127));
    let mut c = PersistentCache::load(None);
    let text = c.put("deep".to_string(), &payload).expect("payload within the parser's limit");
    assert!(c.get("deep").is_some());
    assert_eq!(PersistentCache::load(Some(&text)).get("deep"), None);
}
