use world_monitor::keys::{find_secret_key, list_supported_secret_keys, NUM_SECRET_KEYS};
use world_monitor::vault::{SecretsCache, VaultError};

#[test]
fn lists_recognised_names_in_order() {
    let keys = list_supported_secret_keys();
    assert_eq!(keys.len(), NUM_SECRET_KEYS);
    assert_eq!(keys[0], "GROQ_API_KEY");
    assert_eq!(keys[2], "FRED_API_KEY");
    assert_eq!(keys[20], "WORLDMONITOR_API_KEY");
    assert_eq!(find_secret_key("OLLAMA_MODEL"), Some(19));
    assert_eq!(find_secret_key("ollama_model"), None);
    assert_eq!(find_secret_key(""), None);
}

#[test]
fn record_keeps_recognised_non_empty_trimmed_values() {
    let text = r#"{"GROQ_API_KEY":"  abc  ","FRED_API_KEY":"   ","NOT_A_KEY":"x","OLLAMA_MODEL":"llama"}"#;
    let v = SecretsCache::load_from_record(Some(text)).expect("object of strings");
    assert_eq!(v.get_secret("GROQ_API_KEY"), Ok(Some("abc".to_string())));
    assert_eq!(v.get_secret("FRED_API_KEY"), Ok(None));
    assert_eq!(v.get_secret("OLLAMA_MODEL"), Ok(Some("llama".to_string())));
    assert_eq!(v.get_secret("NOT_A_KEY"), Err(VaultError::UnsupportedKey));
    assert_eq!(
        v.get_all_secrets(),
        vec![
            ("GROQ_API_KEY".to_string(), "abc".to_string()),
            ("OLLAMA_MODEL".to_string(), "llama".to_string()),
        ]
    );
}

#[test]
fn malformed_record_is_not_read() {
    assert!(SecretsCache::load_from_record(Some("not json")).is_none());
    assert!(SecretsCache::load_from_record(Some("[1,2]")).is_none());
    assert!(SecretsCache::load_from_record(Some(r#"{"GROQ_API_KEY":5}"#)).is_none());
}

#[test]
fn legacy_values_give_exactly_the_non_empty_ones() {
    let mut values: Vec<Option<String>> = vec![None; NUM_SECRET_KEYS];
    values[1] = Some(" router ".to_string());
    values[3] = Some("   ".to_string());
    values[4] = Some(String::new());
    let v = SecretsCache::from_legacy_values(&values);
    assert_eq!(
        v.get_all_secrets(),
        vec![("OPENROUTER_API_KEY".to_string(), "router".to_string())]
    );
}

#[test]
fn record_text_round_trips_through_the_reader() {
    let mut values: Vec<Option<String>> = vec![None; NUM_SECRET_KEYS];
    values[0] = Some("g".to_string());
    values[20] = Some("w".to_string());
    let v = SecretsCache::from_legacy_values(&values);
    let text = v.record_text();
    assert_eq!(text, r#"{"GROQ_API_KEY":"g","WORLDMONITOR_API_KEY":"w"}"#);
    let back = SecretsCache::load_from_record(Some(&text)).expect("written record reads back");
    assert_eq!(back.get_all_secrets(), v.get_all_secrets());
}

#[test]
fn missing_record_calls_for_migration() {
    assert!(SecretsCache::load_from_record(None).is_none());
}

#[test]
fn staging_empty_value_equals_staging_delete() {
    let record = r#"{"EIA_API_KEY":"e","OTX_API_KEY":"o"}"#;
    let v = SecretsCache::load_from_record(Some(record)).unwrap();
    let a = v.prepare_set("EIA_API_KEY", "").unwrap();
    let b = v.prepare_delete("EIA_API_KEY").unwrap();
    assert_eq!(a.candidate.get_all_secrets(), b.candidate.get_all_secrets());
    assert_eq!(a.record, b.record);
    assert_eq!(a.record, r#"{"OTX_API_KEY":"o"}"#);
    assert_eq!(a.candidate.get_secret("EIA_API_KEY"), Ok(None));
    let c = v.prepare_set("EIA_API_KEY", "  new ").unwrap();
    assert_eq!(c.candidate.get_secret("EIA_API_KEY"), Ok(Some("new".to_string())));
    assert_eq!(c.record, r#"{"EIA_API_KEY":"new","OTX_API_KEY":"o"}"#);
    assert_eq!(v.get_secret("EIA_API_KEY"), Ok(Some("e".to_string())));
}

#[test]
fn unsupported_names_are_refused_without_effect() {
    let v = SecretsCache::load_from_record(Some(r#"{"EIA_API_KEY":"e"}"#)).unwrap();
    assert_eq!(v.get_secret("PATH"), Err(VaultError::UnsupportedKey));
    assert!(matches!(v.prepare_set("PATH", "x"), Err(VaultError::UnsupportedKey)));
    assert!(matches!(v.prepare_delete("PATH"), Err(VaultError::UnsupportedKey)));
    assert_eq!(v.get_all_secrets(), vec![("EIA_API_KEY".to_string(), "e".to_string())]);
}

#[test]
fn change_is_adopted_only_after_a_successful_write() {
    let mut v = SecretsCache::empty();
    let pending = v.prepare_set("FINNHUB_API_KEY", " f ").unwrap();
    assert_eq!(pending.record, r#"{"FINNHUB_API_KEY":"f"}"#);
    assert_eq!(v.apply_write(pending, false), Err(VaultError::StorageAccessFailure));
    assert_eq!(v.get_secret("FINNHUB_API_KEY"), Ok(None));
    let pending = v.prepare_set("FINNHUB_API_KEY", " f ").unwrap();
    assert_eq!(v.apply_write(pending, true), Ok(()));
    assert_eq!(v.get_secret("FINNHUB_API_KEY"), Ok(Some("f".to_string())));
}

#[test]
fn migration_writes_only_when_values_were_found() {
    let empty = SecretsCache::migrate(&vec![None; NUM_SECRET_KEYS]);
    assert_eq!(empty.record, None);
    assert!(!empty.remove_legacy(true));
    let mut values: Vec<Option<String>> = vec![None; NUM_SECRET_KEYS];
    values[7] = Some(" otx ".to_string());
    values[8] = Some("  ".to_string());
    let m = SecretsCache::migrate(&values);
    assert_eq!(m.record.as_deref(), Some(r#"{"OTX_API_KEY":"otx"}"#));
    assert!(m.remove_legacy(true));
    assert!(!m.remove_legacy(false));
    assert_eq!(m.snapshot.get_all_secrets(), vec![("OTX_API_KEY".to_string(), "otx".to_string())]);
    let reloaded = SecretsCache::load_from_record(m.record.as_deref()).expect("record reads back");
    assert_eq!(reloaded.get_all_secrets(), m.snapshot.get_all_secrets());
}
