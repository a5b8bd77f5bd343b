use quack_rs::secrets::{SecretEntry, SecretsManager};

#[test]
fn secret_entry_builder() {
    let entry = SecretEntry::new("test", "bearer")
        .with_provider("config")
        .with_scope("https://api.example.com")
        .with_field("token", "abc123")
        .with_field("refresh_token", "xyz789");

    assert_eq!(entry.name(), "test");
    assert_eq!(entry.secret_type(), "bearer");
    assert_eq!(entry.provider(), "config");
    assert_eq!(entry.scope(), "https://api.example.com");
    assert_eq!(entry.get_field("token"), Some("abc123"));
    assert_eq!(entry.get_field("refresh_token"), Some("xyz789"));
    assert_eq!(entry.get_field("nonexistent"), None);
    assert_eq!(entry.field_count(), 2);
    assert!(!entry.is_empty());
}

#[test]
fn secret_entry_new_defaults() {
    let entry = SecretEntry::new("s", "s3");
    assert_eq!(entry.provider(), "");
    assert_eq!(entry.scope(), "");
    assert!(entry.is_empty());
    assert_eq!(entry.field_count(), 0);
}

#[test]
#[allow(clippy::redundant_clone)]
fn secret_entry_clone() {
    let e1 = SecretEntry::new("a", "b").with_field("k", "v");
    let e2 = e1.clone();
    assert_eq!(e2.name(), "a");
    assert_eq!(e2.get_field("k"), Some("v"));
}

#[test]
fn debug_redacts_field_values() {
    let entry =
        SecretEntry::new("api_key", "bearer").with_field("token", "super-secret-value-12345");

    let debug_output = entry.debug_string();

    assert!(
        !debug_output.contains("super-secret-value-12345"),
        "Debug output must not contain secret values: {debug_output}"
    );
    assert!(debug_output.contains("token"), "Debug should show field keys");
    assert!(
        debug_output.contains("[REDACTED]"),
        "Debug should show [REDACTED] for values"
    );
}

#[test]
fn display_does_not_leak_values() {
    let entry =
        SecretEntry::new("api_key", "bearer").with_field("token", "super-secret-value-12345");

    let display_output = entry.to_string();

    assert!(
        !display_output.contains("super-secret-value-12345"),
        "Display must not contain secret values: {display_output}"
    );
    assert!(
        display_output.contains("api_key"),
        "Display should show the secret name"
    );
}

#[test]
fn field_keys_returns_keys_only() {
    let entry = SecretEntry::new("x", "y")
        .with_field("token", "secret1")
        .with_field("key_id", "secret2");

    let keys = entry.field_keys();
    assert_eq!(keys.len(), 2);
    assert!(keys.contains(&"token"));
    assert!(keys.contains(&"key_id"));
}

struct InMemorySecrets {
    entries: Vec<SecretEntry>,
}

impl SecretsManager for InMemorySecrets {
    fn get_secret(&self, name: &str, secret_type: &str) -> Option<SecretEntry> {
        self.entries
            .iter()
            .find(|e| e.name() == name && e.secret_type() == secret_type)
            .cloned()
    }

    fn list_secrets(&self, secret_type: Option<&str>) -> Vec<SecretEntry> {
        self.entries
            .iter()
            .filter(|e| secret_type.is_none() || secret_type == Some(e.secret_type()))
            .cloned()
            .collect()
    }

    fn remove_secret(&self, _name: &str, _secret_type: &str) -> bool {
        false
    }
}

#[test]
fn in_memory_secrets_manager() {
    let mgr = InMemorySecrets {
        entries: vec![
            SecretEntry::new("api_key", "bearer").with_field("token", "t1"),
            SecretEntry::new("bucket", "s3").with_field("key_id", "k1"),
        ],
    };

    assert!(mgr.get_secret("api_key", "bearer").is_some());
    assert!(mgr.get_secret("api_key", "s3").is_none());
    assert!(mgr.get_secret("missing", "bearer").is_none());

    let all = mgr.list_secrets(None);
    assert_eq!(all.len(), 2);

    let s3_only = mgr.list_secrets(Some("s3"));
    assert_eq!(s3_only.len(), 1);
    assert_eq!(s3_only[0].name(), "bucket");
}

#[test]
fn secrets_manager_is_send_sync() {
    fn assert_send_sync<T: Send + Sync>() {}
    assert_send_sync::<InMemorySecrets>();
}

#[test]
fn secret_entry_empty_name_and_type() {
    let entry = SecretEntry::new("", "");
    assert_eq!(entry.name(), "");
    assert_eq!(entry.secret_type(), "");
}

#[test]
fn with_field_overwrites_existing_key() {
    let entry = SecretEntry::new("s", "t")
        .with_field("token", "old-value")
        .with_field("token", "new-value");
    assert_eq!(entry.get_field("token"), Some("new-value"));
    assert_eq!(entry.field_count(), 1);
}

#[test]
fn debug_redacts_empty_field_value() {
    let entry = SecretEntry::new("s", "t").with_field("key", "");
    let debug = entry.debug_string();
    assert!(debug.contains("[REDACTED]"));
    assert!(debug.contains("key"));
}

#[test]
fn display_shows_field_count_not_values() {
    let entry = SecretEntry::new("s", "t")
        .with_field("a", "secret1")
        .with_field("b", "secret2")
        .with_field("c", "secret3");
    let display = entry.to_string();
    assert!(display.contains("fields=3"));
    assert!(!display.contains("secret1"));
    assert!(!display.contains("secret2"));
    assert!(!display.contains("secret3"));
}

#[test]
fn list_secrets_with_no_matching_type() {
    let mgr = InMemorySecrets {
        entries: vec![SecretEntry::new("a", "bearer").with_field("token", "t1")],
    };
    let result = mgr.list_secrets(Some("s3"));
    assert!(result.is_empty());
}

#[test]
fn remove_secret_returns_false() {
    let mgr = InMemorySecrets {
        entries: vec![SecretEntry::new("a", "b")],
    };
    assert!(!mgr.remove_secret("a", "b"));
}

#[test]
fn secret_entry_many_fields() {
    let mut entry = SecretEntry::new("s", "t");
    for i in 0..100 {
        entry = entry.with_field(&format!("key_{i}"), &format!("value_{i}"));
    }
    assert_eq!(entry.field_count(), 100);
    assert_eq!(entry.get_field("key_50"), Some("value_50"));
    assert_eq!(entry.field_keys().len(), 100);
}

#[test]
fn debug_string_exact_form() {
    let entry = SecretEntry::new("api_key", "bearer")
        .with_field("token", "v1")
        .with_field("key_id", "v2");
    assert_eq!(
        entry.debug_string(),
        "SecretEntry { name: \"api_key\", secret_type: \"bearer\", provider: \"\", scope: \"\", fields: {\"token\": \"[REDACTED]\", \"key_id\": \"[REDACTED]\"} }"
    );
}

#[test]
fn debug_string_without_fields() {
    let entry = SecretEntry::new("n", "t").with_scope("sc").with_provider("p");
    assert_eq!(
        entry.debug_string(),
        "SecretEntry { name: \"n\", secret_type: \"t\", provider: \"p\", scope: \"sc\", fields: {} }"
    );
}

#[test]
fn debug_string_escapes_quotes() {
    let entry = SecretEntry::new("a\"b", "t");
    assert!(entry.debug_string().contains("name: \"a\\\"b\""));
}

#[test]
fn summary_exact_form() {
    let entry = SecretEntry::new("s", "t")
        .with_field("a", "secret1")
        .with_field("b", "secret2")
        .with_field("c", "secret3");
    assert_eq!(
        entry.to_string(),
        "Secret(name=\"s\", type=\"t\", provider=\"\", fields=3)"
    );
    assert!(SecretEntry::new("s", "t").to_string().ends_with("fields=0)"));
}

#[test]
fn summary_counts_many_fields() {
    let mut entry = SecretEntry::new("s", "t");
    for i in 0..120 {
        entry = entry.with_field(&format!("k{i}"), "v");
    }
    assert!(entry.to_string().ends_with("fields=120)"));
}

#[test]
fn renderings_ignore_values() {
    let a = SecretEntry::new("n", "t").with_field("k", "one");
    let b = SecretEntry::new("n", "t").with_field("k", "two");
    assert_eq!(a.debug_string(), b.debug_string());
    assert_eq!(a.to_string(), b.to_string());
}

#[test]
fn with_field_keeps_other_keys_and_order() {
    let entry = SecretEntry::new("s", "t")
        .with_field("a", "1")
        .with_field("b", "2")
        .with_field("a", "3");
    assert_eq!(entry.get_field("a"), Some("3"));
    assert_eq!(entry.get_field("b"), Some("2"));
    assert_eq!(entry.field_keys(), vec!["a", "b"]);
    assert_eq!(entry.field_count(), 2);
}

#[test]
fn metadata_setters_leave_fields_alone() {
    let entry = SecretEntry::new("s", "t")
        .with_field("k", "v")
        .with_provider("p1")
        .with_provider("p2")
        .with_scope("x");
    assert_eq!(entry.provider(), "p2");
    assert_eq!(entry.scope(), "x");
    assert_eq!(entry.get_field("k"), Some("v"));
    assert_eq!(entry.name(), "s");
}

#[test]
fn field_count_is_number_of_distinct_keys() {
    let entry = SecretEntry::new("s", "t")
        .with_field("a", "1")
        .with_provider("p")
        .with_field("b", "2")
        .with_field("a", "3")
        .with_scope("x")
        .with_field("c", "4")
        .with_field("b", "5");
    assert_eq!(entry.field_count(), 3);
}

#[test]
fn debug_rendering_same_keys_other_order() {
    let a = SecretEntry::new("n", "t").with_field("x", "1").with_field("y", "2");
    let b = SecretEntry::new("n", "t").with_field("y", "9").with_field("x", "8");
    let da = a.debug_string();
    let db = b.debug_string();
    assert_ne!(da, db);
    assert_eq!(da.len(), db.len());
    assert!(db.contains("\"x\": \"[REDACTED]\""));
    assert!(db.contains("\"y\": \"[REDACTED]\""));
    assert_eq!(a.to_string(), b.to_string());
}
