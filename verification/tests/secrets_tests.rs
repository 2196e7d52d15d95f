use restic_manager::names::NameMap;
use restic_manager::secrets::{Secrets, TelegramConfig};

#[test]
fn test_is_insecure_permissions_0600_is_secure() {
    assert!(!Secrets::is_insecure_permissions(0o600));
}

#[test]
fn test_is_insecure_permissions_0400_is_secure() {
    assert!(!Secrets::is_insecure_permissions(0o400));
}

#[test]
fn test_is_insecure_permissions_group_readable_is_insecure() {
    assert!(Secrets::is_insecure_permissions(0o640));
}

#[test]
fn test_is_insecure_permissions_world_readable_is_insecure() {
    assert!(Secrets::is_insecure_permissions(0o644));
}

#[test]
fn test_is_insecure_permissions_0777_is_insecure() {
    assert!(Secrets::is_insecure_permissions(0o777));
}

#[test]
fn test_is_insecure_directory_permissions_0700_is_secure() {
    assert!(!Secrets::is_insecure_directory_permissions(0o700));
}

#[test]
fn test_is_insecure_directory_permissions_group_readable_only_is_secure() {
    assert!(!Secrets::is_insecure_directory_permissions(0o755));
}

#[test]
fn test_is_insecure_directory_permissions_group_writable_is_insecure() {
    assert!(Secrets::is_insecure_directory_permissions(0o770));
}

#[test]
fn test_is_insecure_directory_permissions_world_writable_is_insecure() {
    assert!(Secrets::is_insecure_directory_permissions(0o777));
}

#[test]
fn test_secrets_get_returns_none_for_missing_key() {
    let secrets = Secrets::default();
    assert_eq!(secrets.get("nonexistent"), None);
    assert!(secrets.telegram_config().is_none());
}

#[test]
fn secrets_get_and_telegram() {
    let mut values = NameMap::new();
    values.insert("backup1_pass".to_string(), "secret123".to_string());
    let secrets = Secrets {
        values,
        telegram: Some(TelegramConfig { bot_token: Some("mytoken".to_string()), chat_id: Some("mychat".to_string()) }),
    };
    assert_eq!(secrets.get("backup1_pass"), Some("secret123"));
    assert_eq!(secrets.telegram_config().unwrap().bot_token.as_deref(), Some("mytoken"));
}

#[test]
fn test_warn_if_insecure_permissions_does_not_panic_on_missing_file() {
    // A secrets file that does not exist has no modes to read: nothing is
    // found and nothing fails.
    let findings = Secrets::warn_if_insecure_permissions(None, None);
    assert_eq!(findings.insecure_file_mode, None);
    assert_eq!(findings.insecure_dir_mode, None);
}

#[test]
fn insecure_permissions_are_reported_with_their_bits() {
    let findings = Secrets::warn_if_insecure_permissions(Some(0o100644), Some(0o40777));
    assert_eq!(findings.insecure_file_mode, Some(0o644));
    assert_eq!(findings.insecure_dir_mode, Some(0o777));
    let findings = Secrets::warn_if_insecure_permissions(Some(0o600), Some(0o750));
    assert_eq!(findings.insecure_file_mode, None);
    assert_eq!(findings.insecure_dir_mode, None);
}
