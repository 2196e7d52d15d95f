use restic_manager::config::{Config, NotificationConfig, ResolvedConfig};
use restic_manager::names::NameMap;
use restic_manager::notifications::{NotificationManager, Notifications, MIN_NOTIFICATION_INTERVAL_NS};
use restic_manager::secrets::{Secrets, TelegramConfig};

fn config_with(telegram: Option<TelegramConfig>) -> ResolvedConfig {
    ResolvedConfig { config: Config::default(), secrets: Secrets { values: NameMap::new(), telegram } }
}

fn configured() -> ResolvedConfig {
    config_with(Some(TelegramConfig { bot_token: Some("token".to_string()), chat_id: Some("chat123".to_string()) }))
}

#[test]
fn test_not_configured() {
    let notifications = Notifications::new(&config_with(None));
    assert!(!notifications.is_configured());
}

#[test]
fn test_send_failure_not_configured() {
    let mut notifications = Notifications::new(&config_with(None));
    assert!(notifications.send_failure("test-job", "test error", 0).is_none());
}

#[test]
fn test_send_success_not_configured() {
    let mut notifications = Notifications::new(&config_with(None));
    assert!(notifications.send_success("test-job", Some("snap123"), 0).is_none());
}

#[test]
fn test_notification_manager_respects_on_failure_flag() {
    let mut manager = NotificationManager::new(&configured(), NotificationConfig { on_failure: false, on_success: false });
    assert!(manager.notify_failure("test-job", "error", 0).is_none());
}

#[test]
fn test_notification_manager_respects_on_success_flag() {
    let mut manager = NotificationManager::new(&configured(), NotificationConfig { on_failure: false, on_success: false });
    assert!(manager.notify_success("test-job", Some("snap123"), 0).is_none());
}

#[test]
fn test_notification_manager_notify_failure_flag_enabled() {
    let mut manager = NotificationManager::new(&configured(), NotificationConfig { on_failure: true, on_success: false });
    let req = manager.notify_failure("test-job", "error", 0).unwrap();
    assert_eq!(req.url, "https://api.telegram.org/bottoken/sendMessage");
    assert_eq!(req.chat_id, "chat123");
    assert_eq!(req.text, "\u{274c} Backup Failed: test-job\n\nError: error");
    assert_eq!(req.parse_mode, "Markdown");
}

#[test]
fn test_notification_manager_notify_success_flag_enabled() {
    let mut manager = NotificationManager::new(&configured(), NotificationConfig { on_failure: false, on_success: true });
    let req = manager.notify_success("test-job", Some("snap123"), 0).unwrap();
    assert_eq!(req.text, "\u{2705} Backup Success: test-job\n\nSnapshot: snap123");
    let mut manager = NotificationManager::new(&configured(), NotificationConfig { on_failure: false, on_success: true });
    let req = manager.notify_success("test-job", None, 0).unwrap();
    assert_eq!(req.text, "\u{2705} Backup Success: test-job");
}

#[test]
fn test_is_configured_with_empty_bot_token() {
    let n = Notifications::new(&config_with(Some(TelegramConfig { bot_token: None, chat_id: Some("123".to_string()) })));
    assert!(!n.is_configured());
}

#[test]
fn test_is_configured_with_empty_chat_id() {
    let n = Notifications::new(&config_with(Some(TelegramConfig { bot_token: Some("token".to_string()), chat_id: None })));
    assert!(!n.is_configured());
}

#[test]
fn test_is_configured_with_both_none() {
    let n = Notifications::new(&config_with(Some(TelegramConfig { bot_token: None, chat_id: None })));
    assert!(!n.is_configured());
}

#[test]
fn test_is_configured_full() {
    let n = Notifications::new(&configured());
    assert!(n.is_configured());
}

#[test]
fn rate_limit_allows_one_per_interval_and_kind() {
    let mut n = Notifications::new(&configured());
    assert!(n.send_failure("job", "e1", 1_000).is_some());
    assert!(n.send_failure("job", "e2", 1_000 + MIN_NOTIFICATION_INTERVAL_NS - 1).is_none());
    assert!(n.send_success("job", None, 2_000).is_some());
    assert!(n.send_failure("job", "e3", 1_000 + MIN_NOTIFICATION_INTERVAL_NS).is_some());
    assert!(n.check_rate_limit(false, 2_000 + MIN_NOTIFICATION_INTERVAL_NS));
    assert!(!n.check_rate_limit(false, 2_000 + MIN_NOTIFICATION_INTERVAL_NS));
}

#[test]
fn partial_notifications_count_as_failures() {
    let mut manager = NotificationManager::new(&configured(), NotificationConfig { on_failure: true, on_success: false });
    let req = manager.notify_partial("job", Some("s1"), "2 file(s) could not be read", 5).unwrap();
    assert_eq!(req.text, "\u{26a0}\u{fe0f} Backup Partial: job\n\nSnapshot: s1\n\nErrors: 2 file(s) could not be read");
    assert!(manager.notify_failure("job", "x", 6).is_none());
}

#[test]
fn telegram_request_needs_both_settings() {
    let n = Notifications::new(&config_with(None));
    assert!(n.telegram_request("hello").is_err());
}
