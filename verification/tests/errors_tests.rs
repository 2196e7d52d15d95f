use restic_manager::errors::{AppError, ConfigError, NotificationError, ResticError, SecretsError};
use std::io::{Error, ErrorKind};

#[test]
fn test_from_io_not_found_becomes_not_found_variant() {
    let err = Error::new(ErrorKind::NotFound, "No such file or directory");
    assert!(matches!(ResticError::from_io(err), ResticError::NotFound));
}

#[test]
fn test_from_io_permission_denied_preserves_error() {
    let err = Error::new(ErrorKind::PermissionDenied, "Permission denied");
    match ResticError::from_io(err) {
        ResticError::Io(inner) => assert_eq!(inner.kind(), ErrorKind::PermissionDenied),
        other => panic!("expected ResticError::Io, got {other:?}"),
    }
}

#[test]
fn test_from_io_other_kind_preserves_error() {
    let err = Error::new(ErrorKind::Interrupted, "signal received");
    match ResticError::from_io(err) {
        ResticError::Io(inner) => assert_eq!(inner.kind(), ErrorKind::Interrupted),
        other => panic!("expected ResticError::Io, got {other:?}"),
    }
}

#[test]
fn error_messages_render_like_display() {
    assert_eq!(
        AppError::Config(ConfigError::Invalid("x".to_string())).message(),
        "Configuration error: Invalid configuration: x"
    );
    assert_eq!(AppError::Restic(ResticError::Locked).message(), "Restic error: Repository locked");
    assert_eq!(
        AppError::Notification(NotificationError::NotConfigured).message(),
        "Notification error: Telegram not configured"
    );
    assert_eq!(AppError::Other("plain".to_string()).message(), "plain");
    let io = AppError::Io(Error::new(ErrorKind::Other, "disk full"));
    assert_eq!(io.message(), "IO error: disk full");
}

#[test]
fn secrets_and_config_error_messages() {

    assert_eq!(
        AppError::Secrets(SecretsError::MissingKey("k".to_string())).message(),
        "Secrets error: Missing secret key: k"
    );
    assert_eq!(
        AppError::Config(ConfigError::NotFound("Config file not found at /x".to_string())).message(),
        "Configuration error: Config file not found: Config file not found at /x"
    );
    assert_eq!(
        AppError::Restic(ResticError::CommandFailed("boom".to_string())).message(),
        "Restic error: Restic command failed: boom"
    );
    assert_eq!(ResticError::NotFound.message(), "Restic not found in PATH");
    assert_eq!(
        NotificationError::SendFailed("500".to_string()).message(),
        "Failed to send message: 500"
    );
}
