//! Error types of the library and the human-readable text of each.

use vstd::prelude::*;
use crate::text::concat2;

verus! {

#[verifier::external_type_specification]
#[verifier::external_body]
pub struct ExIoError(std::io::Error);

/// The text of an I/O error.
///
/// Trusted: `<std::io::Error as Display>::fmt` through `ToString`; the
/// text comes from the operating system, so nothing is stated of it.
#[verifier::external_body]
fn io_error_text(e: &std::io::Error) -> String {
    e.to_string()
}

/// Whether an I/O error value is of kind `NotFound`: the kind is carried by
/// the error value itself.
pub uninterp spec fn io_kind_is_not_found(e: std::io::Error) -> bool;

/// Whether an I/O error is of kind `NotFound`.
///
/// Trusted: `std::io::Error::kind` compared with `ErrorKind::NotFound`.
/// The kind is read from the error value, so the answer is named by
/// `io_kind_is_not_found` of that value; which kind the operating system
/// gave an error is not stated.
#[verifier::external_body]
fn io_error_is_not_found(e: &std::io::Error) -> (r: bool)
    ensures
        r == io_kind_is_not_found(*e),
{
    e.kind() == std::io::ErrorKind::NotFound
}

/// Problems with the configuration file.
#[derive(Debug)]
pub enum ConfigError {
    IoError(std::io::Error),
    ParseError(String),
    NotFound(String),
    Invalid(String),
    MissingField(String),
}

/// Problems with the secrets file.
#[derive(Debug)]
pub enum SecretsError {
    IoError(std::io::Error),
    ParseError(String),
    NotFound(String),
    MissingKey(String),
}

/// Problems running the `restic` command.
#[derive(Debug)]
pub enum ResticError {
    CommandFailed(String),
    NotFound,
    Io(std::io::Error),
    NotInitialized,
    InvalidPassword,
    Locked,
    SnapshotNotFound(String),
}

/// Problems sending a notification.
#[derive(Debug)]
pub enum NotificationError {
    RequestFailed(String),
    NotConfigured,
    SendFailed(String),
}

/// Any error of the application.
#[derive(Debug)]
pub enum AppError {
    Config(ConfigError),
    Secrets(SecretsError),
    Restic(ResticError),
    Notification(NotificationError),
    Io(std::io::Error),
    Other(String),
}

proof fn lemma_prefix_extends(p: Seq<char>, t: Seq<char>, m: Seq<char>)
    requires
        t.is_prefix_of(m),
    ensures
        (p + t).is_prefix_of(p + m),
{
    assert((p + t) =~= (p + m).subrange(0, (p + t).len() as int));
}

/// The text of a configuration error that carries no I/O error.
pub open spec fn config_error_text(e: ConfigError) -> Seq<char> {
    match e {
        ConfigError::IoError(_) => "Failed to read config file: "@,
        ConfigError::ParseError(s) => "Failed to parse YAML: "@ + s@,
        ConfigError::NotFound(s) => "Config file not found: "@ + s@,
        ConfigError::Invalid(s) => "Invalid configuration: "@ + s@,
        ConfigError::MissingField(s) => "Missing required field: "@ + s@,
    }
}

/// The text of a secrets error; for an I/O error, the part before the
/// operating system's message.
pub open spec fn secrets_error_text(e: SecretsError) -> Seq<char> {
    match e {
        SecretsError::IoError(_) => "Failed to read secrets file: "@,
        SecretsError::ParseError(s) => "Failed to parse YAML: "@ + s@,
        SecretsError::NotFound(s) => "Secrets file not found: "@ + s@,
        SecretsError::MissingKey(s) => "Missing secret key: "@ + s@,
    }
}

/// The text of a restic error; for an I/O error, the part before the
/// operating system's message.
pub open spec fn restic_error_text(e: ResticError) -> Seq<char> {
    match e {
        ResticError::CommandFailed(s) => "Restic command failed: "@ + s@,
        ResticError::NotFound => "Restic not found in PATH"@,
        ResticError::Io(_) => "Failed to run restic: "@,
        ResticError::NotInitialized => "Repository not initialized"@,
        ResticError::InvalidPassword => "Invalid password"@,
        ResticError::Locked => "Repository locked"@,
        ResticError::SnapshotNotFound(s) => "Snapshot not found: "@ + s@,
    }
}

/// The text of a notification error.
pub open spec fn notification_error_text(e: NotificationError) -> Seq<char> {
    match e {
        NotificationError::RequestFailed(s) => "HTTP request failed: "@ + s@,
        NotificationError::NotConfigured => "Telegram not configured"@,
        NotificationError::SendFailed(s) => "Failed to send message: "@ + s@,
    }
}

/// The text of an application error; for an error that carries an I/O
/// error, the part before the operating system's message.
pub open spec fn app_error_text(e: AppError) -> Seq<char> {
    match e {
        AppError::Config(c) => "Configuration error: "@ + config_error_text(c),
        AppError::Secrets(s) => "Secrets error: "@ + secrets_error_text(s),
        AppError::Restic(r) => "Restic error: "@ + restic_error_text(r),
        AppError::Notification(n) => "Notification error: "@ + notification_error_text(n),
        AppError::Io(_) => "IO error: "@,
        AppError::Other(s) => s@,
    }
}

impl ConfigError {
    /// True when the error carries an operating-system I/O error.
    pub open spec fn carries_io(&self) -> bool {
        self is IoError
    }

    /// The error's text, as its `Display` would render it.
    pub fn message(&self) -> (r: String)
        ensures
            !self.carries_io() ==> r@ == config_error_text(*self),
            self.carries_io() ==> config_error_text(*self).is_prefix_of(r@),
    {
        let r = match self {
            ConfigError::IoError(e) => concat2("Failed to read config file: ", io_error_text(e).as_str()),
            ConfigError::ParseError(s) => concat2("Failed to parse YAML: ", s.as_str()),
            ConfigError::NotFound(s) => concat2("Config file not found: ", s.as_str()),
            ConfigError::Invalid(s) => concat2("Invalid configuration: ", s.as_str()),
            ConfigError::MissingField(s) => concat2("Missing required field: ", s.as_str()),
        };
        proof {
            if self.carries_io() {
                assert(config_error_text(*self).is_prefix_of(r@));
            }
        }
        r
    }
}

impl SecretsError {
    /// True when the error carries an operating-system I/O error.
    pub open spec fn carries_io(&self) -> bool {
        self is IoError
    }

    /// The error's text, as its `Display` would render it.
    pub fn message(&self) -> (r: String)
        ensures
            !self.carries_io() ==> r@ == secrets_error_text(*self),
            self.carries_io() ==> secrets_error_text(*self).is_prefix_of(r@),
    {
        let r = match self {
            SecretsError::IoError(e) => concat2("Failed to read secrets file: ", io_error_text(e).as_str()),
            SecretsError::ParseError(s) => concat2("Failed to parse YAML: ", s.as_str()),
            SecretsError::NotFound(s) => concat2("Secrets file not found: ", s.as_str()),
            SecretsError::MissingKey(s) => concat2("Missing secret key: ", s.as_str()),
        };
        proof {
            if self.carries_io() {
                assert(secrets_error_text(*self).is_prefix_of(r@));
            }
        }
        r
    }
}

impl ResticError {
    /// True when the error carries an operating-system I/O error.
    pub open spec fn carries_io(&self) -> bool {
        self is Io
    }

    /// Classifies an I/O error from spawning or waiting on `restic`, given
    /// whether its kind is `NotFound`: only that kind becomes `NotFound`,
    /// anything else is kept as `Io` so the real cause stays visible.
    pub fn classify_io(not_found: bool, err: std::io::Error) -> (r: ResticError)
        ensures
            not_found ==> r is NotFound,
            !not_found ==> r == ResticError::Io(err),
    {
        if not_found {
            ResticError::NotFound
        } else {
            ResticError::Io(err)
        }
    }

    /// Classifies an I/O error from spawning or waiting on `restic`: only a
    /// "not found" error becomes `NotFound`; any other is kept as `Io`.
    pub fn from_io(err: std::io::Error) -> (r: ResticError)
        ensures
            io_kind_is_not_found(err) ==> r is NotFound,
            !io_kind_is_not_found(err) ==> r == ResticError::Io(err),
    {
        let not_found = io_error_is_not_found(&err);
        Self::classify_io(not_found, err)
    }

    /// The error's text, as its `Display` would render it.
    pub fn message(&self) -> (r: String)
        ensures
            !self.carries_io() ==> r@ == restic_error_text(*self),
            self.carries_io() ==> restic_error_text(*self).is_prefix_of(r@),
    {
        let r = match self {
            ResticError::CommandFailed(s) => concat2("Restic command failed: ", s.as_str()),
            ResticError::NotFound => String::from_str("Restic not found in PATH"),
            ResticError::Io(e) => concat2("Failed to run restic: ", io_error_text(e).as_str()),
            ResticError::NotInitialized => String::from_str("Repository not initialized"),
            ResticError::InvalidPassword => String::from_str("Invalid password"),
            ResticError::Locked => String::from_str("Repository locked"),
            ResticError::SnapshotNotFound(s) => concat2("Snapshot not found: ", s.as_str()),
        };
        proof {
            if self.carries_io() {
                assert(restic_error_text(*self).is_prefix_of(r@));
            }
        }
        r
    }
}

impl NotificationError {
    /// The error's text, as its `Display` would render it.
    pub fn message(&self) -> (r: String)
        ensures
            r@ == notification_error_text(*self),
    {
        match self {
            NotificationError::RequestFailed(s) => concat2("HTTP request failed: ", s.as_str()),
            NotificationError::NotConfigured => String::from_str("Telegram not configured"),
            NotificationError::SendFailed(s) => concat2("Failed to send message: ", s.as_str()),
        }
    }
}

impl AppError {
    /// True when the error carries an operating-system I/O error.
    pub open spec fn carries_io(&self) -> bool {
        match self {
            AppError::Config(c) => c.carries_io(),
            AppError::Secrets(s) => s.carries_io(),
            AppError::Restic(r) => r.carries_io(),
            AppError::Notification(_) => false,
            AppError::Io(_) => true,
            AppError::Other(_) => false,
        }
    }

    /// The error's text, as its `Display` would render it.
    pub fn message(&self) -> (r: String)
        ensures
            !self.carries_io() ==> r@ == app_error_text(*self),
            self.carries_io() ==> app_error_text(*self).is_prefix_of(r@),
    {
        let r = match self {
            AppError::Config(c) => {
                let m = c.message();
                let r = concat2("Configuration error: ", m.as_str());
                proof {
                    lemma_prefix_extends("Configuration error: "@, config_error_text(*c), m@);
                }
                r
            },
            AppError::Secrets(s) => {
                let m = s.message();
                let r = concat2("Secrets error: ", m.as_str());
                proof {
                    lemma_prefix_extends("Secrets error: "@, secrets_error_text(*s), m@);
                }
                r
            },
            AppError::Restic(e) => {
                let m = e.message();
                let r = concat2("Restic error: ", m.as_str());
                proof {
                    lemma_prefix_extends("Restic error: "@, restic_error_text(*e), m@);
                }
                r
            },
            AppError::Notification(n) => concat2("Notification error: ", n.message().as_str()),
            AppError::Io(e) => concat2("IO error: ", io_error_text(e).as_str()),
            AppError::Other(s) => String::from_str(s.as_str()),
        };
        proof {
            if self.carries_io() {
                assert(app_error_text(*self).is_prefix_of(r@));
            }
        }
        r
    }
}

} // verus!
