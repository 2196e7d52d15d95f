//! Secrets: repository passwords and the Telegram bot settings.

use vstd::prelude::*;
use crate::errors::SecretsError;
use crate::exclude::config_dir;
use crate::names::NameMap;
use crate::text::{join_path, path_join};

verus! {

/// Telegram bot settings; both parts are needed to send anything.
#[derive(Debug, Clone, Default)]
pub struct TelegramConfig {
    pub bot_token: Option<String>,
    pub chat_id: Option<String>,
}

/// Secret values by key, plus the optional Telegram settings.
#[derive(Debug, Clone)]
pub struct Secrets {
    pub values: NameMap<String>,
    pub telegram: Option<TelegramConfig>,
}

impl Default for Secrets {
    /// No secrets and no Telegram settings.
    fn default() -> (r: Self)
        ensures
            r.values@ == Map::<Seq<char>, String>::empty(),
            r.telegram is None,
    {
        Secrets { values: NameMap::new(), telegram: None }
    }
}

/// What the permission check of the secrets file found: the permission
/// bits of the file, when they grant group or others any access, and of
/// its directory, when they let group or others write.
#[derive(Debug, Clone, Copy, PartialEq, Eq)]
pub struct PermissionFindings {
    pub insecure_file_mode: Option<u32>,
    pub insecure_dir_mode: Option<u32>,
}

impl Secrets {
    /// The secrets file: `secrets.yaml` in the application directory.
    pub fn path() -> (r: Result<String, SecretsError>)
        ensures
            r matches Ok(p) ==> exists|dir: Seq<char>| p@ == path_join(dir, "secrets.yaml"@),
            r matches Err(e) ==> e is IoError,
    {
        match config_dir() {
            Ok(dir) => Ok(join_path(dir.as_str(), "secrets.yaml")),
            Err(e) => Err(SecretsError::IoError(e)),
        }
    }

    /// Checks the modes of the secrets file and of its directory (as read
    /// from the file system, when they could be read): the permission bits
    /// (`mode & 0o777`) of each that is too permissive. Nothing is refused;
    /// the caller warns.
    pub fn warn_if_insecure_permissions(file_mode: Option<u32>, dir_mode: Option<u32>) -> (r:
        PermissionFindings)
        ensures
            r.insecure_file_mode == match file_mode {
                Some(m) => if (m % 512) % 64 != 0 {
                    Some((m % 512) as u32)
                } else {
                    None
                },
                None => None,
            },
            r.insecure_dir_mode == match dir_mode {
                Some(m) => if ((m % 512) / 16) % 2 == 1 || ((m % 512) / 2) % 2 == 1 {
                    Some((m % 512) as u32)
                } else {
                    None
                },
                None => None,
            },
    {
        let insecure_file_mode = match file_mode {
            Some(m) => {
                let bits = m % 512;
                if Self::is_insecure_permissions(bits) {
                    Some(bits)
                } else {
                    None
                }
            },
            None => None,
        };
        let insecure_dir_mode = match dir_mode {
            Some(m) => {
                let bits = m % 512;
                if Self::is_insecure_directory_permissions(bits) {
                    Some(bits)
                } else {
                    None
                }
            },
            None => None,
        };
        PermissionFindings { insecure_file_mode, insecure_dir_mode }
    }

    /// The secret stored under `key`, if any.
    pub fn get(&self, key: &str) -> (r: Option<&str>)
        ensures
            match r {
                Some(v) => self.values@.contains_key(key@) && v@ == self.values@[key@]@,
                None => !self.values@.contains_key(key@),
            },
    {
        match self.values.get(key) {
            Some(v) => Some(v.as_str()),
            None => None,
        }
    }

    /// The Telegram settings, if any were given.
    pub fn telegram_config(&self) -> (r: Option<&TelegramConfig>)
        ensures
            match r {
                Some(t) => self.telegram == Some(*t),
                None => self.telegram is None,
            },
    {
        match &self.telegram {
            Some(t) => Some(t),
            None => None,
        }
    }

    /// A Unix permission mode is insecure for a secrets file when it grants
    /// any access to group or others, i.e. it is more permissive than
    /// `0600`: one of its six low bits is set.
    pub fn is_insecure_permissions(mode: u32) -> (r: bool)
        ensures
            r == (mode % 64 != 0),
    {
        assert(mode & 0o077 == mode % 64) by (bit_vector);
        mode & 0o077 != 0
    }

    /// A directory mode is insecure for holding a secrets file when group
    /// or others may write to it: bit `0o020` or bit `0o002` is set.
    pub fn is_insecure_directory_permissions(mode: u32) -> (r: bool)
        ensures
            r == ((mode / 16) % 2 == 1 || (mode / 2) % 2 == 1),
    {
        assert((mode & 0o022 != 0) == ((mode / 16) % 2 == 1 || (mode / 2) % 2 == 1))
            by (bit_vector);
        mode & 0o022 != 0
    }
}

} // verus!
