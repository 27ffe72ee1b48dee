//! The configuration: two JSON documents, one with settings and one with
//! secrets, and the typed questions the rest of the crate asks of them.

use crate::json::{json_document, json_model, lookup, parse_document, Json};
use vstd::prelude::*;

verus! {

/// The settings that have a typed getter.
#[derive(Clone, Copy, Debug, PartialEq, Eq, Structural)]
pub enum ConfigKey {
    EnableRpc,
    EnableNotifications,
    Token,
    UserId,
}

/// Why a configuration could not be loaded or a setting could not be read.
#[derive(Clone, Copy, Debug, PartialEq, Eq, Structural)]
pub enum ConfigError {
    /// The settings file could not be read.
    ReadConfig,
    /// The settings file is not JSON.
    ParseConfig,
    /// The secrets file could not be read.
    ReadSecrets,
    /// The secrets file is not JSON.
    ParseSecrets,
    /// The document has no entry for the setting.
    Missing(ConfigKey),
    /// The entry for the setting has the wrong JSON type.
    Mistyped(ConfigKey),
}

/// The parsed settings and secrets.
pub struct Config {
    config: serde_json::Value,
    secrets: serde_json::Value,
}

/// What a [`Config`] holds, as two JSON trees.
pub struct ConfigView {
    pub config: Json,
    pub secrets: Json,
}

impl ConfigView {
    /// What loading yields for the contents of the two files, `None`
    /// standing for a file that could not be read. The settings file is
    /// judged first, and reading is judged before parsing.
    pub open spec fn load(config_file: Option<Seq<u8>>, secrets_file: Option<Seq<u8>>) -> Result<
        ConfigView,
        ConfigError,
    > {
        match config_file {
            None => Err(ConfigError::ReadConfig),
            Some(config_bytes) => match json_document(config_bytes) {
                None => Err(ConfigError::ParseConfig),
                Some(config) => match secrets_file {
                    None => Err(ConfigError::ReadSecrets),
                    Some(secrets_bytes) => match json_document(secrets_bytes) {
                        None => Err(ConfigError::ParseSecrets),
                        Some(secrets) => Ok(ConfigView { config, secrets }),
                    },
                },
            },
        }
    }

    /// A boolean setting of `document`, or the reason it cannot be had.
    pub open spec fn flag(document: Json, name: Seq<char>, key: ConfigKey) -> Result<
        bool,
        ConfigError,
    > {
        match document.member(name) {
            None => Err(ConfigError::Missing(key)),
            Some(entry) => match entry.as_bool() {
                None => Err(ConfigError::Mistyped(key)),
                Some(flag) => Ok(flag),
            },
        }
    }

    /// Whether the presence synchronizer is switched on.
    pub open spec fn enable_rpc(self) -> Result<bool, ConfigError> {
        Self::flag(self.config, "enable_rpc"@, ConfigKey::EnableRpc)
    }

    /// Whether notifications are switched on.
    pub open spec fn enable_notifications(self) -> Result<bool, ConfigError> {
        Self::flag(self.config, "enable_notifications"@, ConfigKey::EnableNotifications)
    }

    /// The authentication token.
    pub open spec fn token(self) -> Result<Seq<char>, ConfigError> {
        match self.secrets.member("token"@) {
            None => Err(ConfigError::Missing(ConfigKey::Token)),
            Some(entry) => match entry.as_text() {
                None => Err(ConfigError::Mistyped(ConfigKey::Token)),
                Some(text) => Ok(text),
            },
        }
    }

    /// The identity of the host, whose own messages are never announced.
    pub open spec fn user_id(self) -> Result<u64, ConfigError> {
        match self.secrets.member("user_id"@) {
            None => Err(ConfigError::Missing(ConfigKey::UserId)),
            Some(entry) => match entry.as_u64() {
                None => Err(ConfigError::Mistyped(ConfigKey::UserId)),
                Some(id) => Ok(id),
            },
        }
    }

    /// The presence template declared for the process `process`: the member
    /// `process` of the member `rpc` of the settings.
    pub open spec fn template(self, process: Seq<char>) -> Option<Json> {
        match self.config.member("rpc"@) {
            Some(templates) => templates.member(process),
            None => None,
        }
    }
}

impl View for Config {
    type V = ConfigView;

    closed spec fn view(&self) -> ConfigView {
        ConfigView { config: json_model(self.config), secrets: json_model(self.secrets) }
    }
}

impl Config {
    /// Builds the configuration from the contents of the settings file and
    /// of the secrets file. `None` stands for a file that could not be read.
    pub fn new(config_file: Option<&[u8]>, secrets_file: Option<&[u8]>) -> (loaded: Result<
        Config,
        ConfigError,
    >)
        ensures
            match loaded {
                Ok(config) => ConfigView::load(bytes_of(config_file), bytes_of(secrets_file)) == Ok::<
                    ConfigView,
                    ConfigError,
                >(config@),
                Err(error) => ConfigView::load(bytes_of(config_file), bytes_of(secrets_file)) == Err::<
                    ConfigView,
                    ConfigError,
                >(error),
            },
    {
        let config_bytes = match config_file {
            Some(bytes) => bytes,
            None => return Err(ConfigError::ReadConfig),
        };
        let config = match parse_document(config_bytes) {
            Ok(document) => document,
            Err(_) => return Err(ConfigError::ParseConfig),
        };
        let secrets_bytes = match secrets_file {
            Some(bytes) => bytes,
            None => return Err(ConfigError::ReadSecrets),
        };
        let secrets = match parse_document(secrets_bytes) {
            Ok(document) => document,
            Err(_) => return Err(ConfigError::ParseSecrets),
        };
        Ok(Config { config, secrets })
    }

    /// Whether the presence synchronizer is switched on. The settings must
    /// have the entry `enable_rpc`, and it must be a boolean;
    /// [`Self::checked_enable_rpc`] is there for settings that may lack it.
    pub fn enable_rpc(&self) -> (flag: bool)
        requires
            self@.enable_rpc() is Ok,
        ensures
            self@.enable_rpc() == Ok::<bool, ConfigError>(flag),
    {
        Self::flag_of(&self.config, "enable_rpc", Ghost(ConfigKey::EnableRpc))
    }

    /// Whether the presence synchronizer is switched on, or why the
    /// settings do not say.
    pub fn checked_enable_rpc(&self) -> (flag: Result<bool, ConfigError>)
        ensures
            flag == self@.enable_rpc(),
    {
        match Self::read_flag(&self.config, "enable_rpc", ConfigKey::EnableRpc) {
            Ok(_) => Ok(self.enable_rpc()),
            Err(error) => Err(error),
        }
    }

    /// Whether notifications are switched on. The settings must have the
    /// entry `enable_notifications`, and it must be a boolean;
    /// [`Self::checked_enable_notifications`] is there for settings that
    /// may lack it.
    pub fn enable_notifications(&self) -> (flag: bool)
        requires
            self@.enable_notifications() is Ok,
        ensures
            self@.enable_notifications() == Ok::<bool, ConfigError>(flag),
    {
        Self::flag_of(
            &self.config,
            "enable_notifications",
            Ghost(ConfigKey::EnableNotifications),
        )
    }

    /// Whether notifications are switched on, or why the settings do not
    /// say.
    pub fn checked_enable_notifications(&self) -> (flag: Result<bool, ConfigError>)
        ensures
            flag == self@.enable_notifications(),
    {
        match Self::read_flag(
            &self.config,
            "enable_notifications",
            ConfigKey::EnableNotifications,
        ) {
            Ok(_) => Ok(self.enable_notifications()),
            Err(error) => Err(error),
        }
    }

    /// The authentication token. The secrets must have the entry `token`,
    /// and it must be a string; [`Self::checked_get_token`] is there for
    /// secrets that may lack it.
    pub fn get_token(&self) -> (token: &str)
        requires
            self@.token() is Ok,
        ensures
            self@.token() == Ok::<Seq<char>, ConfigError>(token@),
    {
        match self.get_secrets_value("token") {
            Some(entry) => match entry.as_str() {
                Some(text) => text,
                None => {
                    assert(false);
                    ""
                },
            },
            None => {
                assert(false);
                ""
            },
        }
    }

    /// The authentication token, or why the secrets do not hold one.
    pub fn checked_get_token(&self) -> (token: Result<&str, ConfigError>)
        ensures
            match token {
                Ok(text) => self@.token() == Ok::<Seq<char>, ConfigError>(text@),
                Err(error) => self@.token() == Err::<Seq<char>, ConfigError>(error),
            },
    {
        match self.get_secrets_value("token") {
            None => Err(ConfigError::Missing(ConfigKey::Token)),
            Some(entry) => match entry.as_str() {
                None => Err(ConfigError::Mistyped(ConfigKey::Token)),
                Some(_) => Ok(self.get_token()),
            },
        }
    }

    /// The identity of the host. The secrets must have the entry
    /// `user_id`, and it must be an integer from 0 to `u64::MAX`;
    /// [`Self::checked_get_user_id`] is there for secrets that may lack it.
    pub fn get_user_id(&self) -> (id: u64)
        requires
            self@.user_id() is Ok,
        ensures
            self@.user_id() == Ok::<u64, ConfigError>(id),
    {
        match self.get_secrets_value("user_id") {
            Some(entry) => match entry.as_u64() {
                Some(id) => id,
                None => {
                    assert(false);
                    0
                },
            },
            None => {
                assert(false);
                0
            },
        }
    }

    /// The identity of the host, or why the secrets do not hold one: the
    /// entry `user_id` is missing, or it is no integer from 0 to
    /// `u64::MAX`. Nothing is coerced: a negative number, a fraction and a
    /// string of digits are all refused.
    pub fn checked_get_user_id(&self) -> (id: Result<u64, ConfigError>)
        ensures
            id == self@.user_id(),
    {
        match self.get_secrets_value("user_id") {
            None => Err(ConfigError::Missing(ConfigKey::UserId)),
            Some(entry) => match entry.as_u64() {
                None => Err(ConfigError::Mistyped(ConfigKey::UserId)),
                Some(_) => Ok(self.get_user_id()),
            },
        }
    }

    /// The presence template declared for the process `key`, if any.
    pub fn get_config_rpc_value(&self, key: &str) -> (found: Option<&serde_json::Value>)
        ensures
            match found {
                Some(template) => self@.template(key@) == Some(json_model(*template)),
                None => self@.template(key@) is None,
            },
    {
        match self.get_config_value("rpc") {
            Some(templates) => lookup(templates, key),
            None => None,
        }
    }

    /// The entry `key` of the settings, if any.
    pub fn get_config_value(&self, key: &str) -> (found: Option<&serde_json::Value>)
        ensures
            match found {
                Some(entry) => self@.config.member(key@) == Some(json_model(*entry)),
                None => self@.config.member(key@) is None,
            },
    {
        lookup(&self.config, key)
    }

    /// The entry `key` of the secrets, if any.
    pub fn get_secrets_value(&self, key: &str) -> (found: Option<&serde_json::Value>)
        ensures
            match found {
                Some(entry) => self@.secrets.member(key@) == Some(json_model(*entry)),
                None => self@.secrets.member(key@) is None,
            },
    {
        lookup(&self.secrets, key)
    }

    fn read_flag(document: &serde_json::Value, name: &str, key: ConfigKey) -> (flag: Result<
        bool,
        ConfigError,
    >)
        ensures
            flag == ConfigView::flag(json_model(*document), name@, key),
    {
        match lookup(document, name) {
            None => Err(ConfigError::Missing(key)),
            Some(entry) => match entry.as_bool() {
                None => Err(ConfigError::Mistyped(key)),
                Some(flag) => Ok(flag),
            },
        }
    }

    fn flag_of(document: &serde_json::Value, name: &str, Ghost(key): Ghost<ConfigKey>) -> (flag:
        bool)
        requires
            ConfigView::flag(json_model(*document), name@, key) is Ok,
        ensures
            ConfigView::flag(json_model(*document), name@, key) == Ok::<bool, ConfigError>(flag),
    {
        match lookup(document, name) {
            Some(entry) => match entry.as_bool() {
                Some(flag) => flag,
                None => {
                    assert(false);
                    false
                },
            },
            None => {
                assert(false);
                false
            },
        }
    }
}

/// The contents of a file that was read, as a byte sequence.
pub open spec fn bytes_of(file: Option<&[u8]>) -> Option<Seq<u8>> {
    match file {
        Some(bytes) => Some(bytes@),
        None => None,
    }
}

} // verus!
