use vstd::prelude::*;

use crate::text::{spec_parse_u8, parse_u8_decimal, str_eq};

verus! {

/// The configuration properties the system reads at startup.
#[derive(Clone, Copy, Debug)]
pub enum ConfigField {
    DatabaseUrl,
    DatabaseCertPath,
    StaticFilesDir,
    StaticFileUrl,
    JwtSecret,
    RegisterUserSecret,
    DatabaseCertProvided,
    UserActionDaily,
    MailerSendToken,
    AppBaseUrl,
}

/// The environment-variable key each field is read from.
pub open spec fn spec_config_key(field: ConfigField) -> Seq<char> {
    match field {
        ConfigField::DatabaseUrl => "database_url"@,
        ConfigField::DatabaseCertPath => "database_cert_path"@,
        ConfigField::StaticFilesDir => "static_files_dir"@,
        ConfigField::StaticFileUrl => "static_files_url"@,
        ConfigField::JwtSecret => "jwt_secret"@,
        ConfigField::RegisterUserSecret => "register_user_secret"@,
        ConfigField::DatabaseCertProvided => "database_cert_provided"@,
        ConfigField::UserActionDaily => "user_action_daily"@,
        ConfigField::MailerSendToken => "mailer_send_token"@,
        ConfigField::AppBaseUrl => "app_base_url"@,
    }
}

impl ConfigField {
    /// The key under which the field is configured.
    pub fn to_str(&self) -> (r: &'static str)
        ensures
            r@ == spec_config_key(*self),
    {
        match self {
            ConfigField::DatabaseUrl => "database_url",
            ConfigField::DatabaseCertPath => "database_cert_path",
            ConfigField::StaticFilesDir => "static_files_dir",
            ConfigField::StaticFileUrl => "static_files_url",
            ConfigField::JwtSecret => "jwt_secret",
            ConfigField::RegisterUserSecret => "register_user_secret",
            ConfigField::DatabaseCertProvided => "database_cert_provided",
            ConfigField::UserActionDaily => "user_action_daily",
            ConfigField::MailerSendToken => "mailer_send_token",
            ConfigField::AppBaseUrl => "app_base_url",
        }
    }
}

/// The loaded configuration, one value per field.
#[derive(Debug, Clone)]
pub struct Config {
    pub database_url: String,
    pub database_cert_path: String,
    pub static_files_dir: String,
    pub static_files_url: String,
    pub jwt_secret: String,
    pub register_user_secret: String,
    pub database_cert_provided: bool,
    pub user_action_daily: u8,
    pub mailer_send_token: String,
    pub app_base_url: String,
}

/// One configuration value, as typed as the field it came from.
#[derive(Debug, Clone)]
pub enum ConfigValue {
    Text(String),
    Flag(bool),
    Count(u8),
}

/// The value a configuration holds for one field.
pub open spec fn spec_get_field(c: Config, field: ConfigField) -> ConfigValue {
    match field {
        ConfigField::DatabaseUrl => ConfigValue::Text(c.database_url),
        ConfigField::DatabaseCertPath => ConfigValue::Text(c.database_cert_path),
        ConfigField::StaticFilesDir => ConfigValue::Text(c.static_files_dir),
        ConfigField::StaticFileUrl => ConfigValue::Text(c.static_files_url),
        ConfigField::JwtSecret => ConfigValue::Text(c.jwt_secret),
        ConfigField::RegisterUserSecret => ConfigValue::Text(c.register_user_secret),
        ConfigField::DatabaseCertProvided => ConfigValue::Flag(c.database_cert_provided),
        ConfigField::UserActionDaily => ConfigValue::Count(c.user_action_daily),
        ConfigField::MailerSendToken => ConfigValue::Text(c.mailer_send_token),
        ConfigField::AppBaseUrl => ConfigValue::Text(c.app_base_url),
    }
}

/// Raised when a configuration value is asked for before any configuration
/// has been handed over.
#[derive(Debug, Clone, PartialEq, Eq, Structural)]
pub enum ConfigError {
    Missing,
}

impl Config {
    /// The typed value stored for `field`.
    pub fn get_field(&self, field: ConfigField) -> (r: ConfigValue)
        ensures
            r == spec_get_field(*self, field),
    {
        match field {
            ConfigField::DatabaseUrl => ConfigValue::Text(self.database_url.clone()),
            ConfigField::DatabaseCertPath => ConfigValue::Text(self.database_cert_path.clone()),
            ConfigField::StaticFilesDir => ConfigValue::Text(self.static_files_dir.clone()),
            ConfigField::StaticFileUrl => ConfigValue::Text(self.static_files_url.clone()),
            ConfigField::JwtSecret => ConfigValue::Text(self.jwt_secret.clone()),
            ConfigField::RegisterUserSecret => ConfigValue::Text(self.register_user_secret.clone()),
            ConfigField::DatabaseCertProvided => ConfigValue::Flag(self.database_cert_provided),
            ConfigField::UserActionDaily => ConfigValue::Count(self.user_action_daily),
            ConfigField::MailerSendToken => ConfigValue::Text(self.mailer_send_token.clone()),
            ConfigField::AppBaseUrl => ConfigValue::Text(self.app_base_url.clone()),
        }
    }
}

/// Reads one field out of the configuration, if one has been loaded;
/// asking before the configuration exists is the one way this fails.
pub fn get_sync(config: Option<&Config>, field: ConfigField) -> (r: Result<
    ConfigValue,
    ConfigError,
>)
    ensures
        match r {
            Ok(v) => config is Some && v == spec_get_field(*config->Some_0, field),
            Err(e) => config is None && e == ConfigError::Missing,
        },
{
    match config {
        Some(c) => Ok(c.get_field(field)),
        None => Err(ConfigError::Missing),
    }
}

/// Reads the flag that says whether the database connection carries a
/// certificate: exactly the text `true` turns it on, anything else,
/// or no value at all, leaves it off.
pub fn parse_cert_provided(value: Option<&str>) -> (r: bool)
    ensures
        r == (value is Some && value->Some_0@ == "true"@),
{
    match value {
        Some(v) => str_eq(v, "true"),
        None => false,
    }
}

/// Reads the per-day user action limit from its environment text.
pub fn parse_user_action_daily(value: &str) -> (r: Option<u8>)
    ensures
        r == spec_parse_u8(value@),
{
    parse_u8_decimal(value)
}

} // verus!
