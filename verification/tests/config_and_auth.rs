use rosemary::auth::password::{hash_password, password_verify};
use rosemary::auth::token::extract_token;
use rosemary::config::load::{
    get_sync, parse_cert_provided, parse_user_action_daily, Config, ConfigError, ConfigField,
    ConfigValue,
};

fn sample_config() -> Config {
    Config {
        database_url: String::from("postgres://localhost/rosemary"),
        database_cert_path: String::from("/certs/root.crt"),
        static_files_dir: String::from("/srv/static"),
        static_files_url: String::from("https://static.example.com"),
        jwt_secret: String::from("not-a-real-value"),
        register_user_secret: String::from("not-a-real-value"),
        database_cert_provided: true,
        user_action_daily: 5,
        mailer_send_token: String::from("not-a-real-value"),
        app_base_url: String::from("https://www.example.com"),
    }
}

#[test]
fn config_field_keys() {
    assert_eq!(ConfigField::DatabaseUrl.to_str(), "database_url");
    assert_eq!(ConfigField::StaticFilesDir.to_str(), "static_files_dir");
    assert_eq!(ConfigField::UserActionDaily.to_str(), "user_action_daily");
    assert_eq!(ConfigField::AppBaseUrl.to_str(), "app_base_url");
}

#[test]
fn config_fields_resolve() {
    let config = sample_config();
    match config.get_field(ConfigField::StaticFilesDir) {
        ConfigValue::Text(value) => assert_eq!(value, "/srv/static"),
        _ => panic!("expected text"),
    }
    match config.get_field(ConfigField::DatabaseCertProvided) {
        ConfigValue::Flag(value) => assert!(value),
        _ => panic!("expected flag"),
    }
    match config.get_field(ConfigField::UserActionDaily) {
        ConfigValue::Count(value) => assert_eq!(value, 5),
        _ => panic!("expected count"),
    }
}

#[test]
fn get_sync_needs_a_config() {
    let config = sample_config();
    assert!(get_sync(Some(&config), ConfigField::JwtSecret).is_ok());
    match get_sync(None, ConfigField::JwtSecret) {
        Err(error) => assert_eq!(error, ConfigError::Missing),
        Ok(_) => panic!("a missing configuration must be reported"),
    }
}

#[test]
fn cert_flag_parses() {
    assert!(parse_cert_provided(Some("true")));
    assert!(!parse_cert_provided(Some("false")));
    assert!(!parse_cert_provided(Some("TRUE")));
    assert!(!parse_cert_provided(None));
}

#[test]
fn action_limit_parses() {
    assert_eq!(parse_user_action_daily("5"), Some(5));
    assert_eq!(parse_user_action_daily("0"), Some(0));
    assert_eq!(parse_user_action_daily("300"), None);
    assert_eq!(parse_user_action_daily("five"), None);
}

#[test]
fn tokens_extract() {
    assert_eq!(
        extract_token(String::from("Bearer abc.def.ghi")),
        "abc.def.ghi"
    );
    assert_eq!(extract_token(String::from("abc.def.ghi")), "abc.def.ghi");
    assert_eq!(extract_token(String::from("Bearer")), "Bearer");
    assert_eq!(extract_token(String::from("BearerX")), "");
    assert_eq!(extract_token(String::from("")), "");
}

#[test]
fn test_hash_password() {
    let password = "my_secure_password";
    let hashed = hash_password(password).unwrap();
    assert!(!hashed.is_empty());

    let is_valid_hash = bcrypt::verify(password, &hashed).unwrap();
    assert!(is_valid_hash);
}

#[test]
fn test_password_verify() {
    let password = "my_secure_password";
    let hashed = hash_password(password).unwrap();
    let is_valid = password_verify(password, &hashed).unwrap();
    assert!(is_valid);

    let is_invalid = password_verify("wrong_password", &hashed).unwrap();
    assert!(!is_invalid);
}
