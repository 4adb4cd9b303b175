use backend::config::{Config, ConfigError, Environment};

fn sample_config() -> Config {
    Config {
        database_url: "postgresql://localhost/test_db".to_string(),
        host: "0.0.0.0".to_string(),
        port: 8080,
        jwt_secret: "test_secret_key_with_at_least_32_chars_for_security".to_string(),
        jwt_expiration_hours: 48,
        max_file_size_bytes: 20 * 1024 * 1024,
        cors_origin: "https://example.com".to_string(),
        environment: Environment::Test,
    }
}

fn invalid_variable(config: &Config) -> String {
    match config.validate() {
        Err(ConfigError::InvalidValue(name, _)) => name,
        Err(ConfigError::MissingVariable(name)) => panic!("unexpected missing variable {}", name),
        Ok(()) => panic!("configuration accepted"),
    }
}

#[test]
fn test_environment_parsing() {
    assert_eq!("development".parse::<Environment>().unwrap(), Environment::Development);
    assert_eq!("dev".parse::<Environment>().unwrap(), Environment::Development);
    assert_eq!("production".parse::<Environment>().unwrap(), Environment::Production);
    assert_eq!("prod".parse::<Environment>().unwrap(), Environment::Production);
    assert_eq!("test".parse::<Environment>().unwrap(), Environment::Test);
    assert!("invalid".parse::<Environment>().is_err());
}

#[test]
fn environment_parsing_ignores_case_and_names_the_input() {
    assert_eq!("PrOd".parse::<Environment>().unwrap(), Environment::Production);
    assert_eq!(Environment::parse("Staging").err().unwrap(), "Invalid environment: Staging");
}

#[test]
fn environment_names() {
    assert_eq!(Environment::Development.to_string(), "development");
    assert_eq!(Environment::Production.to_string(), "production");
    assert_eq!(Environment::Test.to_string(), "test");
}

#[test]
fn test_server_address() {
    let config = sample_config();
    assert_eq!(config.server_address(), "0.0.0.0:8080");
}

#[test]
fn server_address_with_extreme_ports() {
    let mut config = sample_config();
    config.host = "127.0.0.1".to_string();
    config.port = 0;
    assert_eq!(config.server_address(), "127.0.0.1:0");
    config.port = 65535;
    assert_eq!(config.server_address(), "127.0.0.1:65535");
}

#[test]
fn valid_configuration_passes() {
    assert!(sample_config().validate().is_ok());
    let mut config = sample_config();
    config.database_url = "postgres://db/app".to_string();
    config.max_file_size_bytes = 1024 * 1024 * 1024;
    config.jwt_secret = "x".repeat(32);
    assert!(config.validate().is_ok());
}

#[test]
fn test_validation_short_jwt_secret() {
    let mut config = sample_config();
    config.jwt_secret = "short".to_string();
    assert!(config.validate().is_err());
    assert_eq!(invalid_variable(&config), "JWT_SECRET");
}

#[test]
fn test_validation_negative_expiration() {
    let mut config = sample_config();
    config.jwt_expiration_hours = -1;
    assert!(config.validate().is_err());
    assert_eq!(invalid_variable(&config), "JWT_EXPIRATION_HOURS");
}

#[test]
fn test_validation_large_file_size() {
    let mut config = sample_config();
    config.max_file_size_bytes = 2000 * 1024 * 1024;
    assert!(config.validate().is_err());
    assert_eq!(invalid_variable(&config), "MAX_FILE_SIZE_MB");
}

#[test]
fn test_validation_invalid_database_url() {
    let mut config = sample_config();
    config.database_url = "mysql://localhost/test".to_string();
    assert!(config.validate().is_err());
    assert_eq!(invalid_variable(&config), "DATABASE_URL");
}

#[test]
fn validation_reports_the_first_failure() {
    let mut config = sample_config();
    config.jwt_secret = "short".to_string();
    config.database_url = "mysql://localhost/test".to_string();
    match config.validate() {
        Err(ConfigError::InvalidValue(name, reason)) => {
            assert_eq!(name, "JWT_SECRET");
            assert_eq!(reason, "Secret must be at least 32 characters long for security");
        }
        _ => panic!("expected an invalid value"),
    }
}

#[test]
fn test_environment_methods() {
    assert!(Environment::Development.is_development());
    assert!(!Environment::Development.is_production());
    assert!(!Environment::Development.is_test());

    assert!(!Environment::Production.is_development());
    assert!(Environment::Production.is_production());
    assert!(!Environment::Production.is_test());

    assert!(!Environment::Test.is_development());
    assert!(!Environment::Test.is_production());
    assert!(Environment::Test.is_test());
}

fn vars(pairs: &[(&str, &str)]) -> Vec<(String, String)> {
    pairs.iter().map(|(k, v)| (k.to_string(), v.to_string())).collect()
}

fn full_vars() -> Vec<(String, String)> {
    vars(&[
        ("DATABASE_URL", "postgresql://localhost/test_db"),
        ("JWT_SECRET", "test_secret_key_with_at_least_32_chars_for_security"),
        ("HOST", "0.0.0.0"),
        ("PORT", "8080"),
        ("JWT_EXPIRATION_HOURS", "48"),
        ("MAX_FILE_SIZE_MB", "20"),
        ("CORS_ORIGIN", "https://example.com"),
        ("APP_ENV", "test"),
    ])
}

fn load_error(pairs: Vec<(String, String)>) -> (String, String) {
    match Config::from_vars(&pairs) {
        Err(ConfigError::InvalidValue(name, reason)) => (name, reason),
        Err(ConfigError::MissingVariable(name)) => (name, String::new()),
        Ok(_) => panic!("configuration accepted"),
    }
}

#[test]
fn test_config_from_env() {
    let config = Config::from_vars(&full_vars()).ok().expect("Should load config");

    assert_eq!(config.database_url, "postgresql://localhost/test_db");
    assert_eq!(config.host, "0.0.0.0");
    assert_eq!(config.port, 8080);
    assert_eq!(config.jwt_expiration_hours, 48);
    assert_eq!(config.max_file_size_bytes, 20 * 1024 * 1024);
    assert_eq!(config.cors_origin, "https://example.com");
    assert!(config.environment.is_test());
}

#[test]
fn config_defaults() {
    let config = Config::from_vars(&vars(&[("DATABASE_URL", "postgres://x"), ("JWT_SECRET", "s")]))
        .ok()
        .unwrap();
    assert_eq!(config.host, "127.0.0.1");
    assert_eq!(config.port, 3000);
    assert_eq!(config.jwt_expiration_hours, 24);
    assert_eq!(config.max_file_size_bytes, 10 * 1024 * 1024);
    assert_eq!(config.cors_origin, "*");
    assert!(config.environment.is_development());
    assert_eq!(config.server_address(), "127.0.0.1:3000");
}

#[test]
fn config_environment_fallback() {
    let mut pairs = vars(&[("DATABASE_URL", "postgres://x"), ("JWT_SECRET", "s"), ("ENVIRONMENT", "PROD")]);
    assert!(Config::from_vars(&pairs).ok().unwrap().environment.is_production());
    pairs.push(("APP_ENV".to_string(), "dev".to_string()));
    assert!(Config::from_vars(&pairs).ok().unwrap().environment.is_development());
}

#[test]
fn config_missing_variables() {
    assert_eq!(load_error(vars(&[("JWT_SECRET", "s")])), ("DATABASE_URL".to_string(), String::new()));
    assert_eq!(load_error(vars(&[("DATABASE_URL", "postgres://x")])), ("JWT_SECRET".to_string(), String::new()));
}

#[test]
fn config_invalid_values() {
    let mut pairs = full_vars();
    pairs[3].1 = "70000".to_string();
    assert_eq!(load_error(pairs), ("PORT".to_string(), "number too large to fit in target type".to_string()));

    let mut pairs = full_vars();
    pairs[3].1 = "80a".to_string();
    assert_eq!(load_error(pairs), ("PORT".to_string(), "invalid digit found in string".to_string()));

    let mut pairs = full_vars();
    pairs[4].1 = "".to_string();
    assert_eq!(
        load_error(pairs),
        ("JWT_EXPIRATION_HOURS".to_string(), "cannot parse integer from empty string".to_string())
    );

    let mut pairs = full_vars();
    pairs[5].1 = "-1".to_string();
    assert_eq!(load_error(pairs), ("MAX_FILE_SIZE_MB".to_string(), "invalid digit found in string".to_string()));

    let mut pairs = full_vars();
    pairs[5].1 = "17592186044416".to_string();
    assert_eq!(
        load_error(pairs),
        ("MAX_FILE_SIZE_MB".to_string(), "number too large to fit in target type".to_string())
    );

    let mut pairs = full_vars();
    pairs[7].1 = "staging".to_string();
    assert_eq!(load_error(pairs), ("APP_ENV".to_string(), "Invalid environment: staging".to_string()));
}

#[test]
fn negative_expiration_loads_and_fails_validation() {
    let mut pairs = full_vars();
    pairs[4].1 = "-1".to_string();
    let config = Config::from_vars(&pairs).ok().unwrap();
    assert_eq!(config.jwt_expiration_hours, -1);
    assert!(config.validate().is_err());
}
