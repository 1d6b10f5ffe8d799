use base64::engine::general_purpose::STANDARD;
use base64::Engine;
use image_relay::config::{Config, EnvVars};
use image_relay::error::AppError;

fn key_text() -> String {
    STANDARD.encode([0xabu8; 32])
}

fn minimal() -> EnvVars {
    EnvVars {
        telegram_bot_token: Some("123:abc".to_string()),
        telegram_chat_id: Some("-1001234".to_string()),
        encryption_key: Some(key_text()),
        max_file_size: None,
        rate_limit_per_minute: None,
        bind_address: None,
        admin_secret: None,
        upload_delay_secs: None,
    }
}

fn fault_of(vars: &EnvVars) -> String {
    match Config::from_env(vars) {
        Err(AppError::ConfigError(m)) => m,
        other => panic!("unexpected: {:?}", other),
    }
}

#[test]
fn defaults_apply_where_nothing_is_set() {
    let c = Config::from_env(&minimal()).unwrap();
    assert_eq!(c.telegram_bot_token, "123:abc");
    assert_eq!(c.telegram_chat_id, -1001234);
    assert_eq!(c.encryption_key, key_text());
    assert_eq!(c.max_file_size, 10485760);
    assert_eq!(c.rate_limit_per_minute, 60);
    assert_eq!(c.bind_address, "0.0.0.0:3000");
    assert_eq!(c.allowed_image_types, vec!["image/jpeg", "image/png", "image/gif", "image/webp"]);
    assert_eq!(c.admin_secret, "");
    assert_eq!(c.upload_delay_secs, 1);
}

#[test]
fn set_variables_are_taken() {
    let mut vars = minimal();
    vars.max_file_size = Some("2048".to_string());
    vars.rate_limit_per_minute = Some("5".to_string());
    vars.bind_address = Some("127.0.0.1:8080".to_string());
    vars.admin_secret = Some("s3cret".to_string());
    vars.upload_delay_secs = Some("3".to_string());
    let c = Config::from_env(&vars).unwrap();
    assert_eq!(c.max_file_size, 2048);
    assert_eq!(c.rate_limit_per_minute, 5);
    assert_eq!(c.bind_address, "127.0.0.1:8080");
    assert_eq!(c.admin_secret, "s3cret");
    assert_eq!(c.upload_delay_secs, 3);
}

#[test]
fn missing_and_malformed_variables_are_named() {
    let mut vars = minimal();
    vars.telegram_bot_token = None;
    assert_eq!(fault_of(&vars), "TELEGRAM_BOT_TOKEN environment variable is required");

    let mut vars = minimal();
    vars.telegram_chat_id = None;
    assert_eq!(fault_of(&vars), "TELEGRAM_CHAT_ID environment variable is required");

    let mut vars = minimal();
    vars.telegram_chat_id = Some("12x".to_string());
    assert_eq!(fault_of(&vars), "TELEGRAM_CHAT_ID must be a valid integer");

    let mut vars = minimal();
    vars.encryption_key = None;
    assert_eq!(fault_of(&vars), "ENCRYPTION_KEY environment variable is required");

    let mut vars = minimal();
    vars.max_file_size = Some("-1".to_string());
    assert_eq!(fault_of(&vars), "MAX_FILE_SIZE must be a valid integer");

    let mut vars = minimal();
    vars.rate_limit_per_minute = Some("4294967296".to_string());
    assert_eq!(fault_of(&vars), "RATE_LIMIT_PER_MINUTE must be a valid integer");

    let mut vars = minimal();
    vars.upload_delay_secs = Some("soon".to_string());
    assert_eq!(fault_of(&vars), "UPLOAD_DELAY_SECS must be a valid integer");
}

#[test]
fn key_must_be_base64_of_32_bytes() {
    let mut vars = minimal();
    vars.encryption_key = Some("***".to_string());
    assert_eq!(fault_of(&vars), "ENCRYPTION_KEY must be valid base64");

    let mut vars = minimal();
    vars.encryption_key = Some(STANDARD.encode([1u8; 31]));
    assert_eq!(fault_of(&vars), "ENCRYPTION_KEY must be 32 bytes (256 bits) when decoded");

    let mut vars = minimal();
    vars.encryption_key = Some(STANDARD.encode([1u8; 33]));
    assert_eq!(fault_of(&vars), "ENCRYPTION_KEY must be 32 bytes (256 bits) when decoded");
}

#[test]
fn first_fault_wins() {
    let mut vars = minimal();
    vars.telegram_chat_id = Some("x".to_string());
    vars.encryption_key = Some("***".to_string());
    assert_eq!(fault_of(&vars), "TELEGRAM_CHAT_ID must be a valid integer");
}

#[test]
fn key_bytes_are_the_decoded_key() {
    let c = Config::from_env(&minimal()).unwrap();
    assert_eq!(c.get_encryption_key_bytes().unwrap(), [0xabu8; 32]);

    let mut key = [0u8; 32];
    for (i, b) in key.iter_mut().enumerate() {
        *b = i as u8;
    }
    let mut vars = minimal();
    vars.encryption_key = Some(STANDARD.encode(key));
    let c = Config::from_env(&vars).unwrap();
    assert_eq!(c.get_encryption_key_bytes().unwrap(), key);
}

#[test]
fn key_bytes_of_a_bad_key_fail() {
    let mut c = Config::from_env(&minimal()).unwrap();
    c.encryption_key = "not base64".to_string();
    match c.get_encryption_key_bytes() {
        Err(AppError::ConfigError(m)) => assert_eq!(m, "Failed to decode encryption key"),
        other => panic!("unexpected: {:?}", other),
    }
    c.encryption_key = STANDARD.encode([0u8; 16]);
    match c.get_encryption_key_bytes() {
        Err(AppError::ConfigError(m)) => {
            assert_eq!(m, "ENCRYPTION_KEY must be 32 bytes (256 bits) when decoded")
        }
        other => panic!("unexpected: {:?}", other),
    }
}
